//! Contracts assumed about functions of the standard library and of
//! outside crates that vstd gives no specification.
//!
//! Everything in this module is trusted: Verus believes each contract
//! without reading the body of the function it describes.

use vstd::prelude::*;

verus! {

/// Relies on `String::push`: appends the given character to the end of
/// the string, as its documentation states.
pub assume_specification[ String::push ](s: &mut String, c: char)
    ensures
        final(s)@ == old(s)@.push(c),
;

/// Relies on chrono's `Utc::now` and `DateTime::to_rfc3339`: the
/// current wall-clock time, formatted.  Nothing is promised of the
/// value: it depends on the clock.
#[verifier::external_body]
pub(crate) fn now_rfc3339() -> (r: String) {
    chrono::Utc::now().to_rfc3339()
}

/// Relies on `std::path::Path::exists`: whether something exists at
/// this path.  Nothing more is promised: the result depends on the
/// machine's filesystem.
#[verifier::external_body]
pub(crate) fn path_exists(p: &str) -> bool {
    std::path::Path::new(p).exists()
}

/// Relies on `std::path::Path::is_dir`: whether the path names a
/// directory.  Nothing more is promised: the result depends on the
/// machine's filesystem.
#[verifier::external_body]
pub(crate) fn path_is_dir(p: &str) -> bool {
    std::path::Path::new(p).is_dir()
}

/// Relies on urlencoding's `decode`: percent-decoding of the string's
/// UTF-8 bytes.  `%` followed by two hex digits becomes the byte they
/// spell; a malformed escape is kept as literal text; the call fails
/// exactly when the decoded bytes are not valid UTF-8.
#[verifier::external_body]
pub(crate) fn percent_decode_str(s: &str) -> (r: Option<String>)
    ensures
        r matches Some(d) ==> vstd::utf8::encode_utf8(d@) == crate::browser::percent_decode(
            vstd::utf8::encode_utf8(s@),
        ) && vstd::utf8::valid_utf8(crate::browser::percent_decode(vstd::utf8::encode_utf8(s@))),
        r is None ==> !vstd::utf8::valid_utf8(
            crate::browser::percent_decode(vstd::utf8::encode_utf8(s@)),
        ),
{
    match urlencoding::decode(s) {
        Ok(c) => Some(c.into_owned()),
        Err(_) => None,
    }
}

/// Relies on which's `which`: a lookup of an executable on the `PATH`.
/// Nothing is promised of the result: it depends on the machine's
/// environment and filesystem.
#[verifier::external_body]
pub(crate) fn find_on_path(name: &str) -> Option<String> {
    match which::which(name) {
        Ok(p) => Some(p.to_string_lossy().into_owned()),
        Err(_) => None,
    }
}

} // verus!
