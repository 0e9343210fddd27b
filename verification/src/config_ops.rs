//! Pure operations on the global configuration: adding, updating and
//! removing an app's configuration.  Loading and saving the file is the
//! surrounding runtime's concern; these functions own the rules.

use crate::models::{AppConfig, AppError, GlobalConfig};
use crate::text::str_eq;
use vstd::prelude::*;
use vstd::seq_lib::*;
use vstd::string::StrSliceExecFns;
use vstd::string::StringExecFns;

verus! {

/// The app ids of a configuration list, in order.
pub open spec fn app_ids(apps: Seq<AppConfig>) -> Seq<Seq<char>> {
    apps.map_values(|a: AppConfig| a.id@)
}

fn find_app(apps: &Vec<AppConfig>, id: &str) -> (r: Option<usize>)
    ensures
        r matches Some(i) ==> i < apps@.len() && app_ids(apps@)[i as int] == id@ && (forall|j: int|
            0 <= j < i ==> app_ids(apps@)[j] != id@),
        r is None ==> !app_ids(apps@).contains(id@),
{
    let mut i: usize = 0;
    while i < apps.len()
        invariant
            i <= apps@.len(),
            forall|j: int| 0 <= j < i ==> app_ids(apps@)[j] != id@,
        decreases apps@.len() - i,
    {
        if str_eq(apps[i].id.as_str(), id) {
            proof {
                assert(app_ids(apps@)[i as int] == id@);
            }
            return Some(i);
        }
        i = i + 1;
    }
    proof {
        if app_ids(apps@).contains(id@) {
            let w = choose|w: int| 0 <= w < app_ids(apps@).len() && app_ids(apps@)[w] == id@;
            assert(app_ids(apps@)[w] != id@);
        }
    }
    None
}

fn not_found_error(id: &str) -> (r: AppError)
    ensures
        r.code@ == "APP_NOT_FOUND_ERROR"@,
        r.message@ == "App with ID '"@ + id@ + "' not found"@,
{
    let mut m: String = String::from_str("App with ID '");
    m.append(id);
    m.append("' not found");
    proof {
        assert(m@ =~= "App with ID '"@ + id@ + "' not found"@);
    }
    AppError::new("APP_NOT_FOUND_ERROR", m.as_str())
}

/// Add a new app configuration; an id already present is rejected and
/// nothing changes.
pub fn add_app_to_config(config: GlobalConfig, app: AppConfig) -> (r: Result<
    GlobalConfig,
    AppError,
>)
    ensures
        app_ids(config.apps@).contains(app.id@) ==> (r matches Err(e) && e.code@
            == "APP_EXISTS_ERROR"@ && e.message@ == "App with ID '"@ + app.id@
            + "' already exists"@),
        !app_ids(config.apps@).contains(app.id@) ==> (r matches Ok(c2) && c2.apps@
            == config.apps@.push(app) && c2.version == config.version && c2.settings
            == config.settings && c2.last_modified == config.last_modified),
{
    let mut config = config;
    match find_app(&config.apps, app.id.as_str()) {
        Some(i) => {
            proof {
                assert(app_ids(config.apps@).contains(app_ids(config.apps@)[i as int]));
            }
            let mut m: String = String::from_str("App with ID '");
            m.append(app.id.as_str());
            m.append("' already exists");
            proof {
                assert(m@ =~= "App with ID '"@ + app.id@ + "' already exists"@);
            }
            Err(AppError::new("APP_EXISTS_ERROR", m.as_str()))
        },
        None => {
            config.apps.push(app);
            Ok(config)
        },
    }
}

/// Replace the configuration of the app with the same id; an unknown
/// id is rejected and nothing changes.
pub fn update_app_in_config(config: GlobalConfig, app: AppConfig) -> (r: Result<
    GlobalConfig,
    AppError,
>)
    ensures
        !app_ids(config.apps@).contains(app.id@) ==> (r matches Err(e) && e.code@
            == "APP_NOT_FOUND_ERROR"@ && e.message@ == "App with ID '"@ + app.id@ + "' not found"@),
        app_ids(config.apps@).contains(app.id@) ==> (r matches Ok(c2) && (app_ids(
            config.apps@,
        ).index_of_first(app.id@) matches Some(i) && c2.apps@ == config.apps@.update(i, app))
            && c2.version == config.version && c2.settings == config.settings && c2.last_modified
            == config.last_modified),
{
    let mut config = config;
    match find_app(&config.apps, app.id.as_str()) {
        Some(i) => {
            proof {
                let ids = app_ids(config.apps@);
                assert(ids.contains(ids[i as int]));
                ids.index_of_first_ensures(app.id@);
                let f = ids.index_of_first(app.id@)->0;
                if f < i {
                    assert(ids[f] != app.id@);
                }
                if f > i {
                    assert(ids[i as int] != app.id@);
                }
            }
            let ghost pre = config.apps@;
            let _old: AppConfig = config.apps.remove(i);
            config.apps.insert(i, app);
            proof {
                assert(config.apps@ =~= pre.update(i as int, app));
            }
            Ok(config)
        },
        None => Err(not_found_error(app.id.as_str())),
    }
}

/// Remove the app with this id; an unknown id is rejected and nothing
/// changes.
pub fn remove_app_from_config(config: GlobalConfig, app_id: &str) -> (r: Result<
    GlobalConfig,
    AppError,
>)
    ensures
        !app_ids(config.apps@).contains(app_id@) ==> (r matches Err(e) && e.code@
            == "APP_NOT_FOUND_ERROR"@ && e.message@ == "App with ID '"@ + app_id@ + "' not found"@),
        app_ids(config.apps@).contains(app_id@) ==> (r matches Ok(c2) && c2.apps@
            == config.apps@.filter(|a: AppConfig| a.id@ != app_id@) && c2.version == config.version
            && c2.settings == config.settings && c2.last_modified == config.last_modified),
{
    proof {
        reveal(Seq::filter);
    }
    let found: bool = match find_app(&config.apps, app_id) {
        Some(i) => {
            proof {
                assert(app_ids(config.apps@).contains(app_ids(config.apps@)[i as int]));
            }
            true
        },
        None => false,
    };
    if !found {
        return Err(not_found_error(app_id));
    }
    let mut config = config;
    let n: usize = config.apps.len();
    let ghost pre = config.apps@;
    let ghost v0 = config.version;
    let ghost s0 = config.settings;
    let ghost l0 = config.last_modified;
    let ghost keep = |a: AppConfig| a.id@ != app_id@;
    let mut kept: Vec<AppConfig> = Vec::new();
    proof {
        assert(pre.len() == n);
        assert(pre.take(0) =~= Seq::<AppConfig>::empty());
        assert(kept@ =~= pre.take(0).filter(keep));
        assert(config.apps@ =~= pre.skip(0));
    }
    let mut i: usize = 0;
    while config.apps.len() > 0
        invariant
            pre.len() <= usize::MAX,
            i <= pre.len(),
            config.version == v0,
            config.settings == s0,
            config.last_modified == l0,
            config.apps@ == pre.skip(i as int),
            keep == (|a: AppConfig| a.id@ != app_id@),
            kept@ == pre.take(i as int).filter(keep),
        decreases pre.len() - i,
    {
        proof {
            reveal(Seq::filter);
            assert(pre.skip(i as int).len() == pre.len() - i);
            assert(i < pre.len());
            assert(pre.take(i + 1).drop_last() =~= pre.take(i as int));
            assert(pre.take(i + 1).last() == pre[i as int]);
            assert(pre.skip(i as int)[0] == pre[i as int]);
        }
        let ghost pre_rest = config.apps@;
        let a: AppConfig = config.apps.remove(0);
        proof {
            assert(config.apps@ =~= pre.skip(i + 1));
            assert(a == pre[i as int]);
        }
        if !str_eq(a.id.as_str(), app_id) {
            kept.push(a);
        }
        i = i + 1;
    }
    proof {
        assert(pre.skip(i as int).len() == pre.len() - i);
        assert(i == pre.len());
        assert(pre.take(pre.len() as int) =~= pre);
    }
    config.apps = kept;
    Ok(config)
}

} // verus!
