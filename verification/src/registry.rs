//! The supervisor's registry of in-flight processes, keyed by app id.
//!
//! The registry holds at most one record per app id; registration is a
//! single test-and-set, and removal removes the one record exactly
//! once.

use vstd::prelude::*;
use crate::text::str_eq;

verus! {

/// Information about one running process.
#[derive(Clone, Debug)]
pub struct ProcessInfo {
    /// OS process id.
    pub pid: u32,
    /// Start timestamp.
    pub started_at: String,
    /// The process-group id assigned to the child on POSIX hosts;
    /// absent on Windows.
    pub pgid: Option<i32>,
}

/// The registry of running processes, keyed by app id.
pub struct ProcessManager {
    records: Vec<(String, ProcessInfo)>,
}

impl ProcessManager {
    /// The recorded entries, in registration order.
    pub closed spec fn entries(self) -> Seq<(String, ProcessInfo)> {
        self.records@
    }

    /// The app ids of the recorded entries, in order.
    pub open spec fn ids(self) -> Seq<Seq<char>> {
        self.entries().map_values(|r: (String, ProcessInfo)| r.0@)
    }

    /// Well-formedness: no app id occurs twice.
    pub open spec fn wf(self) -> bool {
        forall|i: int, j: int|
            0 <= i < j < self.ids().len() ==> #[trigger] self.ids()[i] != #[trigger] self.ids()[j]
    }

    /// A record for this app id is present.
    pub open spec fn contains_id(self, id: Seq<char>) -> bool {
        self.ids().contains(id)
    }

    /// The position of the record for `id`, when one is present.
    pub open spec fn idx_of(self, id: Seq<char>) -> int {
        self.ids().index_of(id)
    }

    /// The recorded information for `id`, when a record is present.
    pub open spec fn info_of(self, id: Seq<char>) -> ProcessInfo {
        self.entries()[self.idx_of(id)].1
    }

    /// A fresh, empty registry.
    pub fn new() -> (r: Self)
        ensures
            r.wf(),
            r.entries().len() == 0,
    {
        ProcessManager { records: Vec::new() }
    }

    /// How many processes are registered.
    pub fn count(&self) -> (r: usize)
        ensures
            r == self.entries().len(),
    {
        self.records.len()
    }

    fn find(&self, id: &str) -> (r: Option<usize>)
        ensures
            r matches Some(i) ==> i < self.entries().len() && self.ids()[i as int] == id@,
            r is None ==> !self.contains_id(id@),
    {
        let mut i: usize = 0;
        while i < self.records.len()
            invariant
                i <= self.entries().len(),
                forall|j: int| 0 <= j < i ==> self.ids()[j] != id@,
            decreases self.entries().len() - i,
        {
            if str_eq(self.records[i].0.as_str(), id) {
                proof {
                    assert(self.ids()[i as int] == id@);
                }
                return Some(i);
            }
            i = i + 1;
        }
        proof {
            if self.contains_id(id@) {
                let w = choose|w: int| 0 <= w < self.ids().len() && self.ids()[w] == id@;
                assert(self.ids()[w] != id@);
            }
        }
        None
    }

    /// Whether a record for this app id is present.
    pub fn contains(&self, id: &str) -> (r: bool)
        ensures
            r == self.contains_id(id@),
    {
        match self.find(id) {
            Some(i) => {
                proof {
                    assert(self.ids().contains(self.ids()[i as int]));
                }
                true
            },
            None => false,
        }
    }

    /// Register a process for `id` unless one is already registered:
    /// the existence check and the insertion are one atomic step, so at
    /// most one record per app id can ever exist.
    pub fn try_register(&mut self, id: String, info: ProcessInfo) -> (ok: bool)
        requires
            old(self).wf(),
        ensures
            final(self).wf(),
            ok == !old(self).contains_id(id@),
            ok ==> final(self).entries() == old(self).entries().push((id, info)),
            !ok ==> final(self).entries() == old(self).entries(),
            final(self).contains_id(id@),
    {
        let ghost idv = id@;
        match self.find(id.as_str()) {
            Some(i) => {
                proof {
                    assert(self.ids().contains(self.ids()[i as int]));
                }
                false
            },
            None => {
                let ghost pre = self.records@;
                self.records.push((id, info));
                proof {
                    let post = self.records@;
                    assert(post == pre.push((post[pre.len() as int].0, info)));
                    assert(self.ids() =~= old(self).ids().push(idv));
                    assert(self.ids()[pre.len() as int] == idv);
                    assert(self.ids().contains(idv));
                    assert forall|i: int, j: int| 0 <= i < j < self.ids().len() implies self.ids()[i]
                        != self.ids()[j] by {
                        if j < pre.len() {
                            assert(old(self).ids()[i] != old(self).ids()[j]);
                        } else {
                            assert(self.ids()[j] == idv);
                            assert(self.ids()[i] == old(self).ids()[i]);
                            assert(old(self).ids().contains(old(self).ids()[i]));
                        }
                    }
                }
                true
            },
        }
    }

    /// A borrowed view of the record for `id`, when one is present.
    pub fn get(&self, id: &str) -> (r: Option<&ProcessInfo>)
        requires
            self.wf(),
        ensures
            r is Some <==> self.contains_id(id@),
            r matches Some(p) ==> *p == self.info_of(id@),
    {
        match self.find(id) {
            Some(i) => {
                proof {
                    assert(self.ids().contains(self.ids()[i as int]));
                    lemma_index_unique(*self, id@, i as int);
                }
                Some(&self.records[i].1)
            },
            None => None,
        }
    }

    /// Remove and return the record for `id`; a second call for the
    /// same id finds nothing and reports so.
    pub fn take(&mut self, id: &str) -> (r: Option<ProcessInfo>)
        requires
            old(self).wf(),
        ensures
            final(self).wf(),
            r is Some <==> old(self).contains_id(id@),
            r is None ==> final(self).entries() == old(self).entries(),
            r matches Some(info) ==> {
                &&& info == old(self).info_of(id@)
                &&& final(self).entries() == old(self).entries().remove(old(self).idx_of(id@))
                &&& !final(self).contains_id(id@)
            },
            forall|other: Seq<char>|
                other != id@ ==> #[trigger] final(self).contains_id(other) == old(
                    self,
                ).contains_id(other),
    {
        let ghost idv = id@;
        match self.find(id) {
            Some(i) => {
                proof {
                    assert(self.ids().contains(self.ids()[i as int]));
                    lemma_index_unique(*self, idv, i as int);
                }
                let pair: (String, ProcessInfo) = self.records.remove(i);
                proof {
                    let pre = old(self).ids();
                    assert(self.ids() =~= pre.remove(i as int));
                    assert forall|a: int, b: int| 0 <= a < b < self.ids().len() implies self.ids()[a]
                        != self.ids()[b] by {
                        let a0 = if a < i { a } else { a + 1 };
                        let b0 = if b < i { b } else { b + 1 };
                        assert(self.ids()[a] == pre[a0]);
                        assert(self.ids()[b] == pre[b0]);
                    }
                    assert forall|j: int| 0 <= j < self.ids().len() implies self.ids()[j] != idv by {
                        let j0 = if j < i { j } else { j + 1 };
                        assert(self.ids()[j] == pre[j0]);
                        if pre[j0] == idv {
                            lemma_index_unique(*old(self), idv, j0);
                        }
                    }
                    assert forall|other: Seq<char>| other != idv implies #[trigger] self.contains_id(
                        other,
                    ) == old(self).contains_id(other) by {
                        let pre_ids = old(self).ids();
                        if old(self).contains_id(other) {
                            let w = choose|w: int|
                                0 <= w < pre_ids.len() && pre_ids[w] == other;
                            if w < i {
                                assert(self.ids()[w] == other);
                            } else {
                                assert(w != i);
                                assert(self.ids()[w - 1] == other);
                            }
                            assert(self.contains_id(other));
                        }
                        if self.contains_id(other) {
                            let w = choose|w: int|
                                0 <= w < self.ids().len() && self.ids()[w] == other;
                            let w0 = if w < i { w } else { w + 1 };
                            assert(pre_ids[w0] == other);
                            assert(old(self).contains_id(other));
                        }
                    }
                }
                Some(pair.1)
            },
            None => None,
        }
    }

    /// A copy of the whole registry, for read-only snapshots.
    pub fn snapshot(&self) -> (r: Vec<(String, ProcessInfo)>)
        ensures
            r@ == self.entries(),
    {
        let mut out: Vec<(String, ProcessInfo)> = Vec::new();
        let mut i: usize = 0;
        while i < self.records.len()
            invariant
                i <= self.entries().len(),
                out@ == self.entries().take(i as int),
            decreases self.entries().len() - i,
        {
            let id: String = self.records[i].0.clone();
            let info: ProcessInfo = ProcessInfo {
                pid: self.records[i].1.pid,
                started_at: self.records[i].1.started_at.clone(),
                pgid: self.records[i].1.pgid,
            };
            out.push((id, info));
            proof {
                assert(out@ =~= self.entries().take(i + 1));
            }
            i = i + 1;
        }
        proof {
            assert(self.entries().take(self.entries().len() as int) =~= self.entries());
        }
        out
    }

    /// Drain the whole registry atomically: every record leaves, and
    /// the registry is empty afterwards.
    pub fn drain_all(&mut self) -> (r: Vec<(String, ProcessInfo)>)
        requires
            old(self).wf(),
        ensures
            final(self).wf(),
            final(self).entries().len() == 0,
            r@ == old(self).entries(),
    {
        let mut out: Vec<(String, ProcessInfo)> = Vec::new();
        proof {
            assert(out@ + self.records@ =~= old(self).entries());
        }
        while self.records.len() > 0
            invariant
                out@ + self.records@ == old(self).entries(),
            decreases self.records@.len(),
        {
            let ghost pre_out = out@;
            let ghost pre_rec = self.records@;
            let pair: (String, ProcessInfo) = self.records.remove(0);
            out.push(pair);
            proof {
                assert(out@ + self.records@ =~= pre_out + pre_rec);
            }
        }
        proof {
            assert(out@ =~= out@ + self.records@);
        }
        out
    }
}

impl Default for ProcessManager {
    fn default() -> (r: Self)
        ensures
            r.wf(),
            r.entries().len() == 0,
    {
        ProcessManager::new()
    }
}

/// With a well-formed registry an app id determines its record: any
/// position holding the id is the one position `idx_of` names.  Hence
/// at most one record exists per app id at any instant.
pub proof fn lemma_index_unique(pm: ProcessManager, id: Seq<char>, i: int)
    requires
        pm.wf(),
        0 <= i < pm.ids().len(),
        pm.ids()[i] == id,
    ensures
        pm.idx_of(id) == i,
        pm.contains_id(id),
{
    assert(pm.ids().contains(id));
    let f = pm.ids().index_of(id);
    assert(0 <= f < pm.ids().len() && pm.ids()[f] == id);
    if f != i {
        assert(pm.ids()[f] != pm.ids()[i]);
    }
}

/// Removing the one record for an app id leaves no record for it:
/// a repeated removal finds nothing, and a subsequent registration for
/// the id is accepted again.
pub proof fn lemma_removal_is_complete(pm: ProcessManager, id: Seq<char>)
    requires
        pm.wf(),
        pm.contains_id(id),
    ensures
        !pm.entries().remove(pm.idx_of(id)).map_values(|r: (String, ProcessInfo)| r.0@).contains(
            id,
        ),
{
    let i = pm.idx_of(id);
    assert(0 <= i < pm.ids().len() && pm.ids()[i] == id);
    let post = pm.entries().remove(i).map_values(|r: (String, ProcessInfo)| r.0@);
    assert(post =~= pm.ids().remove(i));
    assert forall|j: int| 0 <= j < post.len() implies post[j] != id by {
        let j0 = if j < i { j } else { j + 1 };
        assert(post[j] == pm.ids()[j0]);
        if pm.ids()[j0] == id {
            lemma_index_unique(pm, id, j0);
        }
    }
    if post.contains(id) {
        let w = choose|w: int| 0 <= w < post.len() && post[w] == id;
        assert(post[w] != id);
    }
}

} // verus!
