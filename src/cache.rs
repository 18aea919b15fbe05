//! Memoised exercise statuses, keyed by path and modification time.

use crate::exercise::{has_marker, marker_line, ExerciseStatus};
use crate::text::has_line;
use vstd::prelude::*;

verus! {

/// A file modification time: whole seconds and nanoseconds since the Unix epoch.
#[derive(Clone, Copy, Debug, PartialEq, Eq, Structural)]
pub struct Timestamp {
    pub secs: u64,
    pub nanos: u32,
}

/// What reading a file's modification time gave.
#[derive(Clone, Copy, Debug, PartialEq, Eq, Structural)]
pub enum Modified {
    /// The file's metadata could not be read: the file is missing or unreadable.
    Unreadable,
    /// The file exists, but the platform gave no modification time.
    Unknown,
    /// The file was last modified at this time.
    At(Timestamp),
}

/// What a status query concluded without the external toolchain.
#[derive(Clone, Copy, Debug, PartialEq, Eq, Structural)]
pub enum Lookup {
    /// The status is known.
    Known(ExerciseStatus),
    /// The exercise must be evaluated; record the outcome afterwards.
    Evaluate,
}

/// One remembered evaluation.
#[derive(Clone, Debug)]
pub struct CacheEntry {
    pub path: String,
    pub modified: Timestamp,
    pub status: ExerciseStatus,
}

/// Remembered statuses, at most one entry per path.
pub struct StatusCache {
    entries: Vec<CacheEntry>,
}

/// The cache as a map: path to (modification time, status).
pub type CacheModel = Map<Seq<char>, (Timestamp, ExerciseStatus)>;

/// The cache after storing `status` for `path` at `modified`, when a time is known.
pub open spec fn stored(cache: CacheModel, path: Seq<char>, modified: Modified, status: ExerciseStatus) -> CacheModel {
    match modified {
        Modified::At(t) => cache.insert(path, (t, status)),
        _ => cache,
    }
}

/// Whether the text, when it could be read, holds the marker line.
pub open spec fn marked(content: Option<Seq<u8>>) -> bool {
    match content {
        Some(c) => has_line(c, marker_line()),
        None => false,
    }
}

/// What a status query returns, given the cache, the file's modification time and text.
pub open spec fn lookup_result(
    cache: CacheModel,
    path: Seq<char>,
    modified: Modified,
    content: Option<Seq<u8>>,
) -> Lookup {
    if modified == Modified::Unreadable {
        Lookup::Known(ExerciseStatus::CompileError)
    } else if marked(content) {
        Lookup::Known(ExerciseStatus::NotDone)
    } else {
        match modified {
            Modified::At(t) => if cache.contains_key(path) && cache[path].0 == t {
                Lookup::Known(cache[path].1)
            } else {
                Lookup::Evaluate
            },
            _ => Lookup::Evaluate,
        }
    }
}

/// The cache after a status query: the marker stamps `NotDone` at the current time.
pub open spec fn cache_after_lookup(
    cache: CacheModel,
    path: Seq<char>,
    modified: Modified,
    content: Option<Seq<u8>>,
) -> CacheModel {
    if modified != Modified::Unreadable && marked(content) {
        stored(cache, path, modified, ExerciseStatus::NotDone)
    } else {
        cache
    }
}

/// The bytes of a text that may be missing.
pub open spec fn some_bytes(content: Option<&[u8]>) -> Option<Seq<u8>> {
    match content {
        Some(c) => Some(c@),
        None => None,
    }
}

impl StatusCache {
    /// No two entries share a path.
    pub closed spec fn wf(&self) -> bool {
        forall|i: int, j: int|
            0 <= i < self.entries@.len() && 0 <= j < self.entries@.len() && i != j
                ==> self.entries@[i].path@ != self.entries@[j].path@
    }

    pub closed spec fn view(&self) -> CacheModel {
        Map::new(
            |p: Seq<char>| exists|i: int| 0 <= i < self.entries@.len() && self.entries@[i].path@ == p,
            |p: Seq<char>|
                {
                    let i = choose|i: int| 0 <= i < self.entries@.len() && self.entries@[i].path@ == p;
                    (self.entries@[i].modified, self.entries@[i].status)
                },
        )
    }

    /// An empty cache.
    pub fn new() -> (r: StatusCache)
        ensures
            r.wf(),
            r@ == Map::<Seq<char>, (Timestamp, ExerciseStatus)>::empty(),
    {
        let r = StatusCache { entries: Vec::new() };
        assert(r@ =~= Map::<Seq<char>, (Timestamp, ExerciseStatus)>::empty());
        r
    }

    fn find(&self, path: &String) -> (r: Option<usize>)
        requires
            self.wf(),
        ensures
            match r {
                Some(i) => i < self.entries@.len() && self.entries@[i as int].path@ == path@,
                None => !self@.contains_key(path@),
            },
    {
        let mut i: usize = 0;
        while i < self.entries.len()
            invariant
                i <= self.entries@.len(),
                forall|k: int| 0 <= k < i ==> self.entries@[k].path@ != path@,
            decreases self.entries@.len() - i,
        {
            if self.entries[i].path == *path {
                return Some(i);
            }
            i += 1;
        }
        None
    }

    proof fn lemma_entry(&self, i: int)
        requires
            self.wf(),
            0 <= i < self.entries@.len(),
        ensures
            self@.contains_key(self.entries@[i].path@),
            self@[self.entries@[i].path@] == (self.entries@[i].modified, self.entries@[i].status),
    {
        let p = self.entries@[i].path@;
        assert(self@.contains_key(p));
        let j = choose|j: int| 0 <= j < self.entries@.len() && self.entries@[j].path@ == p;
        assert(j == i);
    }

    /// The remembered modification time and status of `path`, if any.
    pub fn cached(&self, path: &String) -> (r: Option<(Timestamp, ExerciseStatus)>)
        requires
            self.wf(),
        ensures
            r == (if self@.contains_key(path@) {
                Some(self@[path@])
            } else {
                None
            }),
    {
        match self.find(path) {
            Some(i) => {
                proof {
                    self.lemma_entry(i as int);
                }
                Some((self.entries[i].modified, self.entries[i].status))
            },
            None => None,
        }
    }

    /// Remember `status` for `path` at `modified`, replacing what was there.
    pub fn store(&mut self, path: &String, modified: Timestamp, status: ExerciseStatus)
        requires
            old(self).wf(),
        ensures
            final(self).wf(),
            final(self)@ == old(self)@.insert(path@, (modified, status)),
    {
        let ghost before = self@;
        match self.find(path) {
            Some(i) => {
                self.entries.set(i, CacheEntry { path: path.clone(), modified, status });
                proof {
                    assert forall|p: Seq<char>| #[trigger] self@.contains_key(p) == before.insert(path@, (modified, status)).contains_key(p) by {
                        if p == path@ {
                            assert(self.entries@[i as int].path@ == p);
                            assert(self@.contains_key(p));
                        }
                        if before.contains_key(p) && p != path@ {
                            let j = choose|j: int| 0 <= j < old(self).entries@.len() && old(self).entries@[j].path@ == p;
                            assert(j != i);
                            assert(self.entries@[j].path@ == p);
                            assert(self@.contains_key(p));
                        }
                        if self@.contains_key(p) && p != path@ {
                            let j = choose|j: int| 0 <= j < self.entries@.len() && self.entries@[j].path@ == p;
                            assert(j != i);
                            assert(old(self).entries@[j].path@ == p);
                            assert(before.contains_key(p));
                        }
                    }
                    assert forall|p: Seq<char>| #[trigger] self@.contains_key(p) implies self@[p] == before.insert(path@, (modified, status))[p] by {
                        let j = choose|j: int| 0 <= j < self.entries@.len() && self.entries@[j].path@ == p;
                        self.lemma_entry(j);
                        if p != path@ {
                            old(self).lemma_entry(j);
                        }
                    }
                    assert(self@ =~= before.insert(path@, (modified, status)));
                }
            },
            None => {
                self.entries.push(CacheEntry { path: path.clone(), modified, status });
                proof {
                    let n = self.entries@.len() - 1;
                    assert forall|p: Seq<char>| #[trigger] self@.contains_key(p) == before.insert(path@, (modified, status)).contains_key(p) by {
                        if before.contains_key(p) {
                            let j = choose|j: int| 0 <= j < old(self).entries@.len() && old(self).entries@[j].path@ == p;
                            assert(self.entries@[j] == old(self).entries@[j]);
                            assert(self.entries@[j].path@ == p);
                            assert(self@.contains_key(p));
                        }
                        if p == path@ {
                            assert(self.entries@[n].path@ == p);
                            assert(self@.contains_key(p));
                        }
                        if self@.contains_key(p) && p != path@ {
                            let j = choose|j: int| 0 <= j < self.entries@.len() && self.entries@[j].path@ == p;
                            assert(j != n);
                            assert(self.entries@[j] == old(self).entries@[j]);
                            assert(old(self).entries@[j].path@ == p);
                            assert(before.contains_key(p));
                        }
                    }
                    assert forall|p: Seq<char>| #[trigger] self@.contains_key(p) implies self@[p] == before.insert(path@, (modified, status))[p] by {
                        let j = choose|j: int| 0 <= j < self.entries@.len() && self.entries@[j].path@ == p;
                        self.lemma_entry(j);
                        if p != path@ {
                            old(self).lemma_entry(j);
                        }
                    }
                    assert(self@ =~= before.insert(path@, (modified, status)));
                }
            },
        }
    }
    /// A status query for the exercise at `path`, before any external work.
    /// `modified` is what reading the file's modification time gave, `content` the
    /// file's text (`None` when it could not be read). A missing file is a compile
    /// error; the marker line wins over any remembered status, and is remembered at
    /// the current time; otherwise a status remembered at exactly this time is
    /// reused. `Evaluate` asks the caller to evaluate and then call `record`.
    pub fn get_status(&mut self, path: &String, modified: Modified, content: Option<&[u8]>) -> (r: Lookup)
        requires
            old(self).wf(),
        ensures
            final(self).wf(),
            r == lookup_result(old(self)@, path@, modified, some_bytes(content)),
            final(self)@ == cache_after_lookup(old(self)@, path@, modified, some_bytes(content)),
    {
        if modified == Modified::Unreadable {
            return Lookup::Known(ExerciseStatus::CompileError);
        }
        let is_marked = match content {
            Some(c) => has_marker(c),
            None => false,
        };
        if is_marked {
            if let Modified::At(t) = modified {
                self.store(path, t, ExerciseStatus::NotDone);
            }
            return Lookup::Known(ExerciseStatus::NotDone);
        }
        if let Modified::At(t) = modified {
            if let Some((seen, status)) = self.cached(path) {
                if seen == t {
                    return Lookup::Known(status);
                }
            }
        }
        Lookup::Evaluate
    }

    /// Remember the outcome of an evaluation that `get_status` asked for; nothing is
    /// remembered when the modification time is not known.
    pub fn record(&mut self, path: &String, modified: Modified, status: ExerciseStatus)
        requires
            old(self).wf(),
        ensures
            final(self).wf(),
            final(self)@ == stored(old(self)@, path@, modified, status),
    {
        if let Modified::At(t) = modified {
            self.store(path, t, status);
        }
    }
}

/// The cache after a full status query: the lookup, then, when it asked for one,
/// the record of an evaluation that gave `evaluated`.
pub open spec fn cache_after_query(
    cache: CacheModel,
    path: Seq<char>,
    modified: Modified,
    content: Option<Seq<u8>>,
    evaluated: ExerciseStatus,
) -> CacheModel {
    match lookup_result(cache, path, modified, content) {
        Lookup::Evaluate => stored(cache_after_lookup(cache, path, modified, content), path, modified, evaluated),
        Lookup::Known(_) => cache_after_lookup(cache, path, modified, content),
    }
}

/// The status a full status query reports.
pub open spec fn query_status(
    cache: CacheModel,
    path: Seq<char>,
    modified: Modified,
    content: Option<Seq<u8>>,
    evaluated: ExerciseStatus,
) -> ExerciseStatus {
    match lookup_result(cache, path, modified, content) {
        Lookup::Evaluate => evaluated,
        Lookup::Known(s) => s,
    }
}

/// A file that holds the marker line is `NotDone`, whatever the cache remembers,
/// as long as the file can be found.
pub proof fn lemma_marker_wins(cache: CacheModel, path: Seq<char>, modified: Modified, content: Seq<u8>)
    requires
        modified != Modified::Unreadable,
        has_line(content, marker_line()),
    ensures
        lookup_result(cache, path, modified, Some(content)) == Lookup::Known(ExerciseStatus::NotDone),
{
}

/// Asking twice about an unchanged file evaluates at most once: the second query,
/// at the same modification time and with the same text, needs no evaluation and
/// reports what the first one did.
pub proof fn lemma_query_idempotent(
    cache: CacheModel,
    path: Seq<char>,
    t: Timestamp,
    content: Option<Seq<u8>>,
    evaluated: ExerciseStatus,
)
    ensures
        ({
            let after = cache_after_query(cache, path, Modified::At(t), content, evaluated);
            lookup_result(after, path, Modified::At(t), content) == Lookup::Known(
                query_status(cache, path, Modified::At(t), content, evaluated),
            )
        }),
{
}

/// A remembered status at one modification time is never reused at another: with
/// no marker line, a query at a different time asks for an evaluation.
pub proof fn lemma_new_time_evaluates(
    cache: CacheModel,
    path: Seq<char>,
    earlier: Timestamp,
    later: Timestamp,
    content: Option<Seq<u8>>,
    status: ExerciseStatus,
)
    requires
        earlier != later,
        !marked(content),
    ensures
        lookup_result(cache.insert(path, (earlier, status)), path, Modified::At(later), content)
            == Lookup::Evaluate,
{
}

} // verus!
