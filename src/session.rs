//! Session control: the current exercise, skipping ahead, progress, and the
//! watch display's completion notices.

use crate::exercise::{Exercise, ExerciseStatus};
use crate::paths::{chapter_of, is_prefix, starts_with};
use vstd::prelude::*;

verus! {

/// Every status before index `i` is `Done`.
pub open spec fn all_done_before(statuses: Seq<ExerciseStatus>, i: int) -> bool {
    forall|j: int| 0 <= j < i ==> statuses[j] == ExerciseStatus::Done
}

/// `i` is the first index whose status is not `Done`.
pub open spec fn is_first_pending(statuses: Seq<ExerciseStatus>, i: int) -> bool {
    0 <= i < statuses.len() && statuses[i] != ExerciseStatus::Done && all_done_before(statuses, i)
}

/// How many statuses are `Done`.
pub open spec fn done_count(statuses: Seq<ExerciseStatus>) -> nat
    decreases statuses.len(),
{
    if statuses.len() == 0 {
        0
    } else {
        done_count(statuses.drop_last()) + if statuses.last() == ExerciseStatus::Done {
            1nat
        } else {
            0nat
        }
    }
}

/// The current exercise: the first, in registry order, that is not `Done`;
/// `None` when all are.
pub fn current_index(statuses: &[ExerciseStatus]) -> (r: Option<usize>)
    ensures
        match r {
            Some(i) => is_first_pending(statuses@, i as int),
            None => all_done_before(statuses@, statuses@.len() as int),
        },
{
    let mut i: usize = 0;
    while i < statuses.len()
        invariant
            i <= statuses@.len(),
            all_done_before(statuses@, i as int),
        decreases statuses@.len() - i,
    {
        if statuses[i] != ExerciseStatus::Done {
            return Some(i);
        }
        i += 1;
    }
    None
}

/// The exercise to skip to: the one after the current exercise, if there is one.
pub fn next_index(statuses: &[ExerciseStatus]) -> (r: Option<usize>)
    ensures
        match r {
            Some(k) => 1 <= k < statuses@.len() && is_first_pending(statuses@, k - 1),
            None => all_done_before(statuses@, statuses@.len() as int) || is_first_pending(
                statuses@,
                statuses@.len() - 1,
            ),
        },
{
    match current_index(statuses) {
        Some(i) => if i < statuses.len() - 1 {
            Some(i + 1)
        } else {
            None
        },
        None => None,
    }
}

/// The index of the first exercise named `name`, if any.
pub fn find_by_name(exercises: &[Exercise], name: &String) -> (r: Option<usize>)
    ensures
        match r {
            Some(i) => i < exercises@.len() && exercises@[i as int].name@ == name@ && forall|j: int|
                0 <= j < i ==> exercises@[j].name@ != name@,
            None => forall|j: int| 0 <= j < exercises@.len() ==> exercises@[j].name@ != name@,
        },
{
    let mut i: usize = 0;
    while i < exercises.len()
        invariant
            i <= exercises@.len(),
            forall|j: int| 0 <= j < i ==> exercises@[j].name@ != name@,
        decreases exercises@.len() - i,
    {
        if exercises[i].name == *name {
            return Some(i);
        }
        i += 1;
    }
    None
}

/// How many exercises are `Done`.
pub fn count_done(statuses: &[ExerciseStatus]) -> (r: usize)
    ensures
        r == done_count(statuses@),
{
    let mut i: usize = 0;
    let mut n: usize = 0;
    while i < statuses.len()
        invariant
            i <= statuses@.len(),
            n == done_count(statuses@.subrange(0, i as int)),
            n <= i,
        decreases statuses@.len() - i,
    {
        assert(statuses@.subrange(0, i + 1).drop_last() =~= statuses@.subrange(0, i as int));
        if statuses[i] == ExerciseStatus::Done {
            n += 1;
        }
        i += 1;
    }
    assert(statuses@.subrange(0, i as int) =~= statuses@);
    n
}

/// How many of `width` cells of a progress bar are filled for `done` of `total`.
pub fn progress_fill(done: usize, total: usize, width: usize) -> (r: usize)
    requires
        done <= total,
        total * width <= usize::MAX,
    ensures
        r <= width,
        total > 0 ==> r == (done * width) as int / (total as int),
        total == 0 ==> r == 0,
{
    if total == 0 {
        0
    } else {
        assert(done * width <= total * width) by (nonlinear_arith)
            requires
                done <= total,
        ;
        assert((done * width) as int / (total as int) <= width) by (nonlinear_arith)
            requires
                done <= total,
                total > 0,
        ;
        done * width / total
    }
}

/// The chapter name of the exercise at `p`, empty when it has none.
pub open spec fn chapter_name_of(p: Seq<char>) -> Seq<char> {
    match chapter_of(p) {
        Some(c) => c,
        None => Seq::empty(),
    }
}

/// The exercise at `p` belongs to the chapters that `prefix` selects.
pub open spec fn in_chapter(p: Seq<char>, prefix: Seq<char>) -> bool {
    is_prefix(prefix, chapter_name_of(p))
}

/// The indices, in registry order, of the exercises whose chapter name starts
/// with `prefix`.
pub fn chapter_indices(exercises: &[Exercise], prefix: &str) -> (r: Vec<usize>)
    ensures
        forall|k: int|
            0 <= k < r@.len() ==> r@[k] < exercises@.len() && in_chapter(
                exercises@[r@[k] as int].path@,
                prefix@,
            ),
        forall|k1: int, k2: int| 0 <= k1 < k2 < r@.len() ==> r@[k1] < r@[k2],
        forall|i: int|
            0 <= i < exercises@.len() && in_chapter(exercises@[i].path@, prefix@) ==> exists|k: int|
                0 <= k < r@.len() && r@[k] == i,
{
    let mut r: Vec<usize> = Vec::new();
    let mut i: usize = 0;
    while i < exercises.len()
        invariant
            i <= exercises@.len(),
            forall|k: int|
                0 <= k < r@.len() ==> r@[k] < i && in_chapter(exercises@[r@[k] as int].path@, prefix@),
            forall|k1: int, k2: int| 0 <= k1 < k2 < r@.len() ==> r@[k1] < r@[k2],
            forall|j: int|
                0 <= j < i && in_chapter(exercises@[j].path@, prefix@) ==> exists|k: int|
                    0 <= k < r@.len() && r@[k] == j,
        decreases exercises@.len() - i,
    {
        let name = match exercises[i].chapter() {
            Some(c) => c,
            None => String::new(),
        };
        assert(name@ == chapter_name_of(exercises@[i as int].path@));
        let ghost before = r@;
        if starts_with(name.as_str(), prefix) {
            r.push(i);
            proof {
                assert forall|j: int|
                    0 <= j < i + 1 && in_chapter(exercises@[j].path@, prefix@) implies exists|k: int|
                        0 <= k < r@.len() && r@[k] == j by {
                    if j < i {
                        let k = choose|k: int| 0 <= k < before.len() && before[k] == j;
                        assert(r@[k] == before[k]);
                    } else {
                        assert(r@[before.len() as int] == i);
                    }
                }
            }
        }
        i += 1;
    }
    r
}

/// The paths of the exercises, in registry order.
pub open spec fn paths_of(exercises: Seq<Exercise>) -> Seq<Seq<char>> {
    exercises.map_values(|e: Exercise| e.path@)
}

/// The strings' contents.
pub open spec fn views_of(names: Seq<String>) -> Seq<Seq<char>> {
    names.map_values(|s: String| s@)
}

/// The distinct chapters of the files at `paths`, in order of first appearance.
pub open spec fn distinct_chapters(paths: Seq<Seq<char>>) -> Seq<Seq<char>>
    decreases paths.len(),
{
    if paths.len() == 0 {
        Seq::empty()
    } else {
        let before = distinct_chapters(paths.drop_last());
        match chapter_of(paths.last()) {
            Some(c) => if before.contains(c) {
                before
            } else {
                before.push(c)
            },
            None => before,
        }
    }
}

fn holds_name(names: &Vec<String>, name: &String) -> (r: bool)
    ensures
        r == views_of(names@).contains(name@),
{
    let mut k: usize = 0;
    while k < names.len()
        invariant
            k <= names@.len(),
            forall|m: int| 0 <= m < k ==> names@[m]@ != name@,
        decreases names@.len() - k,
    {
        if names[k] == *name {
            assert(views_of(names@)[k as int] == name@);
            return true;
        }
        k += 1;
    }
    proof {
        if views_of(names@).contains(name@) {
            let m = choose|m: int| 0 <= m < views_of(names@).len() && views_of(names@)[m] == name@;
            assert(names@[m]@ == name@);
        }
    }
    false
}

/// The distinct chapter names of the registry, in order of first appearance.
pub fn chapter_names(exercises: &[Exercise]) -> (r: Vec<String>)
    ensures
        views_of(r@) == distinct_chapters(paths_of(exercises@)),
{
    let mut r: Vec<String> = Vec::new();
    let mut i: usize = 0;
    assert(views_of(r@) =~= distinct_chapters(paths_of(exercises@).subrange(0, 0)));
    while i < exercises.len()
        invariant
            i <= exercises@.len(),
            views_of(r@) == distinct_chapters(paths_of(exercises@).subrange(0, i as int)),
        decreases exercises@.len() - i,
    {
        let ghost done = paths_of(exercises@).subrange(0, i + 1);
        assert(done.drop_last() =~= paths_of(exercises@).subrange(0, i as int));
        assert(done.last() == exercises@[i as int].path@);
        if let Some(name) = exercises[i].chapter() {
            if !holds_name(&r, &name) {
                let ghost before = r@;
                r.push(name);
                assert(views_of(r@) =~= views_of(before).push(name@));
            }
        }
        i += 1;
    }
    assert(paths_of(exercises@).subrange(0, i as int) =~= paths_of(exercises@));
    r
}

/// What the watch display shows after a refresh.
#[derive(Clone, Copy, Debug, PartialEq, Eq, Structural)]
pub enum Refresh {
    /// Every exercise is done: the watch ends.
    AllComplete,
    /// The exercise at `index` is current; `completed` says whether the one shown
    /// before it, a different one, has just been completed.
    Current { index: usize, completed: bool },
}

/// The watch display's state: the name of the exercise it showed last (empty
/// before the first display).
pub struct Session {
    pub previous: String,
}

impl Session {
    /// A session that has shown nothing yet.
    pub fn new() -> (r: Session)
        ensures
            r.previous@ == Seq::<char>::empty(),
    {
        Session { previous: String::new() }
    }

    /// Recompute the current exercise from the statuses of the registry, in order,
    /// and remember it as the one shown.
    pub fn refresh(&mut self, exercises: &[Exercise], statuses: &[ExerciseStatus]) -> (r: Refresh)
        requires
            exercises@.len() == statuses@.len(),
        ensures
            match r {
                Refresh::AllComplete => {
                    &&& all_done_before(statuses@, statuses@.len() as int)
                    &&& final(self).previous@ == old(self).previous@
                },
                Refresh::Current { index, completed } => {
                    &&& is_first_pending(statuses@, index as int)
                    &&& completed == (old(self).previous@.len() > 0 && old(self).previous@
                        != exercises@[index as int].name@)
                    &&& final(self).previous@ == exercises@[index as int].name@
                },
            },
    {
        match current_index(statuses) {
            None => Refresh::AllComplete,
            Some(i) => {
                let name = &exercises[i].name;
                let completed = !self.previous.as_str().is_empty() && self.previous != *name;
                self.previous = name.clone();
                Refresh::Current { index: i, completed }
            },
        }
    }
}

} // verus!
