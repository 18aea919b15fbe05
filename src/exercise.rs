//! Exercise descriptors and their status.

use crate::text::{contains_bytes, contains_line, has_line, occurs_in};
use vstd::prelude::*;

verus! {

/// Whether an exercise is graded by compiling alone or also by its tests.
#[derive(Clone, Copy, Debug, PartialEq, Eq, Structural)]
pub enum ExerciseMode {
    Compile,
    Test,
}

impl Default for ExerciseMode {
    fn default() -> (r: Self)
        ensures
            r == ExerciseMode::Test,
    {
        ExerciseMode::Test
    }
}

/// What an exercise currently amounts to.
#[derive(Clone, Copy, Debug, PartialEq, Eq, Structural)]
pub enum ExerciseStatus {
    Done,
    NotDone,
    CompileError,
    TestFail,
}

/// An exercise as the manifest lists it; a missing mode means `Test`.
#[derive(Clone, Debug)]
pub struct ExerciseInfo {
    pub name: String,
    pub path: String,
    pub mode: ExerciseMode,
}

/// One exercise of the registry: its identity is its path.
#[derive(Clone, Debug)]
pub struct Exercise {
    pub name: String,
    pub path: String,
    pub mode: ExerciseMode,
}

impl Exercise {
    /// The descriptor for a manifest entry, field for field.
    pub fn from_info(info: ExerciseInfo) -> (r: Exercise)
        ensures
            r.name@ == info.name@,
            r.path@ == info.path@,
            r.mode == info.mode,
    {
        Exercise { name: info.name, path: info.path, mode: info.mode }
    }
}

/// The registry built from the manifest's entries, in the manifest's order.
pub fn exercises_from_infos(infos: Vec<ExerciseInfo>) -> (r: Vec<Exercise>)
    ensures
        r@.len() == infos@.len(),
        forall|i: int|
            0 <= i < r@.len() ==> {
                &&& r@[i].name@ == infos@[i].name@
                &&& r@[i].path@ == infos@[i].path@
                &&& r@[i].mode == infos@[i].mode
            },
{
    let mut out: Vec<Exercise> = Vec::new();
    let mut i: usize = 0;
    while i < infos.len()
        invariant
            i <= infos@.len(),
            out@.len() == i,
            forall|k: int|
                0 <= k < i ==> {
                    &&& out@[k].name@ == infos@[k].name@
                    &&& out@[k].path@ == infos@[k].path@
                    &&& out@[k].mode == infos@[k].mode
                },
        decreases infos@.len() - i,
    {
        let info = &infos[i];
        out.push(Exercise { name: info.name.clone(), path: info.path.clone(), mode: info.mode });
        i += 1;
    }
    out
}

/// The marker line `# I AM NOT DONE`, as bytes.
pub open spec fn marker_line() -> Seq<u8> {
    seq![35u8, 32u8, 73u8, 32u8, 65u8, 77u8, 32u8, 78u8, 79u8, 84u8, 32u8, 68u8, 79u8, 78u8, 69u8]
}

/// `FAIL`, as bytes.
pub open spec fn fail_word() -> Seq<u8> {
    seq![70u8, 65u8, 73u8, 76u8]
}

/// `panicked`, as bytes.
pub open spec fn panicked_word() -> Seq<u8> {
    seq![112u8, 97u8, 110u8, 105u8, 99u8, 107u8, 101u8, 100u8]
}

fn marker_line_bytes() -> (r: Vec<u8>)
    ensures
        r@ == marker_line(),
{
    let r = vec![35u8, 32u8, 73u8, 32u8, 65u8, 77u8, 32u8, 78u8, 79u8, 84u8, 32u8, 68u8, 79u8, 78u8, 69u8];
    assert(r@ =~= marker_line());
    r
}

fn fail_word_bytes() -> (r: Vec<u8>)
    ensures
        r@ == fail_word(),
{
    let r = vec![70u8, 65u8, 73u8, 76u8];
    assert(r@ =~= fail_word());
    r
}

fn panicked_word_bytes() -> (r: Vec<u8>)
    ensures
        r@ == panicked_word(),
{
    let r = vec![112u8, 97u8, 110u8, 105u8, 99u8, 107u8, 101u8, 100u8];
    assert(r@ =~= panicked_word());
    r
}

/// Whether the text holds the marker as a line of its own.
pub fn has_marker(content: &[u8]) -> (r: bool)
    ensures
        r == has_line(content@, marker_line()),
{
    let m = marker_line_bytes();
    contains_line(content, m.as_slice())
}

/// What the evaluation of one exercise does next, or the status it settles on.
#[derive(Clone, Copy, Debug, PartialEq, Eq, Structural)]
pub enum EvalStep {
    /// Run the external lint check on the exercise file.
    Lint,
    /// Run the external tests on a private copy of the exercise file.
    RunTests,
    /// The evaluation is over, with this status.
    Finish(ExerciseStatus),
}

/// The step after reading the file: `None` when it could not be read.
pub open spec fn step_after_read(content: Option<Seq<u8>>) -> EvalStep {
    match content {
        None => EvalStep::Finish(ExerciseStatus::CompileError),
        Some(c) => if has_line(c, marker_line()) {
            EvalStep::Finish(ExerciseStatus::NotDone)
        } else {
            EvalStep::Lint
        },
    }
}

/// The step after the lint check, which succeeded or not.
pub open spec fn step_after_lint(mode: ExerciseMode, lint_ok: bool) -> EvalStep {
    if !lint_ok {
        EvalStep::Finish(ExerciseStatus::CompileError)
    } else if mode == ExerciseMode::Compile {
        EvalStep::Finish(ExerciseStatus::Done)
    } else {
        EvalStep::RunTests
    }
}

/// The status after the test run: whether it succeeded, and its combined output.
pub open spec fn status_after_tests(tests_ok: bool, output: Seq<u8>) -> ExerciseStatus {
    if !tests_ok || occurs_in(output, fail_word()) || occurs_in(output, panicked_word()) {
        ExerciseStatus::TestFail
    } else {
        ExerciseStatus::Done
    }
}

/// The status of a full evaluation, given what each external step would report.
pub open spec fn evaluated_status(
    mode: ExerciseMode,
    content: Option<Seq<u8>>,
    lint_ok: bool,
    tests_ok: bool,
    output: Seq<u8>,
) -> ExerciseStatus {
    match step_after_read(content) {
        EvalStep::Finish(s) => s,
        _ => match step_after_lint(mode, lint_ok) {
            EvalStep::Finish(s) => s,
            _ => status_after_tests(tests_ok, output),
        },
    }
}

/// The marker line decides: a file that holds it is `NotDone`, whatever the lint
/// check and the tests would report.
pub proof fn lemma_marker_decides(
    mode: ExerciseMode,
    content: Seq<u8>,
    lint_ok: bool,
    tests_ok: bool,
    output: Seq<u8>,
)
    requires
        has_line(content, marker_line()),
    ensures
        step_after_read(Some(content)) == EvalStep::Finish(ExerciseStatus::NotDone),
        evaluated_status(mode, Some(content), lint_ok, tests_ok, output) == ExerciseStatus::NotDone,
{
}

/// A failed lint check ends the evaluation with `CompileError`: no test run follows,
/// and the tests' outcome does not matter.
pub proof fn lemma_lint_failure_decides(
    mode: ExerciseMode,
    content: Seq<u8>,
    tests_ok: bool,
    output: Seq<u8>,
)
    requires
        !has_line(content, marker_line()),
    ensures
        step_after_lint(mode, false) == EvalStep::Finish(ExerciseStatus::CompileError),
        evaluated_status(mode, Some(content), false, tests_ok, output) == ExerciseStatus::CompileError,
{
}

/// A compile-only exercise that passes its lint check is `Done`, with no test run.
pub proof fn lemma_compile_mode_done(content: Seq<u8>, tests_ok: bool, output: Seq<u8>)
    requires
        !has_line(content, marker_line()),
    ensures
        step_after_lint(ExerciseMode::Compile, true) == EvalStep::Finish(ExerciseStatus::Done),
        evaluated_status(ExerciseMode::Compile, Some(content), true, tests_ok, output)
            == ExerciseStatus::Done,
{
}

impl Exercise {
    /// First step of an evaluation: the file's text, or `None` if it could not be read.
    pub fn step_after_read(&self, content: Option<&[u8]>) -> (r: EvalStep)
        ensures
            r == step_after_read(
                match content {
                    Some(c) => Some(c@),
                    None => None,
                },
            ),
    {
        match content {
            None => EvalStep::Finish(ExerciseStatus::CompileError),
            Some(c) => if has_marker(c) {
                EvalStep::Finish(ExerciseStatus::NotDone)
            } else {
                EvalStep::Lint
            },
        }
    }

    /// Second step of an evaluation: whether the lint check (and its launch) succeeded.
    pub fn step_after_lint(&self, lint_ok: bool) -> (r: EvalStep)
        ensures
            r == step_after_lint(self.mode, lint_ok),
    {
        if !lint_ok {
            EvalStep::Finish(ExerciseStatus::CompileError)
        } else if self.mode == ExerciseMode::Compile {
            EvalStep::Finish(ExerciseStatus::Done)
        } else {
            EvalStep::RunTests
        }
    }

    /// Last step of an evaluation: whether the test run (and its launch) succeeded,
    /// and its combined standard output and standard error.
    pub fn status_after_tests(&self, tests_ok: bool, output: &[u8]) -> (r: ExerciseStatus)
        ensures
            r == status_after_tests(tests_ok, output@),
    {
        let fail = fail_word_bytes();
        let panicked = panicked_word_bytes();
        if !tests_ok || contains_bytes(output, fail.as_slice()) || contains_bytes(
            output,
            panicked.as_slice(),
        ) {
            ExerciseStatus::TestFail
        } else {
            ExerciseStatus::Done
        }
    }
    /// The status that a full evaluation settles on, given what each step would
    /// report: the file's text (`None` when unreadable), whether the lint check
    /// succeeded, whether the test run succeeded, and its output. What the
    /// evaluation would not reach (the lint check after the marker line, the tests
    /// after a failed lint check or in compile mode) does not count.
    pub fn status(&self, content: Option<&[u8]>, lint_ok: bool, tests_ok: bool, output: &[u8]) -> (r: ExerciseStatus)
        ensures
            r == evaluated_status(
                self.mode,
                match content {
                    Some(c) => Some(c@),
                    None => None,
                },
                lint_ok,
                tests_ok,
                output@,
            ),
    {
        match self.step_after_read(content) {
            EvalStep::Finish(s) => s,
            _ => match self.step_after_lint(lint_ok) {
                EvalStep::Finish(s) => s,
                _ => self.status_after_tests(tests_ok, output),
            },
        }
    }
}

} // verus!
