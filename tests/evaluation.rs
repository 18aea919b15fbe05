use sicplings::cache::{Lookup, Modified, StatusCache, Timestamp};
use sicplings::exercise::{
    exercises_from_infos, has_marker, EvalStep, Exercise, ExerciseInfo, ExerciseMode,
    ExerciseStatus,
};
use sicplings::text::{contains_bytes, contains_line};

fn exercise(name: &str, path: &str, mode: ExerciseMode) -> Exercise {
    Exercise { name: name.to_string(), path: path.to_string(), mode }
}

fn at(secs: u64, nanos: u32) -> Modified {
    Modified::At(Timestamp { secs, nanos })
}

#[test]
fn marker_line_makes_exercise_not_done() {
    let ex = exercise("ch1-ex1", "exercises/ch1/ex1.seq", ExerciseMode::Test);
    let text = b"# Square a number\n# I AM NOT DONE\n: square ( n -- n*n ) dup * ;\n";
    assert_eq!(ex.step_after_read(Some(text)), EvalStep::Finish(ExerciseStatus::NotDone));
}

#[test]
fn scenario_marker_then_pass_then_fail() {
    let ex = exercise("ch1-ex1", "exercises/ch1/ex1.seq", ExerciseMode::Test);
    let marked = b"# I AM NOT DONE\n: main ;\n";
    assert_eq!(ex.step_after_read(Some(marked)), EvalStep::Finish(ExerciseStatus::NotDone));
    let unmarked = b": main ;\n";
    assert_eq!(ex.step_after_read(Some(unmarked)), EvalStep::Lint);
    assert_eq!(ex.step_after_lint(true), EvalStep::RunTests);
    assert_eq!(ex.status_after_tests(true, b"3 passed, 0 failed"), ExerciseStatus::Done);
    assert_eq!(ex.status_after_tests(true, b"test foo ... FAILED"), ExerciseStatus::TestFail);
}

#[test]
fn scenario_through_the_cache() {
    let ex = exercise("ch1-ex1", "exercises/ch1/ex1.seq", ExerciseMode::Test);
    let mut cache = StatusCache::new();
    let marked: &[u8] = b"# I AM NOT DONE\n: main ;\n";
    assert_eq!(
        cache.get_status(&ex.path, at(10, 0), Some(marked)),
        Lookup::Known(ExerciseStatus::NotDone)
    );
    let unmarked: &[u8] = b": main ;\n";
    assert_eq!(cache.get_status(&ex.path, at(20, 0), Some(unmarked)), Lookup::Evaluate);
    cache.record(&ex.path, at(20, 0), ExerciseStatus::Done);
    assert_eq!(
        cache.get_status(&ex.path, at(20, 0), Some(unmarked)),
        Lookup::Known(ExerciseStatus::Done)
    );
}

#[test]
fn unreadable_file_is_compile_error() {
    let ex = exercise("a", "exercises/ch1/a.seq", ExerciseMode::Compile);
    assert_eq!(ex.step_after_read(None), EvalStep::Finish(ExerciseStatus::CompileError));
    let mut cache = StatusCache::new();
    assert_eq!(
        cache.get_status(&ex.path, Modified::Unreadable, None),
        Lookup::Known(ExerciseStatus::CompileError)
    );
    assert_eq!(cache.cached(&ex.path), None);
}

#[test]
fn marker_must_be_a_whole_line() {
    assert!(has_marker(b"# I AM NOT DONE"));
    assert!(has_marker(b"code\r\n# I AM NOT DONE\r\nmore"));
    assert!(!has_marker(b"  # I AM NOT DONE\n"));
    assert!(!has_marker(b"# I AM NOT DONE yet\n"));
    assert!(!has_marker(b"x # I AM NOT DONE\n"));
    assert!(!has_marker(b""));
}

#[test]
fn lint_failure_is_compile_error_in_both_modes() {
    let t = exercise("t", "exercises/ch1/t.seq", ExerciseMode::Test);
    let c = exercise("c", "exercises/ch1/c.seq", ExerciseMode::Compile);
    assert_eq!(t.step_after_lint(false), EvalStep::Finish(ExerciseStatus::CompileError));
    assert_eq!(c.step_after_lint(false), EvalStep::Finish(ExerciseStatus::CompileError));
}

#[test]
fn compile_mode_is_done_after_lint() {
    let c = exercise("c", "exercises/ch1/c.seq", ExerciseMode::Compile);
    assert_eq!(c.step_after_lint(true), EvalStep::Finish(ExerciseStatus::Done));
}

#[test]
fn failed_test_run_or_panic_is_test_fail() {
    let t = exercise("t", "exercises/ch1/t.seq", ExerciseMode::Test);
    assert_eq!(t.status_after_tests(false, b"all ok"), ExerciseStatus::TestFail);
    assert_eq!(t.status_after_tests(true, b"thread 'main' panicked at"), ExerciseStatus::TestFail);
    assert_eq!(t.status_after_tests(true, b""), ExerciseStatus::Done);
    assert_eq!(t.status_after_tests(true, b"fail FAI"), ExerciseStatus::Done);
}

#[test]
fn second_query_at_same_time_reuses_status() {
    let path = "exercises/ch2/b.seq".to_string();
    let mut cache = StatusCache::new();
    let text: &[u8] = b": main 1 2 + ;\n";
    assert_eq!(cache.get_status(&path, at(5, 7), Some(text)), Lookup::Evaluate);
    cache.record(&path, at(5, 7), ExerciseStatus::TestFail);
    assert_eq!(
        cache.get_status(&path, at(5, 7), Some(text)),
        Lookup::Known(ExerciseStatus::TestFail)
    );
    assert_eq!(
        cache.cached(&path),
        Some((Timestamp { secs: 5, nanos: 7 }, ExerciseStatus::TestFail))
    );
}

#[test]
fn changed_time_forces_evaluation() {
    let path = "exercises/ch2/b.seq".to_string();
    let mut cache = StatusCache::new();
    let text: &[u8] = b": main ;\n";
    cache.record(&path, at(5, 0), ExerciseStatus::Done);
    assert_eq!(cache.get_status(&path, at(5, 1), Some(text)), Lookup::Evaluate);
    assert_eq!(cache.get_status(&path, at(4, 0), Some(text)), Lookup::Evaluate);
}

#[test]
fn marker_wins_over_stale_done() {
    let path = "exercises/ch1/a.seq".to_string();
    let mut cache = StatusCache::new();
    cache.record(&path, at(1, 0), ExerciseStatus::Done);
    let marked: &[u8] = b"# I AM NOT DONE\n";
    assert_eq!(
        cache.get_status(&path, at(2, 0), Some(marked)),
        Lookup::Known(ExerciseStatus::NotDone)
    );
    assert_eq!(
        cache.cached(&path),
        Some((Timestamp { secs: 2, nanos: 0 }, ExerciseStatus::NotDone))
    );
}

#[test]
fn unknown_time_is_never_cached() {
    let path = "exercises/ch1/a.seq".to_string();
    let mut cache = StatusCache::new();
    let text: &[u8] = b": main ;\n";
    assert_eq!(cache.get_status(&path, Modified::Unknown, Some(text)), Lookup::Evaluate);
    cache.record(&path, Modified::Unknown, ExerciseStatus::Done);
    assert_eq!(cache.cached(&path), None);
    assert_eq!(cache.get_status(&path, Modified::Unknown, Some(text)), Lookup::Evaluate);
}

#[test]
fn entries_are_per_path() {
    let a = "exercises/ch1/a.seq".to_string();
    let b = "exercises/ch1/b.seq".to_string();
    let mut cache = StatusCache::new();
    cache.store(&a, Timestamp { secs: 1, nanos: 0 }, ExerciseStatus::Done);
    cache.store(&b, Timestamp { secs: 1, nanos: 0 }, ExerciseStatus::CompileError);
    cache.store(&a, Timestamp { secs: 3, nanos: 0 }, ExerciseStatus::TestFail);
    assert_eq!(cache.cached(&a), Some((Timestamp { secs: 3, nanos: 0 }, ExerciseStatus::TestFail)));
    assert_eq!(
        cache.cached(&b),
        Some((Timestamp { secs: 1, nanos: 0 }, ExerciseStatus::CompileError))
    );
}

#[test]
fn byte_search_edges() {
    assert!(contains_bytes(b"abc", b""));
    assert!(contains_bytes(b"abc", b"bc"));
    assert!(!contains_bytes(b"ab", b"abc"));
    assert!(!contains_bytes(b"", b"a"));
    assert!(contains_line(b"a\nb\n", b"b"));
    assert!(!contains_line(b"a\nbc\n", b"b"));
}

#[test]
fn registry_from_manifest_entries() {
    let infos = vec![
        ExerciseInfo {
            name: "one".to_string(),
            path: "exercises/ch1/one.seq".to_string(),
            mode: ExerciseMode::default(),
        },
        ExerciseInfo {
            name: "two".to_string(),
            path: "exercises/ch1/two.seq".to_string(),
            mode: ExerciseMode::Compile,
        },
    ];
    let exs = exercises_from_infos(infos);
    assert_eq!(exs.len(), 2);
    assert_eq!(exs[0].name, "one");
    assert_eq!(exs[0].mode, ExerciseMode::Test);
    assert_eq!(exs[1].path, "exercises/ch1/two.seq");
    assert_eq!(exs[1].mode, ExerciseMode::Compile);
    let single = Exercise::from_info(ExerciseInfo {
        name: "x".to_string(),
        path: "p".to_string(),
        mode: ExerciseMode::Compile,
    });
    assert_eq!(single.name, "x");
}

#[test]
fn full_status_follows_the_steps() {
    let t = exercise("ch1-ex1", "exercises/ch1/ex1.seq", ExerciseMode::Test);
    let c = exercise("ch1-ex2", "exercises/ch1/ex2.seq", ExerciseMode::Compile);
    let marked: &[u8] = b"# I AM NOT DONE\n";
    let plain: &[u8] = b": main ;\n";
    assert_eq!(t.status(Some(marked), false, false, b"FAIL"), ExerciseStatus::NotDone);
    assert_eq!(t.status(None, true, true, b""), ExerciseStatus::CompileError);
    assert_eq!(t.status(Some(plain), false, true, b""), ExerciseStatus::CompileError);
    assert_eq!(t.status(Some(plain), true, true, b"3 passed, 0 failed"), ExerciseStatus::Done);
    assert_eq!(t.status(Some(plain), true, true, b"test foo ... FAILED"), ExerciseStatus::TestFail);
    assert_eq!(c.status(Some(plain), true, false, b"panicked"), ExerciseStatus::Done);
}
