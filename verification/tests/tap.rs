use tap14::{
    write_bail_out, write_comment, write_plan, write_skip, write_test_point, write_todo,
    write_version, TapWriter, TestResult,
};

#[test]
fn version_line() {
    assert_eq!(write_version(), "TAP version 14\n");
}

#[test]
fn plan_line() {
    assert_eq!(write_plan(3), "1..3\n");
}

#[test]
fn plan_zero() {
    assert_eq!(write_plan(0), "1..0\n");
}

#[test]
fn passing_test_point() {
    let result = TestResult {
        number: 1,
        name: "build".into(),
        ok: true,
        error_message: None,
        exit_code: None,
        output: None,
    };
    assert_eq!(write_test_point(&result), "ok 1 - build\n");
}

#[test]
fn passing_test_point_with_output() {
    let result = TestResult {
        number: 1,
        name: "build".into(),
        ok: true,
        error_message: None,
        exit_code: None,
        output: Some("building\n".into()),
    };
    let out = write_test_point(&result);
    assert!(out.contains("ok 1 - build\n"));
    assert!(out.contains("  ---\n"));
    assert!(out.contains("  output: |\n"));
    assert!(out.contains("    building\n"));
    assert!(out.contains("  ...\n"));
}

#[test]
fn failing_test_point() {
    let result = TestResult {
        number: 2,
        name: "test".into(),
        ok: false,
        error_message: Some("something failed".into()),
        exit_code: Some(1),
        output: None,
    };
    let out = write_test_point(&result);
    assert!(out.contains("not ok 2 - test\n"));
    assert!(out.contains("  ---\n"));
    assert!(out.contains("  message: \"something failed\"\n"));
    assert!(out.contains("  severity: fail\n"));
    assert!(out.contains("  exitcode: 1\n"));
    assert!(out.contains("  ...\n"));
}

#[test]
fn failing_test_point_with_multiline_output() {
    let result = TestResult {
        number: 1,
        name: "multi".into(),
        ok: false,
        error_message: None,
        exit_code: None,
        output: Some("line one\nline two".into()),
    };
    let out = write_test_point(&result);
    assert!(out.contains("  output: |\n"));
    assert!(out.contains("    line one\n"));
    assert!(out.contains("    line two\n"));
}

#[test]
fn bail_out() {
    assert_eq!(write_bail_out("database down"), "Bail out! database down\n");
}

#[test]
fn comment() {
    assert_eq!(write_comment("a note"), "# a note\n");
}

#[test]
fn skip_directive() {
    assert_eq!(
        write_skip(3, "optional feature", "not supported"),
        "ok 3 - optional feature # SKIP not supported\n"
    );
}

#[test]
fn todo_directive() {
    assert_eq!(
        write_todo(4, "future work", "not implemented"),
        "not ok 4 - future work # TODO not implemented\n"
    );
}

#[test]
fn tap_writer_counter() {
    let mut tw = TapWriter::new();
    assert_eq!(tw.count(), 0);
    assert_eq!(tw.next(), 1);
    assert_eq!(tw.next(), 2);
    assert_eq!(tw.count(), 2);
}

#[test]
fn passing_output_exact_block() {
    let result = TestResult {
        number: 1,
        name: "build".into(),
        ok: true,
        error_message: None,
        exit_code: None,
        output: Some("building\n".into()),
    };
    assert_eq!(
        write_test_point(&result),
        "ok 1 - build\n  ---\n  output: |\n    building\n  ...\n"
    );
}

#[test]
fn failing_exact_field_order() {
    let result = TestResult {
        number: 2,
        name: "test".into(),
        ok: false,
        error_message: Some("something failed".into()),
        exit_code: Some(1),
        output: None,
    };
    assert_eq!(
        write_test_point(&result),
        "not ok 2 - test\n  ---\n  message: \"something failed\"\n  severity: fail\n  exitcode: 1\n  ...\n"
    );
}

#[test]
fn multiline_output_no_trailing_blank_line() {
    let result = TestResult {
        number: 1,
        name: "multi".into(),
        ok: false,
        error_message: None,
        exit_code: None,
        output: Some("line one\nline two".into()),
    };
    assert_eq!(
        write_test_point(&result),
        "not ok 1 - multi\n  ---\n  severity: fail\n  output: |\n    line one\n    line two\n  ...\n"
    );
}

#[test]
fn single_line_output_is_quoted() {
    let result = TestResult {
        number: 5,
        name: "quiet".into(),
        ok: true,
        error_message: None,
        exit_code: None,
        output: Some("building".into()),
    };
    assert_eq!(
        write_test_point(&result),
        "ok 5 - quiet\n  ---\n  output: \"building\"\n  ...\n"
    );
}

#[test]
fn multiline_message_uses_block_scalar() {
    let result = TestResult {
        number: 7,
        name: "broken".into(),
        ok: false,
        error_message: Some("first reason\nsecond reason".into()),
        exit_code: None,
        output: None,
    };
    assert_eq!(
        write_test_point(&result),
        "not ok 7 - broken\n  ---\n  message: |\n    first reason\n    second reason\n  severity: fail\n  ...\n"
    );
}

#[test]
fn negative_exit_code() {
    let result = TestResult {
        number: 3,
        name: "crash".into(),
        ok: false,
        error_message: None,
        exit_code: Some(-7),
        output: None,
    };
    assert_eq!(
        write_test_point(&result),
        "not ok 3 - crash\n  ---\n  severity: fail\n  exitcode: -7\n  ...\n"
    );
}

#[test]
fn empty_output_is_quoted_empty() {
    let result = TestResult {
        number: 1,
        name: "mute".into(),
        ok: true,
        error_message: None,
        exit_code: None,
        output: Some("".into()),
    };
    assert_eq!(
        write_test_point(&result),
        "ok 1 - mute\n  ---\n  output: \"\"\n  ...\n"
    );
}

#[test]
fn output_of_one_line_break_keeps_one_empty_line() {
    let result = TestResult {
        number: 1,
        name: "blank".into(),
        ok: true,
        error_message: None,
        exit_code: None,
        output: Some("\n".into()),
    };
    assert_eq!(
        write_test_point(&result),
        "ok 1 - blank\n  ---\n  output: |\n    \n  ...\n"
    );
}

#[test]
fn passing_with_message_has_no_severity() {
    let result = TestResult {
        number: 9,
        name: "warned".into(),
        ok: true,
        error_message: Some("flaky".into()),
        exit_code: None,
        output: Some("done\n".into()),
    };
    assert_eq!(
        write_test_point(&result),
        "ok 9 - warned\n  ---\n  message: \"flaky\"\n  output: |\n    done\n  ...\n"
    );
}

#[test]
fn large_plan_count() {
    assert_eq!(write_plan(1234567890), "1..1234567890\n");
}

#[test]
fn encoder_is_pure_across_calls() {
    let first = TestResult {
        number: 2,
        name: "same".into(),
        ok: false,
        error_message: Some("oops".into()),
        exit_code: Some(1),
        output: Some("a\nb".into()),
    };
    let second = TestResult {
        number: 2,
        name: "same".into(),
        ok: false,
        error_message: Some("oops".into()),
        exit_code: Some(1),
        output: Some("a\nb".into()),
    };
    assert_eq!(write_test_point(&first), write_test_point(&second));
    assert_eq!(write_plan(42), write_plan(42));
    assert_eq!(write_version(), write_version());
    assert_eq!(write_comment("note"), write_comment("note"));
    assert_eq!(write_bail_out("why"), write_bail_out("why"));
    assert_eq!(write_skip(1, "d", "r"), write_skip(1, "d", "r"));
    assert_eq!(write_todo(1, "d", "r"), write_todo(1, "d", "r"));
}

#[test]
fn sequence_interleaved_with_encoder_calls() {
    let mut tw = TapWriter::new();
    let first = tw.next();
    let _ = write_version();
    let _ = write_plan(2);
    let second = tw.next();
    assert_eq!(first, 1);
    assert_eq!(second, 2);
    assert_eq!(tw.count(), 2);
}
