use statusline::branch::{branch_from_output, branch_from_trimmed, CommandOutcome};

fn ran(success: bool, stdout: &[u8]) -> CommandOutcome {
    CommandOutcome::Exited { success, stdout: stdout.to_vec() }
}

#[test]
fn output_with_line_break_gives_the_name() {
    assert_eq!(branch_from_output(&ran(true, b"main\n")), "main");
}

#[test]
fn empty_output_gives_detached() {
    assert_eq!(branch_from_output(&ran(true, b"")), "detached");
}

#[test]
fn blank_output_gives_detached() {
    assert_eq!(branch_from_output(&ran(true, b" \t\r\n")), "detached");
}

#[test]
fn failed_exit_gives_no_git() {
    assert_eq!(branch_from_output(&ran(false, b"")), "no-git");
    assert_eq!(branch_from_output(&ran(false, b"main\n")), "no-git");
}

#[test]
fn command_that_did_not_run_gives_no_git() {
    assert_eq!(branch_from_output(&CommandOutcome::NotRun), "no-git");
}

#[test]
fn white_space_is_cut_at_both_ends_only() {
    assert_eq!(branch_from_output(&ran(true, b"  feature/two words \r\n")), "feature/two words");
    assert_eq!(branch_from_output(&ran(true, "\u{a0}topic\u{3000}".as_bytes())), "topic");
}

#[test]
fn bytes_that_are_no_text_are_replaced() {
    assert_eq!(branch_from_output(&ran(true, b"ma\xffin\n")), "ma\u{fffd}in");
    assert_eq!(branch_from_output(&ran(true, b"\xff")), "\u{fffd}");
}

#[test]
fn text_beyond_ascii_is_kept() {
    assert_eq!(branch_from_output(&ran(true, "caf\u{e9}\n".as_bytes())), "caf\u{e9}");
}

#[test]
fn trimmed_answer_is_the_branch() {
    assert_eq!(branch_from_trimmed("main"), "main");
    assert_eq!(branch_from_trimmed("a b"), "a b");
}

#[test]
fn missing_answer_is_detached() {
    assert_eq!(branch_from_trimmed(""), "detached");
}

#[test]
fn branch_is_never_empty() {
    for out in [&b""[..], b"\n", b"x", b"\xff", b"  "] {
        assert!(!branch_from_output(&ran(true, out)).is_empty());
        assert!(!branch_from_output(&ran(false, out)).is_empty());
    }
}
