use ferris_watch::command::CommandSpec;
use ferris_watch::command::ExecResult;

#[test]
fn empty_token_list_is_no_command() {
    assert!(CommandSpec::new(Vec::new()).is_none());
}

#[test]
fn tokens_carry_over_in_order() {
    let tokens = vec![String::from("echo"), String::from("x")];
    let cmd = CommandSpec::new(tokens).unwrap();
    assert_eq!(cmd.len(), 2);
    assert_eq!(cmd.program().as_str(), "echo");
    assert_eq!(cmd.token(0).as_str(), "echo");
    assert_eq!(cmd.token(1).as_str(), "x");
}

#[test]
fn hello_capture_decodes_exactly_every_cycle() {
    // the same capture arrives on every cycle it is run
    let mut cycle: u32 = 0;
    while cycle < 3 {
        let r = ExecResult::from_capture(Some(0), b"hello\n".to_vec());
        assert!(r.success());
        assert_eq!(r.text.as_str(), "hello\n");
        assert_eq!(r.status_line().as_str(), "exit status: 0");
        cycle += 1;
    }
}

#[test]
fn invalid_bytes_decode_with_replacement() {
    let r = ExecResult::from_capture(Some(0), vec![0xff, b'a']);
    assert_eq!(r.text.as_str(), "\u{FFFD}a");
}

#[test]
fn signal_termination_has_its_own_status_line() {
    let r = ExecResult::from_capture(None, Vec::new());
    assert!(!r.success());
    assert_eq!(r.text.as_str(), "");
    assert_eq!(r.status_line().as_str(), "terminated by signal");
}

#[test]
fn failing_exit_codes_are_results_not_errors() {
    let r = ExecResult::from_capture(Some(7), b"out".to_vec());
    assert!(!r.success());
    assert_eq!(r.text.as_str(), "out");
    assert_eq!(r.status_line().as_str(), "exit status: 7");

    let r = ExecResult::from_capture(Some(-3), Vec::new());
    assert!(!r.success());
    assert_eq!(r.status_line().as_str(), "exit status: -3");
}
