use anteater::error::Error;
use anteater::process::{ProcessState, StopReason};
use anteater::sdb::{first_word_of, next_command, parse_command, stop_message, SdbCommand};

#[test]
fn continue_and_its_prefixes_parse() {
    assert_eq!(parse_command("continue").unwrap(), SdbCommand::Continue);
    assert_eq!(parse_command("c").unwrap(), SdbCommand::Continue);
    assert_eq!(parse_command("cont").unwrap(), SdbCommand::Continue);
    assert_eq!(parse_command("  cont  extra args").unwrap(), SdbCommand::Continue);
    assert_eq!(parse_command("\tc\n").unwrap(), SdbCommand::Continue);
}

#[test]
fn unknown_commands_are_refused() {
    for line in ["continuez", "step", "x", "C", "cc"] {
        match parse_command(line) {
            Err(Error::InvalidArg(m)) => assert_eq!(m, "Unknown command"),
            other => panic!("{line:?} gave {other:?}"),
        }
    }
    // Only the first word counts.
    assert_eq!(parse_command("conti nue_no").unwrap(), SdbCommand::Continue);
}

#[test]
fn first_word_skips_unicode_white_space() {
    assert_eq!(first_word_of("\u{3000}\u{a0} go on"), "go");
    assert_eq!(first_word_of("word"), "word");
    assert_eq!(first_word_of("   "), "");
    assert_eq!(first_word_of(""), "");
}

#[test]
fn empty_line_repeats_last_command() {
    assert_eq!(next_command("continue", ""), ("continue".to_string(), false));
    assert_eq!(next_command("continue", "c"), ("c".to_string(), true));
    assert_eq!(next_command("", ""), (String::new(), false));
}

#[test]
fn stop_messages() {
    let exited = StopReason { state: ProcessState::Exited, info: 0 };
    assert_eq!(stop_message(4242, exited), "Process 4242 exited with status 0");
    let killed = StopReason { state: ProcessState::Terminated, info: 9 };
    assert_eq!(stop_message(17, killed), "Process 17 terminated with signal 9");
    let stopped = StopReason { state: ProcessState::Stopped, info: 5 };
    assert_eq!(stop_message(-3, stopped), "Process -3 stopped with signal 5");
    let running = StopReason { state: ProcessState::Running, info: 0 };
    assert_eq!(stop_message(1, running), "Process 1 Unknown stop reason");
}
