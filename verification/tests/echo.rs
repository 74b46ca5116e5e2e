use substrate_course::echo::{handle_read, keeps_reading, EchoAction, ReadOutcome, BUFFER_SIZE};

#[test]
fn echo_replies_with_what_was_read() {
    let action = handle_read(ReadOutcome::Received(12));
    assert_eq!(action, EchoAction::Reply(12));
    assert!(keeps_reading(action));
}

#[test]
fn echo_full_and_empty_reads_continue() {
    assert_eq!(handle_read(ReadOutcome::Received(BUFFER_SIZE)), EchoAction::Reply(50));
    let empty = handle_read(ReadOutcome::Received(0));
    assert_eq!(empty, EchoAction::Reply(0));
    assert!(keeps_reading(empty));
}

#[test]
fn echo_failed_read_shuts_down() {
    let action = handle_read(ReadOutcome::Failed);
    assert_eq!(action, EchoAction::Shutdown);
    assert!(!keeps_reading(action));
}
