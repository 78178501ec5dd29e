use toodle_ffi::log::{d, log_action, LogAction, LogSink, LOG_PRIORITY_DEBUG};

#[test]
fn default_d_does_nothing() {
    d("anything");
}

#[test]
fn disabled_sink_does_nothing() {
    assert!(matches!(log_action(LogSink::Disabled, "anything"), LogAction::Nothing));
}

#[test]
fn standard_error_sink_writes_a_line() {
    match log_action(LogSink::StandardError, "hello") {
        LogAction::WriteStandardError(line) => assert_eq!(line, "hello\n"),
        other => panic!("unexpected action {:?}", other),
    }
}

#[test]
fn standard_error_sink_keeps_empty_message() {
    match log_action(LogSink::StandardError, "") {
        LogAction::WriteStandardError(line) => assert_eq!(line, "\n"),
        other => panic!("unexpected action {:?}", other),
    }
}

#[test]
fn os_log_sink_tags_message_at_debug() {
    match log_action(LogSink::OsLog, "hello") {
        LogAction::WriteOsLog { priority, tag, message } => {
            assert_eq!(priority, LOG_PRIORITY_DEBUG);
            assert_eq!(priority, 3);
            assert_eq!(tag.as_bytes(), b"RustyToodle");
            assert_eq!(tag.into_bytes_with_nul(), b"RustyToodle\0".to_vec());
            assert_eq!(message.into_bytes_with_nul(), b"hello\0".to_vec());
        }
        other => panic!("unexpected action {:?}", other),
    }
}
