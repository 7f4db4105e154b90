use vox_golem::runtime_log::{
    append_runtime_log_line, append_tts_runtime_log_line, sanitize_log_message,
    sanitize_log_subsystem, FrontendRuntimeDiagnosticKind, RUNTIME_LOG_MESSAGE_MAX_CHARS,
};

#[test]
fn append_tts_runtime_log_line_writes_tts_tagged_entry() {
    let entry = append_tts_runtime_log_line(true, 17, "runtime initialized successfully")
        .expect("an enabled log writes");

    assert!(entry.contains("[tts] runtime initialized successfully"));
    assert!(entry.starts_with("17 "));
}

#[test]
fn append_tts_runtime_log_line_skips_file_when_disabled() {
    assert_eq!(append_tts_runtime_log_line(false, 17, "runtime initialized successfully"), None);
}

#[test]
fn runtime_log_message_escapes_line_breaks_and_caps_length() {
    let message = format!("first\r\n{}", "x".repeat(RUNTIME_LOG_MESSAGE_MAX_CHARS));

    let sanitized = sanitize_log_message(&message);

    assert!(sanitized.starts_with("first\\r\\n"));
    assert!(sanitized.ends_with("…[truncated]"));
    assert!(!sanitized.contains('\n'));
    assert!(!sanitized.contains('\r'));
}

#[test]
fn log_lines_hold_time_subsystem_and_message() {
    assert_eq!(
        append_runtime_log_line(true, 1_700_000_000_123, "audio", "line\nbreak"),
        Some(String::from("1700000000123 [audio] line\\nbreak"))
    );
    assert_eq!(sanitize_log_subsystem("runtime-control"), "runtime-control");
    assert_eq!(
        FrontendRuntimeDiagnosticKind::RuntimeControl.as_log_subsystem(),
        "runtime-control"
    );
    assert_eq!(FrontendRuntimeDiagnosticKind::FrontendNotice.as_log_subsystem(), "frontend");
}
