use bettershot::{
    capture_outcome, capture_tool_args, clipboard_script, permission_check_failure, permission_probe_verdict, probe_tool_args,
    reports_permission_problem, CaptureGuard, CaptureMode,
};

#[test]
fn second_capture_is_refused_while_first_runs() {
    let mut guard = CaptureGuard::new();
    assert!(guard.try_begin(false).is_ok());
    assert!(guard.is_busy());
    let err = guard.try_begin(false).unwrap_err();
    assert_eq!(err, "Another screenshot capture is already in progress");
    assert!(guard.is_busy());
    guard.finish();
    assert!(!guard.is_busy());
    assert!(guard.try_begin(false).is_ok());
}

#[test]
fn capture_is_refused_while_tool_runs_elsewhere() {
    let mut guard = CaptureGuard::new();
    assert!(guard.try_begin(true).is_err());
    assert!(!guard.is_busy());
}

#[test]
fn permission_words_are_recognised() {
    assert!(reports_permission_problem("could not create image: permission error"));
    assert!(reports_permission_problem("access denied"));
    assert!(reports_permission_problem("process is not authorized"));
    assert!(!reports_permission_problem("user cancelled"));
    assert!(!reports_permission_problem(""));
}

#[test]
fn probe_verdict_follows_probe_text() {
    assert!(permission_probe_verdict("").is_ok());
    let err = permission_probe_verdict("screencapture: denied").unwrap_err();
    assert_eq!(err, "Screen Recording permission not granted");
}

#[test]
fn refused_probe_is_reported_with_settings_hint() {
    let err = permission_probe_verdict("permission missing").unwrap_err();
    assert_eq!(
        permission_check_failure(&err),
        "Permission check failed: Screen Recording permission not granted. Please ensure Screen Recording permission is granted in System Settings > Privacy & Security > Screen Recording."
    );
}

#[test]
fn tool_arguments_per_mode() {
    assert_eq!(
        capture_tool_args(CaptureMode::Interactive, "/tmp/a.png"),
        vec!["-i", "-x", "/tmp/a.png"]
    );
    assert_eq!(
        capture_tool_args(CaptureMode::Window, "/tmp/a.png"),
        vec!["-w", "-x", "/tmp/a.png"]
    );
    assert_eq!(
        capture_tool_args(CaptureMode::Fullscreen, "/tmp/a.png"),
        vec!["-x", "/tmp/a.png"]
    );
}

#[test]
fn outcome_of_successful_capture() {
    let o = capture_outcome(true, true, "", "/tmp/s.png".to_string());
    assert_eq!(o.result, Ok("/tmp/s.png".to_string()));
    assert!(!o.remove_file);
}

#[test]
fn outcome_without_file_is_cancelled() {
    let o = capture_outcome(true, false, "", "/tmp/s.png".to_string());
    assert_eq!(o.result, Err("Screenshot was cancelled or failed".to_string()));
    assert!(!o.remove_file);
}

#[test]
fn outcome_of_failed_exit_removes_partial_file() {
    let o = capture_outcome(false, true, "", "/tmp/s.png".to_string());
    assert_eq!(o.result, Err("Screenshot was cancelled or failed".to_string()));
    assert!(o.remove_file);
}

#[test]
fn outcome_of_refused_permission() {
    let o = capture_outcome(false, false, "not authorized to capture screen", "/tmp/s.png".to_string());
    assert_eq!(
        o.result,
        Err("Screen Recording permission required. Please grant permission in System Settings > Privacy & Security > Screen Recording and restart the app.".to_string())
    );
    assert!(!o.remove_file);
}

#[test]
fn clipboard_script_embeds_path() {
    assert_eq!(
        clipboard_script("/tmp/x.png"),
        "set the clipboard to (read (POSIX file \"/tmp/x.png\") as «class PNGf»)"
    );
}

#[test]
fn probe_arguments() {
    assert_eq!(probe_tool_args("/tmp/p.png"), vec!["-x", "-T", "0", "/tmp/p.png"]);
}
