use rclone_drop_portal::status::{report_outcome, Phase, ProcessOutcome, UploadState};

fn exited(success: bool, stderr: &str) -> ProcessOutcome {
    ProcessOutcome::Exited { success, stderr: stderr.to_string() }
}

#[test]
fn fresh_state_is_idle() {
    let s = UploadState::new();
    assert_eq!(s.phase(), Phase::Idle);
    assert!(!s.is_uploading());
    assert_eq!(s.total_files(), 0);
    assert_eq!(s.processed_files(), 0);
    assert_eq!(s.current_file(), "");
    assert_eq!(s.status_message(), "Ready to upload");
    assert_eq!(s.progress_label(), None);
}

#[test]
fn successful_run_reports_destination_and_count() {
    let mut s = UploadState::new();
    assert!(s.request_start());
    assert!(s.is_uploading());
    assert_eq!(s.phase(), Phase::Counting);
    assert_eq!(s.status_message(), "Counting files...");
    assert!(s.finish_counting(3));
    assert!(s.is_uploading());
    assert_eq!(s.status_message(), "Uploading 3 files...");
    assert_eq!(s.progress_label(), Some("0/3 files".to_string()));
    let dest = "gdrive:uploads/photos".to_string();
    assert!(s.finish_upload(&dest, &exited(true, "")));
    assert!(!s.is_uploading());
    assert_eq!(s.phase(), Phase::Done);
    assert_eq!(s.processed_files(), 3);
    assert_eq!(s.status_message(), "Successfully uploaded 3 files to gdrive:uploads/photos");
    assert!(s.status_message().contains("gdrive:uploads/photos"));
    assert!(s.status_message().contains('3'));
    assert_eq!(s.progress_label(), Some("3/3 files".to_string()));
}

#[test]
fn failed_run_shows_tool_error_text() {
    let mut s = UploadState::new();
    assert!(s.request_start());
    assert!(s.finish_counting(10));
    let dest = "gdrive:uploads/photos".to_string();
    assert!(s.finish_upload(&dest, &exited(false, "quota exceeded")));
    assert!(!s.is_uploading());
    assert_eq!(s.phase(), Phase::Failed);
    assert_eq!(s.processed_files(), 0);
    assert_eq!(s.status_message(), "Upload to gdrive:uploads/photos failed: quota exceeded");
    assert!(s.status_message().contains("quota exceeded"));
}

#[test]
fn failed_run_without_error_text_gives_generic_message() {
    let r = report_outcome(5, &"gdrive:x/y".to_string(), &exited(false, ""));
    assert_eq!(r, Err("Upload to gdrive:x/y failed".to_string()));
}

#[test]
fn launch_failure_is_reported() {
    let mut s = UploadState::new();
    assert!(s.request_start());
    assert!(s.finish_counting(1));
    let outcome = ProcessOutcome::LaunchFailed { error: "not found".to_string() };
    assert!(s.finish_upload(&"gdrive:u/f".to_string(), &outcome));
    assert!(!s.is_uploading());
    assert_eq!(s.phase(), Phase::Failed);
    assert_eq!(s.status_message(), "Failed to run rclone for gdrive:u/f: not found");
}

#[test]
fn start_is_refused_while_uploading() {
    let mut s = UploadState::new();
    assert!(s.request_start());
    assert!(!s.request_start());
    assert_eq!(s.phase(), Phase::Counting);
    assert!(s.finish_counting(2));
    assert!(!s.request_start());
    assert!(!s.select_folder(9));
    assert_eq!(s.phase(), Phase::Uploading);
    assert_eq!(s.total_files(), 2);
    assert!(s.finish_upload(&"d".to_string(), &exited(true, "")));
    assert!(s.request_start());
    assert_eq!(s.total_files(), 0);
}

#[test]
fn busy_state_never_shows_a_final_message() {
    let mut s = UploadState::new();
    assert!(s.request_start());
    assert!(s.is_uploading());
    assert!(!s.status_message().starts_with("Successfully"));
    assert!(s.finish_counting(4));
    assert!(s.is_uploading());
    assert!(!s.status_message().contains("failed"));
    assert!(s.finish_upload(&"d".to_string(), &exited(false, "boom")));
    assert!(!s.is_uploading());
}

#[test]
fn out_of_order_transitions_are_ignored() {
    let mut s = UploadState::new();
    assert!(!s.finish_counting(5));
    assert!(!s.finish_upload(&"d".to_string(), &exited(true, "")));
    assert_eq!(s.phase(), Phase::Idle);
    assert_eq!(s.status_message(), "Ready to upload");
}

#[test]
fn selecting_a_folder_shows_its_count() {
    let mut s = UploadState::new();
    assert!(s.select_folder(12));
    assert_eq!(s.phase(), Phase::Ready);
    assert_eq!(s.status_message(), "Selected folder contains 12 files");
    assert_eq!(s.progress_label(), Some("0/12 files".to_string()));
}

#[test]
fn success_report_is_ok() {
    let r = report_outcome(1234, &"gdrive:a/b".to_string(), &exited(true, "ignored"));
    assert_eq!(r, Ok("Successfully uploaded 1234 files to gdrive:a/b".to_string()));
}
