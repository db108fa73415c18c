use rclone_drop_portal::command::{build_args, destination_arg, has_upload_remote, TransferConfig};
use rclone_drop_portal::text::to_decimal;
use rclone_drop_portal::uploader::BulkUploader;

fn config(source: &str) -> TransferConfig {
    TransferConfig {
        source: source.to_string(),
        destination: "backups".to_string(),
        parallel_transfers: 4,
        chunk_size: "128M".to_string(),
    }
}

#[test]
fn bulk_uploader_arguments_are_exact() {
    let uploader = BulkUploader::new("/data/photos".to_string());
    let expected: Vec<String> = [
        "copy",
        "/data/photos",
        "gdrive:uploads/photos",
        "--transfers",
        "16",
        "--checkers",
        "16",
        "--buffer-size",
        "32M",
        "--drive-chunk-size",
        "256M",
        "--drive-upload-cutoff",
        "256M",
        "--fast-list",
        "--no-check-dest",
        "--no-update-modtime",
        "--drive-use-trash=false",
        "--low-level-retries",
        "10",
        "--retries",
        "5",
        "--stats",
        "2s",
        "--stats-one-line",
        "--log-level",
        "INFO",
        "--progress",
    ]
    .iter()
    .map(|s| s.to_string())
    .collect();
    assert_eq!(uploader.command_args(), expected);
    assert_eq!(uploader.destination(), "gdrive:uploads/photos");
}

#[test]
fn command_builder_is_deterministic() {
    let a = config("/home/me/projects");
    let b = config("/home/me/projects");
    assert_eq!(a.command_args(), a.command_args());
    assert_eq!(a.command_args(), b.command_args());
}

#[test]
fn destination_ends_with_source_folder_name() {
    let c = config("/home/me/projects");
    let args = c.command_args();
    assert_eq!(args[2], "gdrive:backups/projects");
    assert!(args[2].ends_with("projects"));
    assert_eq!(args[4], "4");
    assert_eq!(args[10], "128M");
    assert_eq!(args[12], "128M");
}

#[test]
fn trailing_separator_keeps_folder_name() {
    assert_eq!(config("/home/me/projects/").folder_name(), "projects");
    assert_eq!(config("relative/dir").folder_name(), "dir");
}

#[test]
fn path_without_name_uploads_into_upload_folder() {
    assert_eq!(config("/").folder_name(), "upload");
    assert_eq!(config("/home/..").folder_name(), "upload");
    assert_eq!(config("/").destination_arg(), "gdrive:backups/upload");
}

#[test]
fn destination_argument_joins_its_parts() {
    let d = destination_arg(&"a/b".to_string(), &"c".to_string());
    assert_eq!(d, "gdrive:a/b/c");
    let args = build_args(&config("/x/y"), &"named".to_string());
    assert_eq!(args[2], "gdrive:backups/named");
    assert_eq!(args.len(), 27);
}

#[test]
fn decimal_rendering() {
    assert_eq!(to_decimal(0), "0");
    assert_eq!(to_decimal(7), "7");
    assert_eq!(to_decimal(10), "10");
    assert_eq!(to_decimal(1234567), "1234567");
    assert_eq!(to_decimal(u64::MAX), "18446744073709551615");
}

#[test]
fn upload_remote_must_be_listed() {
    let listed: Vec<String> = vec!["dropbox:".to_string(), "gdrive:".to_string()];
    assert!(has_upload_remote(&listed));
    let missing: Vec<String> = vec!["dropbox:".to_string(), "mygdrive:".to_string()];
    assert!(!has_upload_remote(&missing));
    assert!(!has_upload_remote(&Vec::new()));
}
