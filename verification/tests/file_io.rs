use svg_commands::file_io::{
    read_failure_message, read_raw_file, read_svg_file, save_tsx_file, write_failure_message,
    FsModel,
};

#[test]
fn test_read_svg_file_rejects_non_svg() {
    let fs = FsModel::new();
    let result = read_svg_file(&fs, "test.txt".to_string());
    assert!(result.is_err());
    assert!(result.unwrap_err().contains("Only SVG files"));
}

#[test]
fn test_read_svg_file_rejects_missing_file() {
    let fs = FsModel::new();
    let result = read_svg_file(&fs, "/nonexistent/path.svg".to_string());
    assert!(result.is_err());
    assert!(result.unwrap_err().contains("File not found"));
}

#[test]
fn test_save_tsx_file_rejects_non_tsx() {
    let mut fs = FsModel::new();
    let result = save_tsx_file(&mut fs, "test.js".to_string(), "content".to_string());
    assert!(result.is_err());
    assert!(result.unwrap_err().contains(".tsx extension"));
}

#[test]
fn read_svg_file_returns_content_verbatim() {
    let mut fs = FsModel::new();
    fs.preload("/pictures/logo.svg".to_string(), "<svg></svg>".to_string());
    let result = read_svg_file(&fs, "/pictures/logo.svg".to_string());
    assert_eq!(result.unwrap(), "<svg></svg>");
}

#[test]
fn read_svg_file_accepts_uppercase_extension() {
    let mut fs = FsModel::new();
    fs.preload("/pictures/LOGO.SVG".to_string(), "<svg/>".to_string());
    let result = read_svg_file(&fs, "/pictures/LOGO.SVG".to_string());
    assert_eq!(result.unwrap(), "<svg/>");
}

#[test]
fn read_svg_file_checks_extension_before_existence() {
    // The extension check comes first: a missing non-svg path reports the
    // extension failure, not the missing file.
    let fs = FsModel::new();
    let result = read_svg_file(&fs, "/nonexistent/path.txt".to_string());
    assert_eq!(result.unwrap_err(), "Only SVG files are allowed");
}

#[test]
fn save_tsx_file_round_trips_content() {
    let mut fs = FsModel::new();
    let content = "export const Icon = () => <svg/>;";
    let saved = save_tsx_file(&mut fs, "/out/Icon.tsx".to_string(), content.to_string());
    assert!(saved.is_ok());
    let back = read_raw_file(&fs, "/out/Icon.tsx".to_string());
    assert_eq!(back.unwrap(), content);
}

#[test]
fn save_tsx_file_overwrites_in_place() {
    let mut fs = FsModel::new();
    save_tsx_file(&mut fs, "/out/App.tsx".to_string(), "first".to_string()).unwrap();
    save_tsx_file(&mut fs, "/out/App.tsx".to_string(), "second".to_string()).unwrap();
    assert_eq!(read_raw_file(&fs, "/out/App.tsx".to_string()).unwrap(), "second");
}

#[test]
fn save_tsx_file_accepts_mixed_case_extension() {
    let mut fs = FsModel::new();
    let saved = save_tsx_file(&mut fs, "/out/App.TsX".to_string(), "x".to_string());
    assert!(saved.is_ok());
}

#[test]
fn rejected_save_leaves_store_unmodified() {
    let mut fs = FsModel::new();
    fs.preload("/out/App.tsx".to_string(), "kept".to_string());
    let rejected = save_tsx_file(&mut fs, "/out/App.js".to_string(), "dropped".to_string());
    assert!(rejected.is_err());
    assert_eq!(read_raw_file(&fs, "/out/App.tsx".to_string()).unwrap(), "kept");
    assert!(read_raw_file(&fs, "/out/App.js".to_string()).is_none());
}

#[test]
fn written_file_cannot_be_read_back_through_the_svg_policy() {
    // The write policy (.tsx) and the read policy (.svg) exclude each
    // other, so the written path itself is rejected by the read command.
    let mut fs = FsModel::new();
    save_tsx_file(&mut fs, "/out/Icon.tsx".to_string(), "body".to_string()).unwrap();
    let through_policy = read_svg_file(&fs, "/out/Icon.tsx".to_string());
    assert_eq!(through_policy.unwrap_err(), "Only SVG files are allowed");
    // Only the raw, policy-free read reaches the content.
    assert_eq!(read_raw_file(&fs, "/out/Icon.tsx".to_string()).unwrap(), "body");
}

#[test]
fn read_raw_file_misses_absent_path() {
    let fs = FsModel::new();
    assert!(read_raw_file(&fs, "/anything.bin".to_string()).is_none());
}

#[test]
fn io_failure_messages_wrap_the_detail() {
    assert_eq!(
        read_failure_message("permission denied"),
        "Failed to read file: permission denied"
    );
    assert_eq!(
        write_failure_message("disk full"),
        "Failed to write file: disk full"
    );
}
