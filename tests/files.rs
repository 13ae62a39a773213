use creamhack::config::Config;
use creamhack::extract::{extract_file, format_of_extension, is_directory_entry, ArchiveFormat, ExtractError};

#[test]
fn zip_is_extracted() {
    let job = extract_file("/tmp/w/repo.zip", "/tmp/w", "repo").expect("zip archive");
    assert_eq!(job.format, ArchiveFormat::Zip);
    assert_eq!(job.archive, "/tmp/w/repo.zip");
    assert_eq!(job.target_dir, "/tmp/w/repo");
}

#[test]
fn other_extensions_are_refused() {
    assert_eq!(
        extract_file("/tmp/w/repo.tar", "/tmp/w", "repo"),
        Err(ExtractError::Unsupported("tar".to_string()))
    );
    assert_eq!(extract_file("/tmp/w/repo", "/tmp/w", "repo"), Err(ExtractError::NoExtension));
    assert_eq!(format_of_extension(Some("zip")), Ok(ArchiveFormat::Zip));
    assert_eq!(format_of_extension(None), Err(ExtractError::NoExtension));
}

#[test]
fn directory_entries() {
    assert!(is_directory_entry("a/b/"));
    assert!(!is_directory_entry("a/b"));
    assert!(!is_directory_entry(""));
}

#[test]
fn config_keeps_archive_when_not_extracting() {
    let mut c = Config { extract_chall_file: false, keep_chall_file: false, experimental_features: true };
    c.validate_config();
    assert!(c.keep_chall_file);
    let mut d = Config { extract_chall_file: true, keep_chall_file: false, experimental_features: false };
    d.validate_config();
    assert!(!d.keep_chall_file);
    let e = Config::default_config();
    assert!(e.extract_chall_file && e.keep_chall_file && !e.experimental_features);
}
