use stratum::filesystem::{FilesystemError, IoFailureKind, RecordVersion, VirtualPath, VirtualPathError};

#[test]
fn invalid_path_error_does_not_include_host_paths() {
    let source = VirtualPathError;
    let error = FilesystemError::invalid_virtual_path("/tmp/secret", source);
    let text = error.text();

    assert_eq!(text, "invalid virtual path /tmp/secret");
    assert!(!format!("{error:?}").contains("/Users/"));
}

#[test]
fn not_found_mentions_only_virtual_path() {
    let path = VirtualPath::parse("/missing.txt").expect("path is valid");
    let error = FilesystemError::NotFound { path };

    assert_eq!(error.text(), "path not found /missing.txt");
}

#[test]
fn virtual_paths_reject_relative_dot_and_empty_segments() {
    assert!(VirtualPath::parse("/").is_ok());
    assert!(VirtualPath::parse("/a/b.txt").is_ok());
    assert!(VirtualPath::parse("/a/.hidden").is_ok());
    assert!(VirtualPath::parse("").is_err());
    assert!(VirtualPath::parse("a/b").is_err());
    assert!(VirtualPath::parse("/a//b").is_err());
    assert!(VirtualPath::parse("/a/").is_err());
    assert!(VirtualPath::parse("/a/./b").is_err());
    assert!(VirtualPath::parse("/a/..").is_err());
    assert_eq!(VirtualPath::parse("/a/b.txt").unwrap().as_str(), "/a/b.txt");
}

#[test]
fn local_io_kinds_map_to_their_own_variants() {
    let p = || VirtualPath::parse("/x").unwrap();
    assert!(matches!(FilesystemError::local_io("read", p(), IoFailureKind::NotFound), FilesystemError::NotFound { .. }));
    assert!(matches!(FilesystemError::local_io("read", p(), IoFailureKind::AlreadyExists), FilesystemError::AlreadyExists { .. }));
    assert!(matches!(FilesystemError::local_io("read", p(), IoFailureKind::PermissionDenied), FilesystemError::PermissionDenied { .. }));
    assert!(matches!(FilesystemError::local_io("read", p(), IoFailureKind::DirectoryNotEmpty), FilesystemError::DirectoryNotEmpty { .. }));
    let other = FilesystemError::local_io("read", p(), IoFailureKind::Other);
    assert_eq!(other.text(), "local filesystem operation failed read /x");
}

#[test]
fn error_texts_name_the_virtual_path() {
    let p = || VirtualPath::parse("/f").unwrap();
    assert_eq!(FilesystemError::UnsupportedCas.text(), "filesystem backend does not support compare-and-swap");
    assert_eq!(FilesystemError::VersionMismatch { path: p() }.text(), "record version mismatch /f");
    assert_eq!(FilesystemError::NotADirectory { path: p() }.text(), "path is not a directory /f");
    assert_eq!(FilesystemError::ContentTooLarge { path: p() }.text(), "content too large /f");
    let _ = RecordVersion::from_backend(7);
}
