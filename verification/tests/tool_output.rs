use stratum::search::{parse_search_input, search_lines, DEFAULT_MAX_RESULTS};
use stratum::tool_output::{entry_output, file_metadata_output, list_dir_output, match_output, search_output};
use stratum::filesystem::{FilesystemError, VirtualPath};
use stratum::tool_output::apply_patch_result;
use stratum::tools::{failed_output, filesystem_error_output, ApplyPatchError};
use stratum::tools::{FileType, ToolError};

#[test]
fn directory_listings_report_entries_in_listing_order() {
    let entries = vec![
        entry_output("a/b.txt", "b.txt", FileType::File),
        entry_output("a/c", "c", FileType::Directory),
    ];
    assert_eq!(entries[0], "{\"file_name\":\"b.txt\",\"file_type\":\"file\",\"path\":\"a/b.txt\"}");
    assert_eq!(
        list_dir_output("a", &entries),
        format!("{{\"entries\":[{},{}],\"path\":\"a\"}}", entries[0], entries[1])
    );
    assert_eq!(list_dir_output(".", &Vec::new()), "{\"entries\":[],\"path\":\".\"}");
}

#[test]
fn metadata_reports_kind_and_length() {
    assert_eq!(
        file_metadata_output("x", FileType::Symlink, 12),
        "{\"file_type\":\"symlink\",\"len\":12,\"path\":\"x\"}"
    );
}

#[test]
fn search_results_name_file_line_and_offsets() {
    let found = search_lines("say \"hi\"", "hi", 10, 0);
    let one = match_output("notes.txt", &found[0]);
    assert_eq!(
        one,
        "{\"line_number\":1,\"line_text\":\"say \\\"hi\\\"\",\"match_end\":7,\"match_start\":5,\"path\":\"notes.txt\"}"
    );
    assert_eq!(
        search_output(".", "hi", &vec![one.clone()]),
        format!("{{\"matches\":[{one}],\"path\":\".\",\"query\":\"hi\"}}")
    );
}

#[test]
fn search_arguments_are_checked() {
    let request = parse_search_input("docs", "needle".to_string(), None).unwrap();
    assert_eq!(request.path.as_str(), "/docs");
    assert_eq!(request.max_results, DEFAULT_MAX_RESULTS);
    assert_eq!(parse_search_input("/", "x".to_string(), Some(3)).unwrap().max_results, 3);
    assert!(matches!(
        parse_search_input("docs", String::new(), None),
        Err(ToolError::InvalidArgument { name: "query", reason: "must not be empty" })
    ));
    assert!(matches!(
        parse_search_input("", "x".to_string(), None),
        Err(ToolError::InvalidPath { .. })
    ));
    assert!(matches!(
        parse_search_input("a//b", "x".to_string(), None),
        Err(ToolError::InvalidPath { .. })
    ));
}

#[test]
fn patch_results_report_status_and_output() {
    assert_eq!(
        apply_patch_result(true, "created a.txt"),
        "{\"output\":\"created a.txt\",\"status\":\"completed\"}"
    );
    let missing = ApplyPatchError::MissingDiff { operation: "update_file".to_string() };
    assert_eq!(failed_output(&missing, "a.txt"), "patch diff is required for update_file");
    let mismatch = ApplyPatchError::ContextMismatch { path: VirtualPath::parse("/a.txt").unwrap() };
    assert_eq!(failed_output(&mismatch, "a.txt"), "patch context did not match a.txt");
    let absent = FilesystemError::NotFound { path: VirtualPath::parse("/a.txt").unwrap() };
    assert_eq!(filesystem_error_output(&absent, "a.txt"), "file not found at path 'a.txt'");
    let failed = ApplyPatchError::Filesystem {
        source: FilesystemError::AlreadyExists { path: VirtualPath::parse("/a.txt").unwrap() },
    };
    assert_eq!(failed_output(&failed, "a.txt"), "file already exists at path 'a.txt'");
    assert_eq!(
        apply_patch_result(false, "patch context did not match a.txt"),
        "{\"output\":\"patch context did not match a.txt\",\"status\":\"failed\"}"
    );
}
