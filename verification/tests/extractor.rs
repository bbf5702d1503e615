use codecurator::downloader::archive_path;
use codecurator::extractor::{
    contains_extension, eligible_extension, extract_path_metadata, get_zip_name, jsonl_path,
    new_record_id, parse_ext, process_valid_file, record_id_from_bytes, summarize_extraction,
    write_mode, ExtractionError, PendingRecord, Record, ScanAction, ScanEvent, ScanState,
    WriteMode, MAX_ENTRY_SIZE,
};
use codecurator::text::{trim, TrimSet};

#[test]
fn test_record_creation() {
    let record = Record {
        text: "fn main() {}".to_string(),
        id: "test-id".to_string(),
        file_extension: ".rs".to_string(),
        category: "programming".to_string(),
        path: "test.rs".to_string(),
        size_in_bytes: 13,
        file_name: "test.rs".to_string(),
        tokens: 5,
    };

    assert_eq!(record.tokens, 5);
    assert_eq!(record.file_extension, ".rs");
}

fn is_uuid_v4(s: &str) -> bool {
    let b: Vec<char> = s.chars().collect();
    b.len() == 36
        && b.iter().enumerate().all(|(i, c)| {
            if [8, 13, 18, 23].contains(&i) {
                *c == '-'
            } else {
                c.is_ascii_hexdigit() && !c.is_ascii_uppercase()
            }
        })
        && b[14] == '4'
        && ['8', '9', 'a', 'b'].contains(&b[19])
}

#[test]
fn process_valid_file_builds_pending_record() {
    let pending = process_valid_file(
        "\n  fn main unknown \t\n",
        "repo-main/src/main.rs",
        &Some("repo-main/src/main.rs".to_string()),
        21,
        ".rs".to_string(),
    )
    .unwrap();
    assert_eq!(pending.text, "fn main unknown");
    assert_eq!(pending.path, "repo-main/src/main.rs");
    assert_eq!(pending.file_name, "main.rs");
    assert_eq!(pending.file_extension, ".rs");
    assert_eq!(pending.size_in_bytes, 21);
    assert!(is_uuid_v4(&pending.id), "{}", pending.id);
    let other = process_valid_file("x", "x", &Some("x".to_string()), 1, ".x".to_string()).unwrap();
    assert_ne!(other.id, pending.id);
    let id = pending.id.clone();
    let record = pending.with_token_count(Some(3), "repo-main/src/main.rs").unwrap();
    assert_eq!(record.tokens, 3);
    assert_eq!(record.category, "programming");
    assert_eq!(record.text, "fn main unknown");
    assert_eq!(record.id, id);
}

#[test]
fn process_valid_file_without_safe_name() {
    match process_valid_file("x", "../evil.rs", &None, 1, ".rs".to_string()) {
        Err(ExtractionError::Validation { message }) => {
            assert_eq!(message, "Cannot safely extract path and filename from ../evil.rs.")
        }
        other => panic!("unexpected {:?}", other),
    }
}

#[test]
fn with_token_count_failure() {
    let pending = PendingRecord {
        text: "t".to_string(),
        id: "i".to_string(),
        file_extension: ".c".to_string(),
        path: "p/f.c".to_string(),
        size_in_bytes: 3,
        file_name: "f.c".to_string(),
    };
    match pending.with_token_count(None, "p/f.c") {
        Err(ExtractionError::Tokenizer { message }) => assert_eq!(message, "Unable to tokenize p/f.c"),
        other => panic!("unexpected {:?}", other),
    }
}

fn inspected(name: Option<&str>, is_file: bool, size: u64) -> ScanEvent {
    ScanEvent::Inspected { enclosed_name: name.map(|n| n.to_string()), is_file, size }
}

#[test]
fn scan_counts_written_records() {
    let types = vec![".rs".to_string()];
    let (state, action) = ScanState::start(4);
    assert_eq!(action, ScanAction::Inspect { index: 0 });
    let (state, action) = state.step(&types, inspected(Some("r/a.rs"), true, 10));
    assert_eq!(action, ScanAction::Process { extension: ".rs".to_string(), mode: WriteMode::Truncate });
    let (state, action) = state.step(&types, ScanEvent::Processed { written: true });
    assert_eq!(action, ScanAction::Inspect { index: 1 });
    let (state, action) = state.step(&types, inspected(Some("r/dir.rs"), false, 0));
    assert_eq!(action, ScanAction::Inspect { index: 2 });
    let (state, action) = state.step(&types, inspected(Some("r/b.rs"), true, 10));
    assert_eq!(action, ScanAction::Process { extension: ".rs".to_string(), mode: WriteMode::Append });
    let (state, _) = state.step(&types, ScanEvent::Processed { written: false });
    let (state, _) = state.step(&types, inspected(Some("r/c.rs"), true, 10));
    let (state, action) = state.step(&types, ScanEvent::Processed { written: true });
    assert_eq!(state, ScanState::Done);
    assert_eq!(action, ScanAction::Finish { count: Some(2) });
}

#[test]
fn scan_unreadable_entry_fails_archive() {
    let types = vec![".rs".to_string()];
    let (state, _) = ScanState::start(2);
    let (state, _) = state.step(&types, inspected(Some("r/a.py"), true, 10));
    assert!(state.expects(&ScanEvent::Unreadable));
    assert!(!state.expects(&ScanEvent::Processed { written: true }));
    let (state, action) = state.step(&types, ScanEvent::Unreadable);
    assert_eq!(state, ScanState::Done);
    assert_eq!(action, ScanAction::Finish { count: None });
}

#[test]
fn scan_empty_archive() {
    let (state, action) = ScanState::start(0);
    assert_eq!(state, ScanState::Done);
    assert_eq!(action, ScanAction::Finish { count: Some(0) });
}

#[test]
fn parse_ext_values() {
    assert_eq!(parse_ext(&Some("rtl/foo.test.sv".to_string())).as_deref(), Some(".sv"));
    assert_eq!(parse_ext(&Some(".gitignore".to_string())).as_deref(), None);
    assert_eq!(parse_ext(&Some("Makefile".to_string())).as_deref(), None);
    assert_eq!(parse_ext(&None).as_deref(), None);
}

#[test]
fn eligible_extension_rules() {
    let types = vec![".rs".to_string(), ".py".to_string()];
    let name = Some("r/src/lib.rs".to_string());
    assert!(contains_extension(&types, &".py".to_string()));
    assert!(!contains_extension(&types, &".c".to_string()));
    assert_eq!(eligible_extension(&name, true, 10, &types).as_deref(), Some(".rs"));
    assert_eq!(eligible_extension(&name, true, MAX_ENTRY_SIZE, &types).as_deref(), Some(".rs"));
    assert_eq!(eligible_extension(&name, true, MAX_ENTRY_SIZE + 1, &types), None);
    assert_eq!(eligible_extension(&name, false, 10, &types), None);
    assert_eq!(eligible_extension(&Some("r/a.c".to_string()), true, 10, &types), None);
    assert_eq!(eligible_extension(&None, true, 10, &types), None);
    assert_eq!(MAX_ENTRY_SIZE, 1 << 17);
}

#[test]
fn zip_name_values() {
    assert_eq!(get_zip_name("./zip/repos/rust-lang-rust.zip").as_deref(), Some("rust-lang-rust"));
    assert_eq!(get_zip_name("z/user-repo_main.zip").as_deref(), Some("user-repo"));
    assert_eq!(get_zip_name("z/a_b_c.zip").as_deref(), Some("a_b"));
    assert_eq!(get_zip_name("/").as_deref(), None);
}

#[test]
fn zip_name_of_downloaded_archive() {
    for (user, repo) in [("microsoft", "vscode"), ("vercel", "next.js"), ("a", "b")] {
        let path = archive_path("./zip/repos", user, repo);
        assert_eq!(get_zip_name(&path), Some(format!("{}-{}", user, repo)));
    }
    let path = archive_path("./zip", "a", "b_c");
    assert_eq!(get_zip_name(&path).as_deref(), Some("a-b"));
}

#[test]
fn path_metadata_values() {
    assert_eq!(
        extract_path_metadata(&Some("r/src/lib.rs".to_string())),
        Some(("r/src/lib.rs".to_string(), "lib.rs".to_string()))
    );
    assert_eq!(extract_path_metadata(&Some("r/..".to_string())), None);
    assert_eq!(extract_path_metadata(&None), None);
}

#[test]
fn jsonl_path_and_write_mode() {
    assert_eq!(jsonl_path("./jsonl/repos", "rust-lang-rust"), "./jsonl/repos/rust-lang-rust.jsonl");
    assert_eq!(write_mode(0), WriteMode::Truncate);
    assert_eq!(write_mode(1), WriteMode::Append);
    assert_eq!(write_mode(7), WriteMode::Append);
}

#[test]
fn summarize_extraction_values() {
    assert_eq!(summarize_extraction(&vec![0, 3, 2]).unwrap(), 5);
    assert_eq!(summarize_extraction(&vec![i64::MAX, -1, 1]).unwrap(), i64::MAX);
    for counts in [vec![], vec![0, 0], vec![3, -3]] {
        match summarize_extraction(&counts) {
            Err(ExtractionError::Validation { message }) => {
                assert_eq!(message, "No repos were extracted.")
            }
            other => panic!("unexpected {:?}", other),
        }
    }
}

#[test]
fn trim_whitespace_like_std() {
    for s in ["  a b  ", "\u{3000}x\u{85}", "", "   ", "\t\n\r y \u{2028}", "\u{200b}z"] {
        assert_eq!(trim(s, TrimSet::Whitespace), s.trim());
        let once = trim(s, TrimSet::Whitespace);
        assert_eq!(trim(&once, TrimSet::Whitespace), once);
    }
}

#[test]
fn record_id_from_bytes_exact() {
    assert_eq!(record_id_from_bytes([0u8; 16]), "00000000-0000-4000-8000-000000000000");
    assert_eq!(record_id_from_bytes([0xffu8; 16]), "ffffffff-ffff-4fff-bfff-ffffffffffff");
    let bytes: [u8; 16] = [
        0x67, 0xe5, 0x50, 0x44, 0x10, 0xb1, 0x42, 0x6f, 0x92, 0x47, 0xbb, 0x68, 0x0e, 0x5f, 0xe0,
        0xc8,
    ];
    assert_eq!(record_id_from_bytes(bytes), "67e55044-10b1-426f-9247-bb680e5fe0c8");
}

#[test]
fn new_record_id_shape() {
    let a = new_record_id().unwrap();
    let b = new_record_id().unwrap();
    assert!(is_uuid_v4(&a), "{}", a);
    assert!(is_uuid_v4(&b), "{}", b);
    assert_ne!(a, b);
}
