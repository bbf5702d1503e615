use codecurator::downloader::{
    archive_file_name, archive_path, archive_url, branch, etag_value, gather_downloads, same_bytes,
    DownloadError, FetchAction, FetchEvent, FetchState, TagUpdate, etag_record_path, tag_dir,
};

#[test]
fn archive_url_exact() {
    assert_eq!(
        archive_url("microsoft", "vscode", "main"),
        "https://github.com/microsoft/vscode/archive/refs/heads/main.zip"
    );
    assert_eq!(
        archive_url("vercel", "next.js", "master"),
        "https://github.com/vercel/next.js/archive/refs/heads/master.zip"
    );
}

#[test]
fn archive_file_name_and_path() {
    assert_eq!(archive_file_name("rust-lang", "rust"), "rust-lang-rust.zip");
    assert_eq!(archive_path("./zip/repos", "rust-lang", "rust"), "./zip/repos/rust-lang-rust.zip");
    assert_eq!(archive_path("./zip/repos/", "a", "b"), "./zip/repos/a-b.zip");
}

#[test]
fn etag_value_strips_quotes() {
    assert_eq!(etag_value("\"abc123\""), "abc123");
    assert_eq!(etag_value("W/\"weak\""), "W/\"weak");
    assert_eq!(etag_value("\"\"\"x\"\""), "x");
    assert_eq!(etag_value("\"\""), "");
    assert_eq!(etag_value("plain"), "plain");
}

#[test]
fn branches_main_then_master() {
    assert_eq!(branch(0), "main");
    assert_eq!(branch(1), "master");
}

fn branch_of(action: &FetchAction) -> Option<String> {
    match action {
        FetchAction::Probe { branch } => Some(branch.clone()),
        FetchAction::WaitThenProbe { branch } => Some(branch.clone()),
        _ => None,
    }
}

fn probed(remote: Option<&str>, stored: Option<&str>, exists: bool) -> FetchEvent {
    FetchEvent::Probed {
        remote_etag: remote.map(|t| t.to_string()),
        stored_etag: stored.map(|t| t.to_string()),
        archive_exists: exists,
    }
}

#[test]
fn fetch_keeps_current_archive() {
    let (state, action) = FetchState::start();
    assert_eq!(branch_of(&action).as_deref(), Some("main"));
    let event = probed(Some("abc"), Some("abc"), true);
    assert!(state.expects(&event));
    let (state, action) = state.step(event);
    assert_eq!(state, FetchState::Finished { ok: true });
    assert!(matches!(action, FetchAction::Finish { ok: true, tag: TagUpdate::Keep }));
}

#[test]
fn readme_changed_archive_is_fetched_again() {
    // The address answers with a new tag: the stored copy is out of date.
    let (state, _) = FetchState::start();
    let (state, action) = state.step(probed(Some("new"), Some("old"), true));
    assert!(matches!(action, FetchAction::Fetch));
    let (state, action) =
        state.step(FetchEvent::Fetched { archive_exists: true, same_content: false });
    assert!(matches!(action, FetchAction::Write));
    let (state, action) = state.step(FetchEvent::Written);
    assert_eq!(state, FetchState::Finished { ok: true });
    match action {
        FetchAction::Finish { ok: true, tag: TagUpdate::Record { etag } } => assert_eq!(etag, "new"),
        other => panic!("unexpected {:?}", other),
    }
}

#[test]
fn fetch_without_recorded_tag_fetches() {
    for event in [probed(Some("t"), None, true), probed(None, None, true), probed(Some("t"), Some("t"), false)] {
        let (state, _) = FetchState::start();
        let (_, action) = state.step(event);
        assert!(matches!(action, FetchAction::Fetch));
    }
}

#[test]
fn fetch_keeps_identical_content_and_records_tag() {
    let (state, _) = FetchState::start();
    let (state, _) = state.step(probed(Some("t1"), None, true));
    let (state, action) =
        state.step(FetchEvent::Fetched { archive_exists: true, same_content: true });
    assert_eq!(state, FetchState::Finished { ok: true });
    match action {
        FetchAction::Finish { ok: true, tag: TagUpdate::Record { etag } } => assert_eq!(etag, "t1"),
        other => panic!("unexpected {:?}", other),
    }
}

#[test]
fn fetch_without_remote_tag_clears_record() {
    let (state, _) = FetchState::start();
    let (state, _) = state.step(probed(None, Some("old"), false));
    let (state, _) = state.step(FetchEvent::Fetched { archive_exists: false, same_content: false });
    let (_, action) = state.step(FetchEvent::Written);
    assert!(matches!(action, FetchAction::Finish { ok: true, tag: TagUpdate::Clear }));
}

#[test]
fn fetch_falls_back_to_master_once() {
    let (state, _) = FetchState::start();
    let (state, _) = state.step(probed(None, None, false));
    let (state, action) = state.step(FetchEvent::Failed);
    assert_eq!(state, FetchState::Probing { attempt: 1 });
    assert!(matches!(action, FetchAction::WaitThenProbe { .. }));
    assert_eq!(branch_of(&action).as_deref(), Some("master"));
    let (state, _) = state.step(probed(None, None, false));
    let (state, action) = state.step(FetchEvent::Failed);
    assert_eq!(state, FetchState::Finished { ok: false });
    assert!(matches!(action, FetchAction::Finish { ok: false, tag: TagUpdate::Keep }));
}

#[test]
fn fetch_write_failure_retries() {
    let (state, _) = FetchState::start();
    let (state, _) = state.step(probed(None, None, false));
    let (state, _) = state.step(FetchEvent::Fetched { archive_exists: false, same_content: false });
    let (state, action) = state.step(FetchEvent::Failed);
    assert_eq!(state, FetchState::Probing { attempt: 1 });
    assert_eq!(branch_of(&action).as_deref(), Some("master"));
}

#[test]
fn fetch_expects_only_answers() {
    let (state, _) = FetchState::start();
    assert!(!state.expects(&FetchEvent::Written));
    assert!(!state.expects(&FetchEvent::Failed));
    assert!(!FetchState::Finished { ok: true }.expects(&FetchEvent::Written));
}

#[test]
fn fetch_finishes_within_six_events() {
    let (mut state, _) = FetchState::start();
    let mut steps = 0;
    loop {
        let event = match state {
            FetchState::Probing { .. } => probed(None, None, false),
            FetchState::Fetching { .. } => FetchEvent::Fetched { archive_exists: false, same_content: false },
            FetchState::Writing { .. } => FetchEvent::Failed,
            FetchState::Finished { .. } => break,
        };
        let (next, _) = state.step(event);
        state = next;
        steps += 1;
    }
    assert_eq!(steps, 6);
    assert_eq!(state, FetchState::Finished { ok: false });
}

#[test]
fn etag_record_path_value() {
    assert_eq!(etag_record_path("./zip/repos", "a", "b"), "./zip/repos.etags/a-b.zip.etag");
    assert_eq!(etag_record_path("./zip/repos//", "a", "b"), "./zip/repos.etags/a-b.zip.etag");
    assert_eq!(tag_dir("/data/zip/tt09"), "/data/zip/tt09.etags");
}

#[test]
fn gather_downloads_keeps_successes_in_order() {
    let r = gather_downloads(vec![
        Some("a.zip".to_string()),
        None,
        Some("b.zip".to_string()),
    ]);
    match r {
        Ok(files) => assert_eq!(files, vec!["a.zip".to_string(), "b.zip".to_string()]),
        Err(e) => panic!("unexpected {:?}", e),
    }
}

#[test]
fn gather_downloads_without_success_is_validation_error() {
    for results in [vec![], vec![None, None]] {
        match gather_downloads(results) {
            Err(DownloadError::Validation { message }) => {
                assert_eq!(message, "No repo was downloaded")
            }
            other => panic!("unexpected {:?}", other),
        }
    }
}

#[test]
fn same_bytes_values() {
    assert!(same_bytes(b"abc", b"abc"));
    assert!(!same_bytes(b"abc", b"abd"));
    assert!(!same_bytes(b"abc", b"ab"));
    assert!(same_bytes(b"", b""));
}
