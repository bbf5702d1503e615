use codecurator::config::{
    derived_source_dir, derived_source_dir_from, source_name, Command, DedupeConfig,
    DownloadConfig, ExtractionConfig, Roots,
};
use std::path::{Path, PathBuf};

fn roots() -> Roots {
    Roots { bundled: "/opt/codecurator".to_string(), invocation: "/work/run".to_string() }
}

#[test]
fn download_uses_source_stem_for_zip_dir() {
    let cmd = Command::Download {
        source: "sources/tt09.jsonl".to_string(),
        user_agent: None,
        workers: None,
    };
    let roots = roots();

    let config = DownloadConfig::from_cli(&cmd, &roots);

    assert_eq!(
        config.zip_dir,
        derived_source_dir_from(&roots.invocation, "zip", "sources/tt09.jsonl")
    );
    assert_eq!(PathBuf::from(&config.zip_dir), Path::new("/work/run").join("zip/tt09"));
}

#[test]
fn extract_uses_source_stem_for_zip_and_jsonl_dirs() {
    let cmd = Command::Extract {
        source: "sources/tt09.jsonl".to_string(),
        linguist_path: None,
        max_file_size: None,
        languages: None,
    };
    let roots = roots();

    let config = ExtractionConfig::from_cli(&cmd, &roots);

    assert_eq!(
        config.zip_dir,
        derived_source_dir_from(&roots.invocation, "zip", "sources/tt09.jsonl")
    );
    assert_eq!(
        config.jsonl_dir,
        derived_source_dir_from(&roots.invocation, "jsonl", "sources/tt09.jsonl")
    );
    assert_eq!(
        PathBuf::from(&config.linguist_path),
        Path::new(&roots.bundled).join("vendor/languages.yml")
    );
}

#[test]
fn derived_source_dir_uses_invocation_root() {
    let root = Path::new("/tmp/invocation-root");
    let source = PathBuf::from("nested/tt09.jsonl");

    assert_eq!(
        PathBuf::from(derived_source_dir_from(
            root.to_str().unwrap(),
            "zip",
            source.to_str().unwrap()
        )),
        root.join("zip/tt09")
    );
}

#[test]
fn derived_source_dir_exact_text() {
    assert_eq!(
        derived_source_dir_from("/tmp/invocation-root", "zip", "nested/tt09.jsonl"),
        "/tmp/invocation-root/zip/tt09"
    );
    assert_eq!(derived_source_dir(&roots(), "jsonl", "a/b/repos.jsonl"), "/work/run/jsonl/repos");
}

#[test]
fn derived_source_dir_without_stem_stays_at_base() {
    assert_eq!(derived_source_dir_from("/r", "zip", ""), "/r/zip");
    assert_eq!(derived_source_dir_from("/r", "zip", "a/.."), "/r/zip");
    assert_eq!(derived_source_dir_from("/r", "zip", "/"), "/r/zip");
}

#[test]
fn readme_download_stores_archives_under_zip_repos() {
    let roots = Roots { bundled: "/opt/cc".to_string(), invocation: ".".to_string() };
    let cmd = Command::Download {
        source: "./configs/repos.jsonl".to_string(),
        user_agent: None,
        workers: None,
    };
    let config = DownloadConfig::from_cli(&cmd, &roots);
    assert_eq!(config.zip_dir, "./zip/repos");
    assert_eq!(config.source, "./configs/repos.jsonl");
}

#[test]
fn readme_extract_writes_records_under_jsonl_repos() {
    let roots = Roots { bundled: "/opt/cc".to_string(), invocation: ".".to_string() };
    let cmd = Command::Extract {
        source: "./configs/repos.jsonl".to_string(),
        linguist_path: None,
        max_file_size: None,
        languages: Some(vec!["Python".to_string(), "Rust".to_string(), "Verilog".to_string()]),
    };
    let config = ExtractionConfig::from_cli(&cmd, &roots);
    assert_eq!(config.zip_dir, "./zip/repos");
    assert_eq!(config.jsonl_dir, "./jsonl/repos");
    assert_eq!(
        config.languages,
        Some(vec!["Python".to_string(), "Rust".to_string(), "Verilog".to_string()])
    );
    assert_eq!(config.max_file_size, 131072);
    assert_eq!(config.linguist_path, "/opt/cc/vendor/languages.yml");
}

#[test]
fn extract_reads_the_download_directory() {
    let roots = roots();
    let source = "lists/hardware.jsonl".to_string();
    let download = DownloadConfig::from_cli(
        &Command::Download { source: source.clone(), user_agent: None, workers: Some(2) },
        &roots,
    );
    let extract = ExtractionConfig::from_cli(
        &Command::Extract {
            source,
            linguist_path: Some("/x/l.yml".to_string()),
            max_file_size: Some(10),
            languages: None,
        },
        &roots,
    );
    assert_eq!(download.zip_dir, extract.zip_dir);
}

#[test]
fn download_defaults_and_overrides() {
    let roots = roots();
    let default = DownloadConfig::default_with(&roots);
    assert_eq!(default.source, "/opt/codecurator/config/example.jsonl");
    assert_eq!(default.zip_dir, "/work/run/zip");
    assert_eq!(default.user_agent, "CodeCurator");
    assert_eq!(default.workers, 16);

    let cmd = Command::Download {
        source: "s.jsonl".to_string(),
        user_agent: Some("agent/1".to_string()),
        workers: Some(4),
    };
    let config = DownloadConfig::from_cli(&cmd, &roots);
    assert_eq!(config.source, "s.jsonl");
    assert_eq!(config.zip_dir, "/work/run/zip/s");
    assert_eq!(config.user_agent, "agent/1");
    assert_eq!(config.workers, 4);
}

#[test]
fn other_commands_leave_defaults() {
    let roots = roots();
    let dedupe = Command::Dedupe {
        source: "x.jsonl".to_string(),
        jsonl_dir: None,
        exact_dedup_dir: None,
        dest_dir: None,
    };
    let d = DownloadConfig::from_cli(&dedupe, &roots);
    assert_eq!(d.zip_dir, "/work/run/zip");
    assert_eq!(d.source, "/opt/codecurator/config/example.jsonl");
    let e = ExtractionConfig::from_cli(&dedupe, &roots);
    assert_eq!(e.source, "/opt/codecurator/config/repos.jsonl");
    assert_eq!(e.jsonl_dir, "/work/run/jsonl");
    assert_eq!(e.languages, None);
    let download = Command::Download { source: "y.jsonl".to_string(), user_agent: None, workers: None };
    let x = DedupeConfig::from_cli(&download);
    assert_eq!(x.source, "./config/example.jsonl");
    assert_eq!(x.dest_dir, "./dedup");
}

#[test]
fn dedupe_options() {
    let d = DedupeConfig::default();
    assert_eq!(d.jsonl_dir, "./jsonl");
    assert_eq!(d.exact_dedup_dir, "./exact");

    let cmd = Command::Dedupe {
        source: "x.jsonl".to_string(),
        jsonl_dir: Some("J".to_string()),
        exact_dedup_dir: Some("E".to_string()),
        dest_dir: None,
    };
    let c = DedupeConfig::from_cli(&cmd);
    assert_eq!(c.source, "x.jsonl");
    assert_eq!(c.jsonl_dir, "J");
    assert_eq!(c.exact_dedup_dir, "E");
    assert_eq!(c.dest_dir, "./dedup");

    let cmd = Command::Dedupe {
        source: "x.jsonl".to_string(),
        jsonl_dir: None,
        exact_dedup_dir: Some("E".to_string()),
        dest_dir: Some("D".to_string()),
    };
    let c = DedupeConfig::from_cli(&cmd);
    assert_eq!(c.jsonl_dir, "./jsonl");
    assert_eq!(c.exact_dedup_dir, "E");
    assert_eq!(c.dest_dir, "D");
}

#[test]
fn source_name_is_file_stem() {
    assert_eq!(source_name("sources/tt09.jsonl").as_deref(), Some("tt09"));
    assert_eq!(source_name("sources/.hidden").as_deref(), Some(".hidden"));
    assert_eq!(source_name("a/b.tar.gz").as_deref(), Some("b.tar"));
    assert_eq!(source_name("..").as_deref(), None);
}
