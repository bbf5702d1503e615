use codecurator::path::{extension, file_name, file_stem, join};
use std::path::Path;

#[test]
fn path_extension_extracts_last_suffix() {
    let path = "rtl/foo.test.sv";
    assert_eq!(extension(path).as_deref(), Some("sv"));
}

#[test]
fn path_extension_ignores_dotfiles_without_a_real_suffix() {
    let path = ".gitignore";
    assert_eq!(extension(path).as_deref(), None);
}

const SAMPLES: &[&str] = &[
    "", "/", "//", ".", "..", "./", "../", "a", "a/", "a//", "a/.", "a/./", "a/..", "/a/b",
    "a/b/c.txt", "foo.tar.gz", ".gitignore", "dir/.bashrc", "x/..y", "x/y.", "..z", "a/./b",
    "/tmp/invocation-root", "nested/tt09.jsonl", "a.b/c", "a.b/c/", "über/naïve.rs", "./x.y",
];

#[test]
fn path_queries_agree_with_std() {
    for s in SAMPLES {
        let p = Path::new(s);
        let std_name = p.file_name().map(|n| n.to_str().unwrap().to_string());
        let std_stem = p.file_stem().map(|n| n.to_str().unwrap().to_string());
        let std_ext = p.extension().map(|n| n.to_str().unwrap().to_string());
        assert_eq!(file_name(s), std_name, "file name of {:?}", s);
        assert_eq!(file_stem(s), std_stem, "file stem of {:?}", s);
        assert_eq!(extension(s), std_ext, "extension of {:?}", s);
    }
}

#[test]
fn join_agrees_with_std() {
    for base in SAMPLES {
        for rest in SAMPLES {
            let ours = join(base, rest);
            let theirs = Path::new(base).join(rest);
            assert_eq!(ours.as_str(), theirs.to_str().unwrap(), "join {:?} {:?}", base, rest);
        }
    }
}

#[test]
fn join_exact_values() {
    assert_eq!(join("/tmp/invocation-root", "zip"), "/tmp/invocation-root/zip");
    assert_eq!(join("root/", "zip"), "root/zip");
    assert_eq!(join("", "zip"), "zip");
    assert_eq!(join("root", "/abs"), "/abs");
    assert_eq!(join("root", ""), "root/");
}

#[test]
fn stem_dot_extension_is_file_name() {
    for s in SAMPLES {
        if let Some(e) = extension(s) {
            let stem = file_stem(s).unwrap();
            assert_eq!(Some(format!("{}.{}", stem, e)), file_name(s));
        }
    }
    assert_eq!(file_stem("rtl/foo.test.sv").as_deref(), Some("foo.test"));
}
