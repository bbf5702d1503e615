//! Run configurations of the three commands (download, extract, dedupe), built
//! from command-line options over defaults.
//!
//! Two directories come from the environment that runs the tool: the directory
//! the tool ships with (its bundled data) and the directory it is invoked from.
//! They are handed in as `Roots`; every directory that a configuration derives
//! lies under one of them.
use vstd::prelude::*;

use crate::path::{
    file_stem, join, lemma_file_name_of_join, lemma_file_stem_is_component, spec_file_name,
    spec_file_stem, spec_join,
};

verus! {

/// The two base directories that defaults and derived directories hang off.
#[derive(Debug, Clone)]
pub struct Roots {
    /// Directory the tool ships with (holds `config/` and `vendor/` data).
    pub bundled: String,
    /// Directory the tool was invoked from.
    pub invocation: String,
}

/// A command-line command with its options.
#[derive(Debug, Clone)]
pub enum Command {
    /// Download repository archives listed in `source`.
    Download { source: String, user_agent: Option<String>, workers: Option<usize> },
    /// Extract programming files of downloaded archives into JSONL records.
    Extract {
        source: String,
        linguist_path: Option<String>,
        max_file_size: Option<u64>,
        languages: Option<Vec<String>>,
    },
    /// Deduplicate extracted records.
    Dedupe {
        source: String,
        jsonl_dir: Option<String>,
        exact_dedup_dir: Option<String>,
        dest_dir: Option<String>,
    },
}

/// Abstract value of a `Command`.
pub enum CommandView {
    Download { source: Seq<char>, user_agent: Option<Seq<char>>, workers: Option<usize> },
    Extract {
        source: Seq<char>,
        linguist_path: Option<Seq<char>>,
        max_file_size: Option<u64>,
        languages: Option<Seq<Seq<char>>>,
    },
    Dedupe {
        source: Seq<char>,
        jsonl_dir: Option<Seq<char>>,
        exact_dedup_dir: Option<Seq<char>>,
        dest_dir: Option<Seq<char>>,
    },
}

impl View for Command {
    type V = CommandView;

    open spec fn view(&self) -> CommandView {
        match self {
            Command::Download { source, user_agent, workers } => CommandView::Download {
                source: source@,
                user_agent: user_agent.deep_view(),
                workers: *workers,
            },
            Command::Extract { source, linguist_path, max_file_size, languages } =>
                CommandView::Extract {
                source: source@,
                linguist_path: linguist_path.deep_view(),
                max_file_size: *max_file_size,
                languages: languages.deep_view(),
            },
            Command::Dedupe { source, jsonl_dir, exact_dedup_dir, dest_dir } =>
                CommandView::Dedupe {
                source: source@,
                jsonl_dir: jsonl_dir.deep_view(),
                exact_dedup_dir: exact_dedup_dir.deep_view(),
                dest_dir: dest_dir.deep_view(),
            },
        }
    }
}

/// Settings of the download command.
#[derive(Debug, Clone)]
pub struct DownloadConfig {
    pub source: String,
    pub zip_dir: String,
    pub user_agent: String,
    pub workers: usize,
}

/// Settings of the extract command.
#[derive(Debug, Clone)]
pub struct ExtractionConfig {
    pub source: String,
    pub zip_dir: String,
    pub jsonl_dir: String,
    pub linguist_path: String,
    pub max_file_size: u64,
    /// `None` selects every language.
    pub languages: Option<Vec<String>>,
}

/// Settings of the dedupe command.
#[derive(Debug, Clone)]
pub struct DedupeConfig {
    pub source: String,
    pub jsonl_dir: String,
    pub exact_dedup_dir: String,
    pub dest_dir: String,
}

pub struct DownloadConfigView {
    pub source: Seq<char>,
    pub zip_dir: Seq<char>,
    pub user_agent: Seq<char>,
    pub workers: usize,
}

pub struct ExtractionConfigView {
    pub source: Seq<char>,
    pub zip_dir: Seq<char>,
    pub jsonl_dir: Seq<char>,
    pub linguist_path: Seq<char>,
    pub max_file_size: u64,
    pub languages: Option<Seq<Seq<char>>>,
}

pub struct DedupeConfigView {
    pub source: Seq<char>,
    pub jsonl_dir: Seq<char>,
    pub exact_dedup_dir: Seq<char>,
    pub dest_dir: Seq<char>,
}

impl View for DownloadConfig {
    type V = DownloadConfigView;

    open spec fn view(&self) -> DownloadConfigView {
        DownloadConfigView {
            source: self.source@,
            zip_dir: self.zip_dir@,
            user_agent: self.user_agent@,
            workers: self.workers,
        }
    }
}

impl View for ExtractionConfig {
    type V = ExtractionConfigView;

    open spec fn view(&self) -> ExtractionConfigView {
        ExtractionConfigView {
            source: self.source@,
            zip_dir: self.zip_dir@,
            jsonl_dir: self.jsonl_dir@,
            linguist_path: self.linguist_path@,
            max_file_size: self.max_file_size,
            languages: self.languages.deep_view(),
        }
    }
}

impl View for DedupeConfig {
    type V = DedupeConfigView;

    open spec fn view(&self) -> DedupeConfigView {
        DedupeConfigView {
            source: self.source@,
            jsonl_dir: self.jsonl_dir@,
            exact_dedup_dir: self.exact_dedup_dir@,
            dest_dir: self.dest_dir@,
        }
    }
}

/// Largest file, in bytes, that extraction accepts by default (128 KiB).
pub const DEFAULT_MAX_FILE_SIZE: u64 = 131072;

/// Number of concurrent downloads by default.
pub const DEFAULT_WORKERS: usize = 16;

/// Directory for `base_dir` outputs of the list `source`: `root/base_dir/<stem>`,
/// where `<stem>` is the file stem of `source`, or `root/base_dir` when
/// `source` has none.
pub open spec fn spec_derived_source_dir(root: Seq<char>, base_dir: Seq<char>, source: Seq<char>) -> Seq<
    char,
> {
    match spec_file_stem(source) {
        Some(name) => spec_join(spec_join(root, base_dir), name),
        None => spec_join(root, base_dir),
    }
}

/// The name a repository list goes by: the file stem of its path.
pub fn source_name(source: &str) -> (r: Option<String>)
    ensures
        r.deep_view() == spec_file_stem(source@),
{
    file_stem(source)
}

/// `root/base_dir/<stem of source>` (see `spec_derived_source_dir`).
pub fn derived_source_dir_from(root: &str, base_dir: &str, source: &str) -> (r: String)
    ensures
        r@ == spec_derived_source_dir(root@, base_dir@, source@),
{
    match source_name(source) {
        Some(name) => {
            let dir = join(root, base_dir);
            join(dir.as_str(), name.as_str())
        },
        None => join(root, base_dir),
    }
}

/// `derived_source_dir_from` under the invocation directory.
pub fn derived_source_dir(roots: &Roots, base_dir: &str, source: &str) -> (r: String)
    ensures
        r@ == spec_derived_source_dir(roots.invocation@, base_dir@, source@),
{
    derived_source_dir_from(roots.invocation.as_str(), base_dir, source)
}

/// Copy of a list of strings.
pub fn clone_strings(v: &Vec<String>) -> (r: Vec<String>)
    ensures
        r.deep_view() == v.deep_view(),
{
    let mut r: Vec<String> = Vec::new();
    let mut i: usize = 0;
    while i < v.len()
        invariant
            i <= v.len(),
            r.len() == i,
            forall|k: int| 0 <= k < i ==> #[trigger] r@[k]@ == v@[k]@,
        decreases v.len() - i,
    {
        r.push(v[i].clone());
        i = i + 1;
    }
    assert(r.deep_view() =~= v.deep_view());
    r
}

impl DownloadConfig {
    /// Defaults: the bundled example list, `zip` under the invocation
    /// directory, user agent `CodeCurator`, 16 workers.
    pub open spec fn spec_default(roots: Roots) -> DownloadConfigView {
        DownloadConfigView {
            source: spec_join(roots.bundled@, "config/example.jsonl"@),
            zip_dir: spec_join(roots.invocation@, "zip"@),
            user_agent: "CodeCurator"@,
            workers: 16,
        }
    }

    /// A download command sets the list and the archive directory derived from
    /// it; its options override the defaults. Any other command leaves the
    /// defaults.
    pub open spec fn spec_from_cli(cmd: CommandView, roots: Roots) -> DownloadConfigView {
        match cmd {
            CommandView::Download { source, user_agent, workers } => DownloadConfigView {
                source: source,
                zip_dir: spec_derived_source_dir(roots.invocation@, "zip"@, source),
                user_agent: match user_agent {
                    Some(u) => u,
                    None => Self::spec_default(roots).user_agent,
                },
                workers: match workers {
                    Some(w) => w,
                    None => Self::spec_default(roots).workers,
                },
            },
            _ => Self::spec_default(roots),
        }
    }

    pub fn default_with(roots: &Roots) -> (config: DownloadConfig)
        ensures
            config@ == Self::spec_default(*roots),
    {
        DownloadConfig {
            source: join(roots.bundled.as_str(), "config/example.jsonl"),
            zip_dir: join(roots.invocation.as_str(), "zip"),
            user_agent: "CodeCurator".to_owned(),
            workers: DEFAULT_WORKERS,
        }
    }

    pub fn from_cli(opts_cmd: &Command, roots: &Roots) -> (config: DownloadConfig)
        ensures
            config@ == Self::spec_from_cli(opts_cmd@, *roots),
    {
        let mut config = DownloadConfig::default_with(roots);
        if let Command::Download { source, user_agent, workers } = opts_cmd {
            config.source = source.clone();
            config.zip_dir = derived_source_dir(roots, "zip", source.as_str());
            if let Some(u) = user_agent {
                config.user_agent = u.clone();
            }
            if let Some(w) = workers {
                config.workers = *w;
            }
        }
        config
    }
}

impl ExtractionConfig {
    /// Defaults: the bundled repository list, `zip` and `jsonl` under the
    /// invocation directory, the bundled Linguist table, a 128 KiB file limit
    /// and every language.
    pub open spec fn spec_default(roots: Roots) -> ExtractionConfigView {
        ExtractionConfigView {
            source: spec_join(roots.bundled@, "config/repos.jsonl"@),
            zip_dir: spec_join(roots.invocation@, "zip"@),
            jsonl_dir: spec_join(roots.invocation@, "jsonl"@),
            linguist_path: spec_join(roots.bundled@, "vendor/languages.yml"@),
            max_file_size: 131072,
            languages: None,
        }
    }

    /// An extract command sets the list, the archive and output directories
    /// derived from it and the language selection; its other options override
    /// the defaults. Any other command leaves the defaults.
    pub open spec fn spec_from_cli(cmd: CommandView, roots: Roots) -> ExtractionConfigView {
        match cmd {
            CommandView::Extract { source, linguist_path, max_file_size, languages } =>
                ExtractionConfigView {
                source: source,
                zip_dir: spec_derived_source_dir(roots.invocation@, "zip"@, source),
                jsonl_dir: spec_derived_source_dir(roots.invocation@, "jsonl"@, source),
                linguist_path: match linguist_path {
                    Some(l) => l,
                    None => Self::spec_default(roots).linguist_path,
                },
                max_file_size: match max_file_size {
                    Some(m) => m,
                    None => Self::spec_default(roots).max_file_size,
                },
                languages: languages,
            },
            _ => Self::spec_default(roots),
        }
    }

    pub fn default_with(roots: &Roots) -> (config: ExtractionConfig)
        ensures
            config@ == Self::spec_default(*roots),
    {
        ExtractionConfig {
            source: join(roots.bundled.as_str(), "config/repos.jsonl"),
            zip_dir: join(roots.invocation.as_str(), "zip"),
            jsonl_dir: join(roots.invocation.as_str(), "jsonl"),
            linguist_path: join(roots.bundled.as_str(), "vendor/languages.yml"),
            max_file_size: DEFAULT_MAX_FILE_SIZE,
            languages: None,
        }
    }

    pub fn from_cli(opts_cmd: &Command, roots: &Roots) -> (config: ExtractionConfig)
        ensures
            config@ == Self::spec_from_cli(opts_cmd@, *roots),
    {
        let mut config = ExtractionConfig::default_with(roots);
        if let Command::Extract { source, linguist_path, max_file_size, languages } = opts_cmd {
            config.source = source.clone();
            config.zip_dir = derived_source_dir(roots, "zip", source.as_str());
            config.jsonl_dir = derived_source_dir(roots, "jsonl", source.as_str());
            if let Some(l) = linguist_path {
                config.linguist_path = l.clone();
            }
            if let Some(m) = max_file_size {
                config.max_file_size = *m;
            }
            config.languages = match languages {
                Some(v) => Some(clone_strings(v)),
                None => None,
            };
        }
        config
    }
}

impl DedupeConfig {
    /// Defaults: paths relative to the working directory.
    pub open spec fn spec_default() -> DedupeConfigView {
        DedupeConfigView {
            source: "./config/example.jsonl"@,
            jsonl_dir: "./jsonl"@,
            exact_dedup_dir: "./exact"@,
            dest_dir: "./dedup"@,
        }
    }

    /// A dedupe command sets the list; each of its options overrides the
    /// directory of the same name. Any other command leaves the defaults.
    pub open spec fn spec_from_cli(cmd: CommandView) -> DedupeConfigView {
        match cmd {
            CommandView::Dedupe { source, jsonl_dir, exact_dedup_dir, dest_dir } =>
                DedupeConfigView {
                source: source,
                jsonl_dir: match jsonl_dir {
                    Some(j) => j,
                    None => Self::spec_default().jsonl_dir,
                },
                exact_dedup_dir: match exact_dedup_dir {
                    Some(e) => e,
                    None => Self::spec_default().exact_dedup_dir,
                },
                dest_dir: match dest_dir {
                    Some(d) => d,
                    None => Self::spec_default().dest_dir,
                },
            },
            _ => Self::spec_default(),
        }
    }

    pub fn from_cli(opts_cmd: &Command) -> (config: DedupeConfig)
        ensures
            config@ == Self::spec_from_cli(opts_cmd@),
    {
        let mut config = DedupeConfig::default();
        if let Command::Dedupe { source, jsonl_dir, exact_dedup_dir, dest_dir } = opts_cmd {
            config.source = source.clone();
            if let Some(j) = jsonl_dir {
                config.jsonl_dir = j.clone();
            }
            if let Some(e) = exact_dedup_dir {
                config.exact_dedup_dir = e.clone();
            }
            if let Some(d) = dest_dir {
                config.dest_dir = d.clone();
            }
        }
        config
    }
}

impl Default for DedupeConfig {
    fn default() -> (config: DedupeConfig)
        ensures
            config@ == DedupeConfig::spec_default(),
    {
        DedupeConfig {
            source: "./config/example.jsonl".to_owned(),
            jsonl_dir: "./jsonl".to_owned(),
            exact_dedup_dir: "./exact".to_owned(),
            dest_dir: "./dedup".to_owned(),
        }
    }
}

/// A derived directory sits one component below `root/base_dir`: it is that
/// directory joined with the list's stem, and its file name is the stem,
/// provided the stem is not `.` or `..` (as for a list named `..jsonl`).
pub proof fn lemma_derived_dir_ends_in_stem(root: Seq<char>, base_dir: Seq<char>, source: Seq<char>)
    requires
        spec_file_stem(source) matches Some(n) && n != seq!['.'] && n != seq!['.', '.'],
    ensures
        spec_file_stem(source) matches Some(n) && spec_derived_source_dir(root, base_dir, source)
            == spec_join(spec_join(root, base_dir), n) && spec_file_name(
            spec_derived_source_dir(root, base_dir, source),
        ) == Some(n),
{
    lemma_file_stem_is_component(source);
    let n = spec_file_stem(source)->0;
    lemma_file_name_of_join(spec_join(root, base_dir), n);
}

/// Each option of the download command overrides its default, and the
/// defaults are the user agent `CodeCurator` and 16 workers.
pub proof fn lemma_download_options(
    roots: Roots,
    source: Seq<char>,
    user_agent: Option<Seq<char>>,
    workers: Option<usize>,
)
    ensures
        ({
            let c = DownloadConfig::spec_from_cli(
                CommandView::Download { source, user_agent, workers },
                roots,
            );
            &&& c.source == source
            &&& c.user_agent == match user_agent {
                Some(u) => u,
                None => "CodeCurator"@,
            }
            &&& c.workers == match workers {
                Some(w) => w,
                None => 16,
            }
            &&& c.zip_dir == spec_derived_source_dir(roots.invocation@, "zip"@, source)
        }),
{
}

/// Each option of the extract command overrides its default, whatever the
/// other options are: the Linguist table path, the file size limit (128 KiB
/// by default) and the languages (all by default).
pub proof fn lemma_extract_options(
    roots: Roots,
    source: Seq<char>,
    linguist_path: Option<Seq<char>>,
    max_file_size: Option<u64>,
    languages: Option<Seq<Seq<char>>>,
)
    ensures
        ({
            let c = ExtractionConfig::spec_from_cli(
                CommandView::Extract { source, linguist_path, max_file_size, languages },
                roots,
            );
            &&& c.source == source
            &&& c.linguist_path == match linguist_path {
                Some(l) => l,
                None => spec_join(roots.bundled@, "vendor/languages.yml"@),
            }
            &&& c.max_file_size == match max_file_size {
                Some(m) => m,
                None => 131072,
            }
            &&& c.languages == languages
            &&& c.zip_dir == spec_derived_source_dir(roots.invocation@, "zip"@, source)
            &&& c.jsonl_dir == spec_derived_source_dir(roots.invocation@, "jsonl"@, source)
        }),
{
}

/// Each option of the dedupe command sets the directory of its own name and
/// no other: the exact-dedup directory is `./exact` unless its own option is
/// given, whatever the destination is, and the destination is `./dedup`
/// unless its own option is given.
pub proof fn lemma_dedupe_options(
    source: Seq<char>,
    jsonl_dir: Option<Seq<char>>,
    exact_dedup_dir: Option<Seq<char>>,
    dest_dir: Option<Seq<char>>,
)
    ensures
        ({
            let c = DedupeConfig::spec_from_cli(
                CommandView::Dedupe { source, jsonl_dir, exact_dedup_dir, dest_dir },
            );
            &&& c.source == source
            &&& c.jsonl_dir == match jsonl_dir {
                Some(j) => j,
                None => "./jsonl"@,
            }
            &&& c.exact_dedup_dir == match exact_dedup_dir {
                Some(e) => e,
                None => "./exact"@,
            }
            &&& c.dest_dir == match dest_dir {
                Some(d) => d,
                None => "./dedup"@,
            }
        }),
{
}

/// The extract command reads archives from the directory the download
/// command stores them in, when both are given the same repository list.
pub proof fn lemma_extract_reads_download_dir(
    roots: Roots,
    source: Seq<char>,
    user_agent: Option<Seq<char>>,
    workers: Option<usize>,
    linguist_path: Option<Seq<char>>,
    max_file_size: Option<u64>,
    languages: Option<Seq<Seq<char>>>,
)
    ensures
        DownloadConfig::spec_from_cli(
            CommandView::Download { source, user_agent, workers },
            roots,
        ).zip_dir == ExtractionConfig::spec_from_cli(
            CommandView::Extract { source, linguist_path, max_file_size, languages },
            roots,
        ).zip_dir,
{
}

} // verus!
