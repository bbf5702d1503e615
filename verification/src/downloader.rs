//! Decisions and names of the repository download: where an archive comes
//! from, where it is stored, when a stored copy is kept, when the `master`
//! branch is tried after `main`, and what a whole run amounts to.
//!
//! The requests, the file reads and writes and the pause between attempts are
//! made by the caller, which feeds their outcomes to `FetchState::step`.
use vstd::prelude::*;

use crate::path::{join, spec_join};
use crate::text::{spec_trim, spec_trim_end, trim, trim_end, TrimSet};

verus! {

/// Errors of the download command.
#[derive(Debug, Clone)]
pub enum DownloadError {
    /// The run produced nothing usable.
    Validation { message: String },
    /// An HTTP request failed or was answered with an error status.
    Request { message: String },
    /// Reading or writing a local file failed.
    Io { message: String },
}

/// Message of the error a run without any downloaded archive ends in.
pub open spec fn spec_no_repo_message() -> Seq<char> {
    "No repo was downloaded"@
}

/// The entity tag of a response, without the double quotes around it.
pub fn etag_value(header: &str) -> (r: String)
    ensures
        r@ == spec_trim(header@, TrimSet::DoubleQuote),
{
    trim(header, TrimSet::DoubleQuote)
}

/// Whether fetched content and a stored file hold the same bytes.
pub fn same_bytes(fetched: &[u8], stored: &[u8]) -> (b: bool)
    ensures
        b == (fetched@ == stored@),
{
    if fetched.len() != stored.len() {
        return false;
    }
    let mut i: usize = 0;
    while i < fetched.len()
        invariant
            i <= fetched@.len() == stored@.len(),
            forall|k: int| 0 <= k < i ==> fetched@[k] == stored@[k],
        decreases fetched.len() - i,
    {
        if fetched[i] != stored[i] {
            return false;
        }
        i = i + 1;
    }
    assert(fetched@ =~= stored@);
    true
}

/// Address of the archive of `branch` of repository `user/repo` on GitHub.
pub open spec fn spec_archive_url(user: Seq<char>, repo: Seq<char>, branch: Seq<char>) -> Seq<char> {
    "https://github.com/"@ + user + "/"@ + repo + "/archive/refs/heads/"@ + branch + ".zip"@
}

/// Name under which the archive of `user/repo` is stored: `user-repo.zip`.
pub open spec fn spec_archive_file_name(user: Seq<char>, repo: Seq<char>) -> Seq<char> {
    user + "-"@ + repo + ".zip"@
}

/// Address of the archive of `branch` of repository `user/repo` on GitHub.
pub fn archive_url(user: &str, repo: &str, branch: &str) -> (r: String)
    ensures
        r@ == spec_archive_url(user@, repo@, branch@),
{
    let mut r = "https://github.com/".to_owned();
    r.append(user);
    r.append("/");
    r.append(repo);
    r.append("/archive/refs/heads/");
    r.append(branch);
    r.append(".zip");
    r
}

/// Name under which the archive of `user/repo` is stored.
pub fn archive_file_name(user: &str, repo: &str) -> (r: String)
    ensures
        r@ == spec_archive_file_name(user@, repo@),
{
    let mut r = user.to_owned();
    r.append("-");
    r.append(repo);
    r.append(".zip");
    r
}

/// Path under `zip_dir` at which the archive of `user/repo` is stored; it
/// does not depend on the branch.
pub fn archive_path(zip_dir: &str, user: &str, repo: &str) -> (r: String)
    ensures
        r@ == spec_join(zip_dir@, spec_archive_file_name(user@, repo@)),
{
    let name = archive_file_name(user, repo);
    join(zip_dir, name.as_str())
}

/// The branch tried at attempt `attempt` (0 or 1): `main`, then `master`.
pub open spec fn spec_branch(attempt: u8) -> Seq<char> {
    if attempt == 0 {
        "main"@
    } else {
        "master"@
    }
}

/// The branch tried at attempt `attempt`.
pub fn branch(attempt: u8) -> (r: String)
    ensures
        r@ == spec_branch(attempt),
{
    if attempt == 0 {
        "main".to_owned()
    } else {
        "master".to_owned()
    }
}

/// Directory holding the entity-tag records of the archives stored in
/// `zip_dir`: beside it, named after it with `.etags` appended (trailing
/// separators of `zip_dir` dropped), so that the archive directory itself
/// holds archives only.
pub open spec fn spec_tag_dir(zip_dir: Seq<char>) -> Seq<char> {
    spec_trim_end(zip_dir, TrimSet::Slash) + ".etags"@
}

/// Path of the file that records the entity tag of the archive of
/// `user/repo` stored in `zip_dir`: `<archive file name>.etag` in the tag
/// directory.
pub open spec fn spec_etag_record_path(zip_dir: Seq<char>, user: Seq<char>, repo: Seq<char>) -> Seq<
    char,
> {
    spec_join(spec_tag_dir(zip_dir), spec_archive_file_name(user, repo) + ".etag"@)
}

/// Directory holding the entity-tag records of the archives in `zip_dir`.
pub fn tag_dir(zip_dir: &str) -> (r: String)
    ensures
        r@ == spec_tag_dir(zip_dir@),
{
    let mut r = trim_end(zip_dir, TrimSet::Slash);
    r.append(".etags");
    r
}

/// Path of the file that records the entity tag of the archive of
/// `user/repo` stored in `zip_dir`.
pub fn etag_record_path(zip_dir: &str, user: &str, repo: &str) -> (r: String)
    ensures
        r@ == spec_etag_record_path(zip_dir@, user@, repo@),
{
    let dir = tag_dir(zip_dir);
    let mut name = archive_file_name(user, repo);
    name.append(".etag");
    join(dir.as_str(), name.as_str())
}

/// What becomes of the recorded entity tag of the stored archive.
#[derive(Debug, Clone, PartialEq, Eq)]
pub enum TagUpdate {
    /// Leave the record as it is.
    Keep,
    /// Record `etag` as the tag of the stored archive.
    Record { etag: String },
    /// Remove the record.
    Clear,
}

/// Abstract value of a `TagUpdate`.
pub enum TagUpdateView {
    Keep,
    Record { etag: Seq<char> },
    Clear,
}

impl View for TagUpdate {
    type V = TagUpdateView;

    open spec fn view(&self) -> TagUpdateView {
        match self {
            TagUpdate::Keep => TagUpdateView::Keep,
            TagUpdate::Record { etag } => TagUpdateView::Record { etag: etag@ },
            TagUpdate::Clear => TagUpdateView::Clear,
        }
    }
}

/// The record to keep for an archive whose content was just confirmed or
/// stored, given the tag the address answered with.
pub open spec fn spec_tag_for(etag: Option<Seq<char>>) -> TagUpdateView {
    match etag {
        Some(t) => TagUpdateView::Record { etag: t },
        None => TagUpdateView::Clear,
    }
}

fn tag_for(etag: Option<String>) -> (r: TagUpdate)
    ensures
        r@ == spec_tag_for(etag.deep_view()),
{
    match etag {
        Some(t) => TagUpdate::Record { etag: t },
        None => TagUpdate::Clear,
    }
}

/// Where the download of one repository archive stands. `attempt` is 0 while
/// the `main` branch is tried and 1 while `master` is; `etag` is the tag the
/// archive address answered the last probe with.
#[derive(Debug, Clone, PartialEq, Eq)]
pub enum FetchState {
    /// Waiting for the probe of the archive address and of the stored copy.
    Probing { attempt: u8 },
    /// Waiting for the archive's content.
    Fetching { attempt: u8, etag: Option<String> },
    /// Waiting for the content to be stored.
    Writing { attempt: u8, etag: Option<String> },
    /// Done: the archive is on disk (`ok`), or both branches failed.
    Finished { ok: bool },
}

/// Abstract value of a `FetchState`.
pub enum FetchStateView {
    Probing { attempt: u8 },
    Fetching { attempt: u8, etag: Option<Seq<char>> },
    Writing { attempt: u8, etag: Option<Seq<char>> },
    Finished { ok: bool },
}

impl View for FetchState {
    type V = FetchStateView;

    open spec fn view(&self) -> FetchStateView {
        match self {
            FetchState::Probing { attempt } => FetchStateView::Probing { attempt: *attempt },
            FetchState::Fetching { attempt, etag } => FetchStateView::Fetching {
                attempt: *attempt,
                etag: etag.deep_view(),
            },
            FetchState::Writing { attempt, etag } => FetchStateView::Writing {
                attempt: *attempt,
                etag: etag.deep_view(),
            },
            FetchState::Finished { ok } => FetchStateView::Finished { ok: *ok },
        }
    }
}

/// What the caller observed after carrying out the last action.
#[derive(Debug, Clone, PartialEq, Eq)]
pub enum FetchEvent {
    /// The address answered with an entity tag or not (`remote_etag`, without
    /// quotes); the stored archive has a recorded tag or not (`stored_etag`);
    /// the archive file exists or not (a failed existence check counts as
    /// absent).
    Probed { remote_etag: Option<String>, stored_etag: Option<String>, archive_exists: bool },
    /// The content arrived; the archive file exists or not, and holds the same
    /// bytes or not (a failed comparison counts as different).
    Fetched { archive_exists: bool, same_content: bool },
    /// The content was stored.
    Written,
    /// Fetching or storing failed.
    Failed,
}

/// Abstract value of a `FetchEvent`.
pub enum FetchEventView {
    Probed {
        remote_etag: Option<Seq<char>>,
        stored_etag: Option<Seq<char>>,
        archive_exists: bool,
    },
    Fetched { archive_exists: bool, same_content: bool },
    Written,
    Failed,
}

impl View for FetchEvent {
    type V = FetchEventView;

    open spec fn view(&self) -> FetchEventView {
        match self {
            FetchEvent::Probed { remote_etag, stored_etag, archive_exists } =>
                FetchEventView::Probed {
                remote_etag: remote_etag.deep_view(),
                stored_etag: stored_etag.deep_view(),
                archive_exists: *archive_exists,
            },
            FetchEvent::Fetched { archive_exists, same_content } => FetchEventView::Fetched {
                archive_exists: *archive_exists,
                same_content: *same_content,
            },
            FetchEvent::Written => FetchEventView::Written,
            FetchEvent::Failed => FetchEventView::Failed,
        }
    }
}

/// What the caller is to do next.
#[derive(Debug, Clone)]
pub enum FetchAction {
    /// Probe the address of the archive of `branch` for an entity tag, read
    /// the recorded tag of the stored archive, and check whether the archive
    /// file exists.
    Probe { branch: String },
    /// Fetch the archive's content from the address last probed.
    Fetch,
    /// Remove the recorded tag, then store the fetched content in the archive
    /// file.
    Write,
    /// Wait a second, then probe as for `Probe`.
    WaitThenProbe { branch: String },
    /// Apply `tag` to the recorded tag and stop: the archive file is the
    /// result (`ok`), or the repository failed.
    Finish { ok: bool, tag: TagUpdate },
}

/// Abstract value of a `FetchAction`.
pub enum FetchActionView {
    Probe { branch: Seq<char> },
    Fetch,
    Write,
    WaitThenProbe { branch: Seq<char> },
    Finish { ok: bool, tag: TagUpdateView },
}

impl View for FetchAction {
    type V = FetchActionView;

    open spec fn view(&self) -> FetchActionView {
        match self {
            FetchAction::Probe { branch } => FetchActionView::Probe { branch: branch@ },
            FetchAction::Fetch => FetchActionView::Fetch,
            FetchAction::Write => FetchActionView::Write,
            FetchAction::WaitThenProbe { branch } => FetchActionView::WaitThenProbe {
                branch: branch@,
            },
            FetchAction::Finish { ok, tag } => FetchActionView::Finish { ok: *ok, tag: tag@ },
        }
    }
}

/// A state that a run can reach: attempts are 0 or 1.
pub open spec fn spec_fetch_wf(state: FetchStateView) -> bool {
    match state {
        FetchStateView::Probing { attempt } => attempt <= 1,
        FetchStateView::Fetching { attempt, .. } => attempt <= 1,
        FetchStateView::Writing { attempt, .. } => attempt <= 1,
        FetchStateView::Finished { .. } => true,
    }
}

/// Whether `event` answers the action that led to `state`.
pub open spec fn spec_fetch_expects(state: FetchStateView, event: FetchEventView) -> bool {
    match (state, event) {
        (FetchStateView::Probing { .. }, FetchEventView::Probed { .. }) => true,
        (FetchStateView::Fetching { .. }, FetchEventView::Fetched { .. }) => true,
        (FetchStateView::Fetching { .. }, FetchEventView::Failed) => true,
        (FetchStateView::Writing { .. }, FetchEventView::Written) => true,
        (FetchStateView::Writing { .. }, FetchEventView::Failed) => true,
        _ => false,
    }
}

/// The stored archive is current: the address answered with a tag, the same
/// tag is recorded for the stored archive, and the archive file exists.
pub open spec fn spec_stored_is_current(
    remote_etag: Option<Seq<char>>,
    stored_etag: Option<Seq<char>>,
    archive_exists: bool,
) -> bool {
    &&& remote_etag is Some
    &&& stored_etag == remote_etag
    &&& archive_exists
}

/// The move after a failure at `attempt`: the `master` branch after `main`,
/// the end after `master`.
pub open spec fn spec_after_failure(attempt: u8) -> (FetchStateView, FetchActionView) {
    if attempt == 0 {
        (
            FetchStateView::Probing { attempt: 1 },
            FetchActionView::WaitThenProbe { branch: spec_branch(1) },
        )
    } else {
        (
            FetchStateView::Finished { ok: false },
            FetchActionView::Finish { ok: false, tag: TagUpdateView::Keep },
        )
    }
}

/// The transition table. A stored copy is kept without fetching only when it
/// is current (its recorded tag is the one the address answers with); after
/// a fetch it is kept when it holds the same bytes; otherwise the content is
/// written. Whenever the archive is confirmed or stored, the tag the address
/// answered with is recorded for it. A failed fetch or write moves from
/// `main` to `master`.
pub open spec fn spec_fetch_step(state: FetchStateView, event: FetchEventView) -> (
    FetchStateView,
    FetchActionView,
) {
    match (state, event) {
        (
            FetchStateView::Probing { attempt },
            FetchEventView::Probed { remote_etag, stored_etag, archive_exists },
        ) => if spec_stored_is_current(remote_etag, stored_etag, archive_exists) {
            (
                FetchStateView::Finished { ok: true },
                FetchActionView::Finish { ok: true, tag: TagUpdateView::Keep },
            )
        } else {
            (FetchStateView::Fetching { attempt, etag: remote_etag }, FetchActionView::Fetch)
        },
        (
            FetchStateView::Fetching { attempt, etag },
            FetchEventView::Fetched { archive_exists, same_content },
        ) => if archive_exists && same_content {
            (
                FetchStateView::Finished { ok: true },
                FetchActionView::Finish { ok: true, tag: spec_tag_for(etag) },
            )
        } else {
            (FetchStateView::Writing { attempt, etag }, FetchActionView::Write)
        },
        (FetchStateView::Writing { etag, .. }, FetchEventView::Written) => (
            FetchStateView::Finished { ok: true },
            FetchActionView::Finish { ok: true, tag: spec_tag_for(etag) },
        ),
        (FetchStateView::Fetching { attempt, .. }, FetchEventView::Failed) => spec_after_failure(
            attempt,
        ),
        (FetchStateView::Writing { attempt, .. }, FetchEventView::Failed) => spec_after_failure(
            attempt,
        ),
        _ => (state, FetchActionView::Finish { ok: false, tag: TagUpdateView::Keep }),
    }
}

/// Whether two optional tags are the same.
fn same_tag(a: &Option<String>, b: &Option<String>) -> (r: bool)
    ensures
        r == (a.deep_view() == b.deep_view()),
{
    match (a, b) {
        (Some(x), Some(y)) => x.eq(y),
        (None, None) => true,
        _ => false,
    }
}

impl FetchState {
    /// The first move: probe the `main` branch.
    pub fn start() -> (r: (FetchState, FetchAction))
        ensures
            r.0@ == (FetchStateView::Probing { attempt: 0 }),
            r.1@ == (FetchActionView::Probe { branch: "main"@ }),
    {
        (FetchState::Probing { attempt: 0 }, FetchAction::Probe { branch: branch(0) })
    }

    /// Whether `event` answers the action that led to this state.
    pub fn expects(&self, event: &FetchEvent) -> (b: bool)
        ensures
            b == spec_fetch_expects(self@, event@),
    {
        match (self, event) {
            (FetchState::Probing { .. }, FetchEvent::Probed { .. }) => true,
            (FetchState::Fetching { .. }, FetchEvent::Fetched { .. }) => true,
            (FetchState::Fetching { .. }, FetchEvent::Failed) => true,
            (FetchState::Writing { .. }, FetchEvent::Written) => true,
            (FetchState::Writing { .. }, FetchEvent::Failed) => true,
            _ => false,
        }
    }

    fn after_failure(attempt: u8) -> (r: (FetchState, FetchAction))
        ensures
            (r.0@, r.1@) == spec_after_failure(attempt),
    {
        if attempt == 0 {
            (FetchState::Probing { attempt: 1 }, FetchAction::WaitThenProbe { branch: branch(1) })
        } else {
            (FetchState::Finished { ok: false }, FetchAction::Finish { ok: false, tag: TagUpdate::Keep })
        }
    }

    /// The next state and action after `event` (see `spec_fetch_step`).
    pub fn step(self, event: FetchEvent) -> (r: (FetchState, FetchAction))
        requires
            spec_fetch_wf(self@),
            spec_fetch_expects(self@, event@),
        ensures
            (r.0@, r.1@) == spec_fetch_step(self@, event@),
            spec_fetch_wf(r.0@),
    {
        match (self, event) {
            (
                FetchState::Probing { attempt },
                FetchEvent::Probed { remote_etag, stored_etag, archive_exists },
            ) => {
                if remote_etag.is_some() && same_tag(&remote_etag, &stored_etag) && archive_exists {
                    (FetchState::Finished { ok: true }, FetchAction::Finish { ok: true, tag: TagUpdate::Keep })
                } else {
                    (FetchState::Fetching { attempt, etag: remote_etag }, FetchAction::Fetch)
                }
            },
            (
                FetchState::Fetching { attempt, etag },
                FetchEvent::Fetched { archive_exists, same_content },
            ) => {
                if archive_exists && same_content {
                    (FetchState::Finished { ok: true }, FetchAction::Finish { ok: true, tag: tag_for(etag) })
                } else {
                    (FetchState::Writing { attempt, etag }, FetchAction::Write)
                }
            },
            (FetchState::Writing { etag, .. }, FetchEvent::Written) => (
                FetchState::Finished { ok: true },
                FetchAction::Finish { ok: true, tag: tag_for(etag) },
            ),
            (FetchState::Fetching { attempt, .. }, FetchEvent::Failed) => Self::after_failure(attempt),
            (FetchState::Writing { attempt, .. }, FetchEvent::Failed) => Self::after_failure(attempt),
            (state, _) => (state, FetchAction::Finish { ok: false, tag: TagUpdate::Keep }),
        }
    }
}

/// How far a download has come; every expected event moves it forward.
pub open spec fn spec_progress(state: FetchStateView) -> int {
    match state {
        FetchStateView::Probing { attempt } => 3 * attempt,
        FetchStateView::Fetching { attempt, .. } => 3 * attempt + 1,
        FetchStateView::Writing { attempt, .. } => 3 * attempt + 2,
        FetchStateView::Finished { .. } => 6,
    }
}

/// Each expected event moves the download of a repository strictly forward,
/// so it finishes after at most six events: both branches are tried at most
/// once each.
pub proof fn lemma_fetch_progresses(state: FetchStateView, event: FetchEventView)
    requires
        spec_fetch_wf(state),
        spec_fetch_expects(state, event),
    ensures
        spec_progress(state) < spec_progress(spec_fetch_step(state, event).0) <= 6,
        spec_fetch_wf(spec_fetch_step(state, event).0),
{
}

/// Entity tags spare only unchanged archives: a probe ends the download
/// without fetching exactly when the stored archive exists and its recorded
/// tag is the one the address answers with; otherwise the content is fetched.
pub proof fn lemma_etag_skips_only_current(
    attempt: u8,
    remote_etag: Option<Seq<char>>,
    stored_etag: Option<Seq<char>>,
    archive_exists: bool,
)
    ensures
        ({
            let r = spec_fetch_step(
                FetchStateView::Probing { attempt },
                FetchEventView::Probed { remote_etag, stored_etag, archive_exists },
            );
            &&& (r.1 is Fetch) != spec_stored_is_current(remote_etag, stored_etag, archive_exists)
            &&& !(r.1 is Fetch) ==> r == (
                FetchStateView::Finished { ok: true },
                FetchActionView::Finish { ok: true, tag: TagUpdateView::Keep },
            )
        }),
{
}

/// When an archive is confirmed or stored after a fetch, the tag the address
/// answered with is recorded for it (or the record cleared when there was
/// none), so that the next run can recognise it as current.
pub proof fn lemma_fetch_records_tag(state: FetchStateView, event: FetchEventView)
    requires
        spec_fetch_wf(state),
        spec_fetch_expects(state, event),
        !(state is Probing),
    ensures
        spec_fetch_step(state, event).1 matches FetchActionView::Finish { ok, tag } ==> (ok ==> tag
            == spec_tag_for(
            match state {
                FetchStateView::Fetching { etag, .. } => etag,
                FetchStateView::Writing { etag, .. } => etag,
                _ => None,
            },
        )),
{
}

/// A stored archive ends the download successfully on either branch: after a
/// write, or after a fetch that found the file already holding the same
/// bytes, the download finishes as a success and records the tag the address
/// answered with.
pub proof fn lemma_stored_archive_is_success(attempt: u8, etag: Option<Seq<char>>)
    requires
        attempt <= 1,
    ensures
        spec_fetch_step(FetchStateView::Writing { attempt, etag }, FetchEventView::Written) == (
            FetchStateView::Finished { ok: true },
            FetchActionView::Finish {
                ok: true,
                tag: match etag {
                    Some(t) => TagUpdateView::Record { etag: t },
                    None => TagUpdateView::Clear,
                },
            },
        ),
        spec_fetch_step(
            FetchStateView::Fetching { attempt, etag },
            FetchEventView::Fetched { archive_exists: true, same_content: true },
        ) == (
            FetchStateView::Finished { ok: true },
            FetchActionView::Finish {
                ok: true,
                tag: match etag {
                    Some(t) => TagUpdateView::Record { etag: t },
                    None => TagUpdateView::Clear,
                },
            },
        ),
{
}

/// A download ends as failed only after a failure on the `master` branch;
/// every other way to finish is a success.
pub proof fn lemma_failure_only_after_master(state: FetchStateView, event: FetchEventView)
    requires
        spec_fetch_wf(state),
        spec_fetch_expects(state, event),
    ensures
        spec_fetch_step(state, event).1 matches FetchActionView::Finish { ok, .. } ==> (!ok <==> (
        event is Failed && (state matches FetchStateView::Fetching { attempt, .. } ==> attempt == 1)
            && (state matches FetchStateView::Writing { attempt, .. } ==> attempt == 1))),
        spec_fetch_step(state, event).0 matches FetchStateView::Finished { ok } ==> (spec_fetch_step(
            state,
            event,
        ).1 matches FetchActionView::Finish { ok: ok2, .. } && ok == ok2),
{
}

/// A repository with only a `master` branch is downloaded: after the probe of
/// `main`, its failure, and a probe, fetch and write on `master`, the
/// download finishes as a success.
pub proof fn lemma_master_only_repository(
    main_tag: Option<Seq<char>>,
    stored: Option<Seq<char>>,
    master_tag: Option<Seq<char>>,
    exists_after_failure: bool,
    exists_after_fetch: bool,
)
    requires
        !spec_stored_is_current(master_tag, stored, exists_after_failure),
    ensures
        ({
            let s0 = FetchStateView::Probing { attempt: 0 };
            let s1 = spec_fetch_step(
                s0,
                FetchEventView::Probed { remote_etag: main_tag, stored_etag: stored, archive_exists: false },
            ).0;
            let r2 = spec_fetch_step(s1, FetchEventView::Failed);
            let s3 = spec_fetch_step(
                r2.0,
                FetchEventView::Probed {
                    remote_etag: master_tag,
                    stored_etag: stored,
                    archive_exists: exists_after_failure,
                },
            ).0;
            let s4 = spec_fetch_step(
                s3,
                FetchEventView::Fetched { archive_exists: exists_after_fetch, same_content: false },
            ).0;
            let r5 = spec_fetch_step(s4, FetchEventView::Written);
            &&& r2.1 == FetchActionView::WaitThenProbe { branch: "master"@ }
            &&& r5.0 == FetchStateView::Finished { ok: true }
            &&& r5.1 matches FetchActionView::Finish { ok: true, .. }
        }),
{
}

/// The only retry is a probe of `master`, after `main` failed; a failure on
/// `master` ends the download as failed.
pub proof fn lemma_fetch_retries_master_once(state: FetchStateView, event: FetchEventView)
    requires
        spec_fetch_wf(state),
        spec_fetch_expects(state, event),
    ensures
        spec_fetch_step(state, event).1 matches FetchActionView::WaitThenProbe { branch } ==> branch
            == "master"@ && event is Failed && (state matches FetchStateView::Fetching { attempt, .. } ==> attempt == 0)
            && (state matches FetchStateView::Writing { attempt, .. } ==> attempt == 0),
        event is Failed && (state matches FetchStateView::Fetching { attempt, .. } ==> attempt == 1)
            && (state matches FetchStateView::Writing { attempt, .. } ==> attempt == 1) ==> spec_fetch_step(state, event)
            == (
            FetchStateView::Finished { ok: false },
            FetchActionView::Finish { ok: false, tag: TagUpdateView::Keep },
        ),
{
}

/// The paths of the archives that downloaded, in the order given.
pub open spec fn spec_downloaded(results: Seq<Option<Seq<char>>>) -> Seq<Seq<char>>
    decreases results.len(),
{
    if results.len() == 0 {
        seq![]
    } else {
        match results.last() {
            Some(p) => spec_downloaded(results.drop_last()).push(p),
            None => spec_downloaded(results.drop_last()),
        }
    }
}

/// The outcome of a download run from the outcome of each repository (the
/// archive path, or `None` for a repository that failed): the paths of the
/// archives that downloaded, or a validation error when there is none.
pub fn gather_downloads(results: Vec<Option<String>>) -> (r: Result<Vec<String>, DownloadError>)
    ensures
        spec_downloaded(results.deep_view()).len() > 0 ==> (r matches Ok(files)
            && files.deep_view() == spec_downloaded(results.deep_view())),
        spec_downloaded(results.deep_view()).len() == 0 ==> (r matches Err(
            DownloadError::Validation { message },
        ) && message@ == spec_no_repo_message()),
{
    let mut files: Vec<String> = Vec::new();
    let mut i: usize = 0;
    while i < results.len()
        invariant
            i <= results.len(),
            files.deep_view() == spec_downloaded(results.deep_view().take(i as int)),
        decreases results.len() - i,
    {
        assert(results.deep_view().take(i + 1).drop_last() =~= results.deep_view().take(i as int));
        match &results[i] {
            Some(p) => {
                files.push(p.clone());
                assert(files.deep_view() =~= spec_downloaded(results.deep_view().take(i as int)).push(p@));
            },
            None => {},
        }
        i = i + 1;
    }
    assert(results.deep_view().take(results.len() as int) =~= results.deep_view());
    if files.len() == 0 {
        return Err(DownloadError::Validation { message: "No repo was downloaded".to_owned() });
    }
    Ok(files)
}

} // verus!
