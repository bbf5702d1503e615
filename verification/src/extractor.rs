//! The extraction of programming files from repository archives into
//! records: which archive entries qualify, what a record holds, where records
//! go, and what a whole run amounts to.
//!
//! Opening archives, reading entries and writing records is done by the
//! caller; the tokenizer and the record identifiers come from outside crates.
use vstd::prelude::*;

use crate::downloader::spec_archive_file_name;
use crate::path::{
    extension, file_name, file_stem, join, lemma_file_name_of_join, lemma_rfind,
    lemma_rfind_append_free, rfind_char, spec_extension, spec_file_name, spec_file_stem, spec_join,
    spec_rfind,
};
use crate::text::{spec_trim, trim, TrimSet};

verus! {

/// One programming file of a repository, as stored in a JSONL line.
#[derive(Debug, Clone)]
pub struct Record {
    /// The file's content without leading and trailing white space.
    pub text: String,
    /// A random identifier.
    pub id: String,
    /// The file's extension with its leading dot, such as `.rs`.
    pub file_extension: String,
    /// Always `programming`.
    pub category: String,
    /// The file's path inside the archive.
    pub path: String,
    /// The file's uncompressed size.
    pub size_in_bytes: u64,
    /// The last component of `path`.
    pub file_name: String,
    /// How many tokens the tokenizer makes of `text`.
    pub tokens: usize,
}

/// Errors of the extract command.
#[derive(Debug, Clone)]
pub enum ExtractionError {
    /// An entry or a run yielded nothing usable.
    Validation { message: String },
    /// The tokenizer could not encode a text.
    Tokenizer { message: String },
    /// The system's random source failed.
    Randomness { message: String },
    /// Reading or writing a local file failed.
    Io { message: String },
    /// An archive could not be read.
    Zip { message: String },
}

/// Largest entry, in bytes, that extraction takes (128 KiB).
pub const MAX_ENTRY_SIZE: u64 = 131072;

/// Whether `c` is a lower-case hexadecimal digit.
pub open spec fn is_lower_hex(c: char) -> bool {
    ('0' <= c && c <= '9') || ('a' <= c && c <= 'f')
}

/// The hyphenated lower-case text of a random (version 4, RFC 4122 variant)
/// UUID: 36 characters, hyphens at 8, 13, 18 and 23, hexadecimal digits
/// elsewhere, `4` at 14 and one of `8`, `9`, `a`, `b` at 19.
pub open spec fn is_uuid_v4_text(s: Seq<char>) -> bool {
    &&& s.len() == 36
    &&& forall|i: int|
        0 <= i < 36 ==> if i == 8 || i == 13 || i == 18 || i == 23 {
            s[i] == '-'
        } else {
            is_lower_hex(#[trigger] s[i])
        }
    &&& s[14] == '4'
    &&& s[19] == '8' || s[19] == '9' || s[19] == 'a' || s[19] == 'b'
}

/// The lower-case hexadecimal digit of `n` (0 to 15).
pub open spec fn lower_hex_digit(n: int) -> char {
    seq!['0', '1', '2', '3', '4', '5', '6', '7', '8', '9', 'a', 'b', 'c', 'd', 'e', 'f'][n]
}

/// Byte `k` of a random UUID made from `bytes`: byte 6 carries version 4 in
/// its high half, byte 8 the RFC 4122 variant in its two high bits.
pub open spec fn uuid_byte(bytes: Seq<u8>, k: int) -> int {
    if k == 6 {
        bytes[6] % 16 + 64
    } else if k == 8 {
        bytes[8] % 64 + 128
    } else {
        bytes[k] as int
    }
}

/// Hexadecimal digit `i` (0 to 31) of a random UUID made from `bytes`, high
/// half of each byte first.
pub open spec fn uuid_nibble(bytes: Seq<u8>, i: int) -> int {
    if i % 2 == 0 {
        uuid_byte(bytes, i / 2) / 16
    } else {
        uuid_byte(bytes, i / 2) % 16
    }
}

/// Character `p` (0 to 35) of the hyphenated text of a random UUID made from
/// `bytes`: groups of 8, 4, 4, 4 and 12 digits separated by hyphens.
pub open spec fn uuid_char(bytes: Seq<u8>, p: int) -> char {
    if p == 8 || p == 13 || p == 18 || p == 23 {
        '-'
    } else {
        let i = if p < 8 {
            p
        } else if p < 13 {
            p - 1
        } else if p < 18 {
            p - 2
        } else if p < 23 {
            p - 3
        } else {
            p - 4
        };
        lower_hex_digit(uuid_nibble(bytes, i))
    }
}

/// The hyphenated lower-case text of the random UUID made from `bytes`.
pub open spec fn spec_uuid_v4_text(bytes: Seq<u8>) -> Seq<char> {
    Seq::new(36, |p: int| uuid_char(bytes, p))
}

/// The text of a UUID made from 16 bytes has the shape of a random UUID.
pub proof fn lemma_uuid_text_shape(bytes: Seq<u8>)
    requires
        bytes.len() == 16,
    ensures
        is_uuid_v4_text(spec_uuid_v4_text(bytes)),
{
    let s = spec_uuid_v4_text(bytes);
    assert forall|i: int|
        0 <= i < 36 implies if i == 8 || i == 13 || i == 18 || i == 23 {
        s[i] == '-'
    } else {
        is_lower_hex(#[trigger] s[i])
    } by {
        if !(i == 8 || i == 13 || i == 18 || i == 23) {
            let k = if i < 8 {
                i
            } else if i < 13 {
                i - 1
            } else if i < 18 {
                i - 2
            } else if i < 23 {
                i - 3
            } else {
                i - 4
            };
            let n = uuid_nibble(bytes, k);
            assert(0 <= k < 32);
            assert(0 <= n < 16);
            assert(is_lower_hex(lower_hex_digit(n)));
        }
    }
    assert(uuid_nibble(bytes, 12) == 4);
    assert(s[14] == '4');
    let v = uuid_nibble(bytes, 16);
    assert(8 <= v < 12);
}

/// Calls `getrandom::fill` on a 16-byte buffer: the bytes when the system's
/// random source delivered them, `None` when it failed. The bytes are random;
/// nothing is stated of them.
#[verifier::external_body]
fn random_bytes() -> Option<[u8; 16]> {
    let mut bytes = [0u8; 16];
    match getrandom::fill(&mut bytes) {
        Ok(()) => Some(bytes),
        Err(_) => None,
    }
}

/// Calls `uuid::Builder::from_random_bytes` on `bytes`, then `into_uuid` and
/// `to_string`: the builder sets the version and variant bits, and the text is
/// each byte as two lower-case hexadecimal digits, hyphenated 8-4-4-4-12.
#[verifier::external_body]
fn uuid_v4_text(bytes: [u8; 16]) -> (text: String)
    ensures
        text@ == spec_uuid_v4_text(bytes@),
{
    uuid::Builder::from_random_bytes(bytes).into_uuid().to_string()
}

/// The record identifier made from 16 random bytes: the text of the random
/// UUID they make.
pub fn record_id_from_bytes(bytes: [u8; 16]) -> (id: String)
    ensures
        id@ == spec_uuid_v4_text(bytes@),
        is_uuid_v4_text(id@),
{
    proof {
        lemma_uuid_text_shape(bytes@);
    }
    uuid_v4_text(bytes)
}

/// A fresh record identifier, or `None` when the system's random source
/// fails.
pub fn new_record_id() -> (id: Option<String>)
    ensures
        id matches Some(text) ==> is_uuid_v4_text(text@),
{
    match random_bytes() {
        Some(bytes) => Some(record_id_from_bytes(bytes)),
        None => None,
    }
}

/// Message of the error for a record whose identifier cannot be made.
pub open spec fn spec_no_random_message() -> Seq<char> {
    "Unable to obtain random bytes for a record id"@
}

/// The extension of an entry, with a leading dot, when the entry has a safe
/// name whose file name has an extension.
pub open spec fn spec_parse_ext(enclosed_name: Option<Seq<char>>) -> Option<Seq<char>> {
    match enclosed_name {
        Some(p) => match spec_extension(p) {
            Some(e) => Some("."@ + e),
            None => None,
        },
        None => None,
    }
}

/// The extension of an entry with a leading dot (see `spec_parse_ext`).
pub fn parse_ext(enclosed_name: &Option<String>) -> (r: Option<String>)
    ensures
        r.deep_view() == spec_parse_ext(enclosed_name.deep_view()),
{
    match enclosed_name {
        Some(p) => match extension(p.as_str()) {
            Some(e) => {
                let mut r = ".".to_owned();
                r.append(e.as_str());
                Some(r)
            },
            None => None,
        },
        None => None,
    }
}

/// Whether `ext` is one of `file_types`.
pub fn contains_extension(file_types: &Vec<String>, ext: &String) -> (b: bool)
    ensures
        b == file_types.deep_view().contains(ext@),
{
    let mut i: usize = 0;
    while i < file_types.len()
        invariant
            i <= file_types.len(),
            forall|k: int| 0 <= k < i ==> file_types@[k]@ != ext@,
        decreases file_types.len() - i,
    {
        if file_types[i].eq(ext) {
            assert(file_types.deep_view()[i as int] == ext@);
            return true;
        }
        i = i + 1;
    }
    assert forall|k: int| 0 <= k < file_types.deep_view().len() implies file_types.deep_view()[k]
        != ext@ by {
        assert(file_types.deep_view()[k] == file_types@[k]@);
    }
    false
}

/// The extension under which an archive entry is extracted: the entry must
/// have an extension, be a regular file of at most `MAX_ENTRY_SIZE` bytes,
/// and its extension must be one of `file_types`.
pub open spec fn spec_eligible_extension(
    enclosed_name: Option<Seq<char>>,
    is_file: bool,
    size: u64,
    file_types: Seq<Seq<char>>,
) -> Option<Seq<char>> {
    match spec_parse_ext(enclosed_name) {
        Some(e) => if is_file && size <= MAX_ENTRY_SIZE && file_types.contains(e) {
            Some(e)
        } else {
            None
        },
        None => None,
    }
}

/// The extension under which an archive entry is extracted, if it qualifies.
pub fn eligible_extension(
    enclosed_name: &Option<String>,
    is_file: bool,
    size: u64,
    file_types: &Vec<String>,
) -> (r: Option<String>)
    ensures
        r.deep_view() == spec_eligible_extension(
            enclosed_name.deep_view(),
            is_file,
            size,
            file_types.deep_view(),
        ),
{
    match parse_ext(enclosed_name) {
        Some(e) => {
            if is_file && size <= MAX_ENTRY_SIZE && contains_extension(file_types, &e) {
                Some(e)
            } else {
                None
            }
        },
        None => None,
    }
}

/// The name records of an archive are stored under: the archive's file stem,
/// cut at its last `_` when it has one.
pub open spec fn spec_zip_name(zip_path: Seq<char>) -> Option<Seq<char>> {
    match spec_file_stem(zip_path) {
        Some(stem) => {
            let k: int = spec_rfind(stem, '_');
            if k < 0 {
                Some(stem)
            } else {
                Some(stem.subrange(0, k))
            }
        },
        None => None,
    }
}

/// The name records of an archive are stored under (see `spec_zip_name`).
pub fn get_zip_name(zip_path: &str) -> (r: Option<String>)
    ensures
        r.deep_view() == spec_zip_name(zip_path@),
{
    match file_stem(zip_path) {
        Some(stem) => {
            proof {
                lemma_rfind(stem@, '_');
            }
            match rfind_char(stem.as_str(), '_') {
                Some(k) => Some(stem.as_str().substring_char(0, k).to_owned()),
                None => Some(stem),
            }
        },
        None => None,
    }
}

/// The path of an entry and its file name, when the entry has a safe name
/// with a file name.
pub open spec fn spec_path_metadata(enclosed_name: Option<Seq<char>>) -> Option<
    (Seq<char>, Seq<char>),
> {
    match enclosed_name {
        Some(p) => match spec_file_name(p) {
            Some(n) => Some((p, n)),
            None => None,
        },
        None => None,
    }
}

/// The path of an entry and its file name (see `spec_path_metadata`).
pub fn extract_path_metadata(enclosed_name: &Option<String>) -> (r: Option<(String, String)>)
    ensures
        r.deep_view() == spec_path_metadata(enclosed_name.deep_view()),
{
    match enclosed_name {
        Some(p) => match file_name(p.as_str()) {
            Some(n) => Some((p.clone(), n)),
            None => None,
        },
        None => None,
    }
}

/// Message of the error for an entry without a safe path and file name.
pub open spec fn spec_unsafe_path_message(entry_name: Seq<char>) -> Seq<char> {
    "Cannot safely extract path and filename from "@ + entry_name + "."@
}

/// Message of the error for a text the tokenizer cannot encode.
pub open spec fn spec_tokenize_message(entry_name: Seq<char>) -> Seq<char> {
    "Unable to tokenize "@ + entry_name
}

/// A record that still lacks its token count.
#[derive(Debug, Clone)]
pub struct PendingRecord {
    /// The text the token count is to be taken of.
    pub text: String,
    pub id: String,
    pub file_extension: String,
    pub path: String,
    pub size_in_bytes: u64,
    pub file_name: String,
}

impl PendingRecord {
    /// The record with the token count of `self.text` (`None` when the
    /// tokenizer failed): a record of category `programming` with the pending
    /// fields when the count is there, a tokenizer error naming the entry
    /// otherwise.
    pub fn with_token_count(self, tokens: Option<usize>, entry_name: &str) -> (r: Result<
        Record,
        ExtractionError,
    >)
        ensures
            match tokens {
                Some(n) => r matches Ok(record) && record.text == self.text && record.id == self.id
                    && record.path == self.path && record.file_name == self.file_name
                    && record.file_extension == self.file_extension && record.size_in_bytes
                    == self.size_in_bytes && record.tokens == n && record.category@
                    == "programming"@,
                None => r matches Err(ExtractionError::Tokenizer { message }) && message@
                    == spec_tokenize_message(entry_name@),
            },
    {
        match tokens {
            Some(n) => Ok(
                Record {
                    text: self.text,
                    id: self.id,
                    file_extension: self.file_extension,
                    category: "programming".to_owned(),
                    path: self.path,
                    size_in_bytes: self.size_in_bytes,
                    file_name: self.file_name,
                    tokens: n,
                },
            ),
            None => {
                let mut message = "Unable to tokenize ".to_owned();
                message.append(entry_name);
                Err(ExtractionError::Tokenizer { message })
            },
        }
    }
}

/// The pending record of an archive entry with content `raw_text`, given the
/// record id the random source produced (`None` when it failed): its text is
/// the content trimmed of white space, whatever its length, its id is `id`,
/// and its path and file name come from the entry's safe name. An entry
/// without a safe path and file name gives a validation error naming it; a
/// missing id, and nothing else, gives a randomness error.
pub fn pending_record(
    raw_text: &str,
    entry_name: &str,
    enclosed_name: &Option<String>,
    size_in_bytes: u64,
    extension: String,
    id: Option<String>,
) -> (r: Result<PendingRecord, ExtractionError>)
    ensures
        spec_path_metadata(enclosed_name.deep_view()) is None ==> (r matches Err(
            ExtractionError::Validation { message },
        ) && message@ == spec_unsafe_path_message(entry_name@)),
        spec_path_metadata(enclosed_name.deep_view()) is Some && id is None ==> (r matches Err(
            ExtractionError::Randomness { message },
        ) && message@ == spec_no_random_message()),
        spec_path_metadata(enclosed_name.deep_view()) matches Some((p, n)) ==> (id matches Some(
            i,
        ) ==> (r matches Ok(pending) && pending.text@ == spec_trim(raw_text@, TrimSet::Whitespace)
            && pending.id == i && pending.path@ == p && pending.file_name@ == n
            && pending.file_extension == extension && pending.size_in_bytes == size_in_bytes)),
{
    match extract_path_metadata(enclosed_name) {
        None => {
            let mut message = "Cannot safely extract path and filename from ".to_owned();
            message.append(entry_name);
            message.append(".");
            Err(ExtractionError::Validation { message })
        },
        Some((path, name)) => match id {
            None => Err(
                ExtractionError::Randomness {
                    message: "Unable to obtain random bytes for a record id".to_owned(),
                },
            ),
            Some(id) => Ok(
                PendingRecord {
                    text: trim(raw_text, TrimSet::Whitespace),
                    id,
                    file_extension: extension,
                    path,
                    size_in_bytes,
                    file_name: name,
                },
            ),
        },
    }
}

/// The pending record of an archive entry with content `raw_text`, with a
/// fresh random id (see `pending_record`). An entry without a safe path and
/// file name is not given an id.
pub fn process_valid_file(
    raw_text: &str,
    entry_name: &str,
    enclosed_name: &Option<String>,
    size_in_bytes: u64,
    extension: String,
) -> (r: Result<PendingRecord, ExtractionError>)
    ensures
        spec_path_metadata(enclosed_name.deep_view()) is None ==> (r matches Err(
            ExtractionError::Validation { message },
        ) && message@ == spec_unsafe_path_message(entry_name@)),
        spec_path_metadata(enclosed_name.deep_view()) matches Some((p, n)) ==> {
            ||| (r matches Ok(pending) && pending.text@ == spec_trim(raw_text@, TrimSet::Whitespace)
                && is_uuid_v4_text(pending.id@) && pending.path@ == p && pending.file_name@ == n
                && pending.file_extension == extension && pending.size_in_bytes == size_in_bytes)
            ||| (r matches Err(ExtractionError::Randomness { message }) && message@
                == spec_no_random_message())
        },
{
    let id = match extract_path_metadata(enclosed_name) {
        None => None,
        Some(_) => new_record_id(),
    };
    pending_record(raw_text, entry_name, enclosed_name, size_in_bytes, extension, id)
}

/// Path of the JSONL file that records of `file_name` go to: `<file_name>.jsonl`
/// under `dest_dir`.
pub open spec fn spec_jsonl_path(dest_dir: Seq<char>, file_name: Seq<char>) -> Seq<char> {
    spec_join(dest_dir, file_name + ".jsonl"@)
}

/// Path of the JSONL file that records of `file_name` go to.
pub fn jsonl_path(dest_dir: &str, file_name: &str) -> (r: String)
    ensures
        r@ == spec_jsonl_path(dest_dir@, file_name@),
{
    let mut name = file_name.to_owned();
    name.append(".jsonl");
    join(dest_dir, name.as_str())
}

/// How the JSONL file of an archive is opened for a record.
#[derive(Debug, Clone, Copy, PartialEq, Eq)]
pub enum WriteMode {
    /// Created or emptied first.
    Truncate,
    /// Written after what it holds.
    Append,
}

/// The first record of an archive starts its JSONL file afresh; later ones
/// are appended.
pub fn write_mode(file_count: i64) -> (m: WriteMode)
    ensures
        m == (if file_count == 0 { WriteMode::Truncate } else { WriteMode::Append }),
{
    if file_count == 0 {
        WriteMode::Truncate
    } else {
        WriteMode::Append
    }
}

/// Where the extraction of one archive stands. Entries are taken in order;
/// `file_count` records have been written for the archive so far.
#[derive(Debug, Clone, Copy, PartialEq, Eq)]
pub enum ScanState {
    /// Waiting for the metadata of entry `index` of `entries`.
    Inspecting { index: usize, entries: usize, file_count: i64 },
    /// Waiting for the outcome of processing entry `index` of `entries`.
    Processing { index: usize, entries: usize, file_count: i64 },
    /// The archive is done.
    Done,
}

/// What the caller observed after carrying out the last action.
#[derive(Debug, Clone, PartialEq, Eq)]
pub enum ScanEvent {
    /// The entry's safe name (if it has one), whether it is a regular file,
    /// and its uncompressed size.
    Inspected { enclosed_name: Option<String>, is_file: bool, size: u64 },
    /// The entry could not be opened in the archive.
    Unreadable,
    /// The entry was processed: its record was written, or it was dropped
    /// (its text, record or write failed).
    Processed { written: bool },
}

/// Abstract value of a `ScanEvent`.
pub enum ScanEventView {
    Inspected { enclosed_name: Option<Seq<char>>, is_file: bool, size: u64 },
    Unreadable,
    Processed { written: bool },
}

impl View for ScanEvent {
    type V = ScanEventView;

    open spec fn view(&self) -> ScanEventView {
        match self {
            ScanEvent::Inspected { enclosed_name, is_file, size } => ScanEventView::Inspected {
                enclosed_name: enclosed_name.deep_view(),
                is_file: *is_file,
                size: *size,
            },
            ScanEvent::Unreadable => ScanEventView::Unreadable,
            ScanEvent::Processed { written } => ScanEventView::Processed { written: *written },
        }
    }
}

/// What the caller is to do next.
#[derive(Debug, Clone, PartialEq, Eq)]
pub enum ScanAction {
    /// Read the metadata of entry `index`.
    Inspect { index: usize },
    /// Build the record of the current entry with extension `extension` and
    /// write it to the archive's JSONL file, opened as `mode` says.
    Process { extension: String, mode: WriteMode },
    /// Stop: `Some` number of records written, or `None` when an entry could
    /// not be opened (the archive counts as failed).
    Finish { count: Option<i64> },
}

/// Abstract value of a `ScanAction`.
pub enum ScanActionView {
    Inspect { index: usize },
    Process { extension: Seq<char>, mode: WriteMode },
    Finish { count: Option<i64> },
}

impl View for ScanAction {
    type V = ScanActionView;

    open spec fn view(&self) -> ScanActionView {
        match self {
            ScanAction::Inspect { index } => ScanActionView::Inspect { index: *index },
            ScanAction::Process { extension, mode } => ScanActionView::Process {
                extension: extension@,
                mode: *mode,
            },
            ScanAction::Finish { count } => ScanActionView::Finish { count: *count },
        }
    }
}

/// A state that a scan can reach: the entry exists, the archive's entries
/// can be counted in an `i64`, and at most one record was written per entry
/// already passed.
pub open spec fn spec_scan_wf(state: ScanState) -> bool {
    match state {
        ScanState::Inspecting { index, entries, file_count } => index < entries <= i64::MAX && 0
            <= file_count <= index,
        ScanState::Processing { index, entries, file_count } => index < entries <= i64::MAX && 0
            <= file_count <= index,
        ScanState::Done => true,
    }
}

/// Whether `event` answers the action that led to `state`.
pub open spec fn spec_scan_expects(state: ScanState, event: ScanEventView) -> bool {
    match (state, event) {
        (ScanState::Inspecting { .. }, ScanEventView::Inspected { .. }) => true,
        (ScanState::Inspecting { .. }, ScanEventView::Unreadable) => true,
        (ScanState::Processing { .. }, ScanEventView::Processed { .. }) => true,
        _ => false,
    }
}

/// The mode a record is written with after `file_count` records: the first
/// starts the file afresh, later ones are appended.
pub open spec fn spec_write_mode(file_count: i64) -> WriteMode {
    if file_count == 0 {
        WriteMode::Truncate
    } else {
        WriteMode::Append
    }
}

/// The move to the entry after `index`, or the end of the archive.
pub open spec fn spec_next_entry(index: usize, entries: usize, file_count: i64) -> (
    ScanState,
    ScanActionView,
) {
    if index + 1 < entries {
        (
            ScanState::Inspecting { index: (index + 1) as usize, entries, file_count },
            ScanActionView::Inspect { index: (index + 1) as usize },
        )
    } else {
        (ScanState::Done, ScanActionView::Finish { count: Some(file_count) })
    }
}

/// The transition table. An entry is processed when it qualifies (see
/// `spec_eligible_extension`) and skipped otherwise; the count rises by one
/// exactly for a written record; an entry that cannot be opened ends the
/// archive as failed.
pub open spec fn spec_scan_step(
    state: ScanState,
    file_types: Seq<Seq<char>>,
    event: ScanEventView,
) -> (ScanState, ScanActionView) {
    match (state, event) {
        (
            ScanState::Inspecting { index, entries, file_count },
            ScanEventView::Inspected { enclosed_name, is_file, size },
        ) => match spec_eligible_extension(enclosed_name, is_file, size, file_types) {
            Some(e) => (
                ScanState::Processing { index, entries, file_count },
                ScanActionView::Process { extension: e, mode: spec_write_mode(file_count) },
            ),
            None => spec_next_entry(index, entries, file_count),
        },
        (ScanState::Inspecting { .. }, ScanEventView::Unreadable) => (
            ScanState::Done,
            ScanActionView::Finish { count: None },
        ),
        (
            ScanState::Processing { index, entries, file_count },
            ScanEventView::Processed { written },
        ) => spec_next_entry(
            index,
            entries,
            if written {
                (file_count + 1) as i64
            } else {
                file_count
            },
        ),
        _ => (state, ScanActionView::Finish { count: None }),
    }
}

impl ScanState {
    /// The first move for an archive of `entries` entries: inspect the first
    /// entry, or finish with no record when there is none.
    pub fn start(entries: usize) -> (r: (ScanState, ScanAction))
        requires
            entries <= i64::MAX,
        ensures
            entries == 0 ==> r.0 == ScanState::Done && r.1@ == (ScanActionView::Finish {
                count: Some(0),
            }),
            entries > 0 ==> r.0 == (ScanState::Inspecting { index: 0, entries, file_count: 0 })
                && r.1@ == (ScanActionView::Inspect { index: 0 }),
            spec_scan_wf(r.0),
    {
        if entries == 0 {
            (ScanState::Done, ScanAction::Finish { count: Some(0) })
        } else {
            (ScanState::Inspecting { index: 0, entries, file_count: 0 }, ScanAction::Inspect { index: 0 })
        }
    }

    /// Whether `event` answers the action that led to this state.
    pub fn expects(&self, event: &ScanEvent) -> (b: bool)
        ensures
            b == spec_scan_expects(*self, event@),
    {
        match (self, event) {
            (ScanState::Inspecting { .. }, ScanEvent::Inspected { .. }) => true,
            (ScanState::Inspecting { .. }, ScanEvent::Unreadable) => true,
            (ScanState::Processing { .. }, ScanEvent::Processed { .. }) => true,
            _ => false,
        }
    }

    fn next_entry(index: usize, entries: usize, file_count: i64) -> (r: (ScanState, ScanAction))
        requires
            index < entries,
        ensures
            (r.0, r.1@) == spec_next_entry(index, entries, file_count),
    {
        if index + 1 < entries {
            (
                ScanState::Inspecting { index: index + 1, entries, file_count },
                ScanAction::Inspect { index: index + 1 },
            )
        } else {
            (ScanState::Done, ScanAction::Finish { count: Some(file_count) })
        }
    }

    /// The next state and action after `event` (see `spec_scan_step`).
    pub fn step(self, file_types: &Vec<String>, event: ScanEvent) -> (r: (ScanState, ScanAction))
        requires
            spec_scan_wf(self),
            spec_scan_expects(self, event@),
        ensures
            (r.0, r.1@) == spec_scan_step(self, file_types.deep_view(), event@),
            spec_scan_wf(r.0),
    {
        match (self, event) {
            (
                ScanState::Inspecting { index, entries, file_count },
                ScanEvent::Inspected { enclosed_name, is_file, size },
            ) => match eligible_extension(&enclosed_name, is_file, size, file_types) {
                Some(e) => (
                    ScanState::Processing { index, entries, file_count },
                    ScanAction::Process { extension: e, mode: write_mode(file_count) },
                ),
                None => Self::next_entry(index, entries, file_count),
            },
            (ScanState::Inspecting { .. }, ScanEvent::Unreadable) => (
                ScanState::Done,
                ScanAction::Finish { count: None },
            ),
            (
                ScanState::Processing { index, entries, file_count },
                ScanEvent::Processed { written },
            ) => {
                let count = if written {
                    file_count + 1
                } else {
                    file_count
                };
                Self::next_entry(index, entries, count)
            },
            (state, _) => (state, ScanAction::Finish { count: None }),
        }
    }
}

/// The first record of an archive starts its JSONL file afresh and every
/// later one is appended: a record is written with `Truncate` exactly when no
/// record of the archive was written before it, whichever entry it is.
pub proof fn lemma_scan_truncates_only_first_record(
    index: usize,
    entries: usize,
    file_count: i64,
    file_types: Seq<Seq<char>>,
    enclosed_name: Option<Seq<char>>,
    is_file: bool,
    size: u64,
)
    ensures
        spec_scan_step(
            ScanState::Inspecting { index, entries, file_count },
            file_types,
            ScanEventView::Inspected { enclosed_name, is_file, size },
        ).1 matches ScanActionView::Process { extension, mode } ==> (mode == WriteMode::Truncate
            <==> file_count == 0) && (mode == WriteMode::Append <==> file_count != 0),
{
}

/// An entry is processed exactly when it qualifies, under its own extension
/// with a leading dot; otherwise the scan moves on without processing it.
pub proof fn lemma_scan_processes_eligible(
    index: usize,
    entries: usize,
    file_count: i64,
    file_types: Seq<Seq<char>>,
    enclosed_name: Option<Seq<char>>,
    is_file: bool,
    size: u64,
)
    requires
        index < entries,
    ensures
        ({
            let r = spec_scan_step(
                ScanState::Inspecting { index, entries, file_count },
                file_types,
                ScanEventView::Inspected { enclosed_name, is_file, size },
            );
            &&& (r.1 is Process) <==> (enclosed_name matches Some(p) && spec_extension(p) matches Some(e)
                && is_file && size <= MAX_ENTRY_SIZE && file_types.contains("."@ + e))
            &&& r.1 matches ScanActionView::Process { extension, .. } ==> (enclosed_name matches Some(p)
                && spec_extension(p) matches Some(e) && extension == "."@ + e)
            &&& !(r.1 is Process) ==> (if index + 1 < entries {
                r.1 == ScanActionView::Inspect { index: (index + 1) as usize }
            } else {
                r.1 == ScanActionView::Finish { count: Some(file_count) }
            })
        }),
{
}

/// The record count rises by one exactly for a written record, and the scan
/// goes on with the next entry; after the last entry it reports the count.
pub proof fn lemma_scan_counts_writes(
    index: usize,
    entries: usize,
    file_count: i64,
    file_types: Seq<Seq<char>>,
    written: bool,
)
    requires
        spec_scan_wf(ScanState::Processing { index, entries, file_count }),
    ensures
        ({
            let r = spec_scan_step(
                ScanState::Processing { index, entries, file_count },
                file_types,
                ScanEventView::Processed { written },
            );
            let c = if written { file_count + 1 } else { file_count as int };
            if index + 1 < entries {
                r.0 == ScanState::Inspecting { index: (index + 1) as usize, entries, file_count: c as i64 }
                    && r.1 == ScanActionView::Inspect { index: (index + 1) as usize }
            } else {
                r.0 == ScanState::Done && r.1 == ScanActionView::Finish { count: Some(c as i64) }
            }
        }),
{
}

/// How far the scan of an archive has come.
pub open spec fn spec_scan_progress(state: ScanState) -> int {
    match state {
        ScanState::Inspecting { index, .. } => 2 * index,
        ScanState::Processing { index, .. } => 2 * index + 1,
        ScanState::Done => i64::MAX * 2,
    }
}

/// Each expected event moves the scan of an archive strictly forward; a
/// finished scan reports at most one record per entry.
pub proof fn lemma_scan_progresses(state: ScanState, file_types: Seq<Seq<char>>, event: ScanEventView)
    requires
        spec_scan_wf(state),
        spec_scan_expects(state, event),
    ensures
        spec_scan_progress(state) < spec_scan_progress(spec_scan_step(state, file_types, event).0),
        spec_scan_step(state, file_types, event).1 matches ScanActionView::Finish { count } ==> (
        count matches Some(c) ==> 0 <= c <= match state {
            ScanState::Inspecting { entries, .. } => entries as int,
            ScanState::Processing { entries, .. } => entries as int,
            ScanState::Done => 0,
        }),
{
}

/// Sum of a sequence of counts.
pub open spec fn spec_sum(counts: Seq<i64>) -> int
    decreases counts.len(),
{
    if counts.len() == 0 {
        0
    } else {
        spec_sum(counts.drop_last()) + counts.last()
    }
}

/// Message of the error a run without any extracted file ends in.
pub open spec fn spec_no_extraction_message() -> Seq<char> {
    "No repos were extracted."@
}

/// The outcome of an extraction run from the number of records of each
/// archive: their total when it is positive, a validation error otherwise.
pub fn summarize_extraction(counts: &Vec<i64>) -> (r: Result<i64, ExtractionError>)
    requires
        i64::MIN <= spec_sum(counts@) <= i64::MAX,
    ensures
        spec_sum(counts@) > 0 ==> r == Ok::<i64, ExtractionError>(spec_sum(counts@) as i64),
        spec_sum(counts@) <= 0 ==> (r matches Err(ExtractionError::Validation { message })
            && message@ == spec_no_extraction_message()),
{
    let mut total: i128 = 0;
    let mut i: usize = 0;
    while i < counts.len()
        invariant
            i <= counts.len(),
            total == spec_sum(counts@.take(i as int)),
            -(i * 0x8000_0000_0000_0000) <= total <= i * 0x7fff_ffff_ffff_ffff,
        decreases counts.len() - i,
    {
        assert(counts@.take(i + 1).drop_last() =~= counts@.take(i as int));
        total = total + counts[i] as i128;
        i = i + 1;
    }
    assert(counts@.take(counts.len() as int) =~= counts@);
    if total <= 0 {
        return Err(ExtractionError::Validation { message: "No repos were extracted.".to_owned() });
    }
    Ok(total as i64)
}

/// The records of a repository are named after the archive the download
/// stored it in: the name taken from `zip_dir/user-repo.zip` is `user-repo`,
/// for any archive directory, when neither `user` nor `repo` holds a `/` or
/// an `_`.
pub proof fn lemma_zip_name_of_archive(zip_dir: Seq<char>, user: Seq<char>, repo: Seq<char>)
    requires
        forall|i: int| 0 <= i < user.len() ==> user[i] != '/' && user[i] != '_',
        forall|i: int| 0 <= i < repo.len() ==> repo[i] != '/' && repo[i] != '_',
    ensures
        spec_zip_name(spec_join(zip_dir, spec_archive_file_name(user, repo))) == Some(
            user + "-"@ + repo,
        ),
{
    reveal_strlit("-");
    reveal_strlit(".zip");
    let stem = user + "-"@ + repo;
    let name = spec_archive_file_name(user, repo);
    assert(name =~= stem + seq!['.'] + seq!['z', 'i', 'p']);
    assert forall|i: int| 0 <= i < name.len() implies name[i] != '/' by {
        if i < user.len() {
            assert(name[i] == user[i]);
        } else if i > user.len() && i < user.len() + 1 + repo.len() {
            assert(name[i] == repo[i - user.len() - 1]);
        }
    }
    assert(name.len() > 2);
    lemma_file_name_of_join(zip_dir, name);
    lemma_rfind_append_free(stem + seq!['.'], seq!['z', 'i', 'p'], '.');
    assert((stem + seq!['.']).last() == '.');
    assert(spec_rfind(name, '.') == stem.len());
    assert(name.subrange(0, stem.len() as int) =~= stem);
    lemma_rfind_append_free(seq![], stem, '_');
    assert(seq![] + stem =~= stem);
    assert forall|i: int| 0 <= i < stem.len() implies stem[i] != '_' by {
        if i < user.len() {
            assert(stem[i] == user[i]);
        } else if i > user.len() {
            assert(stem[i] == repo[i - user.len() - 1]);
        }
    }
}

} // verus!
