//! Character-level text helpers: trimming a set of characters from both ends.
use vstd::prelude::*;

verus! {

/// The characters Rust's `char::is_whitespace` accepts (Unicode White_Space).
pub open spec fn is_unicode_whitespace(c: char) -> bool {
    let u: u32 = c as u32;
    ||| 0x9 <= u <= 0xd
    ||| u == 0x20
    ||| u == 0x85
    ||| u == 0xa0
    ||| u == 0x1680
    ||| 0x2000 <= u <= 0x200a
    ||| u == 0x2028
    ||| u == 0x2029
    ||| u == 0x202f
    ||| u == 0x205f
    ||| u == 0x3000
}

/// The characters of a string, in order.
pub fn chars_of(s: &str) -> (v: Vec<char>)
    ensures
        v@ == s@,
{
    let mut v: Vec<char> = Vec::new();
    for c in it: s.chars()
        invariant
            v@ == it.seq().take(it.index() as int),
    {
        v.push(c);
    }
    v
}


/// A set of characters that trimming removes from both ends of a text.
#[derive(Debug, Clone, Copy, PartialEq, Eq)]
pub enum TrimSet {
    /// Unicode white space, as `str::trim` removes it.
    Whitespace,
    /// The double quote `"`, as `str::trim_matches('"')` removes it.
    DoubleQuote,
    /// The path separator `/`.
    Slash,
}

/// Whether `c` belongs to `set`.
pub open spec fn in_trim_set(set: TrimSet, c: char) -> bool {
    match set {
        TrimSet::Whitespace => is_unicode_whitespace(c),
        TrimSet::DoubleQuote => c == '"',
        TrimSet::Slash => c == '/',
    }
}

/// `s` without its leading characters from `set`.
pub open spec fn spec_trim_start(s: Seq<char>, set: TrimSet) -> Seq<char>
    decreases s.len(),
{
    if s.len() > 0 && in_trim_set(set, s[0]) {
        spec_trim_start(s.drop_first(), set)
    } else {
        s
    }
}

/// `s` without its trailing characters from `set`.
pub open spec fn spec_trim_end(s: Seq<char>, set: TrimSet) -> Seq<char>
    decreases s.len(),
{
    if s.len() > 0 && in_trim_set(set, s.last()) {
        spec_trim_end(s.drop_last(), set)
    } else {
        s
    }
}

/// `s` without its leading and trailing characters from `set`.
pub open spec fn spec_trim(s: Seq<char>, set: TrimSet) -> Seq<char> {
    spec_trim_end(spec_trim_start(s, set), set)
}

/// Whether `c` belongs to `set`.
pub fn is_in_trim_set(set: TrimSet, c: char) -> (b: bool)
    ensures
        b == in_trim_set(set, c),
{
    match set {
        TrimSet::Whitespace => {
            let u: u32 = c as u32;
            (0x9 <= u && u <= 0xd) || u == 0x20 || u == 0x85 || u == 0xa0 || u == 0x1680 || (0x2000
                <= u && u <= 0x200a) || u == 0x2028 || u == 0x2029 || u == 0x202f || u == 0x205f
                || u == 0x3000
        },
        TrimSet::DoubleQuote => c == '"',
        TrimSet::Slash => c == '/',
    }
}

/// `s` with the characters of `set` removed from its end.
pub fn trim_end(s: &str, set: TrimSet) -> (r: String)
    ensures
        r@ == spec_trim_end(s@, set),
{
    let v = chars_of(s);
    let len: usize = v.len();
    let mut j: usize = len;
    assert(s@.subrange(0, len as int) =~= s@);
    while j > 0 && is_in_trim_set(set, v[j - 1])
        invariant
            j <= len == s@.len(),
            v@ == s@,
            spec_trim_end(s@, set) == spec_trim_end(s@.subrange(0, j as int), set),
        decreases j,
    {
        assert(s@.subrange(0, j as int).drop_last() =~= s@.subrange(0, j - 1));
        j = j - 1;
    }
    s.substring_char(0, j).to_owned()
}

/// `s` with the characters of `set` removed from both ends.
pub fn trim(s: &str, set: TrimSet) -> (r: String)
    ensures
        r@ == spec_trim(s@, set),
{
    let v = chars_of(s);
    let len: usize = v.len();
    let mut i: usize = 0;
    assert(s@.subrange(0, len as int) =~= s@);
    while i < len && is_in_trim_set(set, v[i])
        invariant
            i <= len == s@.len(),
            v@ == s@,
            spec_trim_start(s@, set) == spec_trim_start(s@.subrange(i as int, len as int), set),
        decreases len - i,
    {
        assert(s@.subrange(i as int, len as int).drop_first() =~= s@.subrange(i + 1, len as int));
        i = i + 1;
    }
    let mut j: usize = len;
    while j > i && is_in_trim_set(set, v[j - 1])
        invariant
            i <= j <= len == s@.len(),
            v@ == s@,
            spec_trim_start(s@, set) == s@.subrange(i as int, len as int),
            spec_trim(s@, set) == spec_trim_end(s@.subrange(i as int, j as int), set),
        decreases j,
    {
        assert(s@.subrange(i as int, j as int).drop_last() =~= s@.subrange(i as int, j - 1));
        j = j - 1;
    }
    s.substring_char(i, j).to_owned()
}

/// A text that starts with no character of `set` is left alone by trimming
/// its start.
proof fn lemma_trim_start_noop(s: Seq<char>, set: TrimSet)
    requires
        s.len() == 0 || !in_trim_set(set, s[0]),
    ensures
        spec_trim_start(s, set) == s,
{
}

/// A text that ends with no character of `set` is left alone by trimming its
/// end.
proof fn lemma_trim_end_noop(s: Seq<char>, set: TrimSet)
    requires
        s.len() == 0 || !in_trim_set(set, s.last()),
    ensures
        spec_trim_end(s, set) == s,
{
}

/// Trimming the start leaves nothing, or a first character outside `set`.
proof fn lemma_trim_start_first(s: Seq<char>, set: TrimSet)
    ensures
        spec_trim_start(s, set).len() == 0 || !in_trim_set(set, spec_trim_start(s, set)[0]),
    decreases s.len(),
{
    if s.len() > 0 && in_trim_set(set, s[0]) {
        lemma_trim_start_first(s.drop_first(), set);
    }
}

/// Trimming the end leaves nothing, or a last character outside `set`; and a
/// first character outside `set` survives it.
proof fn lemma_trim_end_ends(s: Seq<char>, set: TrimSet)
    ensures
        spec_trim_end(s, set).len() == 0 || !in_trim_set(set, spec_trim_end(s, set).last()),
        s.len() > 0 && !in_trim_set(set, s[0]) ==> spec_trim_end(s, set).len() > 0
            && spec_trim_end(s, set)[0] == s[0],
    decreases s.len(),
{
    if s.len() > 0 && in_trim_set(set, s.last()) {
        lemma_trim_end_ends(s.drop_last(), set);
    }
}

/// The trimmed text has no character of `set` at either end.
pub proof fn lemma_trim_ends(s: Seq<char>, set: TrimSet)
    ensures
        spec_trim(s, set).len() > 0 ==> !in_trim_set(set, spec_trim(s, set)[0]) && !in_trim_set(
            set,
            spec_trim(s, set).last(),
        ),
{
    let t = spec_trim_start(s, set);
    lemma_trim_start_first(s, set);
    lemma_trim_end_ends(t, set);
}

/// Trimming is idempotent: trimming a trimmed text changes nothing.
pub proof fn lemma_trim_idempotent(s: Seq<char>, set: TrimSet)
    ensures
        spec_trim(spec_trim(s, set), set) == spec_trim(s, set),
{
    let u = spec_trim(s, set);
    lemma_trim_ends(s, set);
    lemma_trim_start_noop(u, set);
    lemma_trim_end_noop(u, set);
}

} // verus!
