//! A model of slash-separated file-system paths held as text, with the
//! operations the curator needs: joining, and taking a path's file name,
//! stem and extension.
use vstd::prelude::*;

verus! {

/// Index of the last occurrence of `c` in `p`, or -1 when `c` does not occur.
pub open spec fn spec_rfind(p: Seq<char>, c: char) -> int
    decreases p.len(),
{
    if p.len() == 0 {
        -1
    } else if p.last() == c {
        p.len() - 1
    } else {
        spec_rfind(p.drop_last(), c)
    }
}

/// `spec_rfind` lies in range, points at `c`, and no `c` follows it.
pub proof fn lemma_rfind(p: Seq<char>, c: char)
    ensures
        -1 <= spec_rfind(p, c) < p.len(),
        spec_rfind(p, c) >= 0 ==> p[spec_rfind(p, c)] == c,
        forall|k: int| spec_rfind(p, c) < k < p.len() ==> p[k] != c,
    decreases p.len(),
{
    if p.len() > 0 && p.last() != c {
        lemma_rfind(p.drop_last(), c);
        assert forall|k: int| spec_rfind(p, c) < k < p.len() implies p[k] != c by {
            if k < p.len() - 1 {
                assert(p[k] == p.drop_last()[k]);
            }
        }
    }
}

/// Joining `rest` onto `base`: an absolute `rest` replaces `base`; otherwise a
/// separator is put between them unless `base` is empty or already ends in one.
pub open spec fn spec_join(base: Seq<char>, rest: Seq<char>) -> Seq<char> {
    if rest.len() > 0 && rest[0] == '/' {
        rest
    } else if base.len() == 0 || base.last() == '/' {
        base + rest
    } else {
        base + seq!['/'] + rest
    }
}

/// The last normal component of a path: empty and `.` components are skipped,
/// and a path that ends in `..`, or has no component left, has no file name.
pub open spec fn spec_file_name(p: Seq<char>) -> Option<Seq<char>>
    decreases p.len(),
{
    let i: int = spec_rfind(p, '/');
    let seg = p.subrange(i + 1, p.len() as int);
    if seg.len() == 0 || seg == seq!['.'] {
        if i < 0 {
            None
        } else {
            proof {
                lemma_rfind(p, '/');
            }
            spec_file_name(p.subrange(0, i))
        }
    } else if seg == seq!['.', '.'] {
        None
    } else {
        Some(seg)
    }
}

/// The stem of a file name: the part before its last `.`, or the whole name
/// when it has no `.` beyond a leading one.
pub open spec fn spec_stem_of_name(name: Seq<char>) -> Seq<char> {
    let j: int = spec_rfind(name, '.');
    if j <= 0 {
        name
    } else {
        name.subrange(0, j)
    }
}

/// The extension of a file name: the part after its last `.`, provided that
/// `.` is not the first character.
pub open spec fn spec_extension_of_name(name: Seq<char>) -> Option<Seq<char>> {
    let j: int = spec_rfind(name, '.');
    if j <= 0 {
        None
    } else {
        Some(name.subrange(j + 1, name.len() as int))
    }
}

/// The stem of a path's file name, if it has one.
pub open spec fn spec_file_stem(p: Seq<char>) -> Option<Seq<char>> {
    match spec_file_name(p) {
        Some(name) => Some(spec_stem_of_name(name)),
        None => None,
    }
}

/// The extension of a path's file name, if it has one.
pub open spec fn spec_extension(p: Seq<char>) -> Option<Seq<char>> {
    match spec_file_name(p) {
        Some(name) => spec_extension_of_name(name),
        None => None,
    }
}

/// Characters free of `c` appended after `a` do not move the last `c`.
pub proof fn lemma_rfind_append_free(a: Seq<char>, b: Seq<char>, c: char)
    requires
        forall|i: int| 0 <= i < b.len() ==> b[i] != c,
    ensures
        spec_rfind(a + b, c) == spec_rfind(a, c),
    decreases b.len(),
{
    if b.len() == 0 {
        assert(a + b =~= a);
    } else {
        assert((a + b).drop_last() =~= a + b.drop_last());
        lemma_rfind_append_free(a, b.drop_last(), c);
    }
}

/// Joining onto a base: an absolute path replaces the base; a relative one
/// keeps the base as a prefix and itself as the suffix, with at most one
/// separator added between them.
pub proof fn lemma_join_shape(base: Seq<char>, rest: Seq<char>)
    ensures
        rest.len() > 0 && rest[0] == '/' ==> spec_join(base, rest) == rest,
        !(rest.len() > 0 && rest[0] == '/') ==> {
            let j = spec_join(base, rest);
            &&& j.subrange(0, base.len() as int) == base
            &&& j.subrange(j.len() - rest.len(), j.len() as int) == rest
            &&& j.len() == base.len() + rest.len() || (j.len() == base.len() + rest.len() + 1
                && j[base.len() as int] == '/')
        },
{
    if !(rest.len() > 0 && rest[0] == '/') {
        let j = spec_join(base, rest);
        assert(j.subrange(0, base.len() as int) =~= base);
        assert(j.subrange(j.len() - rest.len(), j.len() as int) =~= rest);
    }
}

/// The file name of a name joined onto any base is that name, when the name
/// is a single normal component.
pub proof fn lemma_file_name_of_join(base: Seq<char>, name: Seq<char>)
    requires
        name.len() > 0,
        forall|i: int| 0 <= i < name.len() ==> name[i] != '/',
        name != seq!['.'],
        name != seq!['.', '.'],
    ensures
        spec_file_name(spec_join(base, name)) == Some(name),
{
    let a = if base.len() == 0 || base.last() == '/' {
        base
    } else {
        base + seq!['/']
    };
    assert(spec_join(base, name) =~= a + name);
    lemma_rfind_append_free(a, name, '/');
    let j = a + name;
    if a.len() > 0 {
        assert(a.last() == '/');
        assert(spec_rfind(a, '/') == a.len() - 1);
    }
    assert(j.subrange(a.len() as int, j.len() as int) =~= name);
}

/// When a path's file name has an extension, the file name is its stem, a
/// dot, and the extension.
pub proof fn lemma_stem_dot_extension(p: Seq<char>)
    ensures
        spec_extension(p) matches Some(e) ==> spec_file_stem(p) matches Some(stem)
            && spec_file_name(p) == Some(stem + seq!['.'] + e),
{
    if let Some(n) = spec_file_name(p) {
        lemma_rfind(n, '.');
        let j: int = spec_rfind(n, '.');
        if j > 0 {
            assert(n =~= n.subrange(0, j) + seq!['.'] + n.subrange(j + 1, n.len() as int));
        }
    }
}

/// A file name is a single non-empty component: it holds no separator.
pub proof fn lemma_file_name_is_component(p: Seq<char>)
    ensures
        spec_file_name(p) matches Some(n) ==> n.len() > 0 && forall|k: int|
            0 <= k < n.len() ==> n[k] != '/',
    decreases p.len(),
{
    lemma_rfind(p, '/');
    let i: int = spec_rfind(p, '/');
    let seg = p.subrange(i + 1, p.len() as int);
    if seg.len() == 0 || seg == seq!['.'] {
        if i >= 0 {
            lemma_file_name_is_component(p.subrange(0, i));
        }
    } else {
        assert forall|k: int| 0 <= k < seg.len() implies seg[k] != '/' by {
            assert(seg[k] == p[i + 1 + k]);
        }
    }
}

/// The stem of a file name is a non-empty part of it without separators.
pub proof fn lemma_file_stem_is_component(p: Seq<char>)
    ensures
        spec_file_stem(p) matches Some(n) ==> n.len() > 0 && forall|k: int|
            0 <= k < n.len() ==> n[k] != '/',
{
    lemma_file_name_is_component(p);
    if let Some(name) = spec_file_name(p) {
        lemma_rfind(name, '.');
        let j: int = spec_rfind(name, '.');
        if j > 0 {
            assert forall|k: int| 0 <= k < j implies name.subrange(0, j)[k] != '/' by {
                assert(name.subrange(0, j)[k] == name[k]);
            }
        }
    }
}

/// Position of the last `c` in `s`.
pub fn rfind_char(s: &str, c: char) -> (r: Option<usize>)
    ensures
        match r {
            Some(i) => i == spec_rfind(s@, c),
            None => spec_rfind(s@, c) == -1,
        },
{
    proof {
        lemma_rfind(s@, c);
    }
    let len: usize = s.unicode_len();
    let mut i: usize = len;
    while i > 0
        invariant
            i <= len == s@.len(),
            forall|k: int| i <= k < len ==> s@[k] != c,
            -1 <= spec_rfind(s@, c) < s@.len(),
            spec_rfind(s@, c) >= 0 ==> s@[spec_rfind(s@, c)] == c,
            forall|k: int| spec_rfind(s@, c) < k < s@.len() ==> s@[k] != c,
        decreases i,
    {
        if s.get_char(i - 1) == c {
            return Some(i - 1);
        }
        i = i - 1;
    }
    None
}

/// Joins `rest` onto `base` (see `spec_join`).
pub fn join(base: &str, rest: &str) -> (r: String)
    ensures
        r@ == spec_join(base@, rest@),
{
    let rest_len: usize = rest.unicode_len();
    if rest_len > 0 && rest.get_char(0) == '/' {
        return rest.to_owned();
    }
    let base_len: usize = base.unicode_len();
    let mut r = base.to_owned();
    if base_len > 0 && base.get_char(base_len - 1) != '/' {
        let sep = "/";
        proof {
            reveal_strlit("/");
        }
        r.append(sep);
        assert(sep@ =~= seq!['/']);
    }
    r.append(rest);
    r
}

/// The file name of `path` (see `spec_file_name`).
pub fn file_name(path: &str) -> (r: Option<String>)
    ensures
        r.deep_view() == spec_file_name(path@),
    decreases path@.len(),
{
    proof {
        lemma_rfind(path@, '/');
    }
    let len: usize = path.unicode_len();
    let found = rfind_char(path, '/');
    let start: usize = match found {
        Some(j) => j + 1,
        None => 0,
    };
    let seg = path.substring_char(start, len);
    let seg_len: usize = len - start;
    assert(seg@.len() == seg_len);
    if seg_len == 0 || (seg_len == 1 && seg.get_char(0) == '.') {
        if seg_len == 1 {
            assert(seg@ =~= seq!['.']);
        }
        match found {
            None => None,
            Some(j) => file_name(path.substring_char(0, j)),
        }
    } else if seg_len == 2 && seg.get_char(0) == '.' && seg.get_char(1) == '.' {
        assert(seg@ =~= seq!['.', '.']);
        None
    } else {
        assert(seg@ != seq!['.']) by {
            if seg_len == 1 {
                assert(seg@[0] != '.');
            }
        }
        assert(seg@ != seq!['.', '.']) by {
            if seg_len == 2 {
                assert(seg@[0] != '.' || seg@[1] != '.');
            }
        }
        Some(seg.to_owned())
    }
}

/// The stem of a file name (see `spec_stem_of_name`).
pub fn stem_of_name(name: &str) -> (r: String)
    ensures
        r@ == spec_stem_of_name(name@),
{
    proof {
        lemma_rfind(name@, '.');
    }
    match rfind_char(name, '.') {
        Some(j) => {
            if j == 0 {
                name.to_owned()
            } else {
                name.substring_char(0, j).to_owned()
            }
        },
        None => name.to_owned(),
    }
}

/// The extension of a file name (see `spec_extension_of_name`).
pub fn extension_of_name(name: &str) -> (r: Option<String>)
    ensures
        r.deep_view() == spec_extension_of_name(name@),
{
    proof {
        lemma_rfind(name@, '.');
    }
    let len: usize = name.unicode_len();
    match rfind_char(name, '.') {
        Some(j) => {
            if j == 0 {
                None
            } else {
                Some(name.substring_char(j + 1, len).to_owned())
            }
        },
        None => None,
    }
}

/// The stem of the file name of `path`, if it has a file name.
pub fn file_stem(path: &str) -> (r: Option<String>)
    ensures
        r.deep_view() == spec_file_stem(path@),
{
    match file_name(path) {
        Some(name) => Some(stem_of_name(name.as_str())),
        None => None,
    }
}

/// The extension of the file name of `path`, if there is one.
pub fn extension(path: &str) -> (r: Option<String>)
    ensures
        r.deep_view() == spec_extension(path@),
{
    match file_name(path) {
        Some(name) => extension_of_name(name.as_str()),
        None => None,
    }
}

} // verus!
