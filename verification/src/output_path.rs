//! Where a plugin is packed to when no output is given: `build/<id>` with
//! its extension set to `zip`, read the way `std::path::Path` reads paths.
//!
//! `windows` selects the path syntax: on Windows `\` separates components as
//! well as `/`, and a path may start with a drive (`C:`) or a UNC
//! (`\\server\share`) prefix; elsewhere `/` is the only separator and there
//! are no prefixes.
use vstd::prelude::*;
use vstd::string::StrSliceExecFns;

verus! {

/// `c` separates path components.
pub open spec fn is_separator(c: char, windows: bool) -> bool {
    c == '/' || (windows && c == '\\')
}

/// The separator that joining two paths puts between them.
pub open spec fn main_separator(windows: bool) -> char {
    if windows {
        '\\'
    } else {
        '/'
    }
}

/// The first separator in `p` at or after `i`, or the length of `p`.
pub open spec fn next_separator(p: Seq<char>, i: int, windows: bool) -> int
    decreases p.len() - i,
{
    if i >= p.len() {
        p.len() as int
    } else if is_separator(p[i], windows) {
        i
    } else {
        next_separator(p, i + 1, windows)
    }
}

pub open spec fn is_ascii_letter(c: char) -> bool {
    ('a' <= c && c <= 'z') || ('A' <= c && c <= 'Z')
}

/// `p` starts with a Windows drive prefix such as `C:`.
pub open spec fn has_drive_prefix(p: Seq<char>, windows: bool) -> bool {
    windows && p.len() >= 2 && p[1] == ':' && is_ascii_letter(p[0])
}

/// The length of the Windows UNC prefix `\\server\share` that `p` starts
/// with (server and share both non-empty), or 0.
pub open spec fn unc_prefix_len(p: Seq<char>, windows: bool) -> int {
    if windows && p.len() >= 2 && is_separator(p[0], true) && is_separator(p[1], true) {
        let server_end = next_separator(p, 2, true);
        let share_end = next_separator(p, server_end + 1, true);
        if 2 < server_end < p.len() && server_end + 1 < share_end {
            share_end
        } else {
            0
        }
    } else {
        0
    }
}

/// The length of the prefix component that `p` starts with, or 0.
pub open spec fn prefix_len(p: Seq<char>, windows: bool) -> int {
    if has_drive_prefix(p, windows) {
        2
    } else {
        unc_prefix_len(p, windows)
    }
}

/// Joining `id` to a path replaces that path: `id` has a root or a prefix.
pub open spec fn replaces_base(id: Seq<char>, windows: bool) -> bool {
    (id.len() > 0 && is_separator(id[0], windows)) || prefix_len(id, windows) > 0
}

/// `build` joined with `id`.
pub open spec fn joined_output(id: Seq<char>, windows: bool) -> Seq<char> {
    if replaces_base(id, windows) {
        id
    } else {
        seq!['b', 'u', 'i', 'l', 'd', main_separator(windows)] + id
    }
}

/// Where the component that holds `p[i - 1]` starts, not before `lo`.
pub open spec fn segment_start(p: Seq<char>, lo: int, i: int, windows: bool) -> int
    decreases i - lo,
{
    if i <= lo {
        lo
    } else if is_separator(p[i - 1], windows) {
        i
    } else {
        segment_start(p, lo, i - 1, windows)
    }
}

/// The span of the file name of `p[..end]`, whose components start at
/// `lo`: its last component when that is a name, skipping separators and
/// `.` components; `None` when it ends in `..` or has no name at all.
pub open spec fn file_name_span(p: Seq<char>, lo: int, end: int, windows: bool) -> Option<
    (int, int),
>
    decreases end - lo,
{
    if end <= lo {
        None
    } else if is_separator(p[end - 1], windows) {
        file_name_span(p, lo, end - 1, windows)
    } else {
        let s = segment_start(p, lo, end - 1, windows);
        if s == end - 1 && p[s] == '.' {
            file_name_span(p, lo, s, windows)
        } else if s == end - 2 && p[s] == '.' && p[s + 1] == '.' {
            None
        } else {
            Some((s, end))
        }
    }
}

/// The last dot in `p[s..i]`.
pub open spec fn last_dot(p: Seq<char>, s: int, i: int) -> Option<int>
    decreases i - s,
{
    if i <= s {
        None
    } else if p[i - 1] == '.' {
        Some(i - 1)
    } else {
        last_dot(p, s, i - 1)
    }
}

/// Where the stem of the file name `p[s..e]` ends: at its last dot, unless
/// that dot is its first character (then the name has no extension).
pub open spec fn stem_end(p: Seq<char>, s: int, e: int) -> int {
    match last_dot(p, s, e) {
        Some(d) => if d > s {
            d
        } else {
            e
        },
        None => e,
    }
}

/// The path, relative to the project, that a plugin with identifier `id` is
/// packed to when no output is given: `build` joined with `id`, cut after
/// the stem of its file name, with `.zip` added. A path with no file name
/// (one that ends in `..`, or is only a root or prefix) is kept as it is.
/// `with_extension` first drops as many characters from the end as the old
/// extension has, then sets the new one; so a path that ends in a name `..x`
/// (`x` without dots) is cut to end in `..`, which has no file name, and
/// stays that way.
pub open spec fn package_output_path_of(id: Seq<char>, windows: bool) -> Seq<char> {
    let p = joined_output(id, windows);
    let lo = if replaces_base(id, windows) {
        prefix_len(id, windows)
    } else {
        0
    };
    match file_name_span(p, lo, p.len() as int, windows) {
        None => p,
        Some((s, e)) => {
            let d = stem_end(p, s, e);
            if e == p.len() && s + 2 <= e && d == s + 1 && p[s] == '.' {
                p.subrange(0, s + 2)
            } else {
                p.subrange(0, d) + seq!['.', 'z', 'i', 'p']
            }
        },
    }
}

fn is_separator_char(c: char, windows: bool) -> (r: bool)
    ensures
        r == is_separator(c, windows),
{
    c == '/' || (windows && c == '\\')
}

fn is_ascii_letter_char(c: char) -> (r: bool)
    ensures
        r == is_ascii_letter(c),
{
    ('a' <= c && c <= 'z') || ('A' <= c && c <= 'Z')
}

fn next_separator_at(p: &str, i: usize, windows: bool) -> (r: usize)
    requires
        i <= p@.len(),
    ensures
        r == next_separator(p@, i as int, windows),
        i <= r <= p@.len(),
{
    let n = p.unicode_len();
    let mut j = i;
    while j < n && !is_separator_char(p.get_char(j), windows)
        invariant
            n == p@.len(),
            i <= j <= n,
            next_separator(p@, i as int, windows) == next_separator(p@, j as int, windows),
        decreases n - j,
    {
        j += 1;
    }
    j
}

fn prefix_length(p: &str, windows: bool) -> (r: usize)
    ensures
        r == prefix_len(p@, windows),
        r <= p@.len(),
{
    let n = p.unicode_len();
    if windows && n >= 2 && p.get_char(1) == ':' && is_ascii_letter_char(p.get_char(0)) {
        return 2;
    }
    if windows && n >= 2 && is_separator_char(p.get_char(0), true) && is_separator_char(
        p.get_char(1),
        true,
    ) {
        let server_end = next_separator_at(p, 2, true);
        if 2 < server_end && server_end < n {
            let share_end = next_separator_at(p, server_end + 1, true);
            if server_end + 1 < share_end {
                return share_end;
            }
        }
    }
    0
}

fn segment_start_at(p: &str, lo: usize, i: usize, windows: bool) -> (r: usize)
    requires
        lo <= i <= p@.len(),
    ensures
        r == segment_start(p@, lo as int, i as int, windows),
        lo <= r <= i,
{
    let mut j = i;
    while j > lo && !is_separator_char(p.get_char(j - 1), windows)
        invariant
            lo <= j <= i,
            i <= p@.len(),
            segment_start(p@, lo as int, i as int, windows) == segment_start(
                p@,
                lo as int,
                j as int,
                windows,
            ),
        decreases j,
    {
        j -= 1;
    }
    j
}

fn file_name_span_in(p: &str, lo: usize, windows: bool) -> (r: Option<(usize, usize)>)
    requires
        lo <= p@.len(),
    ensures
        r matches Some((s, e)) ==> file_name_span(p@, lo as int, p@.len() as int, windows) == Some(
            (s as int, e as int),
        ) && lo <= s < e <= p@.len(),
        r is None ==> file_name_span(p@, lo as int, p@.len() as int, windows) is None,
{
    let n = p.unicode_len();
    let mut end = n;
    loop
        invariant
            n == p@.len(),
            lo <= end <= n,
            file_name_span(p@, lo as int, n as int, windows) == file_name_span(
                p@,
                lo as int,
                end as int,
                windows,
            ),
        decreases end,
    {
        if end <= lo {
            return None;
        }
        if is_separator_char(p.get_char(end - 1), windows) {
            end -= 1;
        } else {
            let s = segment_start_at(p, lo, end - 1, windows);
            if s + 1 == end && p.get_char(s) == '.' {
                end = s;
            } else if end - s == 2 && p.get_char(s) == '.' && p.get_char(s + 1) == '.' {
                return None;
            } else {
                return Some((s, end));
            }
        }
    }
}

fn stem_end_in(p: &str, s: usize, e: usize) -> (r: usize)
    requires
        s <= e <= p@.len(),
    ensures
        r == stem_end(p@, s as int, e as int),
        r <= e,
{
    let mut i = e;
    while i > s && p.get_char(i - 1) != '.'
        invariant
            s <= i <= e,
            e <= p@.len(),
            last_dot(p@, s as int, e as int) == last_dot(p@, s as int, i as int),
        decreases i,
    {
        i -= 1;
    }
    if i - s > 1 {
        i - 1
    } else {
        e
    }
}

/// The path, relative to the project, that a plugin with identifier `id`
/// is packed to when no output is given; `windows` selects Windows path
/// syntax.
pub fn package_output_path(id: &str, windows: bool) -> (r: String)
    ensures
        r@ == package_output_path_of(id@, windows),
{
    let n = id.unicode_len();
    let prefix = prefix_length(id, windows);
    let replaces = (n > 0 && is_separator_char(id.get_char(0), windows)) || prefix > 0;
    let mut p: String;
    let lo: usize;
    if replaces {
        p = id.to_owned();
        lo = prefix;
    } else {
        p = "build".to_owned();
        if windows {
            p.append("\\");
        } else {
            p.append("/");
        }
        p.append(id);
        lo = 0;
        proof {
            reveal_strlit("build");
            reveal_strlit("\\");
            reveal_strlit("/");
            assert(p@ =~= joined_output(id@, windows));
        }
    }
    assert(p@ == joined_output(id@, windows));
    match file_name_span_in(p.as_str(), lo, windows) {
        None => p,
        Some((s, e)) => {
            let stem = stem_end_in(p.as_str(), s, e);
            let n = p.as_str().unicode_len();
            if e == n && e - s >= 2 && stem == s + 1 && p.as_str().get_char(s) == '.' {
                p.as_str().substring_char(0, s + 2).to_owned()
            } else {
                let mut r = p.as_str().substring_char(0, stem).to_owned();
                r.append(".zip");
                proof {
                    reveal_strlit(".zip");
                }
                r
            }
        },
    }
}

proof fn lemma_segment_start_within(p: Seq<char>, lo: int, i: int, windows: bool)
    requires
        lo <= i,
    ensures
        lo <= segment_start(p, lo, i, windows) <= i,
    decreases i - lo,
{
    if i > lo && !is_separator(p[i - 1], windows) {
        lemma_segment_start_within(p, lo, i - 1, windows);
    }
}

proof fn lemma_segment_start_skips(p: Seq<char>, lo: int, j: int, i: int, windows: bool)
    requires
        lo <= j <= i <= p.len(),
        forall|k: int| j <= k < i ==> !is_separator(#[trigger] p[k], windows),
    ensures
        segment_start(p, lo, i, windows) == segment_start(p, lo, j, windows),
    decreases i - j,
{
    if i > j {
        lemma_segment_start_skips(p, lo, j, i - 1, windows);
    }
}

proof fn lemma_last_dot_is(p: Seq<char>, s: int, d: int, e: int)
    requires
        s <= d < e <= p.len(),
        p[d] == '.',
        forall|k: int| d < k < e ==> #[trigger] p[k] != '.',
    ensures
        last_dot(p, s, e) == Some(d),
    decreases e - d,
{
    if e - 1 > d {
        lemma_last_dot_is(p, s, d, e - 1);
    }
}

/// Law: the extension of a plugin identifier is replaced by `zip`, whatever
/// its length. An identifier `stem.ext`, relative, whose extension holds no
/// dot or separator and whose stem ends in neither, is packed to
/// `build/stem.zip`.
pub proof fn lemma_extension_replaced(stem: Seq<char>, ext: Seq<char>, windows: bool)
    requires
        stem.len() > 0,
        !is_separator(stem.last(), windows),
        stem.last() != '.',
        forall|k: int| 0 <= k < ext.len() ==> #[trigger] ext[k] != '.' && !is_separator(ext[k], windows),
        !replaces_base(stem + seq!['.'] + ext, windows),
    ensures
        package_output_path_of(stem + seq!['.'] + ext, windows) == seq![
            'b',
            'u',
            'i',
            'l',
            'd',
            main_separator(windows),
        ] + stem + seq!['.', 'z', 'i', 'p'],
{
    let id = stem + seq!['.'] + ext;
    let base = seq!['b', 'u', 'i', 'l', 'd', main_separator(windows)];
    let p = joined_output(id, windows);
    assert(p == base + id);
    let n = p.len() as int;
    let dot: int = 6 + stem.len() as int;
    assert(p[dot] == '.');
    assert(p[dot - 1] == stem.last());
    assert forall|k: int| dot < k < n implies #[trigger] p[k] != '.' && !is_separator(p[k], windows) by {
        assert(p[k] == ext[k - dot - 1]);
    }
    assert(!is_separator(p[n - 1], windows));
    lemma_segment_start_skips(p, 0, dot, n - 1, windows);
    lemma_segment_start_within(p, 0, dot - 1, windows);
    let s = segment_start(p, 0, n - 1, windows);
    assert(s <= dot - 1);
    assert(file_name_span(p, 0, n, windows) == Some((s, n)));
    lemma_last_dot_is(p, s, dot, n);
    assert(stem_end(p, s, n) == dot);
    assert(p.subrange(0, dot) =~= base + stem);
}

proof fn lemma_no_dot(p: Seq<char>, s: int, e: int)
    requires
        s <= e <= p.len(),
        forall|k: int| s <= k < e ==> #[trigger] p[k] != '.',
    ensures
        last_dot(p, s, e) is None,
    decreases e - s,
{
    if e > s {
        lemma_no_dot(p, s, e - 1);
    }
}

/// Law: an identifier without any dot gets `.zip` appended. A relative
/// identifier with no dot that does not end in a separator is packed to
/// `build/<id>.zip`.
pub proof fn lemma_zip_appended(id: Seq<char>, windows: bool)
    requires
        id.len() > 0,
        !is_separator(id.last(), windows),
        forall|k: int| 0 <= k < id.len() ==> #[trigger] id[k] != '.',
        !replaces_base(id, windows),
    ensures
        package_output_path_of(id, windows) == seq!['b', 'u', 'i', 'l', 'd', main_separator(windows)]
            + id + seq!['.', 'z', 'i', 'p'],
{
    let base = seq!['b', 'u', 'i', 'l', 'd', main_separator(windows)];
    let p = joined_output(id, windows);
    assert(p == base + id);
    let n = p.len() as int;
    assert forall|k: int| 0 <= k < n implies #[trigger] p[k] != '.' by {
        if k >= 6 {
            assert(p[k] == id[k - 6]);
        }
    }
    assert(p[n - 1] == id.last());
    lemma_segment_start_within(p, 0, n - 1, windows);
    let s = segment_start(p, 0, n - 1, windows);
    assert(file_name_span(p, 0, n, windows) == Some((s, n)));
    lemma_no_dot(p, s, n);
    assert(p.subrange(0, n) =~= p);
}

} // verus!
