//! Choosing which source files a run considers.
//!
//! The caller walks directories and reports what it saw as plain
//! values; the library decides what is kept: files are filtered by
//! extension, every path a sync-list names must exist, and sync-list
//! lines are resolved against the source root.

use vstd::prelude::*;

use crate::errors::{Error, ErrorType};
use crate::paths::{ext_of, join, spec_ext_of, spec_join, str_eq, str_views};

verus! {

/// The extension lists as sequences of views.
pub open spec fn spec_ext_list(exts: Option<Vec<String>>) -> Option<Seq<Seq<char>>> {
    match exts {
        Some(v) => Some(str_views(v@)),
        None => None,
    }
}

/// Whether a path passes the extension filter: it must have an
/// extension, and when a list is given, one the list holds.
pub open spec fn matches_extensions(p: Seq<char>, exts: Option<Seq<Seq<char>>>) -> bool {
    match spec_ext_of(p) {
        Some(e) => match exts {
            Some(list) => list.contains(e),
            None => true,
        },
        None => false,
    }
}

/// Whether `needle` is one of the strings in `haystack`.
pub fn contains_str(haystack: &Vec<String>, needle: &str) -> (r: bool)
    ensures
        r == str_views(haystack@).contains(needle@),
{
    let mut i: usize = 0;
    while i < haystack.len()
        invariant
            i <= haystack@.len(),
            forall|j: int| 0 <= j < i ==> haystack@[j]@ != needle@,
        decreases haystack@.len() - i,
    {
        if str_eq(haystack[i].as_str(), needle) {
            assert(str_views(haystack@)[i as int] == needle@);
            return true;
        }
        i = i + 1;
    }
    false
}

/// Applies the extension filter to one path, per `matches_extensions`.
pub fn matches_filter(path: &str, extensions: &Option<Vec<String>>) -> (r: bool)
    ensures
        r == matches_extensions(path@, spec_ext_list(*extensions)),
{
    match ext_of(path) {
        None => false,
        Some(e) => match extensions {
            None => true,
            Some(list) => contains_str(list, e),
        },
    }
}

/// The paths kept by the extension filter, in their given order.
pub open spec fn spec_filtered(files: Seq<Seq<char>>, exts: Option<Seq<Seq<char>>>) -> Seq<
    Seq<char>,
>
    decreases files.len(),
{
    if files.len() == 0 {
        Seq::empty()
    } else {
        spec_filtered(files.drop_last(), exts) + if matches_extensions(files.last(), exts) {
            seq![files.last()]
        } else {
            Seq::empty()
        }
    }
}

/// Keeps, of the files found under a directory, those the extension
/// filter passes, in their given order.
pub fn read_dir_recursively(files: &Vec<String>, extensions: &Option<Vec<String>>) -> (r: Vec<
    String,
>)
    ensures
        str_views(r@) == spec_filtered(str_views(files@), spec_ext_list(*extensions)),
{
    let ghost all = str_views(files@);
    let ghost exts = spec_ext_list(*extensions);
    let mut out: Vec<String> = Vec::new();
    let mut i: usize = 0;
    while i < files.len()
        invariant
            i <= files@.len(),
            all == str_views(files@),
            exts == spec_ext_list(*extensions),
            str_views(out@) == spec_filtered(all.subrange(0, i as int), exts),
        decreases files@.len() - i,
    {
        if matches_filter(files[i].as_str(), extensions) {
            out.push(files[i].clone());
        }
        proof {
            assert(all.subrange(0, i + 1).drop_last() =~= all.subrange(0, i as int));
            assert(str_views(out@) =~= spec_filtered(all.subrange(0, i + 1), exts));
        }
        i = i + 1;
    }
    proof {
        assert(all.subrange(0, files@.len() as int) =~= all);
    }
    out
}

/// What the caller saw of one path a sync-list names: whether it is
/// present, whether it is a directory, and — for a directory — every
/// file found under it, recursively.
#[derive(Debug)]
pub struct ListedPath {
    pub path: String,
    pub present: bool,
    pub is_dir: bool,
    pub files: Vec<String>,
}

/// The mathematical image of a `ListedPath`.
pub ghost struct ListedPathV {
    pub path: Seq<char>,
    pub present: bool,
    pub is_dir: bool,
    pub files: Seq<Seq<char>>,
}

impl View for ListedPath {
    type V = ListedPathV;

    open spec fn view(&self) -> ListedPathV {
        ListedPathV {
            path: self.path@,
            present: self.present,
            is_dir: self.is_dir,
            files: str_views(self.files@),
        }
    }
}

/// The views of a sequence of listed paths.
pub open spec fn lp_views(s: Seq<ListedPath>) -> Seq<ListedPathV> {
    s.map_values(|e: ListedPath| e@)
}

/// The position of the first listed path that is absent, or `-1` when
/// all are present.
pub open spec fn first_missing_idx(entries: Seq<ListedPathV>) -> int
    decreases entries.len(),
{
    if entries.len() == 0 {
        -1
    } else if !entries[0].present {
        0
    } else {
        let r = first_missing_idx(entries.drop_first());
        if r == -1 {
            -1
        } else {
            r + 1
        }
    }
}

/// An absent entry with every earlier one present is the first missing.
pub proof fn lemma_first_missing_found(entries: Seq<ListedPathV>, k: int)
    requires
        0 <= k < entries.len(),
        !entries[k].present,
        forall|j: int| 0 <= j < k ==> entries[j].present,
    ensures
        first_missing_idx(entries) == k,
    decreases entries.len(),
{
    if k > 0 {
        assert(forall|j: int|
            0 <= j < entries.len() - 1 ==> entries.drop_first()[j] == entries[j + 1]);
        lemma_first_missing_found(entries.drop_first(), k - 1);
    }
}

/// When every entry is present, none is missing.
pub proof fn lemma_first_missing_none(entries: Seq<ListedPathV>)
    requires
        forall|j: int| 0 <= j < entries.len() ==> entries[j].present,
    ensures
        first_missing_idx(entries) == -1,
    decreases entries.len(),
{
    if entries.len() > 0 {
        assert(forall|j: int|
            0 <= j < entries.len() - 1 ==> entries.drop_first()[j] == entries[j + 1]);
        lemma_first_missing_none(entries.drop_first());
    }
}

/// What one listed path contributes: a directory contributes its
/// filtered files, a file itself when the filter passes it.
pub open spec fn spec_contribution(e: ListedPathV, exts: Option<Seq<Seq<char>>>) -> Seq<Seq<char>> {
    if e.is_dir {
        spec_filtered(e.files, exts)
    } else if matches_extensions(e.path, exts) {
        seq![e.path]
    } else {
        Seq::empty()
    }
}

/// The files a sync-list selects: each listed path's contribution, in
/// the list's order.
pub open spec fn spec_selected(entries: Seq<ListedPathV>, exts: Option<Seq<Seq<char>>>) -> Seq<
    Seq<char>,
>
    decreases entries.len(),
{
    if entries.len() == 0 {
        Seq::empty()
    } else {
        spec_selected(entries.drop_last(), exts) + spec_contribution(entries.last(), exts)
    }
}

/// The message rejecting a sync-list path that does not exist.
pub open spec fn missing_path_message() -> Seq<char> {
    "File does not exist"@
}

/// Selects the files under the listed paths that pass the extension
/// filter. Every listed path must exist: the first that does not fails
/// the run with a descriptive error naming it.
pub fn read_selectively(entries: &Vec<ListedPath>, extensions: &Option<Vec<String>>) -> (r: Result<
    Vec<String>,
    Error,
>)
    ensures
        first_missing_idx(lp_views(entries@)) == -1 ==> (r matches Ok(files) && str_views(files@)
            == spec_selected(lp_views(entries@), spec_ext_list(*extensions))),
        first_missing_idx(lp_views(entries@)) >= 0 ==> {
            &&& r matches Err(e)
            &&& e.type_ == ErrorType::Descriptive
            &&& e.message@ == missing_path_message()
            &&& e.context matches Some(c) && c@ == lp_views(entries@)[first_missing_idx(
                lp_views(entries@),
            )].path
        },
{
    let ghost views = lp_views(entries@);
    let ghost exts = spec_ext_list(*extensions);
    let mut out: Vec<String> = Vec::new();
    let mut i: usize = 0;
    while i < entries.len()
        invariant
            i <= entries@.len(),
            views == lp_views(entries@),
            exts == spec_ext_list(*extensions),
            forall|j: int| 0 <= j < i ==> views[j].present,
            str_views(out@) == spec_selected(views.subrange(0, i as int), exts),
        decreases entries@.len() - i,
    {
        let entry = &entries[i];
        if !entry.present {
            proof {
                lemma_first_missing_found(views, i as int);
            }
            return Err(Error::descriptive("File does not exist").with_context(entry.path.as_str()));
        }
        if entry.is_dir {
            let mut sub = read_dir_recursively(&entry.files, extensions);
            out.append(&mut sub);
        } else if matches_filter(entry.path.as_str(), extensions) {
            out.push(entry.path.clone());
        }
        proof {
            assert(views.subrange(0, i + 1).drop_last() =~= views.subrange(0, i as int));
            assert(views.subrange(0, i + 1).last() == views[i as int]);
            assert(str_views(out@) =~= spec_selected(views.subrange(0, i + 1), exts));
        }
        i = i + 1;
    }
    proof {
        lemma_first_missing_none(views);
        assert(views.subrange(0, entries@.len() as int) =~= views);
    }
    Ok(out)
}

/// Whether a character separates sync-list lines.
pub open spec fn is_sep(c: char) -> bool {
    c == '\n' || c == '\r'
}

/// The position of the first line separator, or `-1` when there is
/// none.
pub open spec fn first_sep(p: Seq<char>) -> int
    decreases p.len(),
{
    if p.len() == 0 {
        -1
    } else if is_sep(p[0]) {
        0
    } else {
        let r = first_sep(p.drop_first());
        if r == -1 {
            -1
        } else {
            r + 1
        }
    }
}

/// A separator with no earlier one is the first.
proof fn lemma_first_sep_found(p: Seq<char>, k: int)
    requires
        0 <= k < p.len(),
        is_sep(p[k]),
        forall|j: int| 0 <= j < k ==> !is_sep(p[j]),
    ensures
        first_sep(p) == k,
    decreases p.len(),
{
    if k > 0 {
        assert(forall|j: int| 0 <= j < p.len() - 1 ==> p.drop_first()[j] == p[j + 1]);
        lemma_first_sep_found(p.drop_first(), k - 1);
    }
}

/// With no separator anywhere, there is no first one.
proof fn lemma_first_sep_none(p: Seq<char>)
    requires
        forall|j: int| 0 <= j < p.len() ==> !is_sep(p[j]),
    ensures
        first_sep(p) == -1,
    decreases p.len(),
{
    if p.len() > 0 {
        assert(forall|j: int| 0 <= j < p.len() - 1 ==> p.drop_first()[j] == p[j + 1]);
        lemma_first_sep_none(p.drop_first());
    }
}

/// The position of the first line separator in `s`, if any.
fn find_first_sep(s: &str) -> (r: Option<usize>)
    ensures
        match r {
            Some(k) => k < s@.len() && first_sep(s@) == k as int,
            None => first_sep(s@) == -1,
        },
{
    let n = s.unicode_len();
    let mut i: usize = 0;
    while i < n
        invariant
            i <= n,
            n == s@.len(),
            forall|j: int| 0 <= j < i ==> !is_sep(s@[j]),
        decreases n - i,
    {
        let c = s.get_char(i);
        if c == '\n' || c == '\r' {
            proof {
                lemma_first_sep_found(s@, i as int);
            }
            return Some(i);
        }
        i = i + 1;
    }
    proof {
        lemma_first_sep_none(s@);
    }
    None
}

/// Whether a sync-list line is kept: blank lines and comment lines
/// beginning with `#` are ignored.
pub open spec fn keep_line(l: Seq<char>) -> bool {
    l.len() > 0 && l[0] != '#'
}

/// Applies `keep_line` to one line.
fn keep_line_exec(l: &str) -> (r: bool)
    ensures
        r == keep_line(l@),
{
    l.unicode_len() > 0 && l.get_char(0) != '#'
}

/// The kept lines of a sync-list text, in order.
pub open spec fn spec_sync_entries(contents: Seq<char>) -> Seq<Seq<char>>
    decreases contents.len(),
{
    let p = first_sep(contents);
    if 0 <= p < contents.len() {
        (if keep_line(contents.subrange(0, p)) {
            seq![contents.subrange(0, p)]
        } else {
            Seq::empty()
        }) + spec_sync_entries(contents.subrange(p + 1, contents.len() as int))
    } else {
        if keep_line(contents) {
            seq![contents]
        } else {
            Seq::empty()
        }
    }
}

/// A sync-list's paths: each kept line resolved against the source
/// root.
pub open spec fn spec_sync_list(source_dir: Seq<char>, contents: Seq<char>) -> Seq<Seq<char>> {
    spec_sync_entries(contents).map_values(|l: Seq<char>| spec_join(source_dir, l))
}

/// Parses a sync-list text: lines are separated by line feeds or
/// carriage returns, blank and `#`-led lines are ignored, and every
/// other line is resolved against the source root. Lines are taken as
/// they stand — nothing is trimmed, duplicates are kept, and the
/// file's order is preserved.
pub fn parse_sync_list(source_dir: &str, contents: &str) -> (r: Vec<String>)
    ensures
        str_views(r@) == spec_sync_list(source_dir@, contents@),
    decreases contents@.len(),
{
    let n = contents.unicode_len();
    let mut out: Vec<String> = Vec::new();
    match find_first_sep(contents) {
        Some(p) => {
            let head = contents.substring_char(0, p);
            if keep_line_exec(head) {
                out.push(join(source_dir, head));
            }
            let rest = contents.substring_char(p + 1, n);
            let mut tail = parse_sync_list(source_dir, rest);
            let ghost pre = out@;
            let ghost tl = tail@;
            out.append(&mut tail);
            proof {
                let full = contents@;
                let hd = full.subrange(0, p as int);
                let rst = full.subrange(p as int + 1, full.len() as int);
                let head_part: Seq<Seq<char>> = if keep_line(hd) {
                    seq![hd]
                } else {
                    Seq::empty()
                };
                let head_joined: Seq<Seq<char>> = if keep_line(hd) {
                    seq![spec_join(source_dir@, hd)]
                } else {
                    Seq::empty()
                };
                assert(spec_sync_entries(full) == head_part + spec_sync_entries(rst));
                assert(spec_sync_list(source_dir@, full) =~= head_joined + spec_sync_list(
                    source_dir@,
                    rst,
                ));
                crate::paths::lemma_str_views_add(pre, tl);
                assert(str_views(pre) =~= head_joined);
            }
        },
        None => {
            if keep_line_exec(contents) {
                out.push(join(source_dir, contents));
            }
            proof {
                assert(str_views(out@) =~= spec_sync_list(source_dir@, contents@));
            }
        },
    }
    out
}

} // verus!
