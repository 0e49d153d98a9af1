//! A plain model of file paths.
//!
//! The library holds every path as a `String` of `/`-separated
//! components, the form in which paths travel to the device bridge and
//! through listings. The spec functions here say what a path's file
//! name, extension, parent and joins are, and the executable functions
//! are proved against them.

use vstd::prelude::*;

verus! {

/// The position of the last occurrence of `c` in `p`, or `-1` when `c`
/// does not occur.
pub open spec fn last_pos(p: Seq<char>, c: char) -> int
    decreases p.len(),
{
    if p.len() == 0 {
        -1
    } else if p[p.len() - 1] == c {
        p.len() - 1
    } else {
        last_pos(p.drop_last(), c)
    }
}

/// A position holding `c` with no later occurrence is `last_pos`.
pub proof fn lemma_last_pos_found(p: Seq<char>, c: char, k: int)
    requires
        0 <= k < p.len(),
        p[k] == c,
        forall|j: int| k < j < p.len() ==> p[j] != c,
    ensures
        last_pos(p, c) == k,
    decreases p.len(),
{
    if k < p.len() - 1 {
        assert(forall|j: int| 0 <= j < p.len() - 1 ==> p[j] == p.drop_last()[j]);
        lemma_last_pos_found(p.drop_last(), c, k);
    }
}

/// When `c` occurs nowhere in `p`, `last_pos` is `-1`.
pub proof fn lemma_last_pos_none(p: Seq<char>, c: char)
    requires
        forall|j: int| 0 <= j < p.len() ==> p[j] != c,
    ensures
        last_pos(p, c) == -1,
    decreases p.len(),
{
    if p.len() > 0 {
        assert(forall|j: int| 0 <= j < p.len() - 1 ==> p[j] == p.drop_last()[j]);
        lemma_last_pos_none(p.drop_last(), c);
    }
}

/// The position of the last occurrence of `c` in `s`, if any.
pub fn find_last(s: &str, c: char) -> (r: Option<usize>)
    ensures
        match r {
            Some(k) => k < s@.len() && last_pos(s@, c) == k as int,
            None => last_pos(s@, c) == -1,
        },
{
    let n = s.unicode_len();
    let mut i = n;
    while i > 0
        invariant
            i <= n,
            n == s@.len(),
            forall|j: int| i <= j < n ==> s@[j] != c,
        decreases i,
    {
        let ch = s.get_char(i - 1);
        if ch == c {
            proof {
                lemma_last_pos_found(s@, c, i - 1);
            }
            return Some(i - 1);
        }
        i = i - 1;
    }
    proof {
        lemma_last_pos_none(s@, c);
    }
    None
}

/// The path's final component: everything after the last separator, or
/// the whole path when it has none.
pub open spec fn file_name_of(p: Seq<char>) -> Seq<char> {
    p.subrange(last_pos(p, '/') + 1, p.len() as int)
}

/// Whether the path's final component has an extension: a dot that is
/// neither its first character nor absent.
pub open spec fn has_extension(p: Seq<char>) -> bool {
    last_pos(p, '.') > last_pos(p, '/') + 1
}

/// The extension of the path's final component — everything after its
/// last dot — or `None` when the component has none. A component whose
/// only dot leads (a hidden file) has none; a trailing dot gives the
/// empty extension.
pub open spec fn spec_ext_of(p: Seq<char>) -> Option<Seq<char>> {
    if has_extension(p) {
        Some(p.subrange(last_pos(p, '.') + 1, p.len() as int))
    } else {
        None
    }
}

/// The extension as a plain string: empty when there is none.
pub open spec fn spec_ext_str(p: Seq<char>) -> Seq<char> {
    match spec_ext_of(p) {
        Some(e) => e,
        None => Seq::empty(),
    }
}

/// The views of a sequence of strings.
pub open spec fn str_views(v: Seq<String>) -> Seq<Seq<char>> {
    v.map_values(|s: String| s@)
}

/// Taking views distributes over concatenation.
pub proof fn lemma_str_views_add(a: Seq<String>, b: Seq<String>)
    ensures
        str_views(a + b) == str_views(a) + str_views(b),
{
    assert(str_views(a + b) =~= str_views(a) + str_views(b));
}

/// Compares two strings for equality, character by character.
pub fn str_eq(a: &str, b: &str) -> (r: bool)
    ensures
        r == (a@ == b@),
{
    let n = a.unicode_len();
    if n != b.unicode_len() {
        return false;
    }
    let mut i: usize = 0;
    while i < n
        invariant
            i <= n,
            n == a@.len(),
            n == b@.len(),
            forall|j: int| 0 <= j < i ==> a@[j] == b@[j],
        decreases n - i,
    {
        if a.get_char(i) != b.get_char(i) {
            return false;
        }
        i = i + 1;
    }
    proof {
        assert(a@ =~= b@);
    }
    true
}

/// The final component's extension, per `spec_ext_of`.
pub fn ext_of(path: &str) -> (r: Option<&str>)
    ensures
        match r {
            Some(e) => spec_ext_of(path@) == Some(e@),
            None => spec_ext_of(path@) is None,
        },
{
    let n = path.unicode_len();
    let slash = find_last(path, '/');
    let dot = find_last(path, '.');
    let start = match (dot, slash) {
        (Some(d), Some(k)) => if d > k + 1 {
            Some(d)
        } else {
            None
        },
        (Some(d), None) => if d > 0 {
            Some(d)
        } else {
            None
        },
        _ => None,
    };
    match start {
        Some(d) => Some(path.substring_char(d + 1, n)),
        None => None,
    }
}

/// The directory holding the path: everything before the last
/// separator. A bare name's parent is empty; the root and the empty
/// path have none.
pub open spec fn spec_parent(p: Seq<char>) -> Option<Seq<char>> {
    if p.len() == 0 {
        None
    } else {
        let sl = last_pos(p, '/');
        if sl == -1 {
            Some(Seq::empty())
        } else if sl == 0 {
            if p.len() == 1 {
                None
            } else {
                Some("/"@)
            }
        } else {
            Some(p.subrange(0, sl))
        }
    }
}

/// The directory holding `path`, per `spec_parent`.
pub fn parent_dir(path: &str) -> (r: Option<String>)
    ensures
        match r {
            Some(q) => spec_parent(path@) == Some(q@),
            None => spec_parent(path@) is None,
        },
{
    let n = path.unicode_len();
    if n == 0 {
        return None;
    }
    match find_last(path, '/') {
        None => Some(String::new()),
        Some(0) => {
            if n == 1 {
                None
            } else {
                Some("/".to_owned())
            }
        },
        Some(k) => Some(path.substring_char(0, k).to_owned()),
    }
}

/// `b` resolved against `a`: `b` itself when absolute, otherwise the
/// two glued with a single separator.
pub open spec fn spec_join(a: Seq<char>, b: Seq<char>) -> Seq<char> {
    if b.len() > 0 && b[0] == '/' {
        b
    } else if a.len() == 0 {
        b
    } else if a[a.len() - 1] == '/' {
        a + b
    } else {
        a + "/"@ + b
    }
}

/// Resolves `b` against `a`, per `spec_join`.
pub fn join(a: &str, b: &str) -> (r: String)
    ensures
        r@ == spec_join(a@, b@),
{
    let bn = b.unicode_len();
    if bn > 0 && b.get_char(0) == '/' {
        return b.to_owned();
    }
    let an = a.unicode_len();
    if an == 0 {
        b.to_owned()
    } else if a.get_char(an - 1) == '/' {
        a.to_owned().concat(b)
    } else {
        a.to_owned().concat("/").concat(b)
    }
}

/// The rest of `p` after the leading `pre`, when `p` lies under `pre`:
/// the whole of `p` for an empty prefix, the empty rest when the two
/// are equal, and otherwise the part after the separator that closes
/// the prefix.
pub open spec fn spec_strip_prefix(p: Seq<char>, pre: Seq<char>) -> Option<Seq<char>> {
    if pre.len() == 0 {
        Some(p)
    } else if p == pre {
        Some(Seq::empty())
    } else if pre.is_prefix_of(p) && pre[pre.len() - 1] == '/' {
        Some(p.subrange(pre.len() as int, p.len() as int))
    } else if pre.is_prefix_of(p) && p.len() > pre.len() && p[pre.len() as int] == '/' {
        Some(p.subrange(pre.len() as int + 1, p.len() as int))
    } else {
        None
    }
}

/// Strips the leading `prefix` from `path`, per `spec_strip_prefix`.
pub fn strip_prefix(path: &str, prefix: &str) -> (r: Option<String>)
    ensures
        match r {
            Some(q) => spec_strip_prefix(path@, prefix@) == Some(q@),
            None => spec_strip_prefix(path@, prefix@) is None,
        },
{
    let n = path.unicode_len();
    let m = prefix.unicode_len();
    if m == 0 {
        return Some(path.to_owned());
    }
    if m > n {
        return None;
    }
    let mut i: usize = 0;
    while i < m
        invariant
            i <= m <= n,
            n == path@.len(),
            m == prefix@.len(),
            forall|j: int| 0 <= j < i ==> path@[j] == prefix@[j],
        decreases m - i,
    {
        if path.get_char(i) != prefix.get_char(i) {
            return None;
        }
        i = i + 1;
    }
    proof {
        assert(prefix@ =~= path@.subrange(0, m as int));
        assert(prefix@.is_prefix_of(path@));
    }
    if n == m {
        proof {
            assert(path@ =~= prefix@);
        }
        return Some(String::new());
    }
    if prefix.get_char(m - 1) == '/' {
        return Some(path.substring_char(m, n).to_owned());
    }
    if path.get_char(m) == '/' {
        Some(path.substring_char(m + 1, n).to_owned())
    } else {
        None
    }
}

/// The path with its final component's extension replaced by `e` — or,
/// when the component has none, with a dot and `e` appended.
pub open spec fn spec_with_extension(p: Seq<char>, e: Seq<char>) -> Seq<char> {
    if has_extension(p) {
        p.subrange(0, last_pos(p, '.')) + "."@ + e
    } else {
        p + "."@ + e
    }
}

/// Replaces or appends the extension, per `spec_with_extension`.
pub fn with_extension(path: &str, ext: &str) -> (r: String)
    ensures
        r@ == spec_with_extension(path@, ext@),
{
    let n = path.unicode_len();
    let slash = find_last(path, '/');
    let dot = find_last(path, '.');
    let base: String = match (dot, slash) {
        (Some(d), Some(k)) => {
            if d > k + 1 {
                path.substring_char(0, d).to_owned()
            } else {
                path.to_owned()
            }
        },
        (Some(d), None) => {
            if d > 0 {
                path.substring_char(0, d).to_owned()
            } else {
                path.to_owned()
            }
        },
        _ => path.to_owned(),
    };
    base.concat(".").concat(ext)
}

/// The path with every backslash turned into a forward slash, the form
/// the device bridge's shell expects.
pub open spec fn spec_normalized(p: Seq<char>) -> Seq<char> {
    p.map_values(|c: char| if c == '\\' { '/' } else { c })
}

/// Normalizes separators, per `spec_normalized`.
pub fn normalize_separators(path: &str) -> (r: String)
    ensures
        r@ == spec_normalized(path@),
{
    let n = path.unicode_len();
    let mut out = String::new();
    let mut i: usize = 0;
    while i < n
        invariant
            i <= n,
            n == path@.len(),
            out@ == spec_normalized(path@.subrange(0, i as int)),
        decreases n - i,
    {
        let c = path.get_char(i);
        if c == '\\' {
            out.append("/");
            proof {
                reveal_strlit("/");
            }
        } else {
            let piece = path.substring_char(i, i + 1);
            out.append(piece);
        }
        proof {
            assert(out@ =~= spec_normalized(path@.subrange(0, i + 1)));
        }
        i = i + 1;
    }
    proof {
        assert(path@.subrange(0, n as int) =~= path@);
    }
    out
}

/// The normalized path wrapped in double quotes, as the device
/// bridge's remote shell requires for paths holding spaces.
pub open spec fn spec_quoted(p: Seq<char>) -> Seq<char> {
    "\""@ + spec_normalized(p) + "\""@
}

/// Quotes and normalizes a path for the remote shell, per
/// `spec_quoted`.
pub fn quote_remote(path: &str) -> (r: String)
    ensures
        r@ == spec_quoted(path@),
{
    let normalized = normalize_separators(path);
    String::from_str("\"").concat(normalized.as_str()).concat("\"")
}

/// The code point a character sorts case-insensitively under: an ASCII
/// capital letter counts as its lower-case form, anything else as
/// itself.
pub open spec fn lower_code(c: char) -> int {
    if 65 <= c as int && c as int <= 90 {
        c as int + 32
    } else {
        c as int
    }
}

/// Whether two strings agree character by character up to ASCII case.
pub open spec fn ci_equal(a: Seq<char>, b: Seq<char>) -> bool {
    a.len() == b.len() && forall|i: int| 0 <= i < a.len() ==> lower_code(a[i]) == lower_code(b[i])
}

/// Compares two characters case-insensitively (ASCII case only).
pub fn chars_ci_equal(a: char, b: char) -> (r: bool)
    ensures
        r == (lower_code(a) == lower_code(b)),
{
    let ua = a as u32;
    let ub = b as u32;
    let la: u32 = if 65 <= ua && ua <= 90 {
        ua + 32
    } else {
        ua
    };
    let lb: u32 = if 65 <= ub && ub <= 90 {
        ub + 32
    } else {
        ub
    };
    la == lb
}

/// Compares two strings case-insensitively, per `ci_equal`.
pub fn str_ci_equal(a: &str, b: &str) -> (r: bool)
    ensures
        r == ci_equal(a@, b@),
{
    let n = a.unicode_len();
    if n != b.unicode_len() {
        return false;
    }
    let mut i: usize = 0;
    while i < n
        invariant
            i <= n,
            n == a@.len(),
            n == b@.len(),
            forall|j: int| 0 <= j < i ==> lower_code(a@[j]) == lower_code(b@[j]),
        decreases n - i,
    {
        if !chars_ci_equal(a.get_char(i), b.get_char(i)) {
            return false;
        }
        i = i + 1;
    }
    true
}

/// The file names recognized as sidecar artwork, compared
/// case-insensitively.
pub open spec fn extra_file_names() -> Seq<Seq<char>> {
    seq!["cover.jpg"@, "cover.png"@, "folder.jpg"@, "folder.png"@, "front.jpg"@, "front.png"@]
}

/// Whether the path's final component is a recognized sidecar artwork
/// file name, up to ASCII case.
pub open spec fn spec_is_extra(p: Seq<char>) -> bool {
    exists|k: int|
        0 <= k < extra_file_names().len() && ci_equal(file_name_of(p), extra_file_names()[k])
}

/// Path operations every path-holding string offers.
pub trait PathExtensions: View<V = Seq<char>> {
    /// The path's final component.
    fn get_file_name(&self) -> (r: String)
        ensures
            r@ == file_name_of(self@),
    ;

    /// The final component's extension, or the empty string when it has
    /// none.
    fn get_file_ext<'a>(&'a self) -> (r: &'a str)
        ensures
            r@ == spec_ext_str(self@),
    ;

    /// Whether the path names a recognized sidecar artwork file.
    fn is_extra(&self) -> (r: bool)
        ensures
            r == spec_is_extra(self@),
    ;
}

impl PathExtensions for String {
    fn get_file_name(&self) -> (r: String) {
        let s = self.as_str();
        let n = s.unicode_len();
        let start = match find_last(s, '/') {
            Some(k) => k + 1,
            None => 0,
        };
        s.substring_char(start, n).to_owned()
    }

    fn get_file_ext<'a>(&'a self) -> (r: &'a str) {
        match ext_of(self.as_str()) {
            Some(e) => e,
            None => {
                proof {
                    reveal_strlit("");
                }
                ""
            },
        }
    }

    fn is_extra(&self) -> (r: bool) {
        let name = self.get_file_name();
        let s = name.as_str();
        let hit = str_ci_equal(s, "cover.jpg") || str_ci_equal(s, "cover.png") || str_ci_equal(
            s,
            "folder.jpg",
        ) || str_ci_equal(s, "folder.png") || str_ci_equal(s, "front.jpg") || str_ci_equal(
            s,
            "front.png",
        );
        proof {
            let names = extra_file_names();
            assert(names[0] == "cover.jpg"@);
            assert(names[1] == "cover.png"@);
            assert(names[2] == "folder.jpg"@);
            assert(names[3] == "folder.png"@);
            assert(names[4] == "front.jpg"@);
            assert(names[5] == "front.png"@);
            if !hit {
                assert forall|k: int| 0 <= k < names.len() implies !ci_equal(
                    file_name_of(self@),
                    names[k],
                ) by {
                    assert(k == 0 || k == 1 || k == 2 || k == 3 || k == 4 || k == 5);
                }
            }
        }
        hit
    }
}

} // verus!
