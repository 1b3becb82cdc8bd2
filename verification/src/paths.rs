//! File path operations of `std::path`, on paths held as UTF-8 text.
use vstd::prelude::*;

use std::path::Path;

verus! {

/// Whether a character separates path components or starts a prefix on some
/// platform: '/' everywhere, '\\' and ':' on Windows.
pub open spec fn path_syntax_char(c: char) -> bool {
    c == '/' || c == '\\' || c == ':'
}

/// Whether a text is a bare file name on every platform: nonempty, without
/// separators or prefix characters, and neither "." nor "..". Such a path is one
/// relative, normal component.
pub open spec fn plain_name(s: Seq<char>) -> bool {
    &&& s.len() > 0
    &&& forall|i: int| 0 <= i < s.len() ==> !path_syntax_char(#[trigger] s[i])
    &&& s != seq!['.']
    &&& s != seq!['.', '.']
}

/// The index of the last '.' of a text, or -1 when it has none.
pub open spec fn last_dot(s: Seq<char>) -> int
    decreases s.len(),
{
    if s.len() == 0 {
        -1
    } else if s.last() == '.' {
        s.len() - 1
    } else {
        last_dot(s.drop_last())
    }
}

/// The stem of a file name, as `Path::file_stem` documents it: the whole name when
/// it has no '.', or when its only '.' is the first character; else the part
/// before the final '.'.
pub open spec fn stem_of(name: Seq<char>) -> Seq<char> {
    if last_dot(name) <= 0 {
        name
    } else {
        name.subrange(0, last_dot(name))
    }
}

/// The index of the last '/' of a text, or -1 when it has none.
pub open spec fn last_slash(s: Seq<char>) -> int
    decreases s.len(),
{
    if s.len() == 0 {
        -1
    } else if s.last() == '/' {
        s.len() - 1
    } else {
        last_slash(s.drop_last())
    }
}

/// The part of a path after its last '/': the whole text when it has none.
pub open spec fn leaf_of(p: Seq<char>) -> Seq<char> {
    p.subrange(last_slash(p) + 1, p.len() as int)
}

/// The part of a path up to and including its last '/': empty when it has none.
pub open spec fn leaf_dir(p: Seq<char>) -> Seq<char> {
    p.subrange(0, last_slash(p) + 1)
}

/// Whether a character separates path components on some platform: '/' everywhere,
/// '\\' on Windows.
pub open spec fn separator(c: char) -> bool {
    c == '/' || c == '\\'
}

/// Whether a path has no prefix that some platform reads specially: it does not
/// begin with two separators (a network, device or verbatim prefix on Windows, where
/// '/' may not separate).
pub open spec fn portable(p: Seq<char>) -> bool {
    !(p.len() >= 2 && separator(p[0]) && separator(p[1]))
}

/// Whether a path's last component is the same on every platform: the path is
/// `portable` and its part after the last '/' is a bare file name. Bare file names
/// are such paths.
pub open spec fn leaf_path(p: Seq<char>) -> bool {
    portable(p) && plain_name(leaf_of(p))
}

/// Whether every platform reads the parent of a path alike: a `leaf_path` whose part
/// before the last '/' is empty (the root "/"), absent (a bare file name), or ends
/// with a character that is no separator, prefix character or '.'.
pub open spec fn parent_known(p: Seq<char>) -> bool {
    &&& leaf_path(p)
    &&& last_slash(p) > 0 ==> {
        let d = p.subrange(0, last_slash(p));
        !path_syntax_char(d.last()) && d.last() != '.'
    }
}

/// The parent of a path with `parent_known`: "" for a bare file name, "/" for a file
/// in the root, else the text before the last '/'.
pub open spec fn parent_of(p: Seq<char>) -> Seq<char> {
    if last_slash(p) < 0 {
        Seq::empty()
    } else if last_slash(p) == 0 {
        seq!['/']
    } else {
        p.subrange(0, last_slash(p))
    }
}

/// Whether `res` is what `Path::join` gives, on every platform, for a `portable` base
/// and a bare file name `name`: `name` after an empty base; else the base, the
/// platform's separator ('/' or '\\') and `name`, where no separator is added after a
/// base ending with '/' and none may be after one ending with '\\' or ':' (a Windows
/// separator or drive).
pub open spec fn joined(base: Seq<char>, name: Seq<char>, res: Seq<char>) -> bool {
    let with_sep = res == base + seq!['/'] + name || res == base + seq!['\\'] + name;
    if base.len() == 0 {
        res == name
    } else if base.last() == '/' {
        res == base + name
    } else if path_syntax_char(base.last()) {
        res == base + name || with_sep
    } else {
        with_sep
    }
}

/// The last '/' of a text lies inside it, and is a '/'.
pub proof fn lemma_last_slash_bounds(s: Seq<char>)
    ensures
        -1 <= last_slash(s) < s.len(),
        last_slash(s) >= 0 ==> s[last_slash(s)] == '/',
    decreases s.len(),
{
    if s.len() > 0 && s.last() != '/' {
        lemma_last_slash_bounds(s.drop_last());
    }
}

/// Calls `Path::parent`: the path without its last component, if it has one. Path
/// syntax depends on the platform, so only what holds everywhere is claimed: for a
/// path with `parent_known`, the parent is `parent_of` (the text before the last '/',
/// "/" in the root, "" for a bare file name, as its documentation says).
#[verifier::external_body]
pub(crate) fn path_parent(p: &str) -> (res: Option<String>)
    ensures
        parent_known(p@) ==> res is Some,
        res matches Some(q) ==> (parent_known(p@) ==> q@ == parent_of(p@)),
{
    Path::new(p).parent().map(|q| q.to_string_lossy().to_string())
}

/// Calls `Path::join`: `name` appended to `base` as a new component. Path syntax
/// depends on the platform, so only what holds everywhere is claimed: for a
/// `portable` base and a bare file name, the result is `joined`.
#[verifier::external_body]
pub(crate) fn path_join(base: &str, name: &str) -> (res: String)
    ensures
        plain_name(name@) && portable(base@) ==> joined(base@, name@, res@),
{
    Path::new(base).join(name).to_string_lossy().to_string()
}

/// Calls `Path::file_stem`: the file name without its extension, if there is a file
/// name. Path syntax depends on the platform, so only what holds everywhere is
/// claimed: for a `leaf_path`, the file name is the part after the last '/', whose
/// stem is as the documentation says (`stem_of`).
#[verifier::external_body]
pub(crate) fn path_file_stem(p: &str) -> (res: Option<String>)
    ensures
        leaf_path(p@) ==> res is Some,
        res matches Some(s) ==> (leaf_path(p@) ==> s@ == stem_of(leaf_of(p@))),
{
    Path::new(p).file_stem().and_then(|s| s.to_str()).map(|s| s.to_string())
}

/// Calls `Path::with_extension`: the path with its extension replaced by (or extended
/// with) `ext`, which holds no separator (newer versions of std panic on one). Path
/// syntax depends on the platform, so only what holds everywhere is claimed: in a
/// `leaf_path`, the part after the last '/' becomes its stem (`stem_of`), a '.' and
/// the extension.
#[verifier::external_body]
pub(crate) fn path_with_extension(p: &str, ext: &str) -> (res: String)
    requires
        forall|i: int| 0 <= i < ext@.len() ==> !path_syntax_char(#[trigger] ext@[i]),
    ensures
        leaf_path(p@) && ext@.len() > 0 ==> res@ == leaf_dir(p@) + stem_of(leaf_of(p@)) + "."@ + ext@,
{
    Path::new(p).with_extension(ext).to_string_lossy().to_string()
}

/// Whether a path reads as the same components, split at '/', on every platform, and
/// different texts give different components: nonempty, without '\\' or ':', not
/// beginning with two '/', without empty components (no "//", no final '/') and
/// without "." components (which `Path` skips).
pub open spec fn canonical(p: Seq<char>) -> bool {
    &&& p.len() > 0
    &&& forall|i: int| 0 <= i < p.len() ==> #[trigger] p[i] != '\\' && p[i] != ':'
    &&& p.last() != '/'
    &&& forall|i: int| 0 <= i < p.len() - 1 ==> !(#[trigger] p[i] == '/' && p[i + 1] == '/')
    &&& forall|i: int| 0 <= i < p.len() && #[trigger] p[i] == '.' ==> !((i == 0 || p[i - 1] == '/') && (i + 1 == p.len()
        || p[i + 1] == '/'))
}

/// A bare file name is `canonical`.
pub proof fn lemma_plain_canonical(p: Seq<char>)
    requires
        plain_name(p),
    ensures
        canonical(p),
{
    assert(!path_syntax_char(p[p.len() - 1]));
    assert forall|i: int| 0 <= i < p.len() && #[trigger] p[i] == '.' implies !((i == 0 || p[i - 1] == '/') && (i + 1 == p.len()
        || p[i + 1] == '/')) by {
        if i > 0 {
            assert(!path_syntax_char(p[i - 1]));
        }
        if i + 1 < p.len() {
            assert(!path_syntax_char(p[i + 1]));
        }
        if i == 0 && i + 1 == p.len() {
            assert(p =~= seq!['.']);
        }
    }
    assert forall|i: int| 0 <= i < p.len() - 1 implies !(#[trigger] p[i] == '/' && p[i + 1] == '/') by {
        assert(!path_syntax_char(p[i]));
    }
    assert forall|i: int| 0 <= i < p.len() implies #[trigger] p[i] != '\\' && p[i] != ':' by {
        assert(!path_syntax_char(p[i]));
    }
}

/// Calls `Path::eq`: whether two paths have the same components. Equal text has the
/// same components; two `canonical` paths have the same components exactly when
/// their texts are equal. Other paths compare by the platform's path syntax, which is
/// not claimed.
#[verifier::external_body]
pub(crate) fn same_path(a: &str, b: &str) -> (eq: bool)
    ensures
        a@ == b@ ==> eq,
        canonical(a@) && canonical(b@) ==> (eq <==> a@ == b@),
{
    Path::new(a) == Path::new(b)
}

/// Whether a character has the Unicode `White_Space` property, the whitespace that
/// `str::trim` removes.
pub open spec fn white_space(c: char) -> bool {
    let u = c as u32;
    ||| 0x9 <= u <= 0xD
    ||| u == 0x20
    ||| u == 0x85
    ||| u == 0xA0
    ||| u == 0x1680
    ||| 0x2000 <= u <= 0x200A
    ||| u == 0x2028
    ||| u == 0x2029
    ||| u == 0x202F
    ||| u == 0x205F
    ||| u == 0x3000
}

/// A text without its leading whitespace.
pub open spec fn trim_start(s: Seq<char>) -> Seq<char>
    decreases s.len(),
{
    if s.len() > 0 && white_space(s[0]) {
        trim_start(s.drop_first())
    } else {
        s
    }
}

/// A text without its trailing whitespace.
pub open spec fn trim_end(s: Seq<char>) -> Seq<char>
    decreases s.len(),
{
    if s.len() > 0 && white_space(s.last()) {
        trim_end(s.drop_last())
    } else {
        s
    }
}

/// A text without its leading and trailing whitespace.
pub open spec fn trimmed(s: Seq<char>) -> Seq<char> {
    trim_end(trim_start(s))
}

/// Whether a character has the Unicode `White_Space` property.
fn is_white_space(c: char) -> (b: bool)
    ensures
        b == white_space(c),
{
    let u = c as u32;
    (0x9 <= u && u <= 0xD) || u == 0x20 || u == 0x85 || u == 0xA0 || u == 0x1680 || (0x2000 <= u && u <= 0x200A)
        || u == 0x2028 || u == 0x2029 || u == 0x202F || u == 0x205F || u == 0x3000
}

/// Dropping `a` leading whitespace characters, up to the first other one, is
/// `trim_start`.
proof fn lemma_trim_start(s: Seq<char>, a: int)
    requires
        0 <= a <= s.len(),
        forall|i: int| 0 <= i < a ==> white_space(#[trigger] s[i]),
        a == s.len() || !white_space(s[a]),
    ensures
        trim_start(s) == s.subrange(a, s.len() as int),
    decreases a,
{
    if a == 0 {
        assert(s.subrange(0, s.len() as int) =~= s);
    } else {
        let t = s.drop_first();
        assert forall|i: int| 0 <= i < a - 1 implies white_space(#[trigger] t[i]) by {
            assert(t[i] == s[i + 1]);
        }
        if a < s.len() {
            assert(t[a - 1] == s[a]);
        }
        lemma_trim_start(t, a - 1);
        assert(t.subrange(a - 1, t.len() as int) =~= s.subrange(a, s.len() as int));
    }
}

/// Dropping the trailing whitespace characters from `b` on, down to the last other
/// one, is `trim_end`.
proof fn lemma_trim_end(s: Seq<char>, b: int)
    requires
        0 <= b <= s.len(),
        forall|i: int| b <= i < s.len() ==> white_space(#[trigger] s[i]),
        b == 0 || !white_space(s[b - 1]),
    ensures
        trim_end(s) == s.subrange(0, b),
    decreases s.len() - b,
{
    if b == s.len() {
        assert(s.subrange(0, b) =~= s);
    } else {
        let t = s.drop_last();
        assert forall|i: int| b <= i < t.len() implies white_space(#[trigger] t[i]) by {
            assert(t[i] == s[i]);
        }
        if b > 0 {
            assert(t[b - 1] == s[b - 1]);
        }
        lemma_trim_end(t, b);
        assert(t.subrange(0, b) =~= s.subrange(0, b));
    }
}

/// The text without its leading and trailing `White_Space` characters, as `str::trim`
/// gives it.
pub(crate) fn trim_text(s: &str) -> (t: &str)
    ensures
        t@ == trimmed(s@),
{
    let n = s.unicode_len();
    let mut a: usize = 0;
    while a < n && is_white_space(s.get_char(a))
        invariant
            a <= n,
            n == s@.len(),
            forall|i: int| 0 <= i < a ==> white_space(#[trigger] s@[i]),
        decreases n - a,
    {
        a = a + 1;
    }
    let mut b: usize = n;
    while b > a && is_white_space(s.get_char(b - 1))
        invariant
            a <= b <= n,
            n == s@.len(),
            forall|i: int| b <= i < n ==> white_space(#[trigger] s@[i]),
        decreases b - a,
    {
        b = b - 1;
    }
    proof {
        lemma_trim_start(s@, a as int);
        let rest = s@.subrange(a as int, n as int);
        assert forall|i: int| b - a <= i < rest.len() implies white_space(#[trigger] rest[i]) by {
            assert(rest[i] == s@[a + i]);
        }
        if b > a {
            assert(rest[b - a - 1] == s@[b - 1]);
        }
        lemma_trim_end(rest, (b - a) as int);
        assert(rest.subrange(0, (b - a) as int) =~= s@.subrange(a as int, b as int));
    }
    s.substring_char(a, b)
}

} // verus!
