//! External commands: how a command name is resolved to files, and how a resolved
//! command is invoked (directly, or through the command interpreter for batch scripts).
use vstd::prelude::*;
use vstd::string::StringExecFns;
use crate::paths::{join, spec_join};
use crate::text::{
    chars_of, eq_ignore_case, equal_ignore_case, is_whitespace, is_whitespace_char, slice_of,
    string_of,
};

verus! {

/// A command found on disk.
#[derive(Clone, Debug)]
pub struct ResolvedCommand {
    pub path: String,
}

/// What a finished command produced.
#[derive(Clone, Debug)]
pub struct CommandOutput {
    /// The command exited with a success status.
    pub success: bool,
    pub stdout: String,
    pub stderr: String,
}

/// The program and arguments that run a resolved command.
#[derive(Clone, Debug)]
pub struct Invocation {
    pub program: String,
    pub args: Vec<String>,
}

/// `'\\'` and `'/'` both separate path components on Windows.
pub open spec fn is_separator(c: char) -> bool {
    c == '\\' || c == '/'
}

/// The characters that separate the components after a path's prefix: only `'\\'` in a
/// verbatim (`\\?\`) path, where `'/'` is an ordinary character, and both elsewhere.
pub open spec fn separates(verbatim: bool, c: char) -> bool {
    if verbatim {
        c == '\\'
    } else {
        is_separator(c)
    }
}

/// Index of the last character of `s` that `separates`, or -1.
pub open spec fn last_separator(s: Seq<char>, verbatim: bool) -> int
    decreases s.len(),
{
    if s.len() == 0 {
        -1
    } else if separates(verbatim, s.last()) {
        s.len() - 1
    } else {
        last_separator(s.drop_last(), verbatim)
    }
}

/// The final component of a path (`Path::file_name` on Windows): empty components at the end
/// are passed over, and so are `.` components outside verbatim paths; a path that ends in
/// `..`, in a verbatim `.`, at a prefix or at a root has none.
pub open spec fn file_name(p: Seq<char>) -> Option<Seq<char>> {
    file_name_within(p, body_start(p), is_verbatim(p))
}

/// The final component of `q`, looking no further back than index `s`.
pub open spec fn file_name_within(q: Seq<char>, s: int, verbatim: bool) -> Option<Seq<char>>
    decreases q.len(),
{
    if 0 <= s < q.len() {
        proof {
            lemma_last_separator_bound(q, verbatim);
        }
        let c = back_component(q, s, verbatim);
        if is_significant(c, verbatim) {
            if c == seq!['.', '.'] || c == seq!['.'] {
                None
            } else {
                Some(c)
            }
        } else {
            file_name_within(q.subrange(0, back_cut(q, s, verbatim)), s, verbatim)
        }
    } else {
        None
    }
}

/// Index of the last `'.'` in `s`, or -1.
pub open spec fn last_dot(s: Seq<char>) -> int
    decreases s.len(),
{
    if s.len() == 0 {
        -1
    } else if s.last() == '.' {
        s.len() - 1
    } else {
        last_dot(s.drop_last())
    }
}

/// The extension of a file name: the text after its last `'.'`, unless that dot is the
/// name's first character.
pub open spec fn name_extension(name: Seq<char>) -> Option<Seq<char>> {
    let d = last_dot(name);
    if d <= 0 {
        None
    } else {
        Some(name.subrange(d + 1, name.len() as int))
    }
}

/// The extension of a path (`Path::extension`).
pub open spec fn path_extension(p: Seq<char>) -> Option<Seq<char>> {
    match file_name(p) {
        Some(name) => name_extension(name),
        None => None,
    }
}

/// A path names a batch script (`.cmd` or `.bat`, in any ASCII case).
pub open spec fn spec_is_shell_script(p: Seq<char>) -> bool {
    match path_extension(p) {
        Some(e) => eq_ignore_case(e, "cmd"@) || eq_ignore_case(e, "bat"@),
        None => false,
    }
}

/// The file names tried for a command name, in order of preference.
pub open spec fn spec_command_candidates(name: Seq<char>) -> Seq<Seq<char>> {
    if path_extension(name) is Some {
        seq![name]
    } else {
        seq![name + ".exe"@, name + ".cmd"@, name + ".bat"@, name + ".com"@, name]
    }
}

/// `s` with every `'"'` replaced by `\"`.
pub open spec fn escape_quotes(s: Seq<char>) -> Seq<char>
    decreases s.len(),
{
    if s.len() == 0 {
        Seq::<char>::empty()
    } else if s.last() == '"' {
        escape_quotes(s.drop_last()) + seq!['\\', '"']
    } else {
        escape_quotes(s.drop_last()).push(s.last())
    }
}

/// An argument needs quoting when it holds whitespace or a double quote.
pub open spec fn needs_quoting(s: Seq<char>) -> bool {
    exists|i: int| 0 <= i < s.len() && (is_whitespace(s[i]) || s[i] == '"')
}

/// An argument as it is written on a command interpreter line.
pub open spec fn spec_quote_shell_argument(s: Seq<char>) -> Seq<char> {
    if needs_quoting(s) {
        seq!['"'] + escape_quotes(s) + seq!['"']
    } else {
        s
    }
}

/// The quoted arguments, each preceded by a space.
pub open spec fn quoted_arguments(args: Seq<Seq<char>>) -> Seq<char>
    decreases args.len(),
{
    if args.len() == 0 {
        Seq::<char>::empty()
    } else {
        quoted_arguments(args.drop_last()) + seq![' '] + spec_quote_shell_argument(args.last())
    }
}

/// The line handed to `cmd /D /S /C`: the quoted script path and arguments, quoted once more.
pub open spec fn spec_shell_command_line(path: Seq<char>, args: Seq<Seq<char>>) -> Seq<char> {
    seq!['"'] + (seq!['"'] + path + seq!['"'] + quoted_arguments(args)) + seq!['"']
}

/// The views of a list of strings.
pub open spec fn string_views(v: Seq<String>) -> Seq<Seq<char>> {
    v.map_values(|s: String| s@)
}

fn last_dot_index(s: &[char]) -> (r: Option<usize>)
    ensures
        match r {
            Some(k) => k as int == last_dot(s@) && k < s.len(),
            None => last_dot(s@) == -1,
        },
{
    let mut i: usize = s.len();
    assert(s@.take(s.len() as int) =~= s@);
    while i > 0
        invariant
            i <= s.len(),
            last_dot(s@) == last_dot(s@.take(i as int)),
        decreases i,
    {
        assert(s@.take(i as int).drop_last() =~= s@.take(i - 1));
        if s[i - 1] == '.' {
            return Some(i - 1);
        }
        i = i - 1;
    }
    None
}

/// Where the last separator can be.
pub proof fn lemma_last_separator_bound(s: Seq<char>, verbatim: bool)
    ensures
        -1 <= last_separator(s, verbatim) < s.len(),
        last_separator(s, verbatim) >= 0 ==> separates(verbatim, s[last_separator(s, verbatim)]),
    decreases s.len(),
{
    if s.len() > 0 && !separates(verbatim, s.last()) {
        lemma_last_separator_bound(s.drop_last(), verbatim);
    }
}

/// The final component of a path, as `file_name` describes it.
pub fn file_name_of(p: &[char]) -> (r: Option<Vec<char>>)
    ensures
        match r {
            Some(v) => file_name(p@) == Some(v@),
            None => file_name(p@) is None,
        },
{
    let n = p.len();
    let (s, verbatim, _) = body_start_of(p);
    assert(p@.subrange(0, n as int) =~= p@);
    let mut m: usize = n;
    while m > s
        invariant
            s <= m <= n,
            n == p.len(),
            s as int == body_start(p@),
            verbatim == is_verbatim(p@),
            file_name(p@) == file_name_within(p@.subrange(0, m as int), s as int, verbatim),
        decreases m,
    {
        let (start, cut, significant) = back_step(p, s, m, verbatim);
        if significant {
            let comp = slice_of(p, start, m);
            if comp.len() == 2 && comp[0] == '.' && comp[1] == '.' {
                assert(comp@ =~= seq!['.', '.']);
                return None;
            }
            if comp.len() == 1 && comp[0] == '.' {
                assert(comp@ =~= seq!['.']);
                return None;
            }
            assert(comp@ != seq!['.', '.'] && comp@ != seq!['.']) by {
                if comp@ == seq!['.', '.'] {
                    assert(comp@.len() == 2 && comp@[0] == '.' && comp@[1] == '.');
                }
                if comp@ == seq!['.'] {
                    assert(comp@.len() == 1 && comp@[0] == '.');
                }
            }
            return Some(comp);
        }
        assert(p@.subrange(0, m as int).subrange(0, cut as int) =~= p@.subrange(0, cut as int));
        m = cut;
    }
    None
}

/// The extension of a path, as `path_extension` describes it.
pub fn extension_of(p: &[char]) -> (r: Option<Vec<char>>)
    ensures
        match r {
            Some(v) => path_extension(p@) == Some(v@),
            None => path_extension(p@) is None,
        },
{
    match file_name_of(p) {
        None => None,
        Some(name) => {
            match last_dot_index(name.as_slice()) {
                None => None,
                Some(d) => {
                    if d == 0 {
                        None
                    } else {
                        Some(slice_of(name.as_slice(), d + 1, name.len()))
                    }
                },
            }
        },
    }
}

/// A path that begins with a drive letter and a colon, such as `C:`.
pub open spec fn has_drive(p: Seq<char>) -> bool {
    p.len() >= 2 && p[1] == ':' && (('a' <= p[0] && p[0] <= 'z') || ('A' <= p[0] && p[0] <= 'Z'))
}

/// Index of the first character of `p` at or after `i` that `separates`, or `p.len()`.
pub open spec fn separator_from(p: Seq<char>, i: int, verbatim: bool) -> int
    decreases p.len() - i,
{
    if i >= p.len() {
        p.len() as int
    } else if separates(verbatim, p[i]) {
        i
    } else {
        separator_from(p, i + 1, verbatim)
    }
}

/// A verbatim path begins with exactly `\\?\`.
pub open spec fn is_verbatim(p: Seq<char>) -> bool {
    p.len() >= 4 && p[0] == '\\' && p[1] == '\\' && p[2] == '?' && p[3] == '\\'
}

/// A verbatim network path: `\\?\UNC\server\share`.
pub open spec fn is_verbatim_unc(p: Seq<char>) -> bool {
    is_verbatim(p) && p.len() >= 8 && p[4] == 'U' && p[5] == 'N' && p[6] == 'C' && is_separator(
        p[7],
    )
}

/// A verbatim drive: `\\?\C:`, then the end of the path or `'\\'`.
pub open spec fn is_verbatim_disk(p: Seq<char>) -> bool {
    &&& is_verbatim(p)
    &&& p.len() >= 6
    &&& p[5] == ':'
    &&& (('a' <= p[4] && p[4] <= 'z') || ('A' <= p[4] && p[4] <= 'Z'))
    &&& (p.len() == 6 || p[6] == '\\')
}

/// A device namespace path, such as `\\.\COM42`.
pub open spec fn is_device(p: Seq<char>) -> bool {
    p.len() >= 4 && is_separator(p[0]) && is_separator(p[1]) && p[2] == '.' && is_separator(p[3])
}

/// A path that begins with two separators, as a network path does.
pub open spec fn starts_with_two_separators(p: Seq<char>) -> bool {
    p.len() >= 2 && is_separator(p[0]) && is_separator(p[1])
}

/// Where a server name that begins at `i` ends, together with the share after it when the share
/// is not empty.
pub open spec fn server_share_end(p: Seq<char>, i: int, verbatim: bool) -> int {
    let e1 = separator_from(p, i, verbatim);
    let e2 = separator_from(p, e1 + 1, verbatim);
    if e1 < p.len() && e2 > e1 + 1 {
        e2
    } else {
        e1
    }
}

/// The length of the prefix that a path begins with (`std::path::Prefix` on Windows), or 0:
/// `\\?\UNC\server\share`, `\\?\C:`, `\\?\name`, `\\.\name`, `\\server\share` with both a
/// server and a share, or a drive such as `C:`.
pub open spec fn prefix_len(p: Seq<char>) -> int {
    if is_verbatim(p) {
        if is_verbatim_unc(p) {
            server_share_end(p, 8, true)
        } else if is_verbatim_disk(p) {
            6
        } else {
            separator_from(p, 4, true)
        }
    } else if is_device(p) {
        separator_from(p, 4, false)
    } else if starts_with_two_separators(p) {
        if separator_from(p, 2, false) > 2 && server_share_end(p, 2, false) > separator_from(
            p,
            2,
            false,
        ) {
            server_share_end(p, 2, false)
        } else {
            0
        }
    } else if has_drive(p) {
        2
    } else {
        0
    }
}

/// Every prefix but a drive stands for a root of its own.
pub open spec fn has_implicit_root(p: Seq<char>) -> bool {
    prefix_len(p) > 0 && !has_drive(p)
}

/// A separator right after the prefix, if any, makes the path absolute.
pub open spec fn has_root(p: Seq<char>) -> bool {
    p.len() > prefix_len(p) && is_separator(p[prefix_len(p)])
}

/// A path without a root whose first component is `.`.
pub open spec fn has_leading_cur_dir(p: Seq<char>) -> bool {
    let d = prefix_len(p);
    !has_root(p) && !has_implicit_root(p) && p.len() > d && p[d] == '.' && (p.len() == d + 1
        || is_separator(p[d + 1]))
}

/// Where the components that follow the prefix, the root and a leading `.` begin.
pub open spec fn body_start(p: Seq<char>) -> int {
    prefix_len(p) + (if has_root(p) {
        1int
    } else {
        0int
    }) + (if has_leading_cur_dir(p) {
        1int
    } else {
        0int
    })
}

/// The last component of `q`, looking no further back than index `s`.
pub open spec fn back_component(q: Seq<char>, s: int, verbatim: bool) -> Seq<char> {
    let k = last_separator(q, verbatim);
    if k >= s {
        q.subrange(k + 1, q.len() as int)
    } else {
        q.subrange(s, q.len() as int)
    }
}

/// The length of `q` once its last component and the separator before it are removed.
pub open spec fn back_cut(q: Seq<char>, s: int, verbatim: bool) -> int {
    let k = last_separator(q, verbatim);
    if k >= s {
        k
    } else {
        s
    }
}

/// A component that counts: not empty, and not `.` outside a verbatim path.
pub open spec fn is_significant(c: Seq<char>, verbatim: bool) -> bool {
    c.len() > 0 && (verbatim || c != seq!['.'])
}

/// `q` without the components at its end that do not count, looking no further back than `s`.
pub open spec fn trim_trailing(q: Seq<char>, s: int, verbatim: bool) -> Seq<char>
    decreases q.len(),
{
    if 0 <= s < q.len() && !is_significant(back_component(q, s, verbatim), verbatim) {
        proof {
            lemma_last_separator_bound(q, verbatim);
        }
        trim_trailing(q.subrange(0, back_cut(q, s, verbatim)), s, verbatim)
    } else {
        q
    }
}

/// The parent of `q`, a prefix of `p` whose components start at `s`.
pub open spec fn parent_within(q: Seq<char>, s: int, p: Seq<char>) -> Option<Seq<char>>
    decreases q.len(),
{
    let verbatim = is_verbatim(p);
    if 0 <= s < q.len() {
        proof {
            lemma_last_separator_bound(q, verbatim);
        }
        let rest = q.subrange(0, back_cut(q, s, verbatim));
        if is_significant(back_component(q, s, verbatim), verbatim) {
            Some(trim_trailing(rest, s, verbatim))
        } else {
            parent_within(rest, s, p)
        }
    } else if prefix_len(p) == 0 && has_leading_cur_dir(p) {
        Some(Seq::<char>::empty())
    } else {
        None
    }
}

/// The directory that contains a path (`Path::parent` on Windows): the path without its last
/// component, or none when the path is empty or ends at a prefix or a root. The prefix is
/// read as `prefix_len` describes it; in a verbatim path only `'\\'` separates components and
/// `.` is a component of its own.
pub open spec fn spec_parent(p: Seq<char>) -> Option<Seq<char>> {
    parent_within(p, body_start(p), p)
}

fn separator_index_from(p: &[char], i: usize, verbatim: bool) -> (r: usize)
    requires
        i <= p.len(),
    ensures
        r as int == separator_from(p@, i as int, verbatim),
        i <= r <= p.len(),
{
    let mut j: usize = i;
    while j < p.len()
        invariant
            i <= j <= p.len(),
            separator_from(p@, i as int, verbatim) == separator_from(p@, j as int, verbatim),
        decreases p.len() - j,
    {
        if p[j] == '\\' || (!verbatim && p[j] == '/') {
            return j;
        }
        j = j + 1;
    }
    j
}

fn server_share_end_of(p: &[char], i: usize, verbatim: bool) -> (r: usize)
    requires
        i <= p.len(),
    ensures
        r as int == server_share_end(p@, i as int, verbatim),
        r as int >= separator_from(p@, i as int, verbatim),
        r <= p.len(),
{
    let e1 = separator_index_from(p, i, verbatim);
    if e1 < p.len() {
        let e2 = separator_index_from(p, e1 + 1, verbatim);
        if e2 > e1 + 1 {
            e2
        } else {
            e1
        }
    } else {
        assert(separator_from(p@, e1 + 1, verbatim) == p.len());
        e1
    }
}

pub(crate) fn prefix_len_of(p: &[char]) -> (r: usize)
    ensures
        r as int == prefix_len(p@),
        r <= p.len(),
{
    let n = p.len();
    let verbatim = n >= 4 && p[0] == '\\' && p[1] == '\\' && p[2] == '?' && p[3] == '\\';
    let two = n >= 2 && (p[0] == '\\' || p[0] == '/') && (p[1] == '\\' || p[1] == '/');
    assert(verbatim == is_verbatim(p@));
    assert(two == starts_with_two_separators(p@));
    if verbatim {
        if n >= 8 && p[4] == 'U' && p[5] == 'N' && p[6] == 'C' && (p[7] == '\\' || p[7] == '/') {
            server_share_end_of(p, 8, true)
        } else if n >= 6 && p[5] == ':' && (('a' <= p[4] && p[4] <= 'z') || ('A' <= p[4] && p[4]
            <= 'Z')) && (n == 6 || p[6] == '\\') {
            6
        } else {
            separator_index_from(p, 4, true)
        }
    } else if two && n >= 4 && p[2] == '.' && (p[3] == '\\' || p[3] == '/') {
        separator_index_from(p, 4, false)
    } else if two {
        let e1 = separator_index_from(p, 2, false);
        let e = server_share_end_of(p, 2, false);
        if e1 > 2 && e > e1 {
            e
        } else {
            0
        }
    } else if n >= 2 && p[1] == ':' && (('a' <= p[0] && p[0] <= 'z') || ('A' <= p[0] && p[0]
        <= 'Z')) {
        2
    } else {
        0
    }
}

/// Where the body of `p` starts, whether `p` is verbatim, and whether `p` is a bare relative
/// path that starts with `.`.
pub(crate) fn body_start_of(p: &[char]) -> (r: (usize, bool, bool))
    ensures
        r.0 as int == body_start(p@),
        r.0 <= p.len(),
        r.1 == is_verbatim(p@),
        r.2 == (prefix_len(p@) == 0 && has_leading_cur_dir(p@)),
{
    let n = p.len();
    let d = prefix_len_of(p);
    let drive = n >= 2 && p[1] == ':' && (('a' <= p[0] && p[0] <= 'z') || ('A' <= p[0] && p[0]
        <= 'Z'));
    let implicit = d > 0 && !drive;
    let root = n > d && (p[d] == '\\' || p[d] == '/');
    let cur = !implicit && !root && n > d && p[d] == '.' && (n == d + 1 || p[d + 1] == '\\' || p[d
        + 1] == '/');
    let verbatim = n >= 4 && p[0] == '\\' && p[1] == '\\' && p[2] == '?' && p[3] == '\\';
    assert(drive == has_drive(p@));
    assert(implicit == has_implicit_root(p@));
    assert(root == has_root(p@));
    assert(cur == has_leading_cur_dir(p@));
    assert(verbatim == is_verbatim(p@));
    let s = d + (if root {
        1usize
    } else {
        0usize
    }) + (if cur {
        1usize
    } else {
        0usize
    });
    (s, verbatim, d == 0 && cur)
}

fn last_separator_upto(p: &[char], n: usize, verbatim: bool) -> (r: Option<usize>)
    requires
        n <= p.len(),
    ensures
        match r {
            Some(k) => k as int == last_separator(p@.subrange(0, n as int), verbatim) && k < n,
            None => last_separator(p@.subrange(0, n as int), verbatim) == -1,
        },
{
    let mut i: usize = n;
    while i > 0
        invariant
            i <= n <= p.len(),
            last_separator(p@.subrange(0, n as int), verbatim) == last_separator(
                p@.subrange(0, i as int),
                verbatim,
            ),
        decreases i,
    {
        assert(p@.subrange(0, i as int).drop_last() =~= p@.subrange(0, i - 1));
        if p[i - 1] == '\\' || (!verbatim && p[i - 1] == '/') {
            return Some(i - 1);
        }
        i = i - 1;
    }
    None
}

pub(crate) fn back_step(p: &[char], s: usize, n: usize, verbatim: bool) -> (r: (usize, usize, bool))
    requires
        s < n <= p.len(),
    ensures
        back_component(p@.subrange(0, n as int), s as int, verbatim) == p@.subrange(
            r.0 as int,
            n as int,
        ),
        r.1 as int == back_cut(p@.subrange(0, n as int), s as int, verbatim),
        r.2 == is_significant(back_component(p@.subrange(0, n as int), s as int, verbatim), verbatim),
        s <= r.1 < n,
        r.1 < r.0 <= n || r.1 == r.0,
{
    let ghost q = p@.subrange(0, n as int);
    proof {
        lemma_last_separator_bound(q, verbatim);
    }
    let k = last_separator_upto(p, n, verbatim);
    let (start, cut) = match k {
        Some(k) => if k >= s {
            (k + 1, k)
        } else {
            (s, s)
        },
        None => (s, s),
    };
    let len = n - start;
    let significant = len > 0 && (verbatim || !(len == 1 && p[start] == '.'));
    proof {
        let c = back_component(q, s as int, verbatim);
        assert(c =~= p@.subrange(start as int, n as int));
        if len == 1 && p@[start as int] == '.' {
            assert(c =~= seq!['.']);
        }
        if c == seq!['.'] {
            assert(c.len() == 1 && c[0] == '.');
        }
    }
    (start, cut, significant)
}

fn trim_trailing_len(p: &[char], s: usize, n: usize, verbatim: bool) -> (m: usize)
    requires
        s <= n <= p.len(),
    ensures
        s <= m <= n,
        p@.subrange(0, m as int) == trim_trailing(p@.subrange(0, n as int), s as int, verbatim),
{
    let mut m: usize = n;
    loop
        invariant
            s <= m <= n <= p.len(),
            trim_trailing(p@.subrange(0, n as int), s as int, verbatim) == trim_trailing(
                p@.subrange(0, m as int),
                s as int,
                verbatim,
            ),
        ensures
            s <= m <= n,
            p@.subrange(0, m as int) == trim_trailing(p@.subrange(0, n as int), s as int, verbatim),
        decreases m,
    {
        if m <= s {
            break;
        }
        let (_, cut, significant) = back_step(p, s, m, verbatim);
        if significant {
            break;
        }
        assert(p@.subrange(0, m as int).subrange(0, cut as int) =~= p@.subrange(0, cut as int));
        m = cut;
    }
    m
}

/// The directory that contains a path, as `spec_parent` describes it.
pub fn parent_of(p: &[char]) -> (r: Option<Vec<char>>)
    ensures
        match r {
            Some(v) => spec_parent(p@) == Some(v@),
            None => spec_parent(p@) is None,
        },
{
    let n = p.len();
    let (s, verbatim, bare_cur) = body_start_of(p);
    assert(p@.subrange(0, n as int) =~= p@);
    let mut m: usize = n;
    while m > s
        invariant
            s <= m <= n,
            n == p.len(),
            s as int == body_start(p@),
            verbatim == is_verbatim(p@),
            parent_within(p@, s as int, p@) == parent_within(p@.subrange(0, m as int), s as int, p@),
        decreases m,
    {
        let (_, cut, significant) = back_step(p, s, m, verbatim);
        assert(p@.subrange(0, m as int).subrange(0, cut as int) =~= p@.subrange(0, cut as int));
        if significant {
            let t = trim_trailing_len(p, s, cut, verbatim);
            return Some(slice_of(p, 0, t));
        }
        m = cut;
    }
    if bare_cur {
        let empty: Vec<char> = Vec::new();
        assert(empty@ =~= Seq::<char>::empty());
        Some(empty)
    } else {
        None
    }
}

/// The directory that contains `path`, if it has one.
pub fn parent_path(path: &str) -> (r: Option<String>)
    ensures
        match r {
            Some(q) => spec_parent(path@) == Some(q@),
            None => spec_parent(path@) is None,
        },
{
    let chars = chars_of(path);
    match parent_of(chars.as_slice()) {
        Some(v) => Some(string_of(v.as_slice())),
        None => None,
    }
}

impl ResolvedCommand {
    /// A command at `path`.
    pub fn new(path: String) -> (r: Self)
        ensures
            r.path == path,
    {
        Self { path }
    }

    /// An identical copy.
    pub fn duplicate(&self) -> (r: Self)
        ensures
            r == *self,
    {
        Self { path: self.path.clone() }
    }

    /// Whether the command is a batch script that the command interpreter must run.
    pub fn is_shell_script(&self) -> (b: bool)
        ensures
            b == spec_is_shell_script(self.path@),
    {
        let p = chars_of(self.path.as_str());
        match extension_of(p.as_slice()) {
            None => false,
            Some(e) => {
                let cmd = chars_of("cmd");
                let bat = chars_of("bat");
                equal_ignore_case(e.as_slice(), cmd.as_slice()) || equal_ignore_case(
                    e.as_slice(),
                    bat.as_slice(),
                )
            },
        }
    }
}

fn with_suffix(name: &str, suffix: &str) -> (r: String)
    ensures
        r@ == name@ + suffix@,
{
    let s = String::from_str(name);
    s.concat(suffix)
}

/// The paths at which a command named `name` is looked for, in order: each directory of
/// `directories` in turn, and in each the file names of `spec_command_candidates`.
pub open spec fn spec_candidate_paths(directories: Seq<Seq<char>>, name: Seq<char>) -> Seq<Seq<char>>
    decreases directories.len(),
{
    if directories.len() == 0 {
        Seq::<Seq<char>>::empty()
    } else {
        spec_candidate_paths(directories.drop_last(), name) + spec_command_candidates(name).map_values(
            |c: Seq<char>| spec_join(directories.last(), c),
        )
    }
}

/// The file names to look for when resolving `name`: the name itself when it already has an
/// extension, else the name with `.exe`, `.cmd`, `.bat`, `.com` and no extension, in that order.
pub fn command_candidates(name: &str) -> (r: Vec<String>)
    ensures
        string_views(r@) == spec_command_candidates(name@),
{
    let chars = chars_of(name);
    let mut r: Vec<String> = Vec::new();
    if extension_of(chars.as_slice()).is_some() {
        r.push(String::from_str(name));
        assert(string_views(r@) =~= seq![name@]);
        return r;
    }
    r.push(with_suffix(name, ".exe"));
    r.push(with_suffix(name, ".cmd"));
    r.push(with_suffix(name, ".bat"));
    r.push(with_suffix(name, ".com"));
    r.push(String::from_str(name));
    assert(string_views(r@) =~= spec_command_candidates(name@));
    r
}

fn escape_quotes_chars(s: &[char]) -> (r: Vec<char>)
    ensures
        r@ == escape_quotes(s@),
{
    let mut r: Vec<char> = Vec::new();
    let mut i: usize = 0;
    while i < s.len()
        invariant
            i <= s.len(),
            r@ == escape_quotes(s@.take(i as int)),
        decreases s.len() - i,
    {
        let ghost before = r@;
        assert(s@.take(i + 1).drop_last() =~= s@.take(i as int));
        if s[i] == '"' {
            r.push('\\');
            r.push('"');
            assert(r@ =~= before + seq!['\\', '"']);
        } else {
            r.push(s[i]);
        }
        i = i + 1;
    }
    assert(s@.take(s.len() as int) =~= s@);
    r
}

/// An argument as written on a command interpreter line: unchanged when it holds no whitespace
/// and no `"`, else wrapped in quotes with each inner `"` escaped as `\"`.
pub fn quote_shell_argument(argument: &str) -> (r: String)
    ensures
        r@ == spec_quote_shell_argument(argument@),
{
    let s = chars_of(argument);
    let mut found = false;
    let mut i: usize = 0;
    while i < s.len()
        invariant
            i <= s.len(),
            s@ == argument@,
            found == exists|j: int| 0 <= j < i && (is_whitespace(s@[j]) || s@[j] == '"'),
        decreases s.len() - i,
    {
        if is_whitespace_char(s[i]) || s[i] == '"' {
            found = true;
        }
        i = i + 1;
    }
    if !found {
        return String::from_str(argument);
    }
    let escaped = escape_quotes_chars(s.as_slice());
    let mut r: Vec<char> = Vec::new();
    r.push('"');
    let mut j: usize = 0;
    while j < escaped.len()
        invariant
            j <= escaped.len(),
            r@ == seq!['"'] + escaped@.take(j as int),
        decreases escaped.len() - j,
    {
        r.push(escaped[j]);
        j = j + 1;
        assert(escaped@.take(j as int) =~= escaped@.take(j - 1).push(escaped@[j - 1]));
    }
    r.push('"');
    assert(escaped@.take(escaped.len() as int) =~= escaped@);
    string_of(r.as_slice())
}

/// The command line that `cmd /D /S /C` runs for a batch script with arguments.
pub fn build_shell_command_line(path: &str, args: &Vec<String>) -> (r: String)
    ensures
        r@ == spec_shell_command_line(path@, string_views(args@)),
{
    let mut line = String::from_str("\"");
    line.append(path);
    line.append("\"");
    let ghost head = "\""@ + path@ + "\""@;
    proof {
        reveal_strlit("\"");
        assert(head =~= seq!['"'] + path@ + seq!['"']);
    }
    let mut i: usize = 0;
    while i < args.len()
        invariant
            i <= args.len(),
            line@ == head + quoted_arguments(string_views(args@).take(i as int)),
        decreases args.len() - i,
    {
        line.append(" ");
        let q = quote_shell_argument(args[i].as_str());
        line.append(q.as_str());
        proof {
            reveal_strlit(" ");
            let t = string_views(args@).take(i + 1);
            assert(t.drop_last() =~= string_views(args@).take(i as int));
            assert(t.last() == args@[i as int]@);
        }
        i = i + 1;
    }
    assert(string_views(args@).take(args.len() as int) =~= string_views(args@));
    let mut r = String::from_str("\"");
    r.append(line.as_str());
    r.append("\"");
    r
}

/// How to run `command` with `args`: batch scripts go through the interpreter `comspec` as
/// `/D /S /C <line>`; anything else is run directly.
pub fn invocation(command: &ResolvedCommand, args: &Vec<String>, comspec: &str) -> (r: Invocation)
    ensures
        spec_is_shell_script(command.path@) ==> r.program@ == comspec@ && string_views(r.args@)
            == seq!["/D"@, "/S"@, "/C"@, spec_shell_command_line(command.path@, string_views(args@))],
        !spec_is_shell_script(command.path@) ==> r.program@ == command.path@ && string_views(
            r.args@,
        ) == string_views(args@),
{
    if command.is_shell_script() {
        let line = build_shell_command_line(command.path.as_str(), args);
        let mut a: Vec<String> = Vec::new();
        a.push(String::from_str("/D"));
        a.push(String::from_str("/S"));
        a.push(String::from_str("/C"));
        a.push(line);
        assert(string_views(a@) =~= seq![
            "/D"@,
            "/S"@,
            "/C"@,
            spec_shell_command_line(command.path@, string_views(args@)),
        ]);
        Invocation { program: String::from_str(comspec), args: a }
    } else {
        let mut a: Vec<String> = Vec::new();
        let mut i: usize = 0;
        while i < args.len()
            invariant
                i <= args.len(),
                string_views(a@) == string_views(args@).take(i as int),
            decreases args.len() - i,
        {
            let ghost before = a@;
            let x = args[i].clone();
            a.push(x);
            assert(a@ == before.push(x));
            assert(string_views(a@) =~= string_views(before).push(args@[i as int]@));
            i = i + 1;
            assert(string_views(a@) =~= string_views(args@).take(i as int));
        }
        assert(string_views(args@).take(args.len() as int) =~= string_views(args@));
        Invocation { program: command.path.clone(), args: a }
    }
}

/// The paths to try, in order, when resolving `name` on a search path made of `directories`:
/// the first of them that is a file is the command.
pub fn candidate_paths(directories: &Vec<String>, name: &str) -> (r: Vec<String>)
    ensures
        string_views(r@) == spec_candidate_paths(string_views(directories@), name@),
{
    let candidates = command_candidates(name);
    let ghost names = spec_command_candidates(name@);
    let mut r: Vec<String> = Vec::new();
    let mut i: usize = 0;
    while i < directories.len()
        invariant
            i <= directories.len(),
            string_views(candidates@) == names,
            names == spec_command_candidates(name@),
            string_views(r@) == spec_candidate_paths(string_views(directories@).take(i as int), name@),
        decreases directories.len() - i,
    {
        let directory = directories[i].as_str();
        let ghost before = string_views(r@);
        let ghost d = directories@[i as int]@;
        let mut j: usize = 0;
        while j < candidates.len()
            invariant
                i < directories.len(),
                j <= candidates.len(),
                d == directories@[i as int]@,
                directory@ == d,
                string_views(candidates@) == names,
                string_views(r@) == before + names.take(j as int).map_values(
                    |c: Seq<char>| spec_join(d, c),
                ),
            decreases candidates.len() - j,
        {
            let path = join(directory, candidates[j].as_str());
            let ghost prev = r@;
            r.push(path);
            proof {
                assert(names[j as int] == candidates@[j as int]@);
                assert(string_views(r@) =~= string_views(prev).push(path@));
                assert(names.take(j + 1).map_values(|c: Seq<char>| spec_join(d, c)) =~= names.take(
                    j as int,
                ).map_values(|c: Seq<char>| spec_join(d, c)).push(spec_join(d, names[j as int])));
            }
            j = j + 1;
        }
        proof {
            assert(names.take(names.len() as int) =~= names);
            let dirs = string_views(directories@).take(i + 1);
            assert(dirs.drop_last() =~= string_views(directories@).take(i as int));
            assert(dirs.last() == d);
        }
        i = i + 1;
    }
    assert(string_views(directories@).take(directories.len() as int) =~= string_views(directories@));
    r
}

/// What one look at a running command showed.
#[derive(Debug)]
pub enum CommandPoll {
    /// It has exited, with a success status or not.
    Exited(bool),
    /// It is still running.
    Running,
    /// Its status could not be read; the reason.
    Failed(String),
}

/// What waiting for a command does next.
#[derive(Debug)]
pub enum CommandWait {
    /// The command has finished, with a success status or not.
    Finished(bool),
    /// Wait a little and look again.
    Sleep,
    /// Kill the command, wait for it to end, and fail with this message.
    Abandon(String),
}

/// The abstract form of a `CommandWait`.
pub enum CommandWaitView {
    Finished(bool),
    Sleep,
    Abandon(Seq<char>),
}

impl View for CommandWait {
    type V = CommandWaitView;

    open spec fn view(&self) -> CommandWaitView {
        match self {
            CommandWait::Finished(b) => CommandWaitView::Finished(*b),
            CommandWait::Sleep => CommandWaitView::Sleep,
            CommandWait::Abandon(m) => CommandWaitView::Abandon(m@),
        }
    }
}

/// The next move of a wait for the command at `command_path`, after a look that showed
/// `poll`, while the deadline is not yet passed (`within_timeout`) or after it.
pub open spec fn spec_command_wait(poll: CommandPoll, within_timeout: bool, command_path: Seq<char>) -> CommandWaitView {
    match poll {
        CommandPoll::Exited(success) => CommandWaitView::Finished(success),
        CommandPoll::Running => if within_timeout {
            CommandWaitView::Sleep
        } else {
            CommandWaitView::Abandon("命令执行超时："@ + command_path)
        },
        CommandPoll::Failed(reason) => CommandWaitView::Abandon("等待命令结束失败："@ + reason@),
    }
}

/// Decides how a wait for a command goes on after one look at it: a finished command is done,
/// a running one is waited for until the deadline and then abandoned as timed out, and one
/// whose status cannot be read is abandoned.
pub fn command_wait(poll: CommandPoll, within_timeout: bool, command_path: &str) -> (r: CommandWait)
    ensures
        r@ == spec_command_wait(poll, within_timeout, command_path@),
{
    match poll {
        CommandPoll::Exited(success) => CommandWait::Finished(success),
        CommandPoll::Running => if within_timeout {
            CommandWait::Sleep
        } else {
            CommandWait::Abandon(String::from_str("命令执行超时：").concat(command_path))
        },
        CommandPoll::Failed(reason) => CommandWait::Abandon(
            String::from_str("等待命令结束失败：").concat(reason.as_str()),
        ),
    }
}

} // verus!
