//! Where the launcher keeps its files under the user's profile directory.
use vstd::prelude::*;
use vstd::string::StringExecFns;
use crate::command::{
    back_component, back_cut, back_step, body_start, body_start_of, has_root, is_significant,
    is_separator, is_verbatim, lemma_last_separator_bound, prefix_len, prefix_len_of,
};
use crate::text::{chars_of, slice_of, string_of};

verus! {

/// A path that is only a drive, such as `C:`; a component joined to it gets no separator.
pub open spec fn is_bare_drive(p: Seq<char>) -> bool {
    p.len() == 2 && p[1] == ':' && (('a' <= p[0] && p[0] <= 'z') || ('A' <= p[0] && p[0] <= 'Z'))
}

/// `component` pushed onto `base` (`PathBuf::push` on Windows): a component with a prefix
/// replaces `base`; onto a verbatim `base` a non-empty component is added as
/// `verbatim_join` describes; a component with a root replaces all of `base` but its prefix;
/// any other is appended after a `'\\'`, unless `base` is empty, already ends with a
/// separator, or is a bare drive.
pub open spec fn spec_join(base: Seq<char>, component: Seq<char>) -> Seq<char> {
    if prefix_len(component) > 0 {
        component
    } else if is_verbatim(base) && component.len() > 0 {
        verbatim_join(base, component)
    } else if has_root(component) {
        base.subrange(0, prefix_len(base)) + component
    } else if base.len() > 0 && !is_separator(base.last()) && !is_bare_drive(base) {
        base + seq!['\\'] + component
    } else {
        base + component
    }
}

/// The components of `q` that count, in order, looking no further back than index `s`.
pub open spec fn components_within(q: Seq<char>, s: int, verbatim: bool) -> Seq<Seq<char>>
    decreases q.len(),
{
    if 0 <= s < q.len() {
        proof {
            lemma_last_separator_bound(q, verbatim);
        }
        let before = components_within(q.subrange(0, back_cut(q, s, verbatim)), s, verbatim);
        let c = back_component(q, s, verbatim);
        if is_significant(c, verbatim) {
            before.push(c)
        } else {
            before
        }
    } else {
        Seq::<Seq<char>>::empty()
    }
}

/// A component that names a file or directory: neither `.` nor `..`.
pub open spec fn is_normal(c: Seq<char>) -> bool {
    c != seq!['.'] && c != seq!['.', '.']
}

/// `items` with `pushed` added one by one: `..` takes away a last component that is normal and
/// is otherwise dropped; any other component is added.
pub open spec fn push_components(items: Seq<Seq<char>>, pushed: Seq<Seq<char>>) -> Seq<Seq<char>>
    decreases pushed.len(),
{
    if pushed.len() == 0 {
        items
    } else {
        let before = push_components(items, pushed.drop_last());
        if pushed.last() == seq!['.', '.'] {
            if before.len() > 0 && is_normal(before.last()) {
                before.drop_last()
            } else {
                before
            }
        } else {
            before.push(pushed.last())
        }
    }
}

/// Each component preceded by `'\\'`.
pub open spec fn joined_components(items: Seq<Seq<char>>) -> Seq<char>
    decreases items.len(),
{
    if items.len() == 0 {
        Seq::<char>::empty()
    } else {
        joined_components(items.drop_last()) + seq!['\\'] + items.last()
    }
}

/// A component pushed onto a verbatim path, which is rebuilt from its parts: its prefix, a
/// root when it or the component has one, and its components (all of them dropped when the
/// component has a root) followed by the component's own, as `push_components` adds them, each
/// after a `'\\'`.
pub open spec fn verbatim_join(base: Seq<char>, component: Seq<char>) -> Seq<char> {
    let kept = if has_root(component) {
        Seq::<Seq<char>>::empty()
    } else {
        components_within(base, body_start(base), true)
    };
    let items = push_components(kept, components_within(component, 0, false));
    base.subrange(0, prefix_len(base)) + (if (has_root(base) || has_root(component)) && items.len()
        == 0 {
        seq!['\\']
    } else {
        Seq::<char>::empty()
    }) + joined_components(items)
}

/// The views of a list of character vectors.
pub open spec fn char_vec_views(v: Seq<Vec<char>>) -> Seq<Seq<char>> {
    v.map_values(|x: Vec<char>| x@)
}

fn components_upto(p: &[char], s: usize, m: usize, verbatim: bool) -> (r: Vec<Vec<char>>)
    requires
        s <= m <= p.len(),
    ensures
        char_vec_views(r@) == components_within(p@.subrange(0, m as int), s as int, verbatim),
    decreases m,
{
    if m <= s {
        let r: Vec<Vec<char>> = Vec::new();
        assert(char_vec_views(r@) =~= Seq::<Seq<char>>::empty());
        return r;
    }
    let (start, cut, significant) = back_step(p, s, m, verbatim);
    assert(p@.subrange(0, m as int).subrange(0, cut as int) =~= p@.subrange(0, cut as int));
    let mut r = components_upto(p, s, cut, verbatim);
    if significant {
        let c = slice_of(p, start, m);
        let ghost before = r@;
        r.push(c);
        assert(char_vec_views(r@) =~= char_vec_views(before).push(c@));
    }
    r
}

fn normal_component(c: &Vec<char>) -> (b: bool)
    ensures
        b == is_normal(c@),
{
    if c.len() == 1 && c[0] == '.' {
        assert(c@ =~= seq!['.']);
        return false;
    }
    if c.len() == 2 && c[0] == '.' && c[1] == '.' {
        assert(c@ =~= seq!['.', '.']);
        return false;
    }
    assert(c@ != seq!['.'] && c@ != seq!['.', '.']) by {
        if c@ == seq!['.'] {
            assert(c@.len() == 1 && c@[0] == '.');
        }
        if c@ == seq!['.', '.'] {
            assert(c@.len() == 2 && c@[0] == '.' && c@[1] == '.');
        }
    }
    true
}

fn verbatim_join_of(base: &[char], component: &[char]) -> (r: Vec<char>)
    ensures
        r@ == verbatim_join(base@, component@),
{
    let d = prefix_len_of(base);
    let (s, _, _) = body_start_of(base);
    let base_root = base.len() > d && (base[d] == '\\' || base[d] == '/');
    let tail_prefix = prefix_len_of(component);
    let tail_root = component.len() > tail_prefix && (component[tail_prefix] == '\\'
        || component[tail_prefix] == '/');
    assert(base@.subrange(0, base.len() as int) =~= base@);
    assert(component@.subrange(0, component.len() as int) =~= component@);
    let mut items: Vec<Vec<char>> = if tail_root {
        let e: Vec<Vec<char>> = Vec::new();
        assert(char_vec_views(e@) =~= Seq::<Seq<char>>::empty());
        e
    } else {
        components_upto(base, s, base.len(), true)
    };
    let ghost kept = char_vec_views(items@);
    let pushed = components_upto(component, 0, component.len(), false);
    let ghost pv = char_vec_views(pushed@);
    let mut j: usize = 0;
    while j < pushed.len()
        invariant
            j <= pushed.len(),
            pv == char_vec_views(pushed@),
            char_vec_views(items@) == push_components(kept, pv.take(j as int)),
        decreases pushed.len() - j,
    {
        assert(pv.take(j + 1).drop_last() =~= pv.take(j as int));
        assert(pv.take(j + 1).last() == pushed@[j as int]@);
        let ghost before = items@;
        let c = &pushed[j];
        if c.len() == 2 && c[0] == '.' && c[1] == '.' {
            assert(c@ =~= seq!['.', '.']);
            if items.len() > 0 && normal_component(&items[items.len() - 1]) {
                items.pop();
                assert(char_vec_views(items@) =~= char_vec_views(before).drop_last());
            }
        } else {
            assert(c@ != seq!['.', '.']) by {
                if c@ == seq!['.', '.'] {
                    assert(c@.len() == 2 && c@[0] == '.' && c@[1] == '.');
                }
            }
            let copy = slice_of(c.as_slice(), 0, c.len());
            assert(copy@ =~= c@);
            items.push(copy);
            assert(char_vec_views(items@) =~= char_vec_views(before).push(c@));
        }
        j = j + 1;
    }
    assert(pv.take(pushed.len() as int) =~= pv);
    let ghost iv = char_vec_views(items@);
    let mut out = slice_of(base, 0, d);
    if (base_root || tail_root) && items.len() == 0 {
        out.push('\\');
    }
    let ghost head = out@;
    let mut j: usize = 0;
    while j < items.len()
        invariant
            j <= items.len(),
            iv == char_vec_views(items@),
            out@ == head + joined_components(iv.take(j as int)),
        decreases items.len() - j,
    {
        assert(iv.take(j + 1).drop_last() =~= iv.take(j as int));
        let item = &items[j];
        let ghost start = out@;
        out.push('\\');
        let mut k: usize = 0;
        while k < item.len()
            invariant
                k <= item.len(),
                out@ == start + seq!['\\'] + item@.take(k as int),
            decreases item.len() - k,
        {
            out.push(item[k]);
            assert(item@.take(k + 1) =~= item@.take(k as int).push(item@[k as int]));
            k = k + 1;
        }
        assert(item@.take(item.len() as int) =~= item@);
        assert(iv.take(j + 1).last() == item@);
        j = j + 1;
    }
    assert(iv.take(items.len() as int) =~= iv);
    out
}

/// The launcher's directory: `<profile>\.dsh\dsh-launcher`.
pub open spec fn spec_launcher_root(profile: Seq<char>) -> Seq<char> {
    spec_join(spec_join(profile, ".dsh"@), "dsh-launcher"@)
}

/// `component` joined to `base`, as `spec_join` describes it.
pub fn join(base: &str, component: &str) -> (r: String)
    ensures
        r@ == spec_join(base@, component@),
{
    let tail = chars_of(component);
    let tail_prefix = prefix_len_of(tail.as_slice());
    if tail_prefix > 0 {
        return String::from_str(component);
    }
    let chars = chars_of(base);
    let n = chars.len();
    let (_, verbatim, _) = body_start_of(chars.as_slice());
    if verbatim && tail.len() > 0 {
        let joined = verbatim_join_of(chars.as_slice(), tail.as_slice());
        return string_of(joined.as_slice());
    }
    if tail.len() > 0 && (tail[0] == '\\' || tail[0] == '/') {
        let kept = slice_of(chars.as_slice(), 0, prefix_len_of(chars.as_slice()));
        let mut r = string_of(kept.as_slice());
        r.append(component);
        return r;
    }
    let bare_drive = n == 2 && chars[1] == ':' && (('a' <= chars[0] && chars[0] <= 'z') || ('A'
        <= chars[0] && chars[0] <= 'Z'));
    let mut r = String::from_str(base);
    if n > 0 && chars[n - 1] != '\\' && chars[n - 1] != '/' && !bare_drive {
        r.append("\\");
        proof {
            reveal_strlit("\\");
            assert("\\"@ =~= seq!['\\']);
        }
    }
    r.append(component);
    r
}

/// The launcher's directory under the user's profile directory.
pub fn launcher_root(profile: &str) -> (r: String)
    ensures
        r@ == spec_launcher_root(profile@),
{
    let dsh = join(profile, ".dsh");
    join(dsh.as_str(), "dsh-launcher")
}

/// The directory of the log files.
pub fn logs_directory(profile: &str) -> (r: String)
    ensures
        r@ == spec_join(spec_launcher_root(profile@), "logs"@),
{
    let root = launcher_root(profile);
    join(root.as_str(), "logs")
}

/// The state file that records the running Harness.
pub fn state_file(profile: &str) -> (r: String)
    ensures
        r@ == spec_join(spec_launcher_root(profile@), "state.json"@),
{
    let root = launcher_root(profile);
    join(root.as_str(), "state.json")
}

} // verus!
