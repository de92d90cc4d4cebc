//! Version strings as shown in the tray menu and compared before an update.
use vstd::prelude::*;
use crate::text::{
    chars_of, concat, eq_ignore_case, lower, lower_char, equal_ignore_case, is_whitespace, slice_of, string_of, trim,
    trim_chars, trim_end, trim_start,
};

verus! {

/// Text with every leading `'v'` or `'V'` removed.
pub open spec fn strip_v(s: Seq<char>) -> Seq<char>
    decreases s.len(),
{
    if s.len() > 0 && (s[0] == 'v' || s[0] == 'V') {
        strip_v(s.drop_first())
    } else {
        s
    }
}

/// A version with surrounding whitespace and its `v` prefix removed.
pub open spec fn spec_trim_version(s: Seq<char>) -> Seq<char> {
    strip_v(trim(s))
}

/// The tray menu label of a component whose version is known.
pub open spec fn spec_version_label(component: Seq<char>, version: Seq<char>) -> Seq<char> {
    component + " 版本：v"@ + spec_trim_version(version) + " - 检查更新"@
}

/// Two versions name the same release.
pub open spec fn spec_versions_equal(left: Seq<char>, right: Seq<char>) -> bool {
    eq_ignore_case(spec_trim_version(left), spec_trim_version(right))
}

proof fn lemma_strip_v_skip(s: Seq<char>, i: int)
    requires
        0 <= i <= s.len(),
        forall|j: int| 0 <= j < i ==> (s[j] == 'v' || s[j] == 'V'),
    ensures
        strip_v(s) == strip_v(s.subrange(i, s.len() as int)),
    decreases i,
{
    if i > 0 {
        assert(s[0] == 'v' || s[0] == 'V');
        assert forall|j: int| 0 <= j < i - 1 implies (s.drop_first()[j] == 'v' || s.drop_first()[j]
            == 'V') by {
            assert(s.drop_first()[j] == s[j + 1]);
        }
        lemma_strip_v_skip(s.drop_first(), i - 1);
        assert(s.drop_first().subrange(i - 1, s.drop_first().len() as int) =~= s.subrange(
            i,
            s.len() as int,
        ));
    } else {
        assert(s.subrange(0, s.len() as int) =~= s);
    }
}

fn strip_v_chars(s: &[char]) -> (r: Vec<char>)
    ensures
        r@ == strip_v(s@),
{
    let mut i: usize = 0;
    while i < s.len() && (s[i] == 'v' || s[i] == 'V')
        invariant
            i <= s.len(),
            forall|j: int| 0 <= j < i ==> (s@[j] == 'v' || s@[j] == 'V'),
        decreases s.len() - i,
    {
        i = i + 1;
    }
    proof {
        lemma_strip_v_skip(s@, i as int);
    }
    slice_of(s, i, s.len())
}

fn trim_version_chars(version: &str) -> (r: Vec<char>)
    ensures
        r@ == spec_trim_version(version@),
{
    let v = chars_of(version);
    let t = trim_chars(v.as_slice());
    strip_v_chars(t.as_slice())
}

/// The version without surrounding whitespace and without its leading `v`/`V` characters.
pub fn trim_version(version: &str) -> (r: String)
    ensures
        r@ == spec_trim_version(version@),
{
    let t = trim_version_chars(version);
    string_of(t.as_slice())
}

/// The tray menu label `"<component> 版本：v<version> - 检查更新"`.
pub fn version_label(component: &str, version: &str) -> (r: String)
    ensures
        r@ == spec_version_label(component@, version@),
{
    let c = chars_of(component);
    let middle = chars_of(" 版本：v");
    let t = trim_version_chars(version);
    let tail = chars_of(" - 检查更新");
    let a = concat(c.as_slice(), middle.as_slice());
    let b = concat(a.as_slice(), t.as_slice());
    let all = concat(b.as_slice(), tail.as_slice());
    string_of(all.as_slice())
}

/// The tray menu label of a component whose version could not be read.
pub fn unknown_version_label(component: &str) -> (r: String)
    ensures
        r@ == component@ + " 版本：未知 - 检查更新"@,
{
    let c = chars_of(component);
    let tail = chars_of(" 版本：未知 - 检查更新");
    let all = concat(c.as_slice(), tail.as_slice());
    string_of(all.as_slice())
}

/// Whether two versions are the same once trimmed and stripped of their `v`, ignoring ASCII case.
pub fn versions_equal(left: &str, right: &str) -> (r: bool)
    ensures
        r == spec_versions_equal(left@, right@),
{
    let l = trim_version_chars(left);
    let r = trim_version_chars(right);
    equal_ignore_case(l.as_slice(), r.as_slice())
}

/// Version comparison is an equivalence: reflexive, symmetric and transitive.
pub proof fn versions_equal_is_equivalence(a: Seq<char>, b: Seq<char>, c: Seq<char>)
    ensures
        spec_versions_equal(a, a),
        spec_versions_equal(a, b) ==> spec_versions_equal(b, a),
        spec_versions_equal(a, b) && spec_versions_equal(b, c) ==> spec_versions_equal(a, c),
{
}

/// Two versions are equal exactly when, trimmed and stripped of their leading `v`, they are as
/// long as each other and agree character by character up to ASCII case; so a pre-release such
/// as `1.3.0-beta.1` never equals the release `1.3.0`, and a version never equals a longer one.
pub proof fn versions_equal_compares_every_character(a: Seq<char>, b: Seq<char>)
    ensures
        spec_versions_equal(a, b) <==> ({
            let x = spec_trim_version(a);
            let y = spec_trim_version(b);
            &&& x.len() == y.len()
            &&& forall|i: int| 0 <= i < x.len() ==> #[trigger] lower_char(x[i]) == lower_char(y[i])
        }),
{
    let x = spec_trim_version(a);
    let y = spec_trim_version(b);
    if spec_versions_equal(a, b) {
        assert(lower(x).len() == x.len());
        assert(lower(y).len() == y.len());
        assert forall|i: int| 0 <= i < x.len() implies #[trigger] lower_char(x[i]) == lower_char(
            y[i],
        ) by {
            assert(lower(x)[i] == lower(y)[i]);
        }
    }
    if x.len() == y.len() && (forall|i: int| 0 <= i < x.len() ==> #[trigger] lower_char(x[i])
        == lower_char(y[i])) {
        assert(lower(x) =~= lower(y));
    }
}

proof fn lemma_trim_start_cut(s: Seq<char>) -> (i: int)
    ensures
        0 <= i <= s.len(),
        trim_start(s) == s.subrange(i, s.len() as int),
        forall|k: int| 0 <= k < i ==> is_whitespace(#[trigger] s[k]),
    decreases s.len(),
{
    if s.len() > 0 && is_whitespace(s[0]) {
        let i0 = lemma_trim_start_cut(s.drop_first());
        assert(s.drop_first().subrange(i0, s.drop_first().len() as int) =~= s.subrange(
            i0 + 1,
            s.len() as int,
        ));
        assert forall|k: int| 0 <= k < i0 + 1 implies is_whitespace(#[trigger] s[k]) by {
            if k > 0 {
                assert(s[k] == s.drop_first()[k - 1]);
            }
        }
        i0 + 1
    } else {
        assert(s.subrange(0, s.len() as int) =~= s);
        0
    }
}

proof fn lemma_trim_end_cut(s: Seq<char>) -> (j: int)
    ensures
        0 <= j <= s.len(),
        trim_end(s) == s.subrange(0, j),
        forall|k: int| j <= k < s.len() ==> is_whitespace(#[trigger] s[k]),
        j > 0 ==> !is_whitespace(s[j - 1]),
    decreases s.len(),
{
    if s.len() > 0 && is_whitespace(s.last()) {
        let j0 = lemma_trim_end_cut(s.drop_last());
        assert(s.drop_last().subrange(0, j0) =~= s.subrange(0, j0));
        assert forall|k: int| j0 <= k < s.len() implies is_whitespace(#[trigger] s[k]) by {
            if k < s.len() - 1 {
                assert(s[k] == s.drop_last()[k]);
            }
        }
        if j0 > 0 {
            assert(s[j0 - 1] == s.drop_last()[j0 - 1]);
        }
        j0
    } else {
        assert(s.subrange(0, s.len() as int) =~= s);
        s.len() as int
    }
}

proof fn lemma_strip_v_cut(s: Seq<char>) -> (i: int)
    ensures
        0 <= i <= s.len(),
        strip_v(s) == s.subrange(i, s.len() as int),
        forall|k: int| 0 <= k < i ==> (#[trigger] s[k] == 'v' || s[k] == 'V'),
        i < s.len() ==> s[i] != 'v' && s[i] != 'V',
    decreases s.len(),
{
    if s.len() > 0 && (s[0] == 'v' || s[0] == 'V') {
        let i0 = lemma_strip_v_cut(s.drop_first());
        assert(s.drop_first().subrange(i0, s.drop_first().len() as int) =~= s.subrange(
            i0 + 1,
            s.len() as int,
        ));
        assert forall|k: int| 0 <= k < i0 + 1 implies (#[trigger] s[k] == 'v' || s[k] == 'V') by {
            if k > 0 {
                assert(s[k] == s.drop_first()[k - 1]);
            }
        }
        if i0 + 1 < s.len() {
            assert(s[i0 + 1] == s.drop_first()[i0]);
        }
        i0 + 1
    } else {
        assert(s.subrange(0, s.len() as int) =~= s);
        0
    }
}

/// A trimmed version is a piece of the text it came from: only whitespace and `v`/`V`
/// characters are cut from its front and only whitespace from its end, and what is left
/// neither starts with `v` or `V` nor ends in whitespace.
pub proof fn trim_version_keeps_the_version_text(s: Seq<char>)
    ensures
        exists|i: int, j: int|
            0 <= i <= j <= s.len() && spec_trim_version(s) == s.subrange(i, j) && (forall|k: int|
                j <= k < s.len() ==> is_whitespace(#[trigger] s[k])) && (forall|k: int|
                0 <= k < i ==> is_whitespace(#[trigger] s[k]) || s[k] == 'v' || s[k] == 'V'),
        spec_trim_version(s).len() > 0 ==> spec_trim_version(s)[0] != 'v' && spec_trim_version(
            s,
        )[0] != 'V' && !is_whitespace(spec_trim_version(s).last()),
{
    let i1 = lemma_trim_start_cut(s);
    let ts = trim_start(s);
    let j1 = lemma_trim_end_cut(ts);
    let te = trim_end(ts);
    let i2 = lemma_strip_v_cut(te);
    let t = spec_trim_version(s);
    assert(te =~= s.subrange(i1, i1 + j1));
    assert(t =~= s.subrange(i1 + i2, i1 + j1));
    assert forall|k: int| i1 + j1 <= k < s.len() implies is_whitespace(#[trigger] s[k]) by {
        assert(s[k] == ts[k - i1]);
    }
    assert forall|k: int| 0 <= k < i1 + i2 implies is_whitespace(#[trigger] s[k]) || s[k] == 'v'
        || s[k] == 'V' by {
        if k >= i1 {
            assert(s[k] == te[k - i1]);
        }
    }
    if t.len() > 0 {
        assert(t[0] == te[i2]);
        assert(t.last() == ts[j1 - 1]);
    }
}

/// An already trimmed version compares equal to itself with a `v` or `V` prefix.
pub proof fn versions_equal_ignores_v_prefix(s: Seq<char>)
    requires
        trim(s) == s,
    ensures
        spec_versions_equal(seq!['v'] + s, s),
        spec_versions_equal(seq!['V'] + s, s),
{
    lemma_trim_prefix_letter(s, 'v');
    lemma_trim_prefix_letter(s, 'V');
    assert((seq!['v'] + s).drop_first() =~= s);
    assert((seq!['V'] + s).drop_first() =~= s);
}

proof fn lemma_trim_end_prepend(s: Seq<char>, c: char)
    requires
        !is_whitespace(c),
    ensures
        trim_end(seq![c] + s) == seq![c] + trim_end(s),
    decreases s.len(),
{
    let t = seq![c] + s;
    if s.len() > 0 && is_whitespace(s.last()) {
        assert(t.last() == s.last());
        assert(t.drop_last() =~= seq![c] + s.drop_last());
        lemma_trim_end_prepend(s.drop_last(), c);
    } else if s.len() > 0 {
        assert(t.last() == s.last());
    } else {
        assert(t =~= seq![c]);
        assert(t.last() == c);
    }
}

proof fn lemma_trim_prefix_letter(s: Seq<char>, c: char)
    requires
        trim(s) == s,
        c == 'v' || c == 'V',
    ensures
        trim(seq![c] + s) == seq![c] + s,
{
    let t = seq![c] + s;
    assert(t[0] == c);
    assert(trim_start(t) == t);
    lemma_trim_end_prepend(s, c);
    // `s` is already trimmed, so in particular trim_end(s) == s
    lemma_trim_idem(s);
}

proof fn lemma_trim_idem(s: Seq<char>)
    requires
        trim(s) == s,
    ensures
        trim_end(s) == s,
{
    lemma_trim_start_of_trimmed(s);
}

proof fn lemma_trim_start_of_trimmed(s: Seq<char>)
    requires
        trim(s) == s,
    ensures
        trim_start(s) == s,
{
    lemma_trim_end_len(trim_start(s));
    lemma_trim_start_len(s);
    if trim_start(s) != s {
        lemma_trim_start_shorter(s);
    }
}

proof fn lemma_trim_start_len(s: Seq<char>)
    ensures
        trim_start(s).len() <= s.len(),
    decreases s.len(),
{
    if s.len() > 0 && is_whitespace(s[0]) {
        lemma_trim_start_len(s.drop_first());
    }
}

proof fn lemma_trim_end_len(s: Seq<char>)
    ensures
        trim_end(s).len() <= s.len(),
    decreases s.len(),
{
    if s.len() > 0 && is_whitespace(s.last()) {
        lemma_trim_end_len(s.drop_last());
    }
}

proof fn lemma_trim_start_shorter(s: Seq<char>)
    requires
        trim_start(s) != s,
    ensures
        trim_start(s).len() < s.len(),
    decreases s.len(),
{
    if s.len() > 0 && is_whitespace(s[0]) {
        lemma_trim_start_len(s.drop_first());
    }
}

} // verus!
