//! Character-level text utilities shared by the launcher's parsers and formatters.
//!
//! Text is modelled as `Seq<char>`; executable helpers work on `&[char]` / `Vec<char>`
//! and convert to and from `String` at the edges.
use vstd::prelude::*;

verus! {

/// Unicode `White_Space` characters, the set that `char::is_whitespace` accepts.
pub open spec fn is_whitespace(c: char) -> bool {
    let v = c as u32;
    (0x09 <= v && v <= 0x0d) || v == 0x20 || v == 0x85 || v == 0xa0 || v == 0x1680 || (0x2000
        <= v && v <= 0x200a) || v == 0x2028 || v == 0x2029 || v == 0x202f || v == 0x205f || v
        == 0x3000
}

/// ASCII lower-casing of one character; other characters are unchanged.
pub open spec fn lower_char(c: char) -> char {
    if 'A' <= c && c <= 'Z' {
        ((c as u32) + 32) as char
    } else {
        c
    }
}

/// ASCII lower-casing of a whole text.
pub open spec fn lower(s: Seq<char>) -> Seq<char> {
    s.map_values(|c: char| lower_char(c))
}

/// Text with its leading whitespace removed.
pub open spec fn trim_start(s: Seq<char>) -> Seq<char>
    decreases s.len(),
{
    if s.len() > 0 && is_whitespace(s[0]) {
        trim_start(s.drop_first())
    } else {
        s
    }
}

/// Text with its trailing whitespace removed.
pub open spec fn trim_end(s: Seq<char>) -> Seq<char>
    decreases s.len(),
{
    if s.len() > 0 && is_whitespace(s.last()) {
        trim_end(s.drop_last())
    } else {
        s
    }
}

/// Text with leading and trailing whitespace removed (`str::trim`).
pub open spec fn trim(s: Seq<char>) -> Seq<char> {
    trim_end(trim_start(s))
}

/// `p` is a prefix of `s`.
pub open spec fn has_prefix(s: Seq<char>, p: Seq<char>) -> bool {
    p.len() <= s.len() && s.subrange(0, p.len() as int) == p
}

/// `p` is a suffix of `s`.
pub open spec fn has_suffix(s: Seq<char>, p: Seq<char>) -> bool {
    p.len() <= s.len() && s.subrange(s.len() - p.len(), s.len() as int) == p
}

/// `needle` occurs in `hay` starting at index `i`.
pub open spec fn occurs_at(hay: Seq<char>, needle: Seq<char>, i: int) -> bool {
    0 <= i && i + needle.len() <= hay.len() && hay.subrange(i, i + needle.len()) == needle
}

/// `needle` occurs somewhere in `hay` (`str::contains`).
pub open spec fn contains(hay: Seq<char>, needle: Seq<char>) -> bool {
    exists|i: int| occurs_at(hay, needle, i)
}

/// Two texts are equal up to ASCII case (`str::eq_ignore_ascii_case`).
pub open spec fn eq_ignore_case(a: Seq<char>, b: Seq<char>) -> bool {
    lower(a) == lower(b)
}

/// The decimal digit character for `d < 10`.
pub open spec fn digit_char(d: nat) -> char {
    ((d + 48) as u32) as char
}

/// Decimal representation of a natural number, without leading zeros.
pub open spec fn decimal(n: nat) -> Seq<char>
    decreases n,
{
    if n < 10 {
        seq![digit_char(n)]
    } else {
        decimal(n / 10).push(digit_char(n % 10))
    }
}

/// Splitting at every `'\n'`; the pieces keep any `'\r'`.
pub open spec fn split_lines(s: Seq<char>) -> Seq<Seq<char>>
    decreases s.len(),
{
    if s.len() == 0 {
        seq![Seq::<char>::empty()]
    } else if s.last() == '\n' {
        split_lines(s.drop_last()).push(Seq::<char>::empty())
    } else {
        let r = split_lines(s.drop_last());
        r.update(r.len() - 1, r.last().push(s.last()))
    }
}

/// Appends one character to a `String` (`String::push`).
#[verifier::external_body]
fn push_char(s: &mut String, c: char)
    ensures
        final(s)@ == old(s)@.push(c),
{
    s.push(c);
}

/// The characters of `s`, in order.
pub fn chars_of(s: &str) -> (v: Vec<char>)
    ensures
        v@ == s@,
{
    let mut v: Vec<char> = Vec::new();
    for c in it: s.chars()
        invariant
            v@ == it.seq().take(it.index() as int),
    {
        v.push(c);
    }
    v
}

/// The `String` made of the characters `v`.
pub fn string_of(v: &[char]) -> (s: String)
    ensures
        s@ == v@,
{
    let mut s = String::new();
    let mut i: usize = 0;
    while i < v.len()
        invariant
            i <= v.len(),
            s@ == v@.take(i as int),
        decreases v.len() - i,
    {
        push_char(&mut s, v[i]);
        i = i + 1;
        assert(v@.take(i as int) == v@.take(i - 1).push(v@[i - 1]));
    }
    assert(v@.take(v.len() as int) == v@);
    s
}

/// A copy of `v[from..to]`.
pub fn slice_of(v: &[char], from: usize, to: usize) -> (r: Vec<char>)
    requires
        from <= to <= v.len(),
    ensures
        r@ == v@.subrange(from as int, to as int),
{
    let mut r: Vec<char> = Vec::new();
    let mut i: usize = from;
    while i < to
        invariant
            from <= i <= to,
            to <= v.len(),
            r@ == v@.subrange(from as int, i as int),
        decreases to - i,
    {
        r.push(v[i]);
        i = i + 1;
    }
    r
}

/// `a` followed by `b`.
pub fn concat(a: &[char], b: &[char]) -> (r: Vec<char>)
    ensures
        r@ == a@ + b@,
{
    let mut r = slice_of(a, 0, a.len());
    let mut i: usize = 0;
    while i < b.len()
        invariant
            i <= b.len(),
            r@ == a@ + b@.take(i as int),
        decreases b.len() - i,
    {
        r.push(b[i]);
        i = i + 1;
        assert(b@.take(i as int) == b@.take(i - 1).push(b@[i - 1]));
    }
    assert(b@.take(b.len() as int) == b@);
    r
}

/// `char::is_whitespace`.
pub fn is_whitespace_char(c: char) -> (b: bool)
    ensures
        b == is_whitespace(c),
{
    let v = c as u32;
    (0x09 <= v && v <= 0x0d) || v == 0x20 || v == 0x85 || v == 0xa0 || v == 0x1680 || (0x2000
        <= v && v <= 0x200a) || v == 0x2028 || v == 0x2029 || v == 0x202f || v == 0x205f || v
        == 0x3000
}

/// `char::to_ascii_lowercase`.
pub fn lower_ascii_char(c: char) -> (r: char)
    ensures
        r == lower_char(c),
{
    if 'A' <= c && c <= 'Z' {
        ((c as u8) + 32) as char
    } else {
        c
    }
}

/// ASCII lower-casing of a text.
pub fn to_lower(s: &[char]) -> (r: Vec<char>)
    ensures
        r@ == lower(s@),
{
    let mut r: Vec<char> = Vec::new();
    let mut i: usize = 0;
    while i < s.len()
        invariant
            i <= s.len(),
            r@ == lower(s@.take(i as int)),
        decreases s.len() - i,
    {
        let c = lower_ascii_char(s[i]);
        r.push(c);
        i = i + 1;
        assert(lower(s@.take(i as int)) =~= lower(s@.take(i - 1)).push(lower_char(s@[i - 1])));
    }
    assert(s@.take(s.len() as int) == s@);
    r
}

/// Exact equality of two texts.
pub fn seq_equal(a: &[char], b: &[char]) -> (r: bool)
    ensures
        r == (a@ == b@),
{
    if a.len() != b.len() {
        return false;
    }
    let mut i: usize = 0;
    while i < a.len()
        invariant
            i <= a.len(),
            a.len() == b.len(),
            forall|j: int| 0 <= j < i ==> a@[j] == b@[j],
        decreases a.len() - i,
    {
        if a[i] != b[i] {
            return false;
        }
        i = i + 1;
    }
    assert(a@ =~= b@);
    true
}

/// Equality up to ASCII case.
pub fn equal_ignore_case(a: &[char], b: &[char]) -> (r: bool)
    ensures
        r == eq_ignore_case(a@, b@),
{
    let la = to_lower(a);
    let lb = to_lower(b);
    seq_equal(la.as_slice(), lb.as_slice())
}

/// Whether `s` starts with `p`.
pub fn starts_with(s: &[char], p: &[char]) -> (r: bool)
    ensures
        r == has_prefix(s@, p@),
{
    if p.len() > s.len() {
        return false;
    }
    let mut i: usize = 0;
    while i < p.len()
        invariant
            i <= p.len() <= s.len(),
            forall|j: int| 0 <= j < i ==> s@[j] == p@[j],
        decreases p.len() - i,
    {
        if s[i] != p[i] {
            assert(s@.subrange(0, p.len() as int)[i as int] != p@[i as int]);
            return false;
        }
        i = i + 1;
    }
    assert(s@.subrange(0, p.len() as int) =~= p@);
    true
}

/// Whether `needle` occurs in `hay` at index `at`.
pub fn matches_at(hay: &[char], needle: &[char], at: usize) -> (r: bool)
    ensures
        r == occurs_at(hay@, needle@, at as int),
{
    if at > hay.len() || needle.len() > hay.len() - at {
        return false;
    }
    let mut i: usize = 0;
    while i < needle.len()
        invariant
            i <= needle.len(),
            at + needle.len() <= hay.len(),
            forall|j: int| 0 <= j < i ==> hay@[at + j] == needle@[j],
        decreases needle.len() - i,
    {
        if hay[at + i] != needle[i] {
            assert(hay@.subrange(at as int, at + needle.len())[i as int] != needle@[i as int]);
            return false;
        }
        i = i + 1;
    }
    assert(hay@.subrange(at as int, at + needle.len()) =~= needle@);
    true
}

/// The first index at which `needle` occurs in `hay`, if any (`str::find`).
pub fn find(hay: &[char], needle: &[char]) -> (r: Option<usize>)
    ensures
        match r {
            Some(i) => occurs_at(hay@, needle@, i as int) && forall|j: int|
                0 <= j < i ==> !occurs_at(hay@, needle@, j),
            None => !contains(hay@, needle@),
        },
{
    if needle.len() > hay.len() {
        assert forall|j: int| !occurs_at(hay@, needle@, j) by {}
        return None;
    }
    let last = hay.len() - needle.len();
    for i in 0..last
        invariant
            last == hay.len() - needle.len(),
            forall|j: int| 0 <= j < i ==> !occurs_at(hay@, needle@, j),
    {
        if matches_at(hay, needle, i) {
            return Some(i);
        }
    }
    if matches_at(hay, needle, last) {
        return Some(last);
    }
    assert forall|j: int| !occurs_at(hay@, needle@, j) by {}
    None
}

/// Whether `needle` occurs in `hay`.
pub fn contains_seq(hay: &[char], needle: &[char]) -> (r: bool)
    ensures
        r == contains(hay@, needle@),
{
    find(hay, needle).is_some()
}

proof fn lemma_trim_start_skip(s: Seq<char>, i: int)
    requires
        0 <= i <= s.len(),
        forall|j: int| 0 <= j < i ==> is_whitespace(s[j]),
    ensures
        trim_start(s) == trim_start(s.subrange(i, s.len() as int)),
    decreases i,
{
    if i > 0 {
        assert(is_whitespace(s[0]));
        assert forall|j: int| 0 <= j < i - 1 implies is_whitespace(s.drop_first()[j]) by {
            assert(s.drop_first()[j] == s[j + 1]);
        }
        lemma_trim_start_skip(s.drop_first(), i - 1);
        assert(s.drop_first().subrange(i - 1, s.drop_first().len() as int) =~= s.subrange(
            i,
            s.len() as int,
        ));
    } else {
        assert(s.subrange(0, s.len() as int) =~= s);
    }
}

proof fn lemma_trim_end_skip(s: Seq<char>, k: int)
    requires
        0 <= k <= s.len(),
        forall|j: int| k <= j < s.len() ==> is_whitespace(s[j]),
    ensures
        trim_end(s) == trim_end(s.subrange(0, k)),
    decreases s.len() - k,
{
    if k < s.len() {
        assert(is_whitespace(s[s.len() - 1]));
        assert forall|j: int| k <= j < s.len() - 1 implies is_whitespace(s.drop_last()[j]) by {
            assert(s.drop_last()[j] == s[j]);
        }
        lemma_trim_end_skip(s.drop_last(), k);
        assert(s.drop_last().subrange(0, k) =~= s.subrange(0, k));
    } else {
        assert(s.subrange(0, k) =~= s);
    }
}

/// Text with leading and trailing whitespace removed.
pub fn trim_chars(s: &[char]) -> (r: Vec<char>)
    ensures
        r@ == trim(s@),
{
    let mut a: usize = 0;
    while a < s.len() && is_whitespace_char(s[a])
        invariant
            a <= s.len(),
            forall|j: int| 0 <= j < a ==> is_whitespace(s@[j]),
        decreases s.len() - a,
    {
        a = a + 1;
    }
    proof {
        lemma_trim_start_skip(s@, a as int);
    }
    let mut b: usize = s.len();
    while b > a && is_whitespace_char(s[b - 1])
        invariant
            a <= b <= s.len(),
            forall|j: int| b <= j < s.len() ==> is_whitespace(s@[j]),
        decreases b,
    {
        b = b - 1;
    }
    let ghost rest = s@.subrange(a as int, s.len() as int);
    proof {
        lemma_trim_end_skip(rest, b - a);
        assert(rest.subrange(0, b - a) =~= s@.subrange(a as int, b as int));
        if a < s.len() {
            // the first remaining character is not whitespace
            assert(trim_start(rest) == rest);
        } else {
            assert(rest.len() == 0);
        }
        let t = s@.subrange(a as int, b as int);
        if t.len() > 0 {
            assert(t.last() == s@[b - 1]);
        }
        assert(trim_end(t) == t);
    }
    slice_of(s, a, b)
}

/// `str::trim` on a string slice, giving an owned `String`.
pub fn trim_str(s: &str) -> (r: String)
    ensures
        r@ == trim(s@),
{
    let v = chars_of(s);
    let t = trim_chars(v.as_slice());
    string_of(t.as_slice())
}

proof fn lemma_decimal_len(n: nat)
    ensures
        decimal(n).len() >= 1,
    decreases n,
{
    if n >= 10 {
        lemma_decimal_len(n / 10);
    }
}

/// Decimal representation of `n` (`u128::to_string`).
pub fn decimal_chars(n: u128) -> (r: Vec<char>)
    ensures
        r@ == decimal(n as nat),
{
    let mut digits: Vec<char> = Vec::new();
    let mut m: u128 = n;
    // digits are collected least significant first
    while m >= 10
        invariant
            decimal(n as nat) == decimal(m as nat) + digits@.reverse(),
        decreases m,
    {
        let d = m % 10;
        let c = ((d as u8) + 48) as char;
        let ghost old_digits = digits@;
        digits.push(c);
        proof {
            assert(digits@.reverse() =~= seq![c] + old_digits.reverse());
            assert(decimal(m as nat) == decimal((m / 10) as nat).push(digit_char((m % 10) as nat)));
            assert(decimal((m / 10) as nat).push(c) + old_digits.reverse() =~= decimal(
                (m / 10) as nat,
            ) + (seq![c] + old_digits.reverse()));
        }
        m = m / 10;
    }
    let c = ((m as u8) + 48) as char;
    let ghost old_digits = digits@;
    digits.push(c);
    proof {
        assert(decimal(m as nat) == seq![digit_char(m as nat)]);
        assert(digits@.reverse() =~= seq![c] + old_digits.reverse());
    }
    // put the most significant digit first
    let mut r: Vec<char> = Vec::new();
    let mut i: usize = digits.len();
    while i > 0
        invariant
            i <= digits.len(),
            r@ == digits@.reverse().take((digits.len() - i) as int),
            decimal(n as nat) == digits@.reverse(),
        decreases i,
    {
        i = i - 1;
        r.push(digits[i]);
        assert(digits@.reverse().take((digits.len() - i) as int) =~= digits@.reverse().take(
            (digits.len() - i - 1) as int,
        ).push(digits@[i as int]));
    }
    assert(digits@.reverse().take(digits.len() as int) =~= digits@.reverse());
    r
}

/// The pieces of `s` between `'\n'` characters.
pub fn lines_of(s: &[char]) -> (r: Vec<Vec<char>>)
    ensures
        r@.map_values(|l: Vec<char>| l@) == split_lines(s@),
{
    let mut done: Vec<Vec<char>> = Vec::new();
    let mut current: Vec<char> = Vec::new();
    let mut i: usize = 0;
    while i < s.len()
        invariant
            i <= s.len(),
            done@.map_values(|l: Vec<char>| l@).push(current@) == split_lines(s@.take(i as int)),
        decreases s.len() - i,
    {
        let ghost prev = s@.take(i as int);
        assert(s@.take(i + 1).drop_last() =~= prev);
        if s[i] == '\n' {
            let line = current;
            done.push(line);
            current = Vec::new();
            assert(done@.map_values(|l: Vec<char>| l@) =~= split_lines(prev));
        } else {
            current.push(s[i]);
            let ghost r = split_lines(prev);
            assert(done@.map_values(|l: Vec<char>| l@).push(current@) =~= r.update(
                r.len() - 1,
                r.last().push(s@[i as int]),
            ));
        }
        i = i + 1;
    }
    assert(s@.take(s.len() as int) =~= s@);
    done.push(current);
    done
}

} // verus!
