//! Recognising the Web UI among open browser windows: window classes, tab titles and the
//! origin (scheme, host, port) of an address.
use vstd::prelude::*;
use vstd::string::StringExecFns;
use crate::text::{
    chars_of, contains, contains_seq, find, is_whitespace, lower, lower_char, occurs_at,
    seq_equal, slice_of, string_of, to_lower, trim, trim_chars, trim_end, trim_start,
};

verus! {

/// The title the Web UI gives its page.
pub const WEB_UI_TITLE: &'static str = "DeepSeek Harness";

/// Window classes of Chromium-based browsers and Firefox.
pub open spec fn spec_is_browser_window(class_name: Seq<char>) -> bool {
    class_name == "Chrome_WidgetWin_1"@ || class_name == "MozillaWindowClass"@
}

/// A window or tab title that shows the Web UI.
pub open spec fn spec_is_web_ui_title(title: Seq<char>) -> bool {
    contains(lower(title), lower(WEB_UI_TITLE@))
}

/// The port a scheme uses when none is given.
pub open spec fn spec_default_port(scheme: Seq<char>) -> Option<u16> {
    if lower(scheme) == "http"@ {
        Some(80u16)
    } else if lower(scheme) == "https"@ {
        Some(443u16)
    } else {
        None
    }
}

/// An ASCII decimal digit.
pub open spec fn is_digit(c: char) -> bool {
    '0' <= c && c <= '9'
}

/// The value of a string of decimal digits.
pub open spec fn digits_value(s: Seq<char>) -> nat
    decreases s.len(),
{
    if s.len() == 0 {
        0
    } else {
        digits_value(s.drop_last()) * 10 + ((s.last() as u32) - 48) as nat
    }
}

/// The digits of a number, after an optional leading `+`.
pub open spec fn port_digits(s: Seq<char>) -> Seq<char> {
    if s.len() > 0 && s[0] == '+' {
        s.drop_first()
    } else {
        s
    }
}

/// Every character is a decimal digit.
pub open spec fn all_digits(s: Seq<char>) -> bool {
    forall|i: int| 0 <= i < s.len() ==> is_digit(s[i])
}

/// A port number written in decimal, with an optional leading `+` (`u16::from_str`).
pub open spec fn spec_parse_port(s: Seq<char>) -> Option<u16> {
    let digits = port_digits(s);
    if digits.len() == 0 || !all_digits(digits) {
        None
    } else if digits_value(digits) > 0xffff {
        None
    } else {
        Some(digits_value(digits) as u16)
    }
}

/// The first index at which `needle` occurs in `hay`.
pub open spec fn first_occurrence(hay: Seq<char>, needle: Seq<char>) -> int {
    choose|i: int| occurs_at(hay, needle, i) && forall|j: int| 0 <= j < i ==> !occurs_at(hay, needle, j)
}

/// A character that ends the authority part of an address.
pub open spec fn ends_authority(c: char) -> bool {
    c == '/' || c == '?' || c == '#'
}

/// The length of the authority at the start of `s`.
pub open spec fn authority_len(s: Seq<char>) -> nat
    decreases s.len(),
{
    if s.len() == 0 || ends_authority(s[0]) {
        0
    } else {
        1 + authority_len(s.drop_first())
    }
}

/// Index of the last occurrence of `c` in `s`, or -1.
pub open spec fn last_index_of(s: Seq<char>, c: char) -> int
    decreases s.len(),
{
    if s.len() == 0 {
        -1
    } else if s.last() == c {
        s.len() - 1
    } else {
        last_index_of(s.drop_last(), c)
    }
}

/// A square bracket.
pub open spec fn is_bracket(c: char) -> bool {
    c == '[' || c == ']'
}

/// Text with leading square brackets removed.
pub open spec fn strip_leading_brackets(s: Seq<char>) -> Seq<char>
    decreases s.len(),
{
    if s.len() > 0 && is_bracket(s[0]) {
        strip_leading_brackets(s.drop_first())
    } else {
        s
    }
}

/// Text with trailing square brackets removed.
pub open spec fn strip_trailing_brackets(s: Seq<char>) -> Seq<char>
    decreases s.len(),
{
    if s.len() > 0 && is_bracket(s.last()) {
        strip_trailing_brackets(s.drop_last())
    } else {
        s
    }
}

/// Text with surrounding square brackets removed (`str::trim_matches(['[', ']'])`).
pub open spec fn strip_brackets(s: Seq<char>) -> Seq<char> {
    strip_trailing_brackets(strip_leading_brackets(s))
}

/// The address with a scheme: unchanged when it names one, else prefixed with the default
/// scheme (`http` when there is none).
pub open spec fn with_scheme(v: Seq<char>, default_scheme: Option<Seq<char>>) -> Seq<char> {
    if contains(v, "://"@) {
        v
    } else {
        (match default_scheme {
            Some(s) => s,
            None => "http"@,
        }) + "://"@ + v
    }
}

/// The host and port of an authority, given the scheme for a default port.
pub open spec fn host_and_port(authority: Seq<char>, scheme: Seq<char>) -> Option<(Seq<char>, u16)> {
    let k = last_index_of(authority, ':');
    if k >= 0 {
        match spec_parse_port(authority.subrange(k + 1, authority.len() as int)) {
            Some(port) => Some((strip_brackets(authority.subrange(0, k)), port)),
            None => None,
        }
    } else {
        match spec_default_port(scheme) {
            Some(port) => Some((strip_brackets(authority), port)),
            None => None,
        }
    }
}

/// The origin named by the scheme and the rest of an address: lower-case scheme, lower-case
/// host and port. User information before `@` is dropped, and the port defaults to that of the
/// scheme.
pub open spec fn origin_after(scheme: Seq<char>, remainder: Seq<char>) -> Option<
    (Seq<char>, Seq<char>, u16),
> {
    let authority = remainder.subrange(0, authority_len(remainder) as int);
    let at = last_index_of(authority, '@');
    let authority = authority.subrange(at + 1, authority.len() as int);
    match host_and_port(authority, scheme) {
        Some((host, port)) => if host.len() == 0 {
            None
        } else {
            Some((lower(scheme), lower(host), port))
        },
        None => None,
    }
}

/// The origin named by an address that has a scheme, split at its first `://`.
pub open spec fn origin_of(full: Seq<char>) -> Option<(Seq<char>, Seq<char>, u16)> {
    let i = first_occurrence(full, "://"@);
    origin_after(full.subrange(0, i), full.subrange(i + 3, full.len() as int))
}

/// The origin of an address: lower-case scheme, lower-case host and port. Surrounding
/// whitespace is ignored, user information before `@` is dropped, and an address without
/// `://` takes the default scheme.
pub open spec fn spec_parse_origin(value: Seq<char>, default_scheme: Option<Seq<char>>) -> Option<
    (Seq<char>, Seq<char>, u16),
> {
    let v = trim(value);
    if v.len() == 0 {
        None
    } else {
        origin_of(with_scheme(v, default_scheme))
    }
}

/// `address` points at the same origin as `target`; an address without a scheme takes the
/// target's scheme.
pub open spec fn spec_same_origin(address: Seq<char>, target: Seq<char>) -> bool {
    match spec_parse_origin(target, None) {
        Some(t) => spec_parse_origin(address, Some(t.0)) == Some(t),
        None => false,
    }
}

/// The text of an optional string slice.
pub open spec fn str_option_view(o: Option<&str>) -> Option<Seq<char>> {
    match o {
        Some(s) => Some(s@),
        None => None,
    }
}

/// The text of an optional character slice.
pub open spec fn slice_option_view(o: Option<&[char]>) -> Option<Seq<char>> {
    match o {
        Some(s) => Some(s@),
        None => None,
    }
}

/// Whether a window class is that of a supported browser.
pub fn is_browser_window(class_name: &str) -> (r: bool)
    ensures
        r == spec_is_browser_window(class_name@),
{
    let c = chars_of(class_name);
    let chrome = chars_of("Chrome_WidgetWin_1");
    let firefox = chars_of("MozillaWindowClass");
    seq_equal(c.as_slice(), chrome.as_slice()) || seq_equal(c.as_slice(), firefox.as_slice())
}

/// Whether a title mentions the Web UI, ignoring ASCII case.
pub fn is_web_ui_title(title: &str) -> (r: bool)
    ensures
        r == spec_is_web_ui_title(title@),
{
    let t = chars_of(title);
    let lowered = to_lower(t.as_slice());
    let name = chars_of(WEB_UI_TITLE);
    let lowered_name = to_lower(name.as_slice());
    contains_seq(lowered.as_slice(), lowered_name.as_slice())
}

/// The default port of `http` and `https`.
pub fn default_port(scheme: &str) -> (r: Option<u16>)
    ensures
        r == spec_default_port(scheme@),
{
    let s = chars_of(scheme);
    default_port_chars(s.as_slice())
}

fn default_port_chars(s: &[char]) -> (r: Option<u16>)
    ensures
        r == spec_default_port(s@),
{
    let lowered = to_lower(s);
    let http = chars_of("http");
    let https = chars_of("https");
    if seq_equal(lowered.as_slice(), http.as_slice()) {
        Some(80)
    } else if seq_equal(lowered.as_slice(), https.as_slice()) {
        Some(443)
    } else {
        None
    }
}

fn parse_port(s: &[char]) -> (r: Option<u16>)
    ensures
        r == spec_parse_port(s@),
{
    let start: usize = if s.len() > 0 && s[0] == '+' {
        1
    } else {
        0
    };
    let ghost digits = if s@.len() > 0 && s@[0] == '+' {
        s@.drop_first()
    } else {
        s@
    };
    assert(digits =~= s@.subrange(start as int, s.len() as int));
    if start == s.len() {
        return None;
    }
    let mut value: u32 = 0;
    let mut i: usize = start;
    while i < s.len()
        invariant
            start <= i <= s.len(),
            start < s.len(),
            digits == s@.subrange(start as int, s.len() as int),
            digits == port_digits(s@),
            forall|j: int| start <= j < i ==> is_digit(s@[j]),
            value as nat == digits_value(s@.subrange(start as int, i as int)),
            value <= 0xffff,
        decreases s.len() - i,
    {
        let c = s[i];
        if !('0' <= c && c <= '9') {
            assert(digits[i - start] == s@[i as int]);
            assert(!is_digit(digits[i - start]));
            return None;
        }
        let d = (c as u32) - 48;
        assert(s@.subrange(start as int, i + 1).drop_last() =~= s@.subrange(start as int, i as int));
        if value > 6553 || (value == 6553 && d > 5) {
            proof {
                let prefix = s@.subrange(start as int, i + 1);
                assert(prefix =~= digits.subrange(0, i + 1 - start));
                assert(digits_value(prefix) == value * 10 + d);
                if all_digits(digits) {
                    lemma_digits_value_prefix_bound(digits, (i + 1 - start) as int);
                }
            }
            return None;
        }
        value = value * 10 + d;
        i = i + 1;
    }
    assert(s@.subrange(start as int, s.len() as int) == digits);
    Some(value as u16)
}

/// Digits never make a value smaller by being extended.
proof fn lemma_digits_value_prefix_bound(s: Seq<char>, k: int)
    requires
        0 <= k <= s.len(),
        forall|j: int| 0 <= j < s.len() ==> is_digit(s[j]),
    ensures
        digits_value(s) >= digits_value(s.subrange(0, k)),
    decreases s.len() - k,
{
    if k < s.len() {
        assert(s.drop_last().len() == s.len() - 1);
        assert forall|j: int| 0 <= j < s.drop_last().len() implies is_digit(s.drop_last()[j]) by {
            assert(s.drop_last()[j] == s[j]);
        }
        lemma_digits_value_prefix_bound(s.drop_last(), k);
        assert(s.drop_last().subrange(0, k) =~= s.subrange(0, k));
    } else {
        assert(s.subrange(0, k) =~= s);
    }
}

fn authority_end(s: &[char]) -> (r: usize)
    ensures
        r == authority_len(s@),
        r <= s.len(),
{
    let mut i: usize = 0;
    assert(s@.subrange(0, s.len() as int) =~= s@);
    while i < s.len() && !(s[i] == '/' || s[i] == '?' || s[i] == '#')
        invariant
            i <= s.len(),
            authority_len(s@) == i + authority_len(s@.subrange(i as int, s.len() as int)),
        decreases s.len() - i,
    {
        assert(s@.subrange(i as int, s.len() as int).drop_first() =~= s@.subrange(
            i + 1,
            s.len() as int,
        ));
        i = i + 1;
    }
    i
}

fn last_index_of_char(s: &[char], c: char) -> (r: Option<usize>)
    ensures
        match r {
            Some(k) => k as int == last_index_of(s@, c) && k < s.len(),
            None => last_index_of(s@, c) == -1,
        },
{
    let mut i: usize = s.len();
    assert(s@.take(s.len() as int) =~= s@);
    while i > 0
        invariant
            i <= s.len(),
            last_index_of(s@, c) == last_index_of(s@.take(i as int), c),
        decreases i,
    {
        assert(s@.take(i as int).drop_last() =~= s@.take(i - 1));
        if s[i - 1] == c {
            return Some(i - 1);
        }
        i = i - 1;
    }
    None
}

fn strip_brackets_chars(s: &[char]) -> (r: Vec<char>)
    ensures
        r@ == strip_brackets(s@),
{
    let mut a: usize = 0;
    assert(s@.subrange(0, s.len() as int) =~= s@);
    while a < s.len() && (s[a] == '[' || s[a] == ']')
        invariant
            a <= s.len(),
            strip_leading_brackets(s@) == strip_leading_brackets(s@.subrange(a as int, s.len() as int)),
        decreases s.len() - a,
    {
        assert(s@.subrange(a as int, s.len() as int).drop_first() =~= s@.subrange(
            a + 1,
            s.len() as int,
        ));
        a = a + 1;
    }
    let ghost rest = s@.subrange(a as int, s.len() as int);
    assert(strip_leading_brackets(rest) == rest);
    let mut b: usize = s.len();
    assert(rest.subrange(0, (b - a) as int) =~= rest);
    while b > a && (s[b - 1] == '[' || s[b - 1] == ']')
        invariant
            a <= b <= s.len(),
            rest == s@.subrange(a as int, s.len() as int),
            strip_trailing_brackets(rest) == strip_trailing_brackets(rest.subrange(0, b - a)),
        decreases b,
    {
        assert(rest.subrange(0, b - a).drop_last() =~= rest.subrange(0, b - a - 1));
        b = b - 1;
    }
    let ghost kept = rest.subrange(0, b - a);
    assert(kept =~= s@.subrange(a as int, b as int));
    proof {
        if kept.len() > 0 {
            assert(kept.last() == s@[b - 1]);
        }
        assert(strip_trailing_brackets(kept) == kept);
    }
    slice_of(s, a, b)
}

proof fn lemma_first_occurrence(hay: Seq<char>, needle: Seq<char>, i: int)
    requires
        occurs_at(hay, needle, i),
        forall|j: int| 0 <= j < i ==> !occurs_at(hay, needle, j),
    ensures
        first_occurrence(hay, needle) == i,
{
    let w = first_occurrence(hay, needle);
    assert(occurs_at(hay, needle, w) && forall|j: int| 0 <= j < w ==> !occurs_at(hay, needle, j));
    if w < i {
        assert(!occurs_at(hay, needle, w));
    }
    if i < w {
        assert(!occurs_at(hay, needle, i));
    }
}

fn parse_origin_chars(value: &[char], default_scheme: Option<&[char]>) -> (r: Option<
    (Vec<char>, Vec<char>, u16),
>)
    ensures
        match r {
            Some((s, h, p)) => spec_parse_origin(value@, slice_option_view(default_scheme))
                == Some((s@, h@, p)),
            None => spec_parse_origin(value@, slice_option_view(default_scheme)) is None,
        },
{
    let ghost dflt = slice_option_view(default_scheme);
    let v = trim_chars(value);
    if v.len() == 0 {
        return None;
    }
    let separator = chars_of("://");
    proof {
        reveal_strlit("://");
    }
    let full: Vec<char> = if contains_seq(v.as_slice(), separator.as_slice()) {
        v
    } else {
        let mut f: Vec<char> = match default_scheme {
            Some(d) => slice_of(d, 0, d.len()),
            None => chars_of("http"),
        };
        let mut k: usize = 0;
        let ghost f0 = f@;
        while k < separator.len()
            invariant
                k <= separator.len(),
                f@ == f0 + separator@.take(k as int),
            decreases separator.len() - k,
        {
            f.push(separator[k]);
            k = k + 1;
            assert(separator@.take(k as int) =~= separator@.take(k - 1).push(separator@[k - 1]));
        }
        let mut k2: usize = 0;
        let ghost f1 = f@;
        while k2 < v.len()
            invariant
                k2 <= v.len(),
                f@ == f1 + v@.take(k2 as int),
            decreases v.len() - k2,
        {
            f.push(v[k2]);
            k2 = k2 + 1;
            assert(v@.take(k2 as int) =~= v@.take(k2 - 1).push(v@[k2 - 1]));
        }
        assert(separator@.take(separator.len() as int) =~= separator@);
        assert(v@.take(v.len() as int) =~= v@);
        f
    };
    assert(full@ == with_scheme(v@, dflt));
    let i = match find(full.as_slice(), separator.as_slice()) {
        Some(i) => i,
        None => {
            proof {
                // the separator is either already present or was just inserted
                reveal_strlit("://");
                if !contains(v@, "://"@) {
                    let pre = match dflt {
                        Some(s) => s,
                        None => "http"@,
                    };
                    assert(occurs_at(full@, "://"@, pre.len() as int)) by {
                        assert(full@.subrange(pre.len() as int, pre.len() as int + 3) =~= "://"@);
                    }
                }
            }
            return None;
        },
    };
    proof {
        lemma_first_occurrence(full@, separator@, i as int);
        reveal_strlit("://");
        assert(separator@.len() == 3);
        assert(i + 3 <= full@.len());
        assert(full@.len() == full.len());
    }
    let scheme = slice_of(full.as_slice(), 0, i);
    let remainder = slice_of(full.as_slice(), i + 3, full.len());
    let end = authority_end(remainder.as_slice());
    let authority0 = slice_of(remainder.as_slice(), 0, end);
    let start: usize = match last_index_of_char(authority0.as_slice(), '@') {
        Some(k) => k + 1,
        None => 0,
    };
    let authority = slice_of(authority0.as_slice(), start, authority0.len());
    let (host, port) = match last_index_of_char(authority.as_slice(), ':') {
        Some(k) => {
            let port_text = slice_of(authority.as_slice(), k + 1, authority.len());
            match parse_port(port_text.as_slice()) {
                Some(port) => {
                    let host_text = slice_of(authority.as_slice(), 0, k);
                    (strip_brackets_chars(host_text.as_slice()), port)
                },
                None => {
                    return None;
                },
            }
        },
        None => match default_port_chars(scheme.as_slice()) {
            Some(port) => (strip_brackets_chars(authority.as_slice()), port),
            None => {
                return None;
            },
        },
    };
    if host.len() == 0 {
        return None;
    }
    let lowered_scheme = to_lower(scheme.as_slice());
    let lowered_host = to_lower(host.as_slice());
    Some((lowered_scheme, lowered_host, port))
}

/// The origin of an address, as `spec_parse_origin` describes it.
pub fn parse_origin(value: &str, default_scheme: Option<&str>) -> (r: Option<(String, String, u16)>)
    ensures
        match r {
            Some((s, h, p)) => spec_parse_origin(value@, str_option_view(default_scheme)) == Some(
                (s@, h@, p),
            ),
            None => spec_parse_origin(value@, str_option_view(default_scheme)) is None,
        },
{
    let v = chars_of(value);
    let d: Option<Vec<char>> = match default_scheme {
        Some(s) => Some(chars_of(s)),
        None => None,
    };
    let result = match &d {
        Some(dv) => parse_origin_chars(v.as_slice(), Some(dv.as_slice())),
        None => parse_origin_chars(v.as_slice(), None),
    };
    match result {
        Some((s, h, p)) => Some((string_of(s.as_slice()), string_of(h.as_slice()), p)),
        None => None,
    }
}

/// Whether a browser address points at the same origin as the Web UI address `target`.
pub fn same_origin(address: &str, target: &str) -> (r: bool)
    ensures
        r == spec_same_origin(address@, target@),
{
    let t = match parse_origin(target, None) {
        Some(t) => t,
        None => {
            return false;
        },
    };
    let a = match parse_origin(address, Some(t.0.as_str())) {
        Some(a) => a,
        None => {
            return false;
        },
    };
    a.0 == t.0 && a.1 == t.1 && a.2 == t.2
}

proof fn lemma_parse_follows_scheme(x: Seq<char>, d1: Option<Seq<char>>, d2: Option<Seq<char>>)
    requires
        with_scheme(trim(x), d1) == with_scheme(trim(x), d2),
    ensures
        spec_parse_origin(x, d1) == spec_parse_origin(x, d2),
{
}

proof fn lemma_default_scheme_is_http(v: Seq<char>)
    requires
        !contains(v, "://"@),
    ensures
        first_occurrence(with_scheme(v, None), "://"@) == 4,
        with_scheme(v, None).subrange(0, 4) == "http"@,
        lower("http"@) == "http"@,
        with_scheme(v, Some("http"@)) == with_scheme(v, None),
{
    reveal_strlit("http");
    reveal_strlit("://");
    let full = "http"@ + "://"@ + v;
    assert(full == with_scheme(v, None));
    assert(occurs_at(full, "://"@, 4)) by {
        assert(full.subrange(4, 7) =~= "://"@);
    }
    assert forall|j: int| 0 <= j < 4 implies !occurs_at(full, "://"@, j) by {
        if occurs_at(full, "://"@, j) {
            assert(full.subrange(j, j + 3)[0] == full[j]);
            assert("://"@[0] == ':');
        }
    }
    lemma_first_occurrence(full, "://"@, 4);
    assert(full.subrange(0, 4) =~= "http"@);
    assert(lower("http"@) =~= "http"@);
}

/// Every address that has an origin is at the same origin as itself.
pub proof fn same_origin_is_reflexive(x: Seq<char>)
    ensures
        spec_same_origin(x, x) <==> spec_parse_origin(x, None) is Some,
{
    let v = trim(x);
    if let Some(t) = spec_parse_origin(x, None) {
        if !contains(v, "://"@) {
            lemma_default_scheme_is_http(v);
            assert(t.0 == "http"@);
        }
        lemma_parse_follows_scheme(x, Some(t.0), None);
    }
}

/// An ASCII letter.
pub open spec fn is_letter(c: char) -> bool {
    ('a' <= c && c <= 'z') || ('A' <= c && c <= 'Z')
}

/// Two texts that differ at most in the ASCII case of their letters.
pub open spec fn same_but_case(a: Seq<char>, b: Seq<char>) -> bool {
    a.len() == b.len() && forall|i: int| 0 <= i < a.len() ==> lower_char(#[trigger] a[i]) == lower_char(b[i])
}

proof fn lemma_case_pointwise(a: Seq<char>, b: Seq<char>, i: int)
    requires
        same_but_case(a, b),
        0 <= i < a.len(),
    ensures
        a[i] == b[i] || (is_letter(a[i]) && is_letter(b[i])),
{
    assert(lower_char(a[i]) == lower_char(b[i]));
}

proof fn lemma_case_sub(a: Seq<char>, b: Seq<char>, lo: int, hi: int)
    requires
        same_but_case(a, b),
        0 <= lo <= hi <= a.len(),
    ensures
        same_but_case(a.subrange(lo, hi), b.subrange(lo, hi)),
{
    assert forall|i: int| 0 <= i < hi - lo implies lower_char(#[trigger] a.subrange(lo, hi)[i])
        == lower_char(b.subrange(lo, hi)[i]) by {
        assert(a.subrange(lo, hi)[i] == a[lo + i]);
        assert(lower_char(a[lo + i]) == lower_char(b[lo + i]));
    }
}

proof fn lemma_case_lower(a: Seq<char>, b: Seq<char>)
    requires
        same_but_case(a, b),
    ensures
        lower(a) == lower(b),
{
    assert forall|i: int| 0 <= i < a.len() implies lower(a)[i] == lower(b)[i] by {
        assert(lower_char(a[i]) == lower_char(b[i]));
    }
    assert(lower(a) =~= lower(b));
}

proof fn lemma_lower_case(a: Seq<char>, b: Seq<char>)
    requires
        lower(a) == lower(b),
    ensures
        same_but_case(a, b),
{
    assert(a.len() == lower(a).len());
    assert forall|i: int| 0 <= i < a.len() implies lower_char(#[trigger] a[i]) == lower_char(b[i]) by {
        assert(lower(a)[i] == lower_char(a[i]));
        assert(lower(b)[i] == lower_char(b[i]));
    }
}

proof fn lemma_trim_start_case(a: Seq<char>, b: Seq<char>)
    requires
        same_but_case(a, b),
    ensures
        same_but_case(trim_start(a), trim_start(b)),
    decreases a.len(),
{
    if a.len() > 0 {
        lemma_case_pointwise(a, b, 0);
        if is_whitespace(a[0]) {
            lemma_case_sub(a, b, 1, a.len() as int);
            assert(a.subrange(1, a.len() as int) =~= a.drop_first());
            assert(b.subrange(1, b.len() as int) =~= b.drop_first());
            lemma_trim_start_case(a.drop_first(), b.drop_first());
        }
    }
}

proof fn lemma_trim_end_case(a: Seq<char>, b: Seq<char>)
    requires
        same_but_case(a, b),
    ensures
        same_but_case(trim_end(a), trim_end(b)),
    decreases a.len(),
{
    if a.len() > 0 {
        lemma_case_pointwise(a, b, a.len() - 1);
        if is_whitespace(a.last()) {
            lemma_case_sub(a, b, 0, a.len() - 1);
            assert(a.subrange(0, a.len() - 1) =~= a.drop_last());
            assert(b.subrange(0, b.len() - 1) =~= b.drop_last());
            lemma_trim_end_case(a.drop_last(), b.drop_last());
        }
    }
}

/// `://` holds no letter.
proof fn lemma_separator_chars()
    ensures
        "://"@.len() == 3,
        "://"@[0] == ':',
        "://"@[1] == '/',
        "://"@[2] == '/',
{
    reveal_strlit("://");
}

proof fn lemma_occurs_case(a: Seq<char>, b: Seq<char>, i: int)
    requires
        same_but_case(a, b),
    ensures
        occurs_at(a, "://"@, i) == occurs_at(b, "://"@, i),
{
    lemma_separator_chars();
    let n = "://"@;
    if 0 <= i && i + 3 <= a.len() {
        lemma_case_pointwise(a, b, i);
        lemma_case_pointwise(a, b, i + 1);
        lemma_case_pointwise(a, b, i + 2);
        if occurs_at(a, n, i) {
            assert(a.subrange(i, i + 3)[0] == a[i]);
            assert(a.subrange(i, i + 3)[1] == a[i + 1]);
            assert(a.subrange(i, i + 3)[2] == a[i + 2]);
            assert(b.subrange(i, i + 3) =~= n);
        }
        if occurs_at(b, n, i) {
            assert(b.subrange(i, i + 3)[0] == b[i]);
            assert(b.subrange(i, i + 3)[1] == b[i + 1]);
            assert(b.subrange(i, i + 3)[2] == b[i + 2]);
            assert(a.subrange(i, i + 3) =~= n);
        }
    }
}

proof fn lemma_first_exists(h: Seq<char>, n: Seq<char>, i: int)
    requires
        occurs_at(h, n, i),
    ensures
        occurs_at(h, n, first_occurrence(h, n)),
        forall|j: int| 0 <= j < first_occurrence(h, n) ==> !occurs_at(h, n, j),
        0 <= first_occurrence(h, n) <= i,
    decreases i,
{
    if exists|j: int| 0 <= j < i && occurs_at(h, n, j) {
        let j = choose|j: int| 0 <= j < i && occurs_at(h, n, j);
        lemma_first_exists(h, n, j);
    } else {
        lemma_first_occurrence(h, n, i);
    }
}

proof fn lemma_authority_len_case(a: Seq<char>, b: Seq<char>)
    requires
        same_but_case(a, b),
    ensures
        authority_len(a) == authority_len(b),
    decreases a.len(),
{
    if a.len() > 0 {
        lemma_case_pointwise(a, b, 0);
        lemma_case_sub(a, b, 1, a.len() as int);
        assert(a.subrange(1, a.len() as int) =~= a.drop_first());
        assert(b.subrange(1, b.len() as int) =~= b.drop_first());
        lemma_authority_len_case(a.drop_first(), b.drop_first());
    }
}

proof fn lemma_last_index_case(a: Seq<char>, b: Seq<char>, c: char)
    requires
        same_but_case(a, b),
        !is_letter(c),
    ensures
        last_index_of(a, c) == last_index_of(b, c),
    decreases a.len(),
{
    if a.len() > 0 {
        lemma_case_pointwise(a, b, a.len() - 1);
        lemma_case_sub(a, b, 0, a.len() - 1);
        assert(a.subrange(0, a.len() - 1) =~= a.drop_last());
        assert(b.subrange(0, b.len() - 1) =~= b.drop_last());
        lemma_last_index_case(a.drop_last(), b.drop_last(), c);
    }
}

proof fn lemma_strip_brackets_case(a: Seq<char>, b: Seq<char>)
    requires
        same_but_case(a, b),
    ensures
        same_but_case(strip_brackets(a), strip_brackets(b)),
{
    lemma_strip_leading_case(a, b);
    lemma_strip_trailing_case(strip_leading_brackets(a), strip_leading_brackets(b));
}

proof fn lemma_strip_leading_case(a: Seq<char>, b: Seq<char>)
    requires
        same_but_case(a, b),
    ensures
        same_but_case(strip_leading_brackets(a), strip_leading_brackets(b)),
    decreases a.len(),
{
    if a.len() > 0 {
        lemma_case_pointwise(a, b, 0);
        if is_bracket(a[0]) {
            lemma_case_sub(a, b, 1, a.len() as int);
            assert(a.subrange(1, a.len() as int) =~= a.drop_first());
            assert(b.subrange(1, b.len() as int) =~= b.drop_first());
            lemma_strip_leading_case(a.drop_first(), b.drop_first());
        }
    }
}

proof fn lemma_strip_trailing_case(a: Seq<char>, b: Seq<char>)
    requires
        same_but_case(a, b),
    ensures
        same_but_case(strip_trailing_brackets(a), strip_trailing_brackets(b)),
    decreases a.len(),
{
    if a.len() > 0 {
        lemma_case_pointwise(a, b, a.len() - 1);
        if is_bracket(a.last()) {
            lemma_case_sub(a, b, 0, a.len() - 1);
            assert(a.subrange(0, a.len() - 1) =~= a.drop_last());
            assert(b.subrange(0, b.len() - 1) =~= b.drop_last());
            lemma_strip_trailing_case(a.drop_last(), b.drop_last());
        }
    }
}

proof fn lemma_parse_port_case(a: Seq<char>, b: Seq<char>)
    requires
        same_but_case(a, b),
    ensures
        spec_parse_port(a) == spec_parse_port(b),
{
    let da = port_digits(a);
    let db = port_digits(b);
    if a.len() > 0 {
        lemma_case_pointwise(a, b, 0);
    }
    if a.len() > 0 && a[0] == '+' {
        lemma_case_sub(a, b, 1, a.len() as int);
        assert(a.subrange(1, a.len() as int) =~= da);
        assert(b.subrange(1, b.len() as int) =~= db);
    }
    assert(same_but_case(da, db));
    assert forall|i: int| 0 <= i < da.len() implies (is_digit(da[i]) == is_digit(db[i])) && (is_digit(
        da[i],
    ) ==> da[i] == db[i]) by {
        lemma_case_pointwise(da, db, i);
    }
    if all_digits(da) {
        assert(da =~= db);
    }
    if all_digits(db) {
        assert(da =~= db);
    }
}

proof fn lemma_origin_of_case(a: Seq<char>, b: Seq<char>)
    requires
        same_but_case(a, b),
        contains(a, "://"@),
    ensures
        origin_of(a) == origin_of(b),
{
    let n = "://"@;
    lemma_separator_chars();
    let w = choose|i: int| occurs_at(a, n, i);
    lemma_first_exists(a, n, w);
    let f = first_occurrence(a, n);
    lemma_occurs_case(a, b, f);
    assert forall|j: int| 0 <= j < f implies !occurs_at(b, n, j) by {
        lemma_occurs_case(a, b, j);
    }
    lemma_first_occurrence(b, n, f);
    let ra = a.subrange(f + 3, a.len() as int);
    let rb = b.subrange(f + 3, b.len() as int);
    lemma_case_sub(a, b, 0, f);
    lemma_case_sub(a, b, f + 3, a.len() as int);
    lemma_authority_len_case(ra, rb);
    let l = authority_len(ra) as int;
    assert(l <= ra.len()) by {
        lemma_authority_len_bound(ra);
    }
    let aa = ra.subrange(0, l);
    let ab = rb.subrange(0, l);
    lemma_case_sub(ra, rb, 0, l);
    lemma_last_index_case(aa, ab, '@');
    lemma_last_index_bound(aa, '@');
    let at = last_index_of(aa, '@');
    let xa = aa.subrange(at + 1, aa.len() as int);
    let xb = ab.subrange(at + 1, ab.len() as int);
    lemma_case_sub(aa, ab, at + 1, aa.len() as int);
    lemma_last_index_case(xa, xb, ':');
    lemma_last_index_bound(xa, ':');
    let k = last_index_of(xa, ':');
    let sa = a.subrange(0, f);
    let sb = b.subrange(0, f);
    lemma_case_lower(sa, sb);
    if k >= 0 {
        lemma_case_sub(xa, xb, k + 1, xa.len() as int);
        lemma_parse_port_case(xa.subrange(k + 1, xa.len() as int), xb.subrange(k + 1, xb.len() as int));
        lemma_case_sub(xa, xb, 0, k);
        lemma_strip_brackets_case(xa.subrange(0, k), xb.subrange(0, k));
        lemma_case_lower(strip_brackets(xa.subrange(0, k)), strip_brackets(xb.subrange(0, k)));
    } else {
        lemma_strip_brackets_case(xa, xb);
        lemma_case_lower(strip_brackets(xa), strip_brackets(xb));
    }
}

proof fn lemma_authority_len_bound(s: Seq<char>)
    ensures
        authority_len(s) <= s.len(),
    decreases s.len(),
{
    if s.len() > 0 {
        lemma_authority_len_bound(s.drop_first());
    }
}

proof fn lemma_last_index_bound(s: Seq<char>, c: char)
    ensures
        -1 <= last_index_of(s, c) < s.len(),
    decreases s.len(),
{
    if s.len() > 0 {
        lemma_last_index_bound(s.drop_last(), c);
    }
}

proof fn lemma_parse_origin_case(a: Seq<char>, b: Seq<char>, d: Option<Seq<char>>)
    requires
        lower(a) == lower(b),
    ensures
        spec_parse_origin(a, d) == spec_parse_origin(b, d),
{
    lemma_lower_case(a, b);
    lemma_trim_start_case(a, b);
    lemma_trim_end_case(trim_start(a), trim_start(b));
    let va = trim(a);
    let vb = trim(b);
    if va.len() > 0 {
        let n = "://"@;
        lemma_separator_chars();
        assert(contains(va, n) == contains(vb, n)) by {
            if contains(va, n) {
                let i = choose|i: int| occurs_at(va, n, i);
                lemma_occurs_case(va, vb, i);
            }
            if contains(vb, n) {
                let i = choose|i: int| occurs_at(vb, n, i);
                lemma_occurs_case(va, vb, i);
            }
        }
        let fa = with_scheme(va, d);
        let fb = with_scheme(vb, d);
        if !contains(va, n) {
            let pre = match d {
                Some(x) => x,
                None => "http"@,
            };
            assert(fa == pre + n + va);
            assert(fb == pre + n + vb);
            assert forall|i: int| 0 <= i < fa.len() implies lower_char(#[trigger] fa[i])
                == lower_char(fb[i]) by {
                if i >= pre.len() + 3 {
                    assert(fa[i] == va[i - pre.len() - 3]);
                    assert(fb[i] == vb[i - pre.len() - 3]);
                    assert(lower_char(va[i - pre.len() - 3]) == lower_char(vb[i - pre.len() - 3]));
                }
            }
            assert(occurs_at(fa, n, pre.len() as int)) by {
                assert(fa.subrange(pre.len() as int, pre.len() + 3int) =~= n);
            }
        }
        assert(same_but_case(fa, fb));
        lemma_origin_of_case(fa, fb);
    }
}

/// Whether an address is at the Web UI's origin does not depend on the ASCII case of its
/// letters; and no address is at the origin of a target that has none.
pub proof fn same_origin_ignores_case(a: Seq<char>, b: Seq<char>, target: Seq<char>)
    ensures
        lower(a) == lower(b) ==> spec_same_origin(a, target) == spec_same_origin(b, target),
        spec_parse_origin(target, None) is None ==> !spec_same_origin(a, target),
{
    if lower(a) == lower(b) {
        if let Some(t) = spec_parse_origin(target, None) {
            lemma_parse_origin_case(a, b, Some(t.0));
        }
    }
}

proof fn lemma_trim_end_shorter(s: Seq<char>)
    ensures
        trim_end(s).len() <= s.len(),
        s.len() > 0 && is_whitespace(s.last()) ==> trim_end(s).len() < s.len(),
    decreases s.len(),
{
    if s.len() > 0 && is_whitespace(s.last()) {
        lemma_trim_end_shorter(s.drop_last());
    }
}

proof fn lemma_trim_start_concat(a: Seq<char>, q: Seq<char>)
    requires
        a.len() > 0,
        !is_whitespace(a.last()),
    ensures
        trim_start(a + q) == trim_start(a) + q,
        trim_start(a).len() > 0,
        trim_start(a).last() == a.last(),
    decreases a.len(),
{
    assert((a + q)[0] == a[0]);
    if is_whitespace(a[0]) {
        assert(a.len() > 1);
        assert((a + q).drop_first() =~= a.drop_first() + q);
        assert(a.drop_first().last() == a.last());
        lemma_trim_start_concat(a.drop_first(), q);
    }
}

proof fn lemma_trim_concat(a: Seq<char>, q: Seq<char>)
    requires
        a.len() > 0,
        trim_end(a) == a,
        q.len() > 0,
        !is_whitespace(q.last()),
    ensures
        trim(a + q) == trim(a) + q,
        trim(a).len() > 0,
{
    lemma_trim_end_shorter(a);
    lemma_trim_start_concat(a, q);
    let t = trim_start(a);
    assert((t + q).last() == q.last());
}

proof fn lemma_occurs_concat(v: Seq<char>, q: Seq<char>, j: int)
    requires
        q.len() > 0,
        q[0] == '?' || q[0] == '#',
        !contains(q, "://"@),
    ensures
        occurs_at(v + q, "://"@, j) == occurs_at(v, "://"@, j),
{
    let n = "://"@;
    lemma_separator_chars();
    let w = v + q;
    if 0 <= j && j + 3 <= v.len() {
        assert(w.subrange(j, j + 3) =~= v.subrange(j, j + 3));
    } else if j >= v.len() && j + 3 <= w.len() {
        assert(w.subrange(j, j + 3) =~= q.subrange(j - v.len(), j - v.len() + 3));
        assert(!occurs_at(q, n, j - v.len()));
    } else if 0 <= j < v.len() && j + 3 <= w.len() {
        if occurs_at(w, n, j) {
            assert(w.subrange(j, j + 3)[v.len() - j] == w[v.len() as int]);
            assert(w[v.len() as int] == q[0]);
        }
    }
}

proof fn lemma_authority_concat(r: Seq<char>, q: Seq<char>)
    requires
        q.len() > 0,
        ends_authority(q[0]),
    ensures
        authority_len(r + q) == authority_len(r),
    decreases r.len(),
{
    if r.len() == 0 {
        assert(r + q =~= q);
    } else {
        assert((r + q)[0] == r[0]);
        assert((r + q).drop_first() =~= r.drop_first() + q);
        lemma_authority_concat(r.drop_first(), q);
    }
}

proof fn lemma_origin_after_concat(scheme: Seq<char>, r: Seq<char>, q: Seq<char>)
    requires
        q.len() > 0,
        q[0] == '?' || q[0] == '#',
    ensures
        origin_after(scheme, r + q) == origin_after(scheme, r),
{
    lemma_authority_concat(r, q);
    lemma_authority_len_bound(r);
    let l = authority_len(r) as int;
    assert((r + q).subrange(0, l) =~= r.subrange(0, l));
}

proof fn lemma_first_separator_concat(full: Seq<char>, q: Seq<char>)
    requires
        contains(full, "://"@),
    ensures
        first_occurrence(full + q, "://"@) == first_occurrence(full, "://"@),
        first_occurrence(full, "://"@) + 3 <= full.len(),
        0 <= first_occurrence(full, "://"@),
{
    let n = "://"@;
    lemma_separator_chars();
    let w0 = choose|i: int| occurs_at(full, n, i);
    lemma_first_exists(full, n, w0);
    let f = first_occurrence(full, n);
    let w = full + q;
    assert(w.subrange(f, f + 3) =~= full.subrange(f, f + 3));
    assert forall|j: int| 0 <= j < f implies !occurs_at(w, n, j) by {
        assert(!occurs_at(full, n, j));
        assert(w.subrange(j, j + 3) =~= full.subrange(j, j + 3));
    }
    lemma_first_occurrence(w, n, f);
}

#[verifier::spinoff_prover]
#[verifier::rlimit(40)]
proof fn lemma_origin_concat(full: Seq<char>, q: Seq<char>)
    requires
        contains(full, "://"@),
        q.len() > 0,
        q[0] == '?' || q[0] == '#',
    ensures
        origin_of(full + q) == origin_of(full),
{
    lemma_first_separator_concat(full, q);
    let f = first_occurrence(full, "://"@);
    let w = full + q;
    let r = full.subrange(f + 3, full.len() as int);
    assert(w.subrange(0, f) =~= full.subrange(0, f));
    assert(w.subrange(f + 3, w.len() as int) =~= r + q);
    lemma_origin_after_concat(full.subrange(0, f), r, q);
}

proof fn lemma_first_separator_prefix(full: Seq<char>)
    requires
        contains(full, "://"@),
    ensures
        !contains(full.subrange(0, first_occurrence(full, "://"@)), "://"@),
{
    let n = "://"@;
    lemma_separator_chars();
    let w0 = choose|i: int| occurs_at(full, n, i);
    lemma_first_exists(full, n, w0);
    let f = first_occurrence(full, n);
    let p = full.subrange(0, f);
    if contains(p, n) {
        let j = choose|j: int| occurs_at(p, n, j);
        assert(p.subrange(j, j + n.len()) =~= full.subrange(j, j + n.len()));
        assert(occurs_at(full, n, j));
    }
}

proof fn lemma_with_scheme_has_separator(v: Seq<char>, d: Option<Seq<char>>)
    ensures
        contains(with_scheme(v, d), "://"@),
{
    let n = "://"@;
    lemma_separator_chars();
    if !contains(v, n) {
        let pre = match d {
            Some(x) => x,
            None => "http"@,
        };
        let full = with_scheme(v, d);
        assert(full == pre + n + v);
        assert(full.subrange(pre.len() as int, pre.len() + 3int) =~= n);
        assert(occurs_at(full, n, pre.len() as int));
    }
}

proof fn lemma_scheme_has_no_separator(target: Seq<char>)
    ensures
        spec_parse_origin(target, None) matches Some(t) ==> !contains(t.0, "://"@),
{
    let n = "://"@;
    if let Some(t) = spec_parse_origin(target, None) {
        let full = with_scheme(trim(target), None);
        lemma_with_scheme_has_separator(trim(target), None);
        lemma_first_separator_prefix(full);
        let scheme = full.subrange(0, first_occurrence(full, n));
        assert(same_but_case(scheme, lower(scheme))) by {
            assert forall|i: int| 0 <= i < scheme.len() implies lower_char(#[trigger] scheme[i])
                == lower_char(lower(scheme)[i]) by {
                assert(lower(scheme)[i] == lower_char(scheme[i]));
            }
        }
        if contains(lower(scheme), n) {
            let j = choose|j: int| occurs_at(lower(scheme), n, j);
            lemma_occurs_case(scheme, lower(scheme), j);
        }
    }
}

proof fn lemma_http_has_no_separator()
    ensures
        !contains("http"@, "://"@),
{
    reveal_strlit("http");
    lemma_separator_chars();
    let h = "http"@;
    let n = "://"@;
    assert forall|j: int| !occurs_at(h, n, j) by {
        if occurs_at(h, n, j) {
            assert(h.subrange(j, j + 3)[0] == h[j]);
        }
    }
}

proof fn lemma_nothing_after_separator(q: Seq<char>, scheme: Seq<char>)
    requires
        q.len() > 0,
        q[0] == '?' || q[0] == '#',
    ensures
        origin_after(scheme, q) is None,
{
    assert(authority_len(q) == 0);
    let e = q.subrange(0, 0);
    assert(e =~= Seq::<char>::empty());
    assert(last_index_of(e, '@') == -1);
    assert(e.subrange(0, 0) =~= e);
    assert(last_index_of(e, ':') == -1);
    assert(strip_leading_brackets(e) == e);
    assert(strip_trailing_brackets(e) == e);
}

proof fn lemma_separator_after_prefix(pre: Seq<char>, q: Seq<char>)
    requires
        !contains(pre, "://"@),
    ensures
        first_occurrence(pre + "://"@ + q, "://"@) == pre.len(),
{
    let n = "://"@;
    lemma_separator_chars();
    let full = pre + n + q;
    let p = pre.len() as int;
    assert(full.subrange(p, p + 3) =~= n);
    assert forall|j: int| 0 <= j < p implies !occurs_at(full, n, j) by {
        if j + 3 <= p {
            assert(full.subrange(j, j + 3) =~= pre.subrange(j, j + 3));
            assert(!occurs_at(pre, n, j));
        } else if occurs_at(full, n, j) {
            assert(full.subrange(j, j + 3)[p - j] == full[p]);
            assert(full[p] == ':');
        }
    }
    lemma_first_occurrence(full, n, p);
}

proof fn lemma_suffix_alone_has_no_origin(q: Seq<char>, d: Option<Seq<char>>)
    requires
        q.len() > 0,
        q[0] == '?' || q[0] == '#',
        !is_whitespace(q.last()),
        !contains(q, "://"@),
        d matches Some(s) ==> !contains(s, "://"@),
    ensures
        spec_parse_origin(q, d) is None,
{
    let n = "://"@;
    lemma_http_has_no_separator();
    assert(trim_start(q) == q);
    assert(trim_end(q) == q);
    let pre = match d {
        Some(x) => x,
        None => "http"@,
    };
    let full = with_scheme(q, d);
    assert(full == pre + n + q);
    lemma_separator_after_prefix(pre, q);
    let p = pre.len() as int;
    lemma_separator_chars();
    assert(full.subrange(p + 3, full.len() as int) =~= q);
    lemma_nothing_after_separator(q, full.subrange(0, p));
}

/// Appending a query or a fragment to an address with no trailing whitespace (text that
/// begins with `?` or `#`, does not end in whitespace and holds no `://`) does not change
/// whether the address is at the Web UI's origin.
pub proof fn same_origin_ignores_query_and_fragment(a: Seq<char>, q: Seq<char>, target: Seq<char>)
    requires
        trim_end(a) == a,
        q.len() > 0,
        q[0] == '?' || q[0] == '#',
        !is_whitespace(q.last()),
        !contains(q, "://"@),
    ensures
        spec_same_origin(a + q, target) == spec_same_origin(a, target),
{
    let n = "://"@;
    if let Some(t) = spec_parse_origin(target, None) {
        let d = Some(t.0);
        if a.len() == 0 {
            assert(a + q =~= q);
            lemma_scheme_has_no_separator(target);
            lemma_suffix_alone_has_no_origin(q, d);
        } else {
            lemma_trim_concat(a, q);
            let v = trim(a);
            assert(contains(v + q, n) == contains(v, n)) by {
                if contains(v + q, n) {
                    let j = choose|j: int| occurs_at(v + q, n, j);
                    lemma_occurs_concat(v, q, j);
                }
                if contains(v, n) {
                    let j = choose|j: int| occurs_at(v, n, j);
                    lemma_occurs_concat(v, q, j);
                }
            }
            let full = with_scheme(v, d);
            assert(with_scheme(v + q, d) =~= full + q);
            lemma_with_scheme_has_separator(v, d);
            lemma_origin_concat(full, q);
        }
    }
}

} // verus!
