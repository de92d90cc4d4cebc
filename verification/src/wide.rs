//! UTF-16 text as the Windows API expects it.
use vstd::prelude::*;
use crate::text::chars_of;

verus! {

/// The UTF-16 code units of one character.
pub open spec fn utf16_units(c: char) -> Seq<u16> {
    let v = c as u32;
    if v < 0x10000 {
        seq![v as u16]
    } else {
        let w = v - 0x10000;
        seq![(0xd800 + w / 1024) as u16, (0xdc00 + w % 1024) as u16]
    }
}

/// The UTF-16 encoding of a text (`str::encode_utf16`).
pub open spec fn utf16(s: Seq<char>) -> Seq<u16>
    decreases s.len(),
{
    if s.len() == 0 {
        Seq::<u16>::empty()
    } else {
        utf16(s.drop_last()) + utf16_units(s.last())
    }
}

/// The number of code units that `copy_wide` writes before its terminator.
pub open spec fn copied_units(target_len: nat, value: Seq<char>) -> nat {
    let n = utf16(value).len();
    if n < target_len - 1 {
        n
    } else {
        (target_len - 1) as nat
    }
}

fn encode_utf16(value: &str) -> (r: Vec<u16>)
    ensures
        r@ == utf16(value@),
{
    let chars = chars_of(value);
    let mut r: Vec<u16> = Vec::new();
    let mut i: usize = 0;
    while i < chars.len()
        invariant
            i <= chars.len(),
            chars@ == value@,
            r@ == utf16(chars@.take(i as int)),
        decreases chars.len() - i,
    {
        let c = chars[i];
        let v = c as u32;
        let ghost before = r@;
        if v < 0x10000 {
            r.push(v as u16);
        } else {
            let w = v - 0x10000;
            r.push((0xd800 + w / 1024) as u16);
            r.push((0xdc00 + w % 1024) as u16);
        }
        proof {
            assert(chars@.take(i + 1).drop_last() =~= chars@.take(i as int));
            assert(r@ =~= before + utf16_units(c));
        }
        i = i + 1;
    }
    assert(chars@.take(chars.len() as int) =~= chars@);
    r
}

/// The UTF-16 encoding of `value` followed by a terminating zero.
pub fn wide(value: &str) -> (r: Vec<u16>)
    ensures
        r@ == utf16(value@).push(0u16),
{
    let mut r = encode_utf16(value);
    r.push(0);
    r
}

/// Copies `value` into a fixed-size UTF-16 buffer, truncated so that a terminating zero
/// always fits; an empty buffer is left untouched.
pub fn copy_wide(target: &mut [u16], value: &str)
    ensures
        final(target)@.len() == old(target)@.len(),
        old(target)@.len() == 0 ==> final(target)@ == old(target)@,
        old(target)@.len() > 0 ==> {
            let t = copied_units(old(target)@.len(), value@) as int;
            &&& forall|i: int| 0 <= i < t ==> final(target)@[i] == utf16(value@)[i]
            &&& final(target)@[t] == 0
            &&& forall|i: int| t < i < old(target)@.len() ==> final(target)@[i] == old(target)@[i]
        },
{
    let encoded = encode_utf16(value);
    let n = target.len();
    if n == 0 {
        return;
    }
    let count = if encoded.len() < n - 1 {
        encoded.len()
    } else {
        n - 1
    };
    let mut i: usize = 0;
    while i < count
        invariant
            count < n,
            n == target@.len(),
            count <= encoded@.len(),
            encoded@ == utf16(value@),
            i <= count,
            forall|j: int| 0 <= j < i ==> target@[j] == encoded@[j],
            forall|j: int| i <= j < n ==> target@[j] == old(target)@[j],
        decreases count - i,
    {
        target[i] = encoded[i];
        i = i + 1;
    }
    target[count] = 0;
}

} // verus!
