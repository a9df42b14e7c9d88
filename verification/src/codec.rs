use vstd::prelude::*;
use crate::error::{result_view, ErrorSpec, RBFRTError};

verus! {

/// Width that marks a field as unconstrained: its bytes pass through as they are.
pub const UNCONSTRAINED_WIDTH: u32 = 0xffff_ffff;

/// Number of zero bytes at the front of `s`.
pub open spec fn leading_zeros(s: Seq<u8>) -> nat
    decreases s.len(),
{
    if s.len() > 0 && s[0] == 0 {
        1 + leading_zeros(s.drop_first())
    } else {
        0
    }
}

/// `s` without its leading zero bytes.
pub open spec fn strip_leading_zeros(s: Seq<u8>) -> Seq<u8> {
    s.skip(leading_zeros(s) as int)
}

/// Bytes needed to hold `width` bits.
pub open spec fn target_len(width: u32) -> nat {
    ((width + 7) / 8) as nat
}

/// `n` zero bytes.
pub open spec fn zeros(n: nat) -> Seq<u8> {
    Seq::new(n, |i: int| 0u8)
}

/// `s` padded with zero bytes at the front up to `n` bytes.
pub open spec fn left_pad(s: Seq<u8>, n: nat) -> Seq<u8> {
    zeros((n - s.len()) as nat) + s
}

/// Whether the significant bytes of `s` fit into `width` bits' worth of bytes.
pub open spec fn fits(s: Seq<u8>, width: u32) -> bool {
    width == UNCONSTRAINED_WIDTH || strip_leading_zeros(s).len() <= target_len(width)
}

/// The canonical form of `s` for a field of `width` bits.
pub open spec fn canonical(s: Seq<u8>, width: u32) -> Seq<u8> {
    if width == UNCONSTRAINED_WIDTH {
        s
    } else {
        left_pad(strip_leading_zeros(s), target_len(width))
    }
}

/// What `canonicalize` gives: the canonical form of a value that fits, and
/// for any other value a conversion error with the value's significant
/// bytes, the field's name and the width.
pub open spec fn canon_result(bytes: Seq<u8>, name: Seq<char>, width: u32) -> Result<Seq<u8>, ErrorSpec> {
    if fits(bytes, width) {
        Ok(canonical(bytes, width))
    } else {
        Err(ErrorSpec::ConvertError { value: strip_leading_zeros(bytes), name, width })
    }
}

/// The leading zero bytes are zero, and what follows them is not.
pub proof fn lemma_leading_zeros_bound(s: Seq<u8>)
    ensures
        leading_zeros(s) <= s.len(),
        forall|i: int| 0 <= i < leading_zeros(s) ==> s[i] == 0,
        leading_zeros(s) < s.len() ==> s[leading_zeros(s) as int] != 0,
    decreases s.len(),
{
    if s.len() > 0 && s[0] == 0 {
        let t = s.drop_first();
        lemma_leading_zeros_bound(t);
        assert forall|i: int| 0 <= i < leading_zeros(s) implies s[i] == 0 by {
            if i > 0 {
                assert(s[i] == t[i - 1]);
            }
        }
        if leading_zeros(s) < s.len() {
            assert(s[leading_zeros(s) as int] == t[leading_zeros(t) as int]);
        }
    }
}

/// The canonical form of a value that fits a constrained width has exactly
/// the target length: the value's significant bytes with zero bytes in front.
pub proof fn lemma_canonical_is_padded(s: Seq<u8>, width: u32)
    requires
        width != UNCONSTRAINED_WIDTH,
        fits(s, width),
    ensures
        canonical(s, width).len() == target_len(width),
        canonical(s, width) == zeros((target_len(width) - strip_leading_zeros(s).len()) as nat)
            + strip_leading_zeros(s),
        s == zeros(leading_zeros(s)) + strip_leading_zeros(s),
{
    lemma_leading_zeros_bound(s);
    assert(s =~= zeros(leading_zeros(s)) + strip_leading_zeros(s));
}

/// A prefix of zero bytes followed by a non-zero byte (or the end) pins the count.
pub proof fn lemma_leading_zeros_is(s: Seq<u8>, k: nat)
    requires
        k <= s.len(),
        forall|i: int| 0 <= i < k ==> s[i] == 0,
        k < s.len() ==> s[k as int] != 0,
    ensures
        leading_zeros(s) == k,
    decreases s.len(),
{
    if s.len() > 0 && s[0] == 0 {
        if k == 0 {
            assert(s[0] != 0);
        } else {
            let t = s.drop_first();
            assert forall|i: int| 0 <= i < k - 1 implies t[i] == 0 by {
                assert(t[i] == s[i + 1]);
            }
            lemma_leading_zeros_is(t, (k - 1) as nat);
        }
    } else if s.len() > 0 {
        if k > 0 {
            assert(s[0] == 0);
        }
    }
}

/// Brings `bytes` to the byte length of a field `width` bits wide: leading
/// zero bytes go, then zero bytes are put in front up to the target length.
/// A value whose significant bytes exceed the target length is refused.
pub fn canonicalize(bytes: Vec<u8>, name: &str, width: u32) -> (r: Result<Vec<u8>, RBFRTError>)
    ensures
        result_view(r) == canon_result(bytes@, name@, width),
        width != UNCONSTRAINED_WIDTH && r is Ok ==> r->Ok_0@.len() == target_len(width),
{
    if width == UNCONSTRAINED_WIDTH {
        return Ok(bytes);
    }
    let len = bytes.len();
    let mut start: usize = 0;
    while start < len && bytes[start] == 0
        invariant
            len == bytes.len(),
            start <= len,
            forall|i: int| 0 <= i < start ==> bytes[i] == 0,
        decreases len - start,
    {
        start += 1;
    }
    proof {
        lemma_leading_zeros_is(bytes@, start as nat);
    }
    let num_bytes: usize = (width / 8 + (if width % 8 == 0 { 0 } else { 1 })) as usize;
    let rest = len - start;
    if num_bytes < rest {
        let mut value: Vec<u8> = Vec::new();
        let mut i: usize = start;
        while i < len
            invariant
                len == bytes.len(),
                start <= i <= len,
                value@ == bytes@.subrange(start as int, i as int),
            decreases len - i,
        {
            value.push(bytes[i]);
            i += 1;
        }
        assert(value@ == bytes@.skip(start as int));
        return Err(RBFRTError::ConvertError { value, name: name.to_owned(), width });
    }
    let diff = num_bytes - rest;
    let mut ret: Vec<u8> = Vec::new();
    let mut k: usize = 0;
    while k < diff
        invariant
            k <= diff,
            ret@ == zeros(k as nat),
        decreases diff - k,
    {
        ret.push(0u8);
        k += 1;
    }
    let mut i: usize = start;
    while i < len
        invariant
            len == bytes.len(),
            start <= i <= len,
            ret@ == zeros(diff as nat) + bytes@.subrange(start as int, i as int),
        decreases len - i,
    {
        ret.push(bytes[i]);
        i += 1;
    }
    assert(bytes@.subrange(start as int, len as int) == bytes@.skip(start as int));
    Ok(ret)
}

} // verus!
