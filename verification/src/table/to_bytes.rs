use vstd::prelude::*;
use vstd::string::StrSliceExecFns;
use vstd::utf8::{decode_utf8, valid_utf8};
use crate::codec::{
    canon_result, canonical, canonicalize, fits, leading_zeros, lemma_leading_zeros_bound, strip_leading_zeros,
    target_len, zeros,
};
use crate::error::{ErrorSpec, RBFRTError};

verus! {

/// 256 to the power of `k`.
pub open spec fn pow256(k: nat) -> nat
    decreases k,
{
    if k == 0 {
        1
    } else {
        256 * pow256((k - 1) as nat)
    }
}

/// The number that `s` spells when read as big-endian.
pub open spec fn be_value(s: Seq<u8>) -> nat
    decreases s.len(),
{
    if s.len() == 0 {
        0
    } else {
        be_value(s.drop_last()) * 256 + s.last() as nat
    }
}

/// The `n` low bytes of `v`, highest first.
pub open spec fn be_bytes(v: nat, n: nat) -> Seq<u8>
    decreases n,
{
    if n == 0 {
        Seq::<u8>::empty()
    } else {
        be_bytes(v / 256, (n - 1) as nat).push((v % 256) as u8)
    }
}

/// The big-endian bytes of every word of `s`, four for each, in order.
pub open spec fn words_to_bytes(s: Seq<u32>) -> Seq<u8>
    decreases s.len(),
{
    if s.len() == 0 {
        Seq::<u8>::empty()
    } else {
        words_to_bytes(s.drop_last()) + be_bytes(s.last() as nat, 4)
    }
}

pub proof fn lemma_pow256_values()
    ensures
        pow256(1) == 0x100,
        pow256(2) == 0x1_0000,
        pow256(4) == 0x1_0000_0000,
        pow256(8) == 0x1_0000_0000_0000_0000,
        pow256(16) == 0x1_0000_0000_0000_0000_0000_0000_0000_0000,
{
    assert(pow256(1) == 0x100) by {
        reveal_with_fuel(pow256, 2);
    }
    assert(pow256(2) == 0x1_0000) by {
        reveal_with_fuel(pow256, 3);
    }
    assert(pow256(4) == 0x1_0000_0000) by {
        reveal_with_fuel(pow256, 3);
    }
    assert(pow256(6) == 0x1_0000_0000_0000) by {
        reveal_with_fuel(pow256, 3);
    }
    assert(pow256(8) == 0x1_0000_0000_0000_0000) by {
        reveal_with_fuel(pow256, 3);
    }
    assert(pow256(10) == 0x1_0000_0000_0000_0000_0000) by {
        reveal_with_fuel(pow256, 3);
    }
    assert(pow256(12) == 0x1_0000_0000_0000_0000_0000_0000) by {
        reveal_with_fuel(pow256, 3);
    }
    assert(pow256(14) == 0x1_0000_0000_0000_0000_0000_0000_0000) by {
        reveal_with_fuel(pow256, 3);
    }
    assert(pow256(16) == 0x1_0000_0000_0000_0000_0000_0000_0000_0000) by {
        reveal_with_fuel(pow256, 3);
    }
}

pub proof fn lemma_pow256_monotonic(a: nat, b: nat)
    requires
        a <= b,
    ensures
        pow256(a) <= pow256(b),
        pow256(a) >= 1,
    decreases b,
{
    if a < b {
        lemma_pow256_monotonic(a, (b - 1) as nat);
    } else if a > 0 {
        lemma_pow256_monotonic((a - 1) as nat, (a - 1) as nat);
    }
}

/// A big-endian number of `n` bytes is below 256 to the `n`.
pub proof fn lemma_be_value_bound(s: Seq<u8>)
    ensures
        be_value(s) < pow256(s.len()),
    decreases s.len(),
{
    if s.len() > 0 {
        lemma_be_value_bound(s.drop_last());
    }
}

/// Zero bytes in front leave the number as it is.
pub proof fn lemma_be_value_zeros(n: nat, s: Seq<u8>)
    ensures
        be_value(zeros(n) + s) == be_value(s),
    decreases s.len(), n,
{
    let t = zeros(n) + s;
    if s.len() > 0 {
        assert(t.drop_last() =~= zeros(n) + s.drop_last());
        lemma_be_value_zeros(n, s.drop_last());
    } else if n > 0 {
        assert(t.drop_last() =~= zeros((n - 1) as nat) + s);
        lemma_be_value_zeros((n - 1) as nat, s);
    }
}

/// Stripping leading zero bytes leaves the number as it is.
pub proof fn lemma_be_value_strip(s: Seq<u8>)
    ensures
        be_value(strip_leading_zeros(s)) == be_value(s),
{
    lemma_leading_zeros_bound(s);
    let k = leading_zeros(s);
    assert(s =~= zeros(k) + strip_leading_zeros(s));
    lemma_be_value_zeros(k, strip_leading_zeros(s));
}

/// The canonical form of a value that fits spells the same number.
pub proof fn lemma_be_value_canonical(s: Seq<u8>, width: u32)
    requires
        fits(s, width),
    ensures
        be_value(canonical(s, width)) == be_value(s),
{
    lemma_be_value_strip(s);
    if width != crate::codec::UNCONSTRAINED_WIDTH {
        let t = strip_leading_zeros(s);
        lemma_be_value_zeros((target_len(width) - t.len()) as nat, t);
    }
}

/// Writing a number in `n` bytes and reading it back gives the number.
pub proof fn lemma_be_bytes_value(v: nat, n: nat)
    requires
        v < pow256(n),
    ensures
        be_bytes(v, n).len() == n,
        be_value(be_bytes(v, n)) == v,
    decreases n,
{
    if n > 0 {
        lemma_be_bytes_value(v / 256, (n - 1) as nat);
        assert(be_bytes(v, n).drop_last() =~= be_bytes(v / 256, (n - 1) as nat));
    }
}

/// Reads up to sixteen bytes as one big-endian number.
pub fn be_decode(bytes: &Vec<u8>) -> (r: u128)
    requires
        bytes.len() <= 16,
    ensures
        r == be_value(bytes@),
{
    let n = bytes.len();
    let mut acc: u128 = 0;
    let mut i: usize = 0;
    while i < n
        invariant
            n == bytes.len(),
            n <= 16,
            i <= n,
            acc == be_value(bytes@.take(i as int)),
        decreases n - i,
    {
        proof {
            let t = bytes@.take(i as int + 1);
            assert(t.drop_last() =~= bytes@.take(i as int));
            lemma_be_value_bound(t);
            lemma_pow256_monotonic(t.len(), 16);
            lemma_pow256_values();
        }
        acc = acc * 256 + bytes[i] as u128;
        i += 1;
    }
    assert(bytes@.take(n as int) =~= bytes@);
    acc
}

/// Appends the `n` low bytes of `v`, highest first, to `out`.
fn push_be(out: &mut Vec<u8>, v: u64, n: usize)
    requires
        n <= 8,
    ensures
        final(out)@ == old(out)@ + be_bytes(v as nat, n as nat),
    decreases n,
{
    if n > 0 {
        push_be(out, v / 256, n - 1);
        out.push((v % 256) as u8);
        assert(out@ =~= old(out)@ + be_bytes(v as nat, n as nat));
    } else {
        assert(out@ =~= old(out)@ + be_bytes(v as nat, n as nat));
    }
}

/// What turns into the bytes that travel in a key or a data field.
pub trait ToBytes {
    spec fn spec_bytes(&self) -> Seq<u8>;

    fn to_bytes(&self) -> (r: Vec<u8>)
        ensures
            r@ == self.spec_bytes(),
    ;
}

impl ToBytes for u8 {
    open spec fn spec_bytes(&self) -> Seq<u8> {
        be_bytes(*self as nat, 1)
    }

    fn to_bytes(&self) -> (r: Vec<u8>) {
        let mut out: Vec<u8> = Vec::new();
        push_be(&mut out, *self as u64, 1);
        out
    }
}

/// The unsigned number with the same two's complement pattern of `bits` bits.
pub open spec fn unsigned_of(v: int, bits: nat) -> nat {
    if v >= 0 {
        v as nat
    } else {
        (v + pow256(bits / 8)) as nat
    }
}

impl ToBytes for i8 {
    open spec fn spec_bytes(&self) -> Seq<u8> {
        be_bytes(unsigned_of(*self as int, 8), 1)
    }

    fn to_bytes(&self) -> (r: Vec<u8>) {
        proof {
            lemma_pow256_values();
        }
        let v: u64 = if *self >= 0 {
            *self as u64
        } else {
            (*self as i64 + 0x100) as u64
        };
        let mut out: Vec<u8> = Vec::new();
        push_be(&mut out, v, 1);
        out
    }
}

impl ToBytes for u16 {
    open spec fn spec_bytes(&self) -> Seq<u8> {
        be_bytes(*self as nat, 2)
    }

    fn to_bytes(&self) -> (r: Vec<u8>) {
        let mut out: Vec<u8> = Vec::new();
        push_be(&mut out, *self as u64, 2);
        out
    }
}

impl ToBytes for i16 {
    open spec fn spec_bytes(&self) -> Seq<u8> {
        be_bytes(unsigned_of(*self as int, 16), 2)
    }

    fn to_bytes(&self) -> (r: Vec<u8>) {
        proof {
            lemma_pow256_values();
        }
        let v: u64 = if *self >= 0 {
            *self as u64
        } else {
            (*self as i64 + 0x1_0000) as u64
        };
        let mut out: Vec<u8> = Vec::new();
        push_be(&mut out, v, 2);
        out
    }
}

impl ToBytes for u32 {
    open spec fn spec_bytes(&self) -> Seq<u8> {
        be_bytes(*self as nat, 4)
    }

    fn to_bytes(&self) -> (r: Vec<u8>) {
        let mut out: Vec<u8> = Vec::new();
        push_be(&mut out, *self as u64, 4);
        out
    }
}

impl ToBytes for i32 {
    open spec fn spec_bytes(&self) -> Seq<u8> {
        be_bytes(unsigned_of(*self as int, 32), 4)
    }

    fn to_bytes(&self) -> (r: Vec<u8>) {
        proof {
            lemma_pow256_values();
        }
        let v: u64 = if *self >= 0 {
            *self as u64
        } else {
            (*self as i64 + 0x1_0000_0000) as u64
        };
        let mut out: Vec<u8> = Vec::new();
        push_be(&mut out, v, 4);
        out
    }
}

impl ToBytes for bool {
    open spec fn spec_bytes(&self) -> Seq<u8> {
        if *self {
            seq![1u8]
        } else {
            seq![0u8]
        }
    }

    fn to_bytes(&self) -> (r: Vec<u8>) {
        let mut out: Vec<u8> = Vec::new();
        out.push(if *self { 1u8 } else { 0u8 });
        assert(out@ =~= self.spec_bytes());
        out
    }
}

/// A copy of `bytes`.
pub fn copy_bytes(bytes: &Vec<u8>) -> (r: Vec<u8>)
    ensures
        r@ == bytes@,
{
    let n = bytes.len();
    let mut out: Vec<u8> = Vec::new();
    let mut i: usize = 0;
    while i < n
        invariant
            n == bytes.len(),
            i <= n,
            out@ == bytes@.take(i as int),
        decreases n - i,
    {
        out.push(bytes[i]);
        i += 1;
    }
    assert(bytes@.take(n as int) =~= bytes@);
    out
}

impl ToBytes for Vec<u8> {
    open spec fn spec_bytes(&self) -> Seq<u8> {
        self@
    }

    fn to_bytes(&self) -> (r: Vec<u8>) {
        copy_bytes(self)
    }
}

impl ToBytes for String {
    open spec fn spec_bytes(&self) -> Seq<u8> {
        vstd::utf8::encode_utf8(self@)
    }

    fn to_bytes(&self) -> (r: Vec<u8>) {
        self.as_str().as_bytes_vec()
    }
}

impl ToBytes for &str {
    open spec fn spec_bytes(&self) -> Seq<u8> {
        vstd::utf8::encode_utf8(self@)
    }

    fn to_bytes(&self) -> (r: Vec<u8>) {
        self.as_bytes_vec()
    }
}

/// The four octets of an IPv4 address.
impl ToBytes for [u8; 4] {
    open spec fn spec_bytes(&self) -> Seq<u8> {
        self@
    }

    fn to_bytes(&self) -> (r: Vec<u8>) {
        let mut out: Vec<u8> = Vec::new();
        let mut i: usize = 0;
        while i < 4
            invariant
                i <= 4,
                out@ == self@.take(i as int),
            decreases 4 - i,
        {
            out.push(self[i]);
            i += 1;
        }
        assert(self@.take(4) =~= self@);
        out
    }
}

/// The sixteen octets of an IPv6 address.
impl ToBytes for [u8; 16] {
    open spec fn spec_bytes(&self) -> Seq<u8> {
        self@
    }

    fn to_bytes(&self) -> (r: Vec<u8>) {
        let mut out: Vec<u8> = Vec::new();
        let mut i: usize = 0;
        while i < 16
            invariant
                i <= 16,
                out@ == self@.take(i as int),
            decreases 16 - i,
        {
            out.push(self[i]);
            i += 1;
        }
        assert(self@.take(16) =~= self@);
        out
    }
}

impl ToBytes for Vec<u32> {
    open spec fn spec_bytes(&self) -> Seq<u8> {
        words_to_bytes(self@)
    }

    fn to_bytes(&self) -> (r: Vec<u8>) {
        let n = self.len();
        let mut out: Vec<u8> = Vec::new();
        let mut i: usize = 0;
        while i < n
            invariant
                n == self.len(),
                i <= n,
                out@ == words_to_bytes(self@.take(i as int)),
            decreases n - i,
        {
            assert(self@.take(i as int + 1).drop_last() =~= self@.take(i as int));
            push_be(&mut out, self[i] as u64, 4);
            i += 1;
        }
        assert(self@.take(n as int) =~= self@);
        out
    }
}

/// The number that `bytes` spell in at most `width` bits, or the error of
/// bringing them to that width under the field name `name`.
pub open spec fn number_of(bytes: Seq<u8>, name: Seq<char>, width: u32) -> Result<nat, ErrorSpec> {
    match canon_result(bytes, name, width) {
        Err(e) => Err(e),
        Ok(_) => Ok(be_value(bytes)),
    }
}

/// Reads `bytes` as a big-endian number of at most 32 bits; bytes that spell
/// a larger number are refused.
pub fn try_to_u32(bytes: &Vec<u8>) -> (r: Result<u32, RBFRTError>)
    ensures
        match r {
            Ok(v) => number_of(bytes@, "to_u32 call"@, 32) == Ok::<nat, ErrorSpec>(v as nat),
            Err(e) => number_of(bytes@, "to_u32 call"@, 32) == Err::<nat, ErrorSpec>(e@),
        },
{
    let data = canonicalize(copy_bytes(bytes), "to_u32 call", 32)?;
    proof {
        lemma_be_value_canonical(bytes@, 32);
        lemma_be_value_bound(data@);
        lemma_pow256_values();
    }
    Ok(be_decode(&data) as u32)
}

/// Reads `bytes` as a big-endian number of at most 64 bits; bytes that spell
/// a larger number are refused.
pub fn try_to_u64(bytes: &Vec<u8>) -> (r: Result<u64, RBFRTError>)
    ensures
        match r {
            Ok(v) => number_of(bytes@, "to_u64 call"@, 64) == Ok::<nat, ErrorSpec>(v as nat),
            Err(e) => number_of(bytes@, "to_u64 call"@, 64) == Err::<nat, ErrorSpec>(e@),
        },
{
    let data = canonicalize(copy_bytes(bytes), "to_u64 call", 64)?;
    proof {
        lemma_be_value_canonical(bytes@, 64);
        lemma_be_value_bound(data@);
        lemma_pow256_values();
    }
    Ok(be_decode(&data) as u64)
}

/// Reads `bytes` as a big-endian number of at most 128 bits; bytes that
/// spell a larger number are refused.
pub fn try_to_u128(bytes: &Vec<u8>) -> (r: Result<u128, RBFRTError>)
    ensures
        match r {
            Ok(v) => number_of(bytes@, "to_u128 call"@, 128) == Ok::<nat, ErrorSpec>(v as nat),
            Err(e) => number_of(bytes@, "to_u128 call"@, 128) == Err::<nat, ErrorSpec>(e@),
        },
{
    let data = canonicalize(copy_bytes(bytes), "to_u128 call", 128)?;
    proof {
        lemma_be_value_canonical(bytes@, 128);
    }
    Ok(be_decode(&data))
}

/// Reads `bytes` as a big-endian number of at most 32 bits.
pub fn to_u32(bytes: &Vec<u8>) -> (r: u32)
    requires
        strip_leading_zeros(bytes@).len() <= 4,
    ensures
        r == be_value(bytes@),
{
    proof {
        lemma_be_value_canonical(bytes@, 32);
        lemma_pow256_values();
    }
    match canonicalize(copy_bytes(bytes), "to_u32 call", 32) {
        Ok(data) => {
            proof {
                lemma_be_value_bound(data@);
            }
            be_decode(&data) as u32
        },
        Err(_) => 0,
    }
}

/// Reads `bytes` as a big-endian number of at most 64 bits.
pub fn to_u64(bytes: &Vec<u8>) -> (r: u64)
    requires
        strip_leading_zeros(bytes@).len() <= 8,
    ensures
        r == be_value(bytes@),
{
    proof {
        lemma_be_value_canonical(bytes@, 64);
        lemma_pow256_values();
    }
    match canonicalize(copy_bytes(bytes), "to_u64 call", 64) {
        Ok(data) => {
            proof {
                lemma_be_value_bound(data@);
            }
            be_decode(&data) as u64
        },
        Err(_) => 0,
    }
}

/// Reads `bytes` as a big-endian number of at most 128 bits.
pub fn to_u128(bytes: &Vec<u8>) -> (r: u128)
    requires
        strip_leading_zeros(bytes@).len() <= 16,
    ensures
        r == be_value(bytes@),
{
    proof {
        lemma_be_value_canonical(bytes@, 128);
    }
    match canonicalize(copy_bytes(bytes), "to_u128 call", 128) {
        Ok(data) => be_decode(&data),
        Err(_) => 0,
    }
}

/// Whether any byte of `s` is set.
pub open spec fn any_set(s: Seq<u8>) -> bool {
    exists|i: int| 0 <= i < s.len() && s[i] != 0
}

/// Whether any byte is set.
pub fn to_bool(bytes: &Vec<u8>) -> (r: bool)
    ensures
        r == any_set(bytes@),
{
    let n = bytes.len();
    let mut i: usize = 0;
    while i < n
        invariant
            n == bytes.len(),
            i <= n,
            forall|j: int| 0 <= j < i ==> bytes@[j] == 0,
        decreases n - i,
    {
        if bytes[i] > 0 {
            return true;
        }
        i += 1;
    }
    false
}

/// Calls `std::str::from_utf8` and copies the text: `Some` for bytes that
/// are well-formed UTF-8, with the text they spell, `None` otherwise.
#[verifier::external_body]
fn utf8_text(bytes: &Vec<u8>) -> (r: Option<String>)
    ensures
        r is Some <==> valid_utf8(bytes@),
        r matches Some(s) ==> s@ == decode_utf8(bytes@),
{
    match std::str::from_utf8(bytes) {
        Ok(s) => Some(s.to_string()),
        Err(_) => None,
    }
}

/// The text that `bytes` spells in UTF-8, if they spell one.
pub fn to_text(bytes: &Vec<u8>) -> (r: Option<String>)
    ensures
        r is Some <==> valid_utf8(bytes@),
        r matches Some(s) ==> s@ == decode_utf8(bytes@),
{
    utf8_text(bytes)
}

/// The text that `bytes` spells in UTF-8.
pub fn to_string(bytes: &Vec<u8>) -> (r: String)
    requires
        valid_utf8(bytes@),
    ensures
        r@ == decode_utf8(bytes@),
{
    match utf8_text(bytes) {
        Some(s) => s,
        None => String::new(),
    }
}

/// The four octets of an IPv4 address; any other length is refused.
pub fn to_ipv4(bytes: &Vec<u8>) -> (r: Result<[u8; 4], RBFRTError>)
    ensures
        match r {
            Ok(octets) => bytes@.len() == 4 && octets@ == bytes@,
            Err(e) => bytes@.len() != 4 && (e matches RBFRTError::ByteConversionError { target, .. }
                && target@ == "Ipv4Addr"@),
        },
{
    if bytes.len() != 4 {
        return Err(
            RBFRTError::ByteConversionError {
                target: "Ipv4Addr".to_owned(),
                orig_e: "could not convert slice to array".to_owned(),
            },
        );
    }
    let octets: [u8; 4] = [bytes[0], bytes[1], bytes[2], bytes[3]];
    assert(octets@ =~= bytes@);
    Ok(octets)
}

/// The sixteen octets of an IPv6 address; any other length is refused.
pub fn to_ipv6(bytes: &Vec<u8>) -> (r: Result<[u8; 16], RBFRTError>)
    ensures
        match r {
            Ok(octets) => bytes@.len() == 16 && octets@ == bytes@,
            Err(e) => bytes@.len() != 16 && (e matches RBFRTError::ByteConversionError { target, .. }
                && target@ == "Ipv6Addr"@),
        },
{
    if bytes.len() != 16 {
        return Err(
            RBFRTError::ByteConversionError {
                target: "Ipv6Addr".to_owned(),
                orig_e: "could not convert slice to array".to_owned(),
            },
        );
    }
    let octets: [u8; 16] = [
        bytes[0],
        bytes[1],
        bytes[2],
        bytes[3],
        bytes[4],
        bytes[5],
        bytes[6],
        bytes[7],
        bytes[8],
        bytes[9],
        bytes[10],
        bytes[11],
        bytes[12],
        bytes[13],
        bytes[14],
        bytes[15],
    ];
    assert(octets@ =~= bytes@);
    Ok(octets)
}

/// Reads `bytes` as big-endian words of four bytes each.
pub fn to_int_arr(bytes: &Vec<u8>) -> (r: Vec<u32>)
    requires
        bytes@.len() % 4 == 0,
    ensures
        r@.len() * 4 == bytes@.len(),
        forall|k: int| 0 <= k < r@.len() ==> r@[k] == be_value(#[trigger] bytes@.subrange(4 * k, 4 * k + 4)),
{
    let n = bytes.len();
    let mut ret: Vec<u32> = Vec::new();
    let mut i: usize = 0;
    while i < n
        invariant
            n == bytes.len(),
            n % 4 == 0,
            i <= n,
            i % 4 == 0,
            ret@.len() * 4 == i,
            forall|k: int| 0 <= k < ret@.len() ==> ret@[k] == be_value(#[trigger] bytes@.subrange(4 * k, 4 * k + 4)),
        decreases n - i,
    {
        let mut word: Vec<u8> = Vec::new();
        word.push(bytes[i]);
        word.push(bytes[i + 1]);
        word.push(bytes[i + 2]);
        word.push(bytes[i + 3]);
        proof {
            assert(word@ =~= bytes@.subrange(i as int, i as int + 4));
            lemma_be_value_bound(word@);
            lemma_pow256_values();
        }
        let v = be_decode(&word) as u32;
        ret.push(v);
        i += 4;
    }
    ret
}

} // verus!
