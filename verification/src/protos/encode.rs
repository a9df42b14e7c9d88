use vstd::prelude::*;

verus! {

/// The bytes that prost writes for a string taken as a message of its own.
pub uninterp spec fn encoded_string(s: Seq<char>) -> Seq<u8>;

/// The message bytes of a bool: for `true` the key byte of field 1 as a
/// varint and the byte 1, for `false` nothing.
pub open spec fn bool_message(value: bool) -> Seq<u8> {
    if value {
        seq![8u8, 1u8]
    } else {
        Seq::<u8>::empty()
    }
}

/// Calls `prost::Message::encode_to_vec` on a `bool`: a `true` is field 1 as
/// a varint, the two bytes 8 and 1; a `false` is the empty message.
#[verifier::external_body]
pub(crate) fn encode_bool(value: bool) -> (r: Vec<u8>)
    ensures
        r@ == bool_message(value),
{
    prost::Message::encode_to_vec(&value)
}

/// Calls `prost::Message::encode_to_vec` on a `String`. The bytes depend on
/// the text alone.
#[verifier::external_body]
pub(crate) fn encode_string(value: &String) -> (r: Vec<u8>)
    ensures
        r@ == encoded_string(value@),
{
    prost::Message::encode_to_vec(value)
}

/// The message bytes of a 32-bit float with the given bit pattern: nothing
/// for a zero of either sign, else the key byte of field 1 as a 32-bit value
/// and the pattern, lowest byte first.
pub open spec fn float_message(bits: u32) -> Seq<u8> {
    if bits == 0 || bits == 0x8000_0000 {
        Seq::<u8>::empty()
    } else {
        seq![
            13u8,
            (bits % 256) as u8,
            (bits / 256 % 256) as u8,
            (bits / 65536 % 256) as u8,
            (bits / 16777216) as u8,
        ]
    }
}

/// The message bytes of the float with the given bit pattern.
pub fn encode_float_bits(bits: u32) -> (r: Vec<u8>)
    ensures
        r@ == float_message(bits),
{
    let mut out: Vec<u8> = Vec::new();
    if bits != 0 && bits != 0x8000_0000 {
        out.push(13u8);
        out.push((bits % 256) as u8);
        out.push((bits / 256 % 256) as u8);
        out.push((bits / 65536 % 256) as u8);
        out.push((bits / 16777216) as u8);
    }
    assert(out@ =~= float_message(bits));
    out
}

} // verus!
