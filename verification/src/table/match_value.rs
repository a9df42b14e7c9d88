use vstd::prelude::*;
use crate::table::to_bytes::ToBytes;

verus! {

/// The value that a request or a table entry holds for one match key.
#[derive(Debug, PartialEq, Eq)]
pub enum MatchValue {
    ExactValue { bytes: Vec<u8> },
    RangeValue { lower_bytes: Vec<u8>, higher_bytes: Vec<u8> },
    LPM { bytes: Vec<u8>, prefix_length: i32 },
    Ternary { value: Vec<u8>, mask: Vec<u8> },
}

/// A match value as plain sequences of bytes.
pub enum MatchSpec {
    Exact { bytes: Seq<u8> },
    Range { low: Seq<u8>, high: Seq<u8> },
    Lpm { bytes: Seq<u8>, prefix_len: i32 },
    Ternary { value: Seq<u8>, mask: Seq<u8> },
}

impl View for MatchValue {
    type V = MatchSpec;

    open spec fn view(&self) -> MatchSpec {
        match self {
            MatchValue::ExactValue { bytes } => MatchSpec::Exact { bytes: bytes@ },
            MatchValue::RangeValue { lower_bytes, higher_bytes } => MatchSpec::Range {
                low: lower_bytes@,
                high: higher_bytes@,
            },
            MatchValue::LPM { bytes, prefix_length } => MatchSpec::Lpm {
                bytes: bytes@,
                prefix_len: *prefix_length,
            },
            MatchValue::Ternary { value, mask } => MatchSpec::Ternary { value: value@, mask: mask@ },
        }
    }
}

impl Clone for MatchValue {
    fn clone(&self) -> (r: MatchValue)
        ensures
            r@ == self@,
    {
        match self {
            MatchValue::ExactValue { bytes } => MatchValue::ExactValue { bytes: bytes.to_bytes() },
            MatchValue::RangeValue { lower_bytes, higher_bytes } => MatchValue::RangeValue {
                lower_bytes: lower_bytes.to_bytes(),
                higher_bytes: higher_bytes.to_bytes(),
            },
            MatchValue::LPM { bytes, prefix_length } => MatchValue::LPM {
                bytes: bytes.to_bytes(),
                prefix_length: *prefix_length,
            },
            MatchValue::Ternary { value, mask } => MatchValue::Ternary {
                value: value.to_bytes(),
                mask: mask.to_bytes(),
            },
        }
    }
}

impl MatchValue {
    /// A value for an exact match.
    pub fn exact<T: ToBytes>(value: T) -> (r: MatchValue)
        ensures
            r@ == (MatchSpec::Exact { bytes: value.spec_bytes() }),
    {
        MatchValue::ExactValue { bytes: value.to_bytes() }
    }

    /// The bytes of an exact match.
    pub fn get_exact_value(&self) -> (r: &Vec<u8>)
        requires
            self is ExactValue,
        ensures
            self@ == (MatchSpec::Exact { bytes: r@ }),
    {
        match self {
            MatchValue::ExactValue { bytes } => bytes,
            _ => {
                proof {
                    assert(false);
                }
                unreached()
            },
        }
    }

    /// A value for a range match, both bounds given.
    pub fn range<T: ToBytes>(lower: T, higher: T) -> (r: MatchValue)
        ensures
            r@ == (MatchSpec::Range { low: lower.spec_bytes(), high: higher.spec_bytes() }),
    {
        MatchValue::RangeValue { lower_bytes: lower.to_bytes(), higher_bytes: higher.to_bytes() }
    }

    /// The two bounds of a range match, the lower one first.
    pub fn get_range_value(&self) -> (r: (&Vec<u8>, &Vec<u8>))
        requires
            self is RangeValue,
        ensures
            self@ == (MatchSpec::Range { low: r.0@, high: r.1@ }),
    {
        match self {
            MatchValue::RangeValue { lower_bytes, higher_bytes } => (lower_bytes, higher_bytes),
            _ => {
                proof {
                    assert(false);
                }
                unreached()
            },
        }
    }

    /// A value for a longest-prefix match.
    pub fn lpm<T: ToBytes>(value: T, prefix_length: i32) -> (r: MatchValue)
        ensures
            r@ == (MatchSpec::Lpm { bytes: value.spec_bytes(), prefix_len: prefix_length }),
    {
        MatchValue::LPM { bytes: value.to_bytes(), prefix_length }
    }

    /// A value for a ternary match: the bits and the mask that selects them.
    pub fn ternary<T: ToBytes>(value: T, mask: T) -> (r: MatchValue)
        ensures
            r@ == (MatchSpec::Ternary { value: value.spec_bytes(), mask: mask.spec_bytes() }),
    {
        MatchValue::Ternary { value: value.to_bytes(), mask: mask.to_bytes() }
    }
}

} // verus!
