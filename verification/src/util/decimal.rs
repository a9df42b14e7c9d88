use vstd::prelude::*;
use vstd::string::StringExecFns;

verus! {

/// The character for the digit `d`.
pub open spec fn digit_char(d: nat) -> char {
    if d == 0 {
        '0'
    } else if d == 1 {
        '1'
    } else if d == 2 {
        '2'
    } else if d == 3 {
        '3'
    } else if d == 4 {
        '4'
    } else if d == 5 {
        '5'
    } else if d == 6 {
        '6'
    } else if d == 7 {
        '7'
    } else if d == 8 {
        '8'
    } else {
        '9'
    }
}

/// The decimal digits of `n`, without leading zeros.
pub open spec fn decimal(n: nat) -> Seq<char>
    decreases n,
{
    if n < 10 {
        seq![digit_char(n)]
    } else {
        decimal(n / 10).push(digit_char(n % 10))
    }
}

fn digit_str(d: u128) -> (r: &'static str)
    requires
        d < 10,
    ensures
        r@ == seq![digit_char(d as nat)],
{
    proof {
        reveal_strlit("0");
        reveal_strlit("1");
        reveal_strlit("2");
        reveal_strlit("3");
        reveal_strlit("4");
        reveal_strlit("5");
        reveal_strlit("6");
        reveal_strlit("7");
        reveal_strlit("8");
        reveal_strlit("9");
    }
    let r = if d == 0 {
        "0"
    } else if d == 1 {
        "1"
    } else if d == 2 {
        "2"
    } else if d == 3 {
        "3"
    } else if d == 4 {
        "4"
    } else if d == 5 {
        "5"
    } else if d == 6 {
        "6"
    } else if d == 7 {
        "7"
    } else if d == 8 {
        "8"
    } else {
        "9"
    };
    assert(r@ =~= seq![digit_char(d as nat)]);
    r
}

/// `n` written in decimal.
pub fn decimal_string(n: u128) -> (r: String)
    ensures
        r@ == decimal(n as nat),
    decreases n,
{
    if n < 10 {
        String::from_str(digit_str(n))
    } else {
        let mut s = decimal_string(n / 10);
        s.append(digit_str(n % 10));
        assert(s@ =~= decimal(n as nat));
        s
    }
}

/// The character for the hexadecimal digit `d`, in lower case.
pub open spec fn hex_char(d: nat) -> char {
    if d < 10 {
        digit_char(d)
    } else if d == 10 {
        'a'
    } else if d == 11 {
        'b'
    } else if d == 12 {
        'c'
    } else if d == 13 {
        'd'
    } else if d == 14 {
        'e'
    } else {
        'f'
    }
}

/// The hexadecimal digits of a byte, in lower case and without a leading zero.
pub open spec fn hex(b: u8) -> Seq<char> {
    if b < 16 {
        seq![hex_char(b as nat)]
    } else {
        seq![hex_char((b / 16) as nat), hex_char((b % 16) as nat)]
    }
}

fn hex_str(d: u8) -> (r: &'static str)
    requires
        d < 16,
    ensures
        r@ == seq![hex_char(d as nat)],
{
    proof {
        reveal_strlit("a");
        reveal_strlit("b");
        reveal_strlit("c");
        reveal_strlit("d");
        reveal_strlit("e");
        reveal_strlit("f");
    }
    if d < 10 {
        digit_str(d as u128)
    } else {
        let r = if d == 10 {
            "a"
        } else if d == 11 {
            "b"
        } else if d == 12 {
            "c"
        } else if d == 13 {
            "d"
        } else if d == 14 {
            "e"
        } else {
            "f"
        };
        assert(r@ =~= seq![hex_char(d as nat)]);
        r
    }
}

/// `b` written in hexadecimal.
pub fn hex_string(b: u8) -> (r: String)
    ensures
        r@ == hex(b),
{
    if b < 16 {
        String::from_str(hex_str(b))
    } else {
        let mut s = String::from_str(hex_str(b / 16));
        s.append(hex_str(b % 16));
        assert(s@ =~= hex(b));
        s
    }
}

/// The number that the ASCII digits `s` spell, if `s` is a number in
/// decimal, with or without a plus sign in front, that does not exceed `max`.
pub open spec fn parse_decimal(s: Seq<u8>, max: nat) -> Option<nat> {
    let digits = if s.len() > 0 && s[0] == 43 {
        s.drop_first()
    } else {
        s
    };
    if digits.len() > 0 && all_digits(digits) && digits_value(digits) <= max {
        Some(digits_value(digits))
    } else {
        None
    }
}

pub open spec fn all_digits(s: Seq<u8>) -> bool {
    forall|i: int| 0 <= i < s.len() ==> 48 <= #[trigger] s[i] <= 57
}

/// The number that the ASCII digits `s` spell.
pub open spec fn digits_value(s: Seq<u8>) -> nat
    decreases s.len(),
{
    if s.len() == 0 {
        0
    } else {
        digits_value(s.drop_last()) * 10 + (s.last() - 48) as nat
    }
}

proof fn lemma_digits_value_monotonic(s: Seq<u8>, k: int)
    requires
        all_digits(s),
        0 <= k <= s.len(),
    ensures
        digits_value(s.take(k)) <= digits_value(s),
    decreases s.len() - k,
{
    if k < s.len() {
        assert(s.take(k + 1).drop_last() =~= s.take(k));
        lemma_digits_value_monotonic(s, k + 1);
    } else {
        assert(s.take(k) =~= s);
    }
}

/// Reads `bytes[start..end]` as a number in decimal of at most `max`.
pub fn parse_number(bytes: &Vec<u8>, start: usize, end: usize, max: u64) -> (r: Option<u64>)
    requires
        start <= end <= bytes.len(),
        max < 0x1000_0000_0000_0000,
    ensures
        match r {
            Some(v) => parse_decimal(bytes@.subrange(start as int, end as int), max as nat) == Some(v as nat),
            None => parse_decimal(bytes@.subrange(start as int, end as int), max as nat) is None,
        },
{
    let ghost s = bytes@.subrange(start as int, end as int);
    let mut i = start;
    if i < end && bytes[i] == 43 {
        i += 1;
    }
    let first = i;
    let ghost digits = bytes@.subrange(first as int, end as int);
    proof {
        if first > start {
            assert(s[0] == 43);
            assert(digits =~= s.drop_first());
        } else {
            if s.len() > 0 {
                assert(s[0] == bytes@[start as int]);
            }
            assert(digits =~= s);
        }
    }
    if first == end {
        return None;
    }
    let mut acc: u64 = 0;
    assert(digits.take(0) =~= Seq::<u8>::empty());
    while i < end
        invariant
            first <= i <= end,
            end <= bytes.len(),
            digits == bytes@.subrange(first as int, end as int),
            s == bytes@.subrange(start as int, end as int),
            digits == (if s.len() > 0 && s[0] == 43 {
                s.drop_first()
            } else {
                s
            }),
            digits.len() > 0,
            all_digits(digits.take(i - first)),
            acc == digits_value(digits.take(i - first)),
            acc <= max,
            max < 0x1000_0000_0000_0000,
        decreases end - i,
    {
        let b = bytes[i];
        let ghost k = i - first;
        proof {
            assert(digits[k] == b);
            assert(digits.take(k + 1).drop_last() =~= digits.take(k));
        }
        if b < 48 || b > 57 {
            assert(!all_digits(digits));
            return None;
        }
        let d = (b - 48) as u64;
        if acc * 10 + d > max {
            proof {
                if all_digits(digits) {
                    lemma_digits_value_monotonic(digits, k + 1);
                }
            }
            return None;
        }
        acc = acc * 10 + d;
        proof {
            assert(all_digits(digits.take(k + 1))) by {
                assert forall|j: int| 0 <= j < k + 1 implies 48 <= #[trigger] digits.take(k + 1)[j] <= 57 by {
                    if j < k {
                        assert(digits.take(k)[j] == digits.take(k + 1)[j]);
                    }
                }
            }
        }
        i += 1;
    }
    assert(digits.take(end - first) =~= digits);
    Some(acc)
}

} // verus!
