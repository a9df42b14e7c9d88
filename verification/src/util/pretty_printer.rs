use vstd::prelude::*;
use vstd::string::StrSliceExecFns;
use vstd::string::StringExecFns;
use crate::table::to_bytes::{be_decode, be_value};
use crate::util::decimal::{decimal, decimal_string, hex, hex_string};

verus! {

/// Turns the bytes of table entries into text for display.
#[derive(Debug, Clone, Copy)]
pub struct PrettyPrinter {
    infer_address_type_flag: bool,
}

/// `items` written as a list: in square brackets, in decimal, with a comma
/// and a blank between two items.
pub open spec fn list_text(items: Seq<u8>) -> Seq<char> {
    seq!['['] + list_items(items) + seq![']']
}

pub open spec fn list_items(items: Seq<u8>) -> Seq<char>
    decreases items.len(),
{
    if items.len() == 0 {
        Seq::<char>::empty()
    } else if items.len() == 1 {
        decimal(items[0] as nat)
    } else {
        list_items(items.drop_last()) + seq![',', ' '] + decimal(items.last() as nat)
    }
}

/// The six bytes of a hardware address in hexadecimal, with colons between.
pub open spec fn mac_text(data: Seq<u8>) -> Seq<char> {
    hex(data[0]) + seq![':'] + hex(data[1]) + seq![':'] + hex(data[2]) + seq![':'] + hex(data[3]) + seq![':']
        + hex(data[4]) + seq![':'] + hex(data[5])
}

/// The four bytes of an IPv4 address in decimal, with dots between.
pub open spec fn ipv4_text(data: Seq<u8>) -> Seq<char> {
    decimal(data[0] as nat) + seq!['.'] + decimal(data[1] as nat) + seq!['.'] + decimal(data[2] as nat) + seq![
        '.',
    ] + decimal(data[3] as nat)
}

/// Whether `text` holds `part` as a run of characters.
pub open spec fn contains_text(text: Seq<char>, part: Seq<char>) -> bool {
    exists|i: int| 0 <= i <= text.len() - part.len() && #[trigger] text.subrange(i, i + part.len()) == part
}

/// Whether the name of a column says that it holds addresses.
pub open spec fn names_address(key: Seq<char>) -> bool {
    contains_text(key, "addr"@)
}

/// The text for the bytes of the column `key`: up to sixteen bytes as a
/// number, more as a list of bytes; where addresses are inferred and the
/// column's name says so, six bytes as a hardware address and four as an
/// IPv4 address.
pub open spec fn data_text(infer: bool, key: Seq<char>, data: Seq<u8>) -> Seq<char> {
    if infer && names_address(key) && data.len() == 6 {
        mac_text(data)
    } else if infer && names_address(key) && data.len() == 4 {
        ipv4_text(data)
    } else if data.len() <= 16 {
        decimal(be_value(data))
    } else {
        list_text(data)
    }
}

/// Whether `key` holds the four characters of "addr" from `at` on.
fn addr_at(key: &Vec<char>, at: usize) -> (r: bool)
    requires
        at + 4 <= key.len(),
    ensures
        r == (key@.subrange(at as int, at + 4) == "addr"@),
{
    proof {
        reveal_strlit("addr");
    }
    let r = key[at] == 'a' && key[at + 1] == 'd' && key[at + 2] == 'd' && key[at + 3] == 'r';
    proof {
        let part = key@.subrange(at as int, at + 4);
        if r {
            assert(part =~= "addr"@);
        } else {
            assert(part[0] == key@[at as int]);
            assert(part[1] == key@[at + 1]);
            assert(part[2] == key@[at + 2]);
            assert(part[3] == key@[at + 3]);
        }
    }
    r
}

/// The characters of a text.
pub fn chars_of(text: &str) -> (r: Vec<char>)
    ensures
        r@ == text@,
{
    let n = text.unicode_len();
    let mut out: Vec<char> = Vec::new();
    let mut i: usize = 0;
    while i < n
        invariant
            n == text@.len(),
            i <= n,
            out@ == text@.take(i as int),
        decreases n - i,
    {
        out.push(text.get_char(i));
        assert(out@ =~= text@.take(i as int + 1));
        i += 1;
    }
    assert(text@.take(n as int) =~= text@);
    out
}

/// Whether the name of a column, given by its characters, says that it holds addresses.
pub fn is_address_column(key: &Vec<char>) -> (r: bool)
    ensures
        r == names_address(key@),
{
    proof {
        reveal_strlit("addr");
    }
    let n = key.len();
    if n < 4 {
        return false;
    }
    let mut i: usize = 0;
    while i <= n - 4
        invariant
            n == key.len(),
            n >= 4,
            i <= n - 3,
            "addr"@.len() == 4,
            forall|j: int| 0 <= j < i ==> #[trigger] key@.subrange(j, j + 4) != "addr"@,
        decreases n - i,
    {
        if addr_at(key, i) {
            return true;
        }
        i += 1;
    }
    false
}

impl PrettyPrinter {
    pub closed spec fn spec_flag(&self) -> bool {
        self.infer_address_type_flag
    }

    /// A printer that infers addresses from the names of columns.
    pub fn new() -> (r: PrettyPrinter)
        ensures
            r.spec_flag(),
    {
        PrettyPrinter { infer_address_type_flag: true }
    }

    /// Sets whether addresses are inferred from the names of columns.
    pub fn infer_address_type_flag(self, infer_address_type_flag: bool) -> (r: PrettyPrinter)
        ensures
            r.spec_flag() == infer_address_type_flag,
    {
        PrettyPrinter { infer_address_type_flag }
    }

    pub fn get_infer_address_type_flag(&self) -> (r: bool)
        ensures
            r == self.spec_flag(),
    {
        self.infer_address_type_flag
    }

    /// The text for the bytes `data` of the column `key`.
    pub fn convert_data_to_string(&self, key: &str, data: &Vec<u8>) -> (r: String)
        ensures
            r@ == data_text(self.spec_flag(), key@, data@),
    {
        let n = data.len();
        if self.infer_address_type_flag && (n == 6 || n == 4) && is_address_column(&chars_of(key)) {
            if n == 6 {
                let mut s = hex_string(data[0]);
                proof {
                    reveal_strlit(":");
                }
                s.append(":");
                s.append(hex_string(data[1]).as_str());
                s.append(":");
                s.append(hex_string(data[2]).as_str());
                s.append(":");
                s.append(hex_string(data[3]).as_str());
                s.append(":");
                s.append(hex_string(data[4]).as_str());
                s.append(":");
                s.append(hex_string(data[5]).as_str());
                assert(s@ =~= mac_text(data@));
                s
            } else {
                proof {
                    reveal_strlit(".");
                }
                let mut s = decimal_string(data[0] as u128);
                s.append(".");
                s.append(decimal_string(data[1] as u128).as_str());
                s.append(".");
                s.append(decimal_string(data[2] as u128).as_str());
                s.append(".");
                s.append(decimal_string(data[3] as u128).as_str());
                assert(s@ =~= ipv4_text(data@));
                s
            }
        } else if n <= 16 {
            decimal_string(be_decode(data))
        } else {
            proof {
                reveal_strlit("[");
                reveal_strlit("]");
                reveal_strlit(", ");
            }
            let mut s = String::from_str("[");
            let mut i: usize = 0;
            assert(data@.take(0) =~= Seq::<u8>::empty());
            while i < n
                invariant
                    n == data.len(),
                    i <= n,
                    s@ == seq!['['] + list_items(data@.take(i as int)),
                    "]"@ == seq![']'],
                    ", "@ == seq![',', ' '],
                decreases n - i,
            {
                let ghost before = s@;
                proof {
                    assert(data@.take(i as int + 1).drop_last() =~= data@.take(i as int));
                }
                if i > 0 {
                    s.append(", ");
                }
                s.append(decimal_string(data[i] as u128).as_str());
                proof {
                    assert(s@ =~= seq!['['] + list_items(data@.take(i as int + 1)));
                }
                i += 1;
            }
            assert(data@.take(n as int) =~= data@);
            s.append("]");
            assert(s@ =~= list_text(data@));
            s
        }
    }
}

} // verus!
