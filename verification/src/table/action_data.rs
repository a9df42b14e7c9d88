use vstd::prelude::*;
use crate::codec::strip_leading_zeros;
use crate::table::to_bytes::{be_value, copy_bytes, to_u128, to_u32, to_u64, ToBytes};

verus! {

/// One value of an action parameter or of a singleton, under its name.
#[derive(Debug, PartialEq, Eq)]
pub struct ActionData {
    key: String,
    data: Vec<u8>,
}

/// A name with the bytes that stand under it.
pub struct NamedBytes {
    pub key: Seq<char>,
    pub data: Seq<u8>,
}

impl View for ActionData {
    type V = NamedBytes;

    closed spec fn view(&self) -> NamedBytes {
        NamedBytes { key: self.key@, data: self.data@ }
    }
}

impl Clone for ActionData {
    fn clone(&self) -> (r: ActionData)
        ensures
            r@ == self@,
    {
        ActionData { key: self.key.clone(), data: copy_bytes(&self.data) }
    }
}

impl ActionData {
    /// Puts the bytes of `data` under `key`.
    pub fn new<T: ToBytes>(key: &str, data: T) -> (r: ActionData)
        ensures
            r@ == (NamedBytes { key: key@, data: data.spec_bytes() }),
    {
        ActionData { key: key.to_owned(), data: data.to_bytes() }
    }

    pub fn get_key(&self) -> (r: &str)
        ensures
            r@ == self@.key,
    {
        self.key.as_str()
    }

    pub fn get_data(&self) -> (r: &Vec<u8>)
        ensures
            r@ == self@.data,
    {
        &self.data
    }

    /// The data read as a big-endian number of at most 32 bits.
    pub fn as_u32(&self) -> (r: u32)
        requires
            strip_leading_zeros(self@.data).len() <= 4,
        ensures
            r == be_value(self@.data),
    {
        to_u32(&self.data)
    }

    /// The data read as a big-endian number of at most 64 bits.
    pub fn as_u64(&self) -> (r: u64)
        requires
            strip_leading_zeros(self@.data).len() <= 8,
        ensures
            r == be_value(self@.data),
    {
        to_u64(&self.data)
    }

    /// The data read as a big-endian number of at most 128 bits.
    pub fn as_u128(&self) -> (r: u128)
        requires
            strip_leading_zeros(self@.data).len() <= 16,
        ensures
            r == be_value(self@.data),
    {
        to_u128(&self.data)
    }
}

/// A list of values of one action parameter or singleton, under its name.
#[derive(Debug, PartialEq, Eq)]
pub struct ActionDataRepeated {
    key: String,
    data: Vec<Vec<u8>>,
}

/// A name with the list of byte strings that stands under it.
pub struct NamedByteList {
    pub key: Seq<char>,
    pub data: Seq<Seq<u8>>,
}

impl View for ActionDataRepeated {
    type V = NamedByteList;

    closed spec fn view(&self) -> NamedByteList {
        NamedByteList { key: self.key@, data: self.data@.map_values(|d: Vec<u8>| d@) }
    }
}

/// A copy of a list of byte strings.
pub fn copy_byte_list(list: &Vec<Vec<u8>>) -> (r: Vec<Vec<u8>>)
    ensures
        r@.map_values(|d: Vec<u8>| d@) == list@.map_values(|d: Vec<u8>| d@),
{
    let n = list.len();
    let mut out: Vec<Vec<u8>> = Vec::new();
    let mut i: usize = 0;
    while i < n
        invariant
            n == list.len(),
            i <= n,
            out@.len() == i,
            forall|j: int| 0 <= j < i ==> (#[trigger] out@[j])@ == list@[j]@,
        decreases n - i,
    {
        out.push(copy_bytes(&list[i]));
        i += 1;
    }
    assert(out@.map_values(|d: Vec<u8>| d@) =~= list@.map_values(|d: Vec<u8>| d@));
    out
}

impl Clone for ActionDataRepeated {
    fn clone(&self) -> (r: ActionDataRepeated)
        ensures
            r@ == self@,
    {
        ActionDataRepeated { key: self.key.clone(), data: copy_byte_list(&self.data) }
    }
}

impl ActionDataRepeated {
    /// Puts the bytes of each item of `data` under `key`, in order.
    pub fn new<T: ToBytes>(key: &str, data: Vec<T>) -> (r: ActionDataRepeated)
        ensures
            r@.key == key@,
            r@.data == data@.map_values(|d: T| d.spec_bytes()),
    {
        let n = data.len();
        let mut out: Vec<Vec<u8>> = Vec::new();
        let mut i: usize = 0;
        while i < n
            invariant
                n == data.len(),
                i <= n,
                out@.len() == i,
                forall|j: int| 0 <= j < i ==> (#[trigger] out@[j])@ == data@[j].spec_bytes(),
            decreases n - i,
        {
            out.push(data[i].to_bytes());
            i += 1;
        }
        let r = ActionDataRepeated { key: key.to_owned(), data: out };
        assert(r@.data =~= data@.map_values(|d: T| d.spec_bytes()));
        r
    }

    pub fn get_key(&self) -> (r: &str)
        ensures
            r@ == self@.key,
    {
        self.key.as_str()
    }

    pub fn get_data(&self) -> (r: &Vec<Vec<u8>>)
        ensures
            r@.map_values(|d: Vec<u8>| d@) == self@.data,
    {
        &self.data
    }
}

} // verus!
