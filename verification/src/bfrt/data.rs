use vstd::prelude::*;
use crate::bfrt::types::BFRTFieldType;

verus! {

/// A data field that is addressed without an action: a counter, a register,
/// a parameter of a fixed-function table.
#[derive(Debug)]
pub struct BFRTSingleton {
    id: u32,
    name: String,
    field_type: Option<BFRTFieldType>,
    repeated: Option<bool>,
}

/// What the lookups read of a singleton.
pub struct FieldSchema {
    pub id: u32,
    pub name: Seq<char>,
    pub field_type: Option<BFRTFieldType>,
}

impl View for BFRTSingleton {
    type V = FieldSchema;

    closed spec fn view(&self) -> FieldSchema {
        FieldSchema { id: self.id, name: self.name@, field_type: self.field_type }
    }
}

impl Clone for BFRTSingleton {
    fn clone(&self) -> (r: BFRTSingleton)
        ensures
            r@ == self@,
    {
        BFRTSingleton {
            id: self.id,
            name: self.name.clone(),
            field_type: self.field_type,
            repeated: self.repeated,
        }
    }
}

impl BFRTSingleton {
    pub fn new(id: u32, name: String, field_type: Option<BFRTFieldType>, repeated: Option<bool>) -> (r:
        BFRTSingleton)
        ensures
            r@ == (FieldSchema { id, name: name@, field_type }),
    {
        BFRTSingleton { id, name, field_type, repeated }
    }

    pub fn id(&self) -> (r: u32)
        ensures
            r == self@.id,
    {
        self.id
    }

    pub fn name(&self) -> (r: &str)
        ensures
            r@ == self@.name,
    {
        self.name.as_str()
    }

    pub fn get_type(&self) -> (r: &Option<BFRTFieldType>)
        ensures
            *r == self@.field_type,
    {
        &self.field_type
    }
}

/// One entry of a table's data list.
#[derive(Debug)]
pub struct BFRTData {
    mandatory: bool,
    read_only: bool,
    singleton: BFRTSingleton,
}

impl View for BFRTData {
    type V = FieldSchema;

    closed spec fn view(&self) -> FieldSchema {
        self.singleton@
    }
}

impl Clone for BFRTData {
    fn clone(&self) -> (r: BFRTData)
        ensures
            r@ == self@,
    {
        BFRTData { mandatory: self.mandatory, read_only: self.read_only, singleton: self.singleton.clone() }
    }
}

impl BFRTData {
    pub fn new(mandatory: bool, read_only: bool, singleton: BFRTSingleton) -> (r: BFRTData)
        ensures
            r@ == singleton@,
    {
        BFRTData { mandatory, read_only, singleton }
    }

    pub fn singleton(&self) -> (r: &BFRTSingleton)
        ensures
            r@ == self@,
    {
        &self.singleton
    }
}

} // verus!
