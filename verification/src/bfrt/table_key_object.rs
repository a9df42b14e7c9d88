use vstd::prelude::*;
use crate::bfrt::types::{BFRTFieldType, TableMatchTypes};

verus! {

/// A match key of a table.
#[derive(Debug)]
pub struct BFRTTableKeyObject {
    id: u32,
    name: String,
    repeated: Option<bool>,
    mandatory: bool,
    match_type: TableMatchTypes,
    field_type: BFRTFieldType,
}

/// What the lookups and the codec read of a key.
pub struct KeySchema {
    pub id: u32,
    pub name: Seq<char>,
    pub match_kind: TableMatchTypes,
    pub field_type: BFRTFieldType,
}

impl View for BFRTTableKeyObject {
    type V = KeySchema;

    closed spec fn view(&self) -> KeySchema {
        KeySchema { id: self.id, name: self.name@, match_kind: self.match_type, field_type: self.field_type }
    }
}

impl Clone for BFRTTableKeyObject {
    fn clone(&self) -> (r: BFRTTableKeyObject)
        ensures
            r@ == self@,
    {
        BFRTTableKeyObject {
            id: self.id,
            name: self.name.clone(),
            repeated: self.repeated,
            mandatory: self.mandatory,
            match_type: self.match_type,
            field_type: self.field_type,
        }
    }
}

impl BFRTTableKeyObject {
    pub fn new(
        id: u32,
        name: String,
        repeated: Option<bool>,
        mandatory: bool,
        match_type: TableMatchTypes,
        field_type: BFRTFieldType,
    ) -> (r: BFRTTableKeyObject)
        ensures
            r@ == (KeySchema { id, name: name@, match_kind: match_type, field_type }),
    {
        BFRTTableKeyObject { id, name, repeated, mandatory, match_type, field_type }
    }

    pub fn id(&self) -> (r: u32)
        ensures
            r == self@.id,
    {
        self.id
    }

    pub fn name(&self) -> (r: &str)
        ensures
            r@ == self@.name,
    {
        self.name.as_str()
    }

    pub fn match_type(&self) -> (r: TableMatchTypes)
        ensures
            r == self@.match_kind,
    {
        self.match_type
    }

    pub fn field_type(&self) -> (r: &BFRTFieldType)
        ensures
            *r == self@.field_type,
    {
        &self.field_type
    }
}

} // verus!
