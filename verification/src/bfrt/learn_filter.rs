use vstd::prelude::*;
use crate::error::RBFRTError;
use crate::seq_ext::{clone_items, first_index, lemma_first_index_none, lemma_first_index_some};

verus! {

/// A field of a learn filter.
#[derive(Debug)]
pub struct LearnFilterField {
    name: String,
    id: u32,
}

pub struct LearnFieldSchema {
    pub id: u32,
    pub name: Seq<char>,
}

impl View for LearnFilterField {
    type V = LearnFieldSchema;

    closed spec fn view(&self) -> LearnFieldSchema {
        LearnFieldSchema { id: self.id, name: self.name@ }
    }
}

impl Clone for LearnFilterField {
    fn clone(&self) -> (r: LearnFilterField)
        ensures
            r@ == self@,
    {
        LearnFilterField { name: self.name.clone(), id: self.id }
    }
}

impl LearnFilterField {
    pub fn new(id: u32, name: String) -> (r: LearnFilterField)
        ensures
            r@ == (LearnFieldSchema { id, name: name@ }),
    {
        LearnFilterField { name, id }
    }
}

/// Layout of the digests that one learn filter sends.
#[derive(Debug)]
pub struct LearnFilterObject {
    pub name: String,
    pub id: u32,
    pub fields: Vec<LearnFilterField>,
}

pub struct LearnFilterSchema {
    pub id: u32,
    pub name: Seq<char>,
    pub fields: Seq<LearnFieldSchema>,
}

impl LearnFilterSchema {
    /// Position of the first field with the given id.
    pub open spec fn field_by_id(self, id: u32) -> Option<int> {
        first_index(self.fields, |f: LearnFieldSchema| f.id == id)
    }
}

impl View for LearnFilterObject {
    type V = LearnFilterSchema;

    open spec fn view(&self) -> LearnFilterSchema {
        LearnFilterSchema {
            id: self.id,
            name: self.name@,
            fields: self.fields@.map_values(|f: LearnFilterField| f@),
        }
    }
}

impl Clone for LearnFilterObject {
    fn clone(&self) -> (r: LearnFilterObject)
        ensures
            r@ == self@,
    {
        LearnFilterObject { name: self.name.clone(), id: self.id, fields: clone_items(&self.fields) }
    }
}

impl LearnFilterObject {
    /// Name of the first field with the given id.
    pub fn get_data_field_name_by_id(&self, id: u32) -> (r: Result<String, RBFRTError>)
        ensures
            match r {
                Ok(n) => self@.field_by_id(id) matches Some(i) && n@ == self@.fields[i].name,
                Err(e) => self@.field_by_id(id) is None && (e matches RBFRTError::UnknownLearnFilterField {
                    field_id,
                } && field_id == id),
            },
    {
        let ghost p = |f: LearnFieldSchema| f.id == id;
        let n = self.fields.len();
        let mut i: usize = 0;
        while i < n
            invariant
                n == self.fields.len(),
                i <= n,
                p == |f: LearnFieldSchema| f.id == id,
                forall|j: int| 0 <= j < i ==> !p(#[trigger] self@.fields[j]),
            decreases n - i,
        {
            if self.fields[i].id == id {
                proof {
                    lemma_first_index_some(self@.fields, p, i as int);
                }
                return Ok(self.fields[i].name.clone());
            }
            i += 1;
        }
        proof {
            lemma_first_index_none(self@.fields, p);
        }
        Err(RBFRTError::UnknownLearnFilterField { field_id: id })
    }
}

} // verus!
