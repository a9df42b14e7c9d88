use vstd::prelude::*;
use crate::bfrt::types::BFRTFieldType;
use crate::error::RBFRTError;
use crate::seq_ext::{clone_items, first_index, lemma_first_index_none, lemma_first_index_some};
use crate::text::str_eq;

verus! {

/// Where an action may be installed.
#[derive(Debug, Clone, Copy, PartialEq, Eq, Structural)]
pub enum ActionScope {
    TableAndDefault,
    DefaultOnly,
}

/// A parameter of an action, as the schema declares it.
#[derive(Debug)]
pub struct ActionData {
    id: u32,
    name: String,
    repeated: Option<bool>,
    mandatory: Option<bool>,
    read_only: Option<bool>,
    field_type: Option<BFRTFieldType>,
}

/// What the lookups read of an action parameter.
pub struct ParamSchema {
    pub id: u32,
    pub name: Seq<char>,
    pub field_type: Option<BFRTFieldType>,
}

/// Id of a parameter for which the schema gives none.
pub fn default_id() -> (r: u32)
    ensures
        r == 0,
{
    0
}

/// Name of a parameter for which the schema gives none.
pub fn default_name() -> (r: String)
    ensures
        r@ == "Unknown name"@,
{
    "Unknown name".to_owned()
}

impl View for ActionData {
    type V = ParamSchema;

    closed spec fn view(&self) -> ParamSchema {
        ParamSchema { id: self.id, name: self.name@, field_type: self.field_type }
    }
}

impl Clone for ActionData {
    fn clone(&self) -> (r: ActionData)
        ensures
            r@ == self@,
    {
        ActionData {
            id: self.id,
            name: self.name.clone(),
            repeated: self.repeated,
            mandatory: self.mandatory,
            read_only: self.read_only,
            field_type: self.field_type,
        }
    }
}

impl ActionData {
    pub fn new(
        id: u32,
        name: String,
        repeated: Option<bool>,
        mandatory: Option<bool>,
        read_only: Option<bool>,
        field_type: Option<BFRTFieldType>,
    ) -> (r: ActionData)
        ensures
            r@ == (ParamSchema { id, name: name@, field_type: field_type }),
    {
        ActionData { id, name, repeated, mandatory, read_only, field_type }
    }

    pub fn id(&self) -> (r: u32)
        ensures
            r == self@.id,
    {
        self.id
    }

    pub fn name(&self) -> (r: &str)
        ensures
            r@ == self@.name,
    {
        self.name.as_str()
    }

    pub fn get_type(&self) -> (r: &Option<BFRTFieldType>)
        ensures
            *r == self@.field_type,
    {
        &self.field_type
    }
}

/// An action of a table with its parameters.
#[derive(Debug)]
pub struct BFRTAction {
    id: u32,
    name: String,
    action_scope: Option<ActionScope>,
    data: Option<Vec<ActionData>>,
}

/// What the lookups read of an action. A missing parameter list reads as empty.
pub struct ActionSchema {
    pub id: u32,
    pub name: Seq<char>,
    pub params: Seq<ParamSchema>,
}

pub open spec fn params_view(data: Option<Vec<ActionData>>) -> Seq<ParamSchema> {
    match data {
        Some(v) => v@.map_values(|d: ActionData| d@),
        None => Seq::empty(),
    }
}

impl View for BFRTAction {
    type V = ActionSchema;

    closed spec fn view(&self) -> ActionSchema {
        ActionSchema { id: self.id, name: self.name@, params: params_view(self.data) }
    }
}

impl ActionSchema {
    /// Position of the first parameter with the given id.
    pub open spec fn param_by_id(self, id: u32) -> Option<int> {
        first_index(self.params, |p: ParamSchema| p.id == id)
    }

    /// Position of the first parameter with the given name.
    pub open spec fn param_by_name(self, name: Seq<char>) -> Option<int> {
        first_index(self.params, |p: ParamSchema| p.name == name)
    }
}

impl Clone for BFRTAction {
    fn clone(&self) -> (r: BFRTAction)
        ensures
            r@ == self@,
    {
        BFRTAction {
            id: self.id,
            name: self.name.clone(),
            action_scope: self.action_scope,
            data: match &self.data {
                Some(v) => Some(clone_items(v)),
                None => None,
            },
        }
    }
}

impl BFRTAction {
    pub fn new(
        id: u32,
        name: String,
        action_scope: Option<ActionScope>,
        data: Option<Vec<ActionData>>,
    ) -> (r: BFRTAction)
        ensures
            r@ == (ActionSchema { id, name: name@, params: params_view(data) }),
    {
        BFRTAction { id, name, action_scope, data }
    }

    pub fn id(&self) -> (r: u32)
        ensures
            r == self@.id,
    {
        self.id
    }

    pub fn name(&self) -> (r: &str)
        ensures
            r@ == self@.name,
    {
        self.name.as_str()
    }

    /// The first parameter with the given id.
    pub fn get_action_data_by_id(&self, id: u32) -> (r: Result<&ActionData, RBFRTError>)
        ensures
            match r {
                Ok(d) => self@.param_by_id(id) matches Some(i) && d@ == self@.params[i],
                Err(e) => self@.param_by_id(id) is None && (e matches RBFRTError::UnknownActionDataId {
                    id: eid,
                    action_name,
                } && eid == id && action_name@ == self@.name),
            },
    {
        let ghost p = |p: ParamSchema| p.id == id;
        if let Some(data) = &self.data {
            let n = data.len();
            let mut i: usize = 0;
            while i < n
                invariant
                    n == data.len(),
                    i <= n,
                    self@.params == data@.map_values(|d: ActionData| d@),
                    p == |p: ParamSchema| p.id == id,
                    forall|j: int| 0 <= j < i ==> !p(#[trigger] self@.params[j]),
                decreases n - i,
            {
                if data[i].id == id {
                    proof {
                        lemma_first_index_some(self@.params, p, i as int);
                    }
                    return Ok(&data[i]);
                }
                i += 1;
            }
        }
        proof {
            lemma_first_index_none(self@.params, p);
        }
        Err(RBFRTError::UnknownActionDataId { id, action_name: self.name.clone() })
    }

    /// The first parameter with the given name.
    pub fn get_action_data_by_name(&self, name: &str) -> (r: Result<&ActionData, RBFRTError>)
        ensures
            match r {
                Ok(d) => self@.param_by_name(name@) matches Some(i) && d@ == self@.params[i],
                Err(e) => self@.param_by_name(name@) is None && (e matches RBFRTError::UnknownActionDataName {
                    name: n,
                    action_name,
                } && n@ == name@ && action_name@ == self@.name),
            },
    {
        let ghost p = |p: ParamSchema| p.name == name@;
        if let Some(data) = &self.data {
            let n = data.len();
            let mut i: usize = 0;
            while i < n
                invariant
                    n == data.len(),
                    i <= n,
                    self@.params == data@.map_values(|d: ActionData| d@),
                    p == |p: ParamSchema| p.name == name@,
                    forall|j: int| 0 <= j < i ==> !p(#[trigger] self@.params[j]),
                decreases n - i,
            {
                if str_eq(data[i].name.as_str(), name) {
                    proof {
                        lemma_first_index_some(self@.params, p, i as int);
                    }
                    return Ok(&data[i]);
                }
                i += 1;
            }
        }
        proof {
            lemma_first_index_none(self@.params, p);
        }
        Err(RBFRTError::UnknownActionDataName { name: name.to_owned(), action_name: self.name.clone() })
    }

    /// The declared type of the first parameter with the given name. A
    /// parameter without a declared type has no encoding rule.
    pub fn get_action_data_type(&self, name: &str) -> (r: Result<&BFRTFieldType, RBFRTError>)
        ensures
            match r {
                Ok(t) => self@.param_by_name(name@) matches Some(i) && self@.params[i].field_type == Some(*t),
                Err(e) => match self@.param_by_name(name@) {
                    Some(i) => self@.params[i].field_type is None && (e matches RBFRTError::UnsupportedType {
                        name: n,
                    } && n@ == name@),
                    None => e matches RBFRTError::UnknownActionDataName { name: n, action_name } && n@
                        == name@ && action_name@ == self@.name,
                },
            },
    {
        let action_data = self.get_action_data_by_name(name)?;
        match &action_data.field_type {
            Some(t) => Ok(t),
            None => Err(RBFRTError::UnsupportedType { name: name.to_owned() }),
        }
    }
}

} // verus!
