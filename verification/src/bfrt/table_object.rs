use vstd::prelude::*;
use vstd::utf8::{decode_utf8, valid_utf8};
use crate::bfrt::action::{ActionSchema, BFRTAction};
use crate::bfrt::data::{BFRTData, BFRTSingleton, FieldSchema};
use crate::bfrt::table_key_object::{BFRTTableKeyObject, KeySchema};
use crate::bfrt::types::{BFRTFieldType, FieldKind, TableType};
use crate::codec::{canon_result, canonicalize};
use crate::error::{result_view, ErrorSpec, RBFRTError};
use crate::protos::bfrt_proto::{
    DataField, DataFieldView, DataValue, DataValueView, Entity, EntityView, KeyField, KeyFieldView, MatchType,
    MatchTypeView, TableData, TableDataView, TableEntryView, TableKey, TableOperationView, TableValue,
    TableValueView, TargetDevice, Update, UpdateType, UpdateView,
};
use crate::protos::encode::{
    bool_message, encode_bool, encode_float_bits, encode_string, encoded_string, float_message,
};
use crate::seq_ext::{
    clone_items, first_index, lemma_first_index_none, lemma_first_index_some, lemma_try_map_prefix_err, lemma_try_map_step,
    try_map,
};
use crate::str_map::StrMap;
use crate::table::action_data::{ActionData, ActionDataRepeated, NamedByteList, NamedBytes};
use crate::table::match_value::{MatchSpec, MatchValue};
use crate::table::table_entry::{
    match_keys_view, named_matches, NamedMatch, Request, RequestType, RequestView, TableEntry,
    TableEntryView as EntryView,
};
use crate::table::to_bytes::{
    any_set, be_decode, be_value, copy_bytes, lemma_be_value_bound, lemma_be_value_canonical, lemma_pow256_values,
    to_bool, to_text, words_to_bytes, ToBytes,
};
use crate::text::str_eq;

verus! {

/// A table of the switch: its keys, its actions and its singletons.
#[derive(Debug)]
pub struct BFRTTableObject {
    name: String,
    id: u32,
    table_type: TableType,
    size: u32,
    has_const_default_action: Option<bool>,
    key: Vec<BFRTTableKeyObject>,
    action_specs: Option<Vec<BFRTAction>>,
    data: Option<Vec<BFRTData>>,
}

/// What the lookups and the codec read of a table. A missing list of
/// actions or of singletons reads as empty.
pub struct TableSchema {
    pub id: u32,
    pub name: Seq<char>,
    pub kind: TableType,
    pub keys: Seq<KeySchema>,
    pub actions: Seq<ActionSchema>,
    pub singletons: Seq<FieldSchema>,
}

pub open spec fn keys_view(key: Vec<BFRTTableKeyObject>) -> Seq<KeySchema> {
    key@.map_values(|k: BFRTTableKeyObject| k@)
}

pub open spec fn actions_view(action_specs: Option<Vec<BFRTAction>>) -> Seq<ActionSchema> {
    match action_specs {
        Some(v) => v@.map_values(|a: BFRTAction| a@),
        None => Seq::empty(),
    }
}

pub open spec fn singletons_view(data: Option<Vec<BFRTData>>) -> Seq<FieldSchema> {
    match data {
        Some(v) => v@.map_values(|d: BFRTData| d@),
        None => Seq::empty(),
    }
}

impl View for BFRTTableObject {
    type V = TableSchema;

    closed spec fn view(&self) -> TableSchema {
        TableSchema {
            id: self.id,
            name: self.name@,
            kind: self.table_type,
            keys: keys_view(self.key),
            actions: actions_view(self.action_specs),
            singletons: singletons_view(self.data),
        }
    }
}

impl TableSchema {
    /// Position of the first key with the given id.
    pub open spec fn key_by_id(self, id: u32) -> Option<int> {
        first_index(self.keys, |k: KeySchema| k.id == id)
    }

    /// Position of the first key with the given name.
    pub open spec fn key_by_name(self, name: Seq<char>) -> Option<int> {
        first_index(self.keys, |k: KeySchema| k.name == name)
    }

    /// Position of the first action with the given id.
    pub open spec fn action_by_id(self, id: u32) -> Option<int> {
        first_index(self.actions, |a: ActionSchema| a.id == id)
    }

    /// Position of the first action with the given name.
    pub open spec fn action_by_name(self, name: Seq<char>) -> Option<int> {
        first_index(self.actions, |a: ActionSchema| a.name == name)
    }

    /// Position of the first singleton with the given id.
    pub open spec fn singleton_by_id(self, id: u32) -> Option<int> {
        first_index(self.singletons, |s: FieldSchema| s.id == id)
    }

    /// Position of the first singleton with the given name.
    pub open spec fn singleton_by_name(self, name: Seq<char>) -> Option<int> {
        first_index(self.singletons, |s: FieldSchema| s.name == name)
    }

    /// The name under which a data field of an entry is reported. In a
    /// match-action table the id is first looked up among the parameters of
    /// the entry's action and then among the singletons; in every other
    /// table among the singletons alone.
    pub open spec fn action_param_name(self, action_id: u32, field_id: u32) -> Result<Seq<char>, ErrorSpec> {
        if self.kind is MatchActionDirect {
            match self.action_by_id(action_id) {
                None => Err(ErrorSpec::UnknownActionId { action_id }),
                Some(a) => match self.actions[a].param_by_id(field_id) {
                    Some(p) => Ok(self.actions[a].params[p].name),
                    None => match self.singleton_by_id(field_id) {
                        Some(s) => Ok(self.singletons[s].name),
                        None => Err(
                            ErrorSpec::UnknownActionDataId { id: field_id, action_name: self.actions[a].name },
                        ),
                    },
                },
            }
        } else {
            match self.singleton_by_id(field_id) {
                Some(s) => Ok(self.singletons[s].name),
                None => Err(ErrorSpec::UnknownSingletonId { id: field_id }),
            }
        }
    }
}

/// A field id that the action of a match-action table does not know as a
/// parameter, and that the table knows as a singleton, resolves to the
/// singleton's name.
pub proof fn lemma_param_name_falls_back(t: TableSchema, action_id: u32, field_id: u32)
    requires
        t.kind is MatchActionDirect,
        t.action_by_id(action_id) is Some,
        t.actions[t.action_by_id(action_id)->Some_0].param_by_id(field_id) is None,
        t.singleton_by_id(field_id) is Some,
    ensures
        t.action_param_name(action_id, field_id) == Ok::<Seq<char>, ErrorSpec>(
            t.singletons[t.singleton_by_id(field_id)->Some_0].name,
        ),
{
}

impl Clone for BFRTTableObject {
    fn clone(&self) -> (r: BFRTTableObject)
        ensures
            r@ == self@,
    {
        BFRTTableObject {
            name: self.name.clone(),
            id: self.id,
            table_type: self.table_type,
            size: self.size,
            has_const_default_action: self.has_const_default_action,
            key: clone_items(&self.key),
            action_specs: match &self.action_specs {
                Some(v) => Some(clone_items(v)),
                None => None,
            },
            data: match &self.data {
                Some(v) => Some(clone_items(v)),
                None => None,
            },
        }
    }
}

impl BFRTTableObject {
    pub fn new(
        name: String,
        id: u32,
        table_type: TableType,
        size: u32,
        has_const_default_action: Option<bool>,
        key: Vec<BFRTTableKeyObject>,
        action_specs: Option<Vec<BFRTAction>>,
        data: Option<Vec<BFRTData>>,
    ) -> (r: BFRTTableObject)
        ensures
            r@ == (TableSchema {
                id,
                name: name@,
                kind: table_type,
                keys: keys_view(key),
                actions: actions_view(action_specs),
                singletons: singletons_view(data),
            }),
    {
        BFRTTableObject { name, id, table_type, size, has_const_default_action, key, action_specs, data }
    }

    pub fn name(&self) -> (r: &str)
        ensures
            r@ == self@.name,
    {
        self.name.as_str()
    }

    pub fn id(&self) -> (r: u32)
        ensures
            r == self@.id,
    {
        self.id
    }

    pub fn get_table_type(&self) -> (r: &TableType)
        ensures
            *r == self@.kind,
    {
        &self.table_type
    }

    /// The first action with the given id.
    pub fn get_action_by_id(&self, action_id: u32) -> (r: Result<&BFRTAction, RBFRTError>)
        ensures
            match r {
                Ok(a) => self@.action_by_id(action_id) matches Some(i) && a@ == self@.actions[i],
                Err(e) => self@.action_by_id(action_id) is None && e@ == (ErrorSpec::UnknownActionId {
                    action_id,
                }),
            },
    {
        let ghost p = |a: ActionSchema| a.id == action_id;
        if let Some(actions) = &self.action_specs {
            let n = actions.len();
            let mut i: usize = 0;
            while i < n
                invariant
                    n == actions.len(),
                    i <= n,
                    self@.actions == actions@.map_values(|a: BFRTAction| a@),
                    p == |a: ActionSchema| a.id == action_id,
                    forall|j: int| 0 <= j < i ==> !p(#[trigger] self@.actions[j]),
                decreases n - i,
            {
                if actions[i].id() == action_id {
                    proof {
                        lemma_first_index_some(self@.actions, p, i as int);
                    }
                    return Ok(&actions[i]);
                }
                i += 1;
            }
        }
        proof {
            lemma_first_index_none(self@.actions, p);
        }
        Err(RBFRTError::UnknownActionId { action_id })
    }

    /// The first action with the given name.
    pub fn get_action_by_name(&self, name: &str) -> (r: Result<&BFRTAction, RBFRTError>)
        ensures
            match r {
                Ok(a) => self@.action_by_name(name@) matches Some(i) && a@ == self@.actions[i],
                Err(e) => self@.action_by_name(name@) is None && e@ == (ErrorSpec::UnknownActionName {
                    name: name@,
                }),
            },
    {
        let ghost p = |a: ActionSchema| a.name == name@;
        if let Some(actions) = &self.action_specs {
            let n = actions.len();
            let mut i: usize = 0;
            while i < n
                invariant
                    n == actions.len(),
                    i <= n,
                    self@.actions == actions@.map_values(|a: BFRTAction| a@),
                    p == |a: ActionSchema| a.name == name@,
                    forall|j: int| 0 <= j < i ==> !p(#[trigger] self@.actions[j]),
                decreases n - i,
            {
                if str_eq(actions[i].name(), name) {
                    proof {
                        lemma_first_index_some(self@.actions, p, i as int);
                    }
                    return Ok(&actions[i]);
                }
                i += 1;
            }
        }
        proof {
            lemma_first_index_none(self@.actions, p);
        }
        Err(RBFRTError::UnknownActionName { name: name.to_owned() })
    }

    /// The first singleton with the given name.
    pub fn get_singleton_by_name(&self, name: &str) -> (r: Result<&BFRTSingleton, RBFRTError>)
        ensures
            match r {
                Ok(s) => self@.singleton_by_name(name@) matches Some(i) && s@ == self@.singletons[i],
                Err(e) => self@.singleton_by_name(name@) is None && e@ == (ErrorSpec::UnknownSingletonName {
                    name: name@,
                }),
            },
    {
        let ghost p = |s: FieldSchema| s.name == name@;
        if let Some(data) = &self.data {
            let n = data.len();
            let mut i: usize = 0;
            while i < n
                invariant
                    n == data.len(),
                    i <= n,
                    self@.singletons == data@.map_values(|d: BFRTData| d@),
                    p == |s: FieldSchema| s.name == name@,
                    forall|j: int| 0 <= j < i ==> !p(#[trigger] self@.singletons[j]),
                decreases n - i,
            {
                if str_eq(data[i].singleton().name(), name) {
                    proof {
                        lemma_first_index_some(self@.singletons, p, i as int);
                    }
                    return Ok(data[i].singleton());
                }
                i += 1;
            }
        }
        proof {
            lemma_first_index_none(self@.singletons, p);
        }
        Err(RBFRTError::UnknownSingletonName { name: name.to_owned() })
    }

    /// The first singleton with the given id.
    pub fn get_singleton_by_id(&self, id: u32) -> (r: Result<&BFRTSingleton, RBFRTError>)
        ensures
            match r {
                Ok(s) => self@.singleton_by_id(id) matches Some(i) && s@ == self@.singletons[i],
                Err(e) => self@.singleton_by_id(id) is None && e@ == (ErrorSpec::UnknownSingletonId { id }),
            },
    {
        let ghost p = |s: FieldSchema| s.id == id;
        if let Some(data) = &self.data {
            let n = data.len();
            let mut i: usize = 0;
            while i < n
                invariant
                    n == data.len(),
                    i <= n,
                    self@.singletons == data@.map_values(|d: BFRTData| d@),
                    p == |s: FieldSchema| s.id == id,
                    forall|j: int| 0 <= j < i ==> !p(#[trigger] self@.singletons[j]),
                decreases n - i,
            {
                if data[i].singleton().id() == id {
                    proof {
                        lemma_first_index_some(self@.singletons, p, i as int);
                    }
                    return Ok(data[i].singleton());
                }
                i += 1;
            }
        }
        proof {
            lemma_first_index_none(self@.singletons, p);
        }
        Err(RBFRTError::UnknownSingletonId { id })
    }

    /// The name under which the data field `param_field_id` of an entry
    /// with the action `action_id` is reported.
    pub fn get_action_param_name(&self, action_id: u32, param_field_id: u32) -> (r: Result<&str, RBFRTError>)
        ensures
            result_view(r) == self@.action_param_name(action_id, param_field_id),
    {
        match self.table_type {
            TableType::MatchActionDirect => {
                let action = self.get_action_by_id(action_id)?;
                match action.get_action_data_by_id(param_field_id) {
                    Ok(data) => Ok(data.name()),
                    Err(e) => match self.get_singleton_by_id(param_field_id) {
                        Ok(s) => Ok(s.name()),
                        Err(_) => Err(e),
                    },
                }
            },
            _ => {
                let singleton = self.get_singleton_by_id(param_field_id)?;
                Ok(singleton.name())
            },
        }
    }

    /// The first key with the given id.
    pub fn get_key_by_id(&self, key_id: u32) -> (r: Result<&BFRTTableKeyObject, RBFRTError>)
        ensures
            match r {
                Ok(k) => self@.key_by_id(key_id) matches Some(i) && k@ == self@.keys[i],
                Err(e) => self@.key_by_id(key_id) is None && e@ == (ErrorSpec::UnknownKeyId {
                    id: key_id,
                    table_name: self@.name,
                }),
            },
    {
        let ghost p = |k: KeySchema| k.id == key_id;
        let n = self.key.len();
        let mut i: usize = 0;
        while i < n
            invariant
                n == self.key.len(),
                i <= n,
                p == |k: KeySchema| k.id == key_id,
                forall|j: int| 0 <= j < i ==> !p(#[trigger] self@.keys[j]),
            decreases n - i,
        {
            if self.key[i].id() == key_id {
                proof {
                    lemma_first_index_some(self@.keys, p, i as int);
                }
                return Ok(&self.key[i]);
            }
            i += 1;
        }
        proof {
            lemma_first_index_none(self@.keys, p);
        }
        Err(RBFRTError::UnknownKeyId { id: key_id, table_name: self.name.clone() })
    }

    /// The first key with the given name.
    pub fn get_key_by_name(&self, name: &str) -> (r: Result<&BFRTTableKeyObject, RBFRTError>)
        ensures
            match r {
                Ok(k) => self@.key_by_name(name@) matches Some(i) && k@ == self@.keys[i],
                Err(e) => self@.key_by_name(name@) is None && e@ == (ErrorSpec::UnknownKeyName {
                    name: name@,
                    table_name: self@.name,
                }),
            },
    {
        let ghost p = |k: KeySchema| k.name == name@;
        let n = self.key.len();
        let mut i: usize = 0;
        while i < n
            invariant
                n == self.key.len(),
                i <= n,
                p == |k: KeySchema| k.name == name@,
                forall|j: int| 0 <= j < i ==> !p(#[trigger] self@.keys[j]),
            decreases n - i,
        {
            if str_eq(self.key[i].name(), name) {
                proof {
                    lemma_first_index_some(self@.keys, p, i as int);
                }
                return Ok(&self.key[i]);
            }
            i += 1;
        }
        proof {
            lemma_first_index_none(self@.keys, p);
        }
        Err(RBFRTError::UnknownKeyName { name: name.to_owned(), table_name: self.name.clone() })
    }
}

/// The wire field for the key `key` with the match value `m`: each byte
/// payload in canonical form for the key's width, under the variant of `m`.
pub open spec fn encode_match(key: KeySchema, m: MatchSpec) -> Result<KeyFieldView, ErrorSpec> {
    let w = key.field_type.spec_width();
    match m {
        MatchSpec::Exact { bytes } => match canon_result(bytes, key.name, w) {
            Err(e) => Err(e),
            Ok(value) => Ok(KeyFieldView { field_id: key.id, match_type: MatchTypeView::Exact { value } }),
        },
        MatchSpec::Range { low, high } => match canon_result(low, key.name, w) {
            Err(e) => Err(e),
            Ok(l) => match canon_result(high, key.name, w) {
                Err(e) => Err(e),
                Ok(h) => Ok(KeyFieldView { field_id: key.id, match_type: MatchTypeView::Range { low: l, high: h } }),
            },
        },
        MatchSpec::Lpm { bytes, prefix_len } => match canon_result(bytes, key.name, w) {
            Err(e) => Err(e),
            Ok(value) => Ok(
                KeyFieldView { field_id: key.id, match_type: MatchTypeView::Lpm { value, prefix_len } },
            ),
        },
        MatchSpec::Ternary { value, mask } => match canon_result(value, key.name, w) {
            Err(e) => Err(e),
            Ok(v) => match canon_result(mask, key.name, w) {
                Err(e) => Err(e),
                Ok(m) => Ok(
                    KeyFieldView { field_id: key.id, match_type: MatchTypeView::Ternary { value: v, mask: m } },
                ),
            },
        },
    }
}

/// The declared type and the id of a data field.
pub struct ResolvedField {
    pub field_type: BFRTFieldType,
    pub id: u32,
}

/// The text of the error for bytes that are no UTF-8.
pub open spec fn utf8_error_text() -> Seq<char> {
    "invalid utf-8 sequence"@
}

/// The wire field for one value of a data field of the given type: a text
/// for a string, a flag for a bool, else the bytes in canonical form.
pub open spec fn encode_scalar(field: ResolvedField, d: NamedBytes) -> Result<DataFieldView, ErrorSpec> {
    match field.field_type.kind() {
        FieldKind::Text => if valid_utf8(d.data) {
            Ok(DataFieldView { field_id: field.id, value: DataValueView::StrVal(decode_utf8(d.data)) })
        } else {
            Err(ErrorSpec::ByteConversionError { target: "String"@, orig_e: utf8_error_text() })
        },
        FieldKind::Bool => Ok(DataFieldView { field_id: field.id, value: DataValueView::BoolVal(any_set(d.data)) }),
        _ => match canon_result(d.data, d.key, field.field_type.spec_width()) {
            Err(e) => Err(e),
            Ok(bytes) => Ok(DataFieldView { field_id: field.id, value: DataValueView::Stream(bytes) }),
        },
    }
}

/// One item of an integer list: the number that the bytes spell, which has
/// to fit into 32 bits.
pub open spec fn word_of(bytes: Seq<u8>, name: Seq<char>) -> Result<u32, ErrorSpec> {
    match canon_result(bytes, name, 32) {
        Err(e) => Err(e),
        Ok(_) => Ok(be_value(bytes) as u32),
    }
}

pub open spec fn word_decoder(name: Seq<char>) -> spec_fn(Seq<u8>) -> Result<u32, ErrorSpec> {
    |bytes: Seq<u8>| word_of(bytes, name)
}

/// The wire field for a list of values of a data field of the given type:
/// a list of flags for bools, a list of integers for the integers of up to
/// 32 bits, the first item as it is for bytes. Other types have no list form.
pub open spec fn encode_repeated(field: ResolvedField, d: NamedByteList) -> Result<DataFieldView, ErrorSpec> {
    match field.field_type.kind() {
        FieldKind::Bool => Ok(
            DataFieldView {
                field_id: field.id,
                value: DataValueView::BoolArrVal(d.data.map_values(|b: Seq<u8>| any_set(b))),
            },
        ),
        FieldKind::Uint32 | FieldKind::Uint16 | FieldKind::Uint8 => match try_map(d.data, word_decoder(d.key)) {
            Err(e) => Err(e),
            Ok(words) => Ok(DataFieldView { field_id: field.id, value: DataValueView::IntArrVal(words) }),
        },
        FieldKind::Bytes => if d.data.len() > 0 {
            Ok(DataFieldView { field_id: field.id, value: DataValueView::Stream(d.data[0]) })
        } else {
            Err(ErrorSpec::UnsupportedType { name: d.key })
        },
        _ => Err(ErrorSpec::UnsupportedType { name: d.key }),
    }
}

/// The target of an entry: the call's target on the request's pipe, if the
/// request names one.
pub open spec fn entry_target(pipe: Option<u32>, target: TargetDevice) -> Option<TargetDevice> {
    match pipe {
        Some(p) => Some(TargetDevice { pipe_id: p, ..target }),
        None => None,
    }
}

pub open spec fn key_fields_view(fields: Seq<KeyField>) -> Seq<KeyFieldView> {
    fields.map_values(|f: KeyField| f@)
}

pub open spec fn data_fields_view(fields: Seq<DataField>) -> Seq<DataFieldView> {
    fields.map_values(|f: DataField| f@)
}

pub open spec fn table_value_view(v: Option<TableValue>) -> Option<TableValueView> {
    match v {
        Some(t) => Some(t@),
        None => None,
    }
}

impl TableSchema {
    /// The wire field for one match key of a request.
    pub open spec fn encode_key(self, k: NamedMatch) -> Result<KeyFieldView, ErrorSpec> {
        match self.key_by_name(k.name) {
            None => Err(ErrorSpec::UnknownKeyName { name: k.name, table_name: self.name }),
            Some(i) => encode_match(self.keys[i], k.value),
        }
    }

    pub open spec fn key_encoder(self) -> spec_fn(NamedMatch) -> Result<KeyFieldView, ErrorSpec> {
        |k: NamedMatch| self.encode_key(k)
    }

    /// The wire key for the match keys of a request: nothing where there
    /// are none, else one field for each in order.
    pub open spec fn key_data(self, keys: Seq<NamedMatch>) -> Result<Option<TableValueView>, ErrorSpec> {
        if keys.len() == 0 {
            Ok(None)
        } else {
            match try_map(keys, self.key_encoder()) {
                Err(e) => Err(e),
                Ok(fields) => Ok(Some(TableValueView::Key(fields))),
            }
        }
    }

    /// The type and id behind the name of a data field of a request. The
    /// name is a singleton's where the request names no action or a
    /// singleton has the name; else it is a parameter's of the named action.
    pub open spec fn resolve_field(self, action: Option<Seq<char>>, name: Seq<char>) -> Result<
        ResolvedField,
        ErrorSpec,
    > {
        let s = self.singleton_by_name(name);
        if action is None || s is Some {
            match s {
                None => Err(ErrorSpec::UnknownSingletonName { name }),
                Some(i) => match self.singletons[i].field_type {
                    None => Err(ErrorSpec::UnsupportedType { name }),
                    Some(field_type) => Ok(ResolvedField { field_type, id: self.singletons[i].id }),
                },
            }
        } else {
            match self.action_by_name(action->Some_0) {
                None => Err(ErrorSpec::UnknownActionName { name: action->Some_0 }),
                Some(a) => match self.actions[a].param_by_name(name) {
                    None => Err(
                        ErrorSpec::UnknownActionDataName { name, action_name: self.actions[a].name },
                    ),
                    Some(p) => match self.actions[a].params[p].field_type {
                        None => Err(ErrorSpec::UnsupportedType { name }),
                        Some(field_type) => Ok(ResolvedField { field_type, id: self.actions[a].params[p].id }),
                    },
                },
            }
        }
    }

    /// The wire field for one value of action data of a request.
    pub open spec fn scalar_field(self, action: Option<Seq<char>>, d: NamedBytes) -> Result<
        DataFieldView,
        ErrorSpec,
    > {
        match self.resolve_field(action, d.key) {
            Err(e) => Err(e),
            Ok(field) => encode_scalar(field, d),
        }
    }

    pub open spec fn scalar_encoder(self, action: Option<Seq<char>>) -> spec_fn(NamedBytes) -> Result<
        DataFieldView,
        ErrorSpec,
    > {
        |d: NamedBytes| self.scalar_field(action, d)
    }

    /// The wire field for one list of action data of a request.
    pub open spec fn repeated_field(self, action: Option<Seq<char>>, d: NamedByteList) -> Result<
        DataFieldView,
        ErrorSpec,
    > {
        match self.resolve_field(action, d.key) {
            Err(e) => Err(e),
            Ok(field) => encode_repeated(field, d),
        }
    }

    pub open spec fn repeated_encoder(self, action: Option<Seq<char>>) -> spec_fn(NamedByteList) -> Result<
        DataFieldView,
        ErrorSpec,
    > {
        |d: NamedByteList| self.repeated_field(action, d)
    }

    /// The id of the request's action; 0 stands for the default action
    /// where the request names none.
    pub open spec fn action_id(self, action: Option<Seq<char>>) -> Result<u32, ErrorSpec> {
        match action {
            None => Ok(0u32),
            Some(name) => match self.action_by_name(name) {
                Some(a) => Ok(self.actions[a].id),
                None => Err(ErrorSpec::UnknownActionName { name }),
            },
        }
    }

    /// The wire data of a request: the single values in order, then the
    /// lists in order, under the id of the action.
    pub open spec fn table_data(self, req: RequestView) -> Result<TableDataView, ErrorSpec> {
        match try_map(req.action_data, self.scalar_encoder(req.action)) {
            Err(e) => Err(e),
            Ok(single) => match try_map(req.action_data_repeated, self.repeated_encoder(req.action)) {
                Err(e) => Err(e),
                Ok(lists) => match self.action_id(req.action) {
                    Err(e) => Err(e),
                    Ok(action_id) => Ok(TableDataView { action_id, fields: single + lists }),
                },
            },
        }
    }

    /// The entity that reads the entries which match the request's keys.
    pub open spec fn read_entity(self, req: RequestView, target: TargetDevice) -> Result<EntityView, ErrorSpec> {
        match self.key_data(req.keys) {
            Err(e) => Err(e),
            Ok(value) => Ok(
                EntityView::TableEntry(
                    TableEntryView {
                        table_id: self.id,
                        data: None,
                        is_default_entry: false,
                        entry_tgt: entry_target(req.pipe, target),
                        value,
                    },
                ),
            ),
        }
    }

    /// The update that writes the request's entry: a modification for a
    /// request of the kind `Update`, an insertion for any other.
    pub open spec fn write_update(self, req: RequestView, target: TargetDevice) -> Result<UpdateView, ErrorSpec> {
        match self.table_data(req) {
            Err(e) => Err(e),
            Ok(data) => match self.key_data(req.keys) {
                Err(e) => Err(e),
                Ok(value) => Ok(
                    UpdateView {
                        update_type: if req.request_type is Update {
                            UpdateType::Modify
                        } else {
                            UpdateType::Insert
                        },
                        entity: EntityView::TableEntry(
                            TableEntryView {
                                table_id: self.id,
                                data: Some(data),
                                is_default_entry: req.is_default_entry,
                                entry_tgt: entry_target(req.pipe, target),
                                value,
                            },
                        ),
                    },
                ),
            },
        }
    }

    /// The update that runs the request's operation on the table.
    pub open spec fn operation_update(self, req: RequestView) -> UpdateView {
        UpdateView {
            update_type: UpdateType::Insert,
            entity: EntityView::TableOperation(
                TableOperationView { table_id: self.id, table_operations_type: req.operation.spec_string() },
            ),
        }
    }

    /// The update that deletes the entries which match the request's keys.
    pub open spec fn delete_update(self, req: RequestView, target: TargetDevice) -> Result<UpdateView, ErrorSpec> {
        match self.key_data(req.keys) {
            Err(e) => Err(e),
            Ok(value) => Ok(
                UpdateView {
                    update_type: UpdateType::Delete,
                    entity: EntityView::TableEntry(
                        TableEntryView {
                            table_id: self.id,
                            data: None,
                            is_default_entry: req.is_default_entry,
                            entry_tgt: entry_target(req.pipe, target),
                            value,
                        },
                    ),
                },
            ),
        }
    }
}

/// Encodes one match value for the key `key`.
pub fn encode_key_field(key: &BFRTTableKeyObject, value: &MatchValue) -> (r: Result<KeyField, RBFRTError>)
    ensures
        result_view(r) == encode_match(key@, value@),
{
    let key_name = key.name();
    let key_width = key.field_type().get_width();
    let match_type = match value {
        MatchValue::ExactValue { bytes } => MatchType::Exact {
            value: canonicalize(copy_bytes(bytes), key_name, key_width)?,
        },
        MatchValue::RangeValue { lower_bytes, higher_bytes } => {
            let low = canonicalize(copy_bytes(lower_bytes), key_name, key_width)?;
            let high = canonicalize(copy_bytes(higher_bytes), key_name, key_width)?;
            MatchType::Range { low, high }
        },
        MatchValue::LPM { bytes, prefix_length } => MatchType::Lpm {
            value: canonicalize(copy_bytes(bytes), key_name, key_width)?,
            prefix_len: *prefix_length,
        },
        MatchValue::Ternary { value, mask } => {
            let v = canonicalize(copy_bytes(value), key_name, key_width)?;
            let m = canonicalize(copy_bytes(mask), key_name, key_width)?;
            MatchType::Ternary { value: v, mask: m }
        },
    };
    Ok(KeyField { field_id: key.id(), match_type })
}

/// Encodes one value of a data field of the given type and id.
pub fn encode_scalar_field(field_type: &BFRTFieldType, id: u32, entry: &ActionData) -> (r: Result<
    DataField,
    RBFRTError,
>)
    ensures
        result_view(r) == encode_scalar(ResolvedField { field_type: *field_type, id }, entry@),
{
    let value = match field_type.get_kind() {
        FieldKind::Text => match to_text(entry.get_data()) {
            Some(s) => DataValue::StrVal(s),
            None => {
                return Err(
                    RBFRTError::ByteConversionError {
                        target: "String".to_owned(),
                        orig_e: "invalid utf-8 sequence".to_owned(),
                    },
                );
            },
        },
        FieldKind::Bool => DataValue::BoolVal(to_bool(entry.get_data())),
        _ => DataValue::Stream(
            canonicalize(copy_bytes(entry.get_data()), entry.get_key(), field_type.get_width())?,
        ),
    };
    Ok(DataField { field_id: id, value })
}

/// Encodes a list of values of a data field of the given type and id.
pub fn encode_repeated_field(field_type: &BFRTFieldType, id: u32, entry: &ActionDataRepeated) -> (r: Result<
    DataField,
    RBFRTError,
>)
    ensures
        result_view(r) == encode_repeated(ResolvedField { field_type: *field_type, id }, entry@),
{
    let data = entry.get_data();
    let n = data.len();
    let ghost items = entry@.data;
    assert(items.len() == n);
    match field_type.get_kind() {
        FieldKind::Bool => {
            let mut flags: Vec<bool> = Vec::new();
            let mut i: usize = 0;
            while i < n
                invariant
                    n == data.len(),
                    i <= n,
                    items == data@.map_values(|d: Vec<u8>| d@),
                    flags@.len() == i,
                    forall|j: int| 0 <= j < i ==> flags@[j] == any_set(#[trigger] items[j]),
                decreases n - i,
            {
                assert(items[i as int] == data@[i as int]@);
                flags.push(to_bool(&data[i]));
                i += 1;
            }
            assert(flags@ =~= items.map_values(|b: Seq<u8>| any_set(b)));
            Ok(DataField { field_id: id, value: DataValue::BoolArrVal(flags) })
        },
        FieldKind::Uint32 | FieldKind::Uint16 | FieldKind::Uint8 => {
            let ghost f = word_decoder(entry@.key);
            let mut words: Vec<u32> = Vec::new();
            let mut i: usize = 0;
            assert(items.take(0) =~= Seq::<Seq<u8>>::empty());
            while i < n
                invariant
                    n == data.len(),
                    i <= n,
                    items == data@.map_values(|d: Vec<u8>| d@),
                    f == word_decoder(entry@.key),
                    items == entry@.data,
                    field_type.kind() is Uint32 || field_type.kind() is Uint16 || field_type.kind() is Uint8,
                    try_map(items.take(i as int), f) == Ok::<Seq<u32>, ErrorSpec>(words@),
                decreases n - i,
            {
                proof {
                    lemma_try_map_step(items, f, i as int);
                    assert(items[i as int] == data@[i as int]@);
                    assert(f(items[i as int]) == word_of(items[i as int], entry@.key));
                }
                match canonicalize(copy_bytes(&data[i]), entry.get_key(), 32) {
                    Ok(word) => {
                        proof {
                            lemma_be_value_canonical(data@[i as int]@, 32);
                            lemma_be_value_bound(word@);
                            lemma_pow256_values();
                        }
                        words.push(be_decode(&word) as u32);
                    },
                    Err(e) => {
                        proof {
                            lemma_try_map_prefix_err(items, f, i as int + 1);
                        }
                        return Err(e);
                    },
                }
                i += 1;
            }
            assert(items.take(n as int) =~= items);
            Ok(DataField { field_id: id, value: DataValue::IntArrVal(words) })
        },
        FieldKind::Bytes => {
            if n > 0 {
                assert(items[0] == data@[0]@);
                Ok(DataField { field_id: id, value: DataValue::Stream(copy_bytes(&data[0])) })
            } else {
                Err(RBFRTError::UnsupportedType { name: entry.get_key().to_owned() })
            }
        },
        _ => Err(RBFRTError::UnsupportedType { name: entry.get_key().to_owned() }),
    }
}

impl BFRTTableObject {
    /// The wire key for the match keys of `request`.
    pub fn build_table_key_data(&self, request: &Request) -> (r: Result<Option<TableValue>, RBFRTError>)
        ensures
            match r {
                Ok(v) => self@.key_data(request@.keys) == Ok::<Option<TableValueView>, ErrorSpec>(
                    table_value_view(v),
                ),
                Err(e) => self@.key_data(request@.keys) == Err::<Option<TableValueView>, ErrorSpec>(e@),
            },
    {
        let m = request.get_match_keys();
        let n = m.len();
        if n == 0 {
            return Ok(None);
        }
        let ghost keys = request@.keys;
        let ghost f = self@.key_encoder();
        let mut key_fields: Vec<KeyField> = Vec::new();
        let mut i: usize = 0;
        proof {
            assert(keys.take(0) =~= Seq::<NamedMatch>::empty());
            assert(key_fields_view(key_fields@) =~= Seq::<KeyFieldView>::empty());
        }
        while i < n
            invariant
                n == m.spec_keys().len(),
                n == m.spec_values().len(),
                i <= n,
                keys == named_matches(*m),
                keys == request@.keys,
                n > 0,
                f == self@.key_encoder(),
                try_map(keys.take(i as int), f) == Ok::<Seq<KeyFieldView>, ErrorSpec>(
                    key_fields_view(key_fields@),
                ),
            decreases n - i,
        {
            proof {
                lemma_try_map_step(keys, f, i as int);
                assert(keys[i as int] == NamedMatch {
                    name: m.spec_keys()[i as int],
                    value: m.spec_values()[i as int]@,
                });
                assert(f(keys[i as int]) == self@.encode_key(keys[i as int]));
            }
            let key = match self.get_key_by_name(m.key_at(i)) {
                Ok(k) => k,
                Err(e) => {
                    proof {
                        lemma_try_map_prefix_err(keys, f, i as int + 1);
                    }
                    return Err(e);
                },
            };
            let field = match encode_key_field(key, m.value_at(i)) {
                Ok(field) => field,
                Err(e) => {
                    proof {
                        lemma_try_map_prefix_err(keys, f, i as int + 1);
                    }
                    return Err(e);
                },
            };
            let ghost before = key_fields@;
            key_fields.push(field);
            assert(key_fields_view(key_fields@) =~= key_fields_view(before).push(field@));
            i += 1;
        }
        assert(keys.take(n as int) =~= keys);
        Ok(Some(TableValue::Key(TableKey { fields: key_fields })))
    }

    /// The declared type and the id behind the name of a data field of `request`.
    pub fn resolve_data_field(&self, request: &Request, name: &str) -> (r: Result<(BFRTFieldType, u32), RBFRTError>)
        ensures
            match r {
                Ok(f) => self@.resolve_field(request@.action, name@) == Ok::<ResolvedField, ErrorSpec>(
                    ResolvedField { field_type: f.0, id: f.1 },
                ),
                Err(e) => self@.resolve_field(request@.action, name@) == Err::<ResolvedField, ErrorSpec>(e@),
            },
    {
        let singleton = self.get_singleton_by_name(name);
        if !request.has_action() || singleton.is_ok() {
            let s = singleton?;
            match s.get_type() {
                Some(t) => Ok((*t, s.id())),
                None => Err(RBFRTError::UnsupportedType { name: name.to_owned() }),
            }
        } else {
            let action = self.get_action_by_name(request.get_action_name())?;
            let action_data = action.get_action_data_by_name(name)?;
            match action_data.get_type() {
                Some(t) => Ok((*t, action_data.id())),
                None => Err(RBFRTError::UnsupportedType { name: name.to_owned() }),
            }
        }
    }

    /// The wire data for the action data of `request`.
    pub fn build_table_action_data(&self, request: &Request) -> (r: Result<TableData, RBFRTError>)
        ensures
            result_view(r) == self@.table_data(request@),
    {
        let mut fields: Vec<DataField> = Vec::new();
        let single = request.get_action_data();
        let n = single.len();
        let ghost items = request@.action_data;
        let ghost f = self@.scalar_encoder(request@.action);
        let mut i: usize = 0;
        proof {
            assert(items.take(0) =~= Seq::<NamedBytes>::empty());
            assert(data_fields_view(fields@) =~= Seq::<DataFieldView>::empty());
        }
        while i < n
            invariant
                n == single.len(),
                i <= n,
                items == single@.map_values(|a: ActionData| a@),
                items == request@.action_data,
                f == self@.scalar_encoder(request@.action),
                try_map(items.take(i as int), f) == Ok::<Seq<DataFieldView>, ErrorSpec>(
                    data_fields_view(fields@),
                ),
            decreases n - i,
        {
            proof {
                lemma_try_map_step(items, f, i as int);
                assert(items[i as int] == single@[i as int]@);
                assert(f(items[i as int]) == self@.scalar_field(request@.action, items[i as int]));
            }
            let entry = &single[i];
            let resolved = match self.resolve_data_field(request, entry.get_key()) {
                Ok(x) => x,
                Err(e) => {
                    proof {
                        lemma_try_map_prefix_err(items, f, i as int + 1);
                    }
                    return Err(e);
                },
            };
            let field = match encode_scalar_field(&resolved.0, resolved.1, entry) {
                Ok(x) => x,
                Err(e) => {
                    proof {
                        lemma_try_map_prefix_err(items, f, i as int + 1);
                    }
                    return Err(e);
                },
            };
            let ghost before = fields@;
            fields.push(field);
            assert(data_fields_view(fields@) =~= data_fields_view(before).push(field@));
            i += 1;
        }
        assert(items.take(n as int) =~= items);
        let ghost single_fields = data_fields_view(fields@);
        let lists = request.get_action_data_repeated();
        let m = lists.len();
        let ghost list_items = request@.action_data_repeated;
        let ghost g = self@.repeated_encoder(request@.action);
        let mut j: usize = 0;
        proof {
            assert(list_items.take(0) =~= Seq::<NamedByteList>::empty());
            assert(single_fields + Seq::<DataFieldView>::empty() =~= single_fields);
        }
        while j < m
            invariant
                m == lists.len(),
                j <= m,
                list_items == lists@.map_values(|a: ActionDataRepeated| a@),
                list_items == request@.action_data_repeated,
                g == self@.repeated_encoder(request@.action),
                try_map(request@.action_data, self@.scalar_encoder(request@.action)) == Ok::<
                    Seq<DataFieldView>,
                    ErrorSpec,
                >(single_fields),
                try_map(list_items.take(j as int), g) is Ok,
                data_fields_view(fields@) == single_fields + try_map(list_items.take(j as int), g)->Ok_0,
            decreases m - j,
        {
            proof {
                lemma_try_map_step(list_items, g, j as int);
                assert(list_items[j as int] == lists@[j as int]@);
                assert(g(list_items[j as int]) == self@.repeated_field(request@.action, list_items[j as int]));
            }
            let entry = &lists[j];
            let resolved = match self.resolve_data_field(request, entry.get_key()) {
                Ok(x) => x,
                Err(e) => {
                    proof {
                        lemma_try_map_prefix_err(list_items, g, j as int + 1);
                    }
                    return Err(e);
                },
            };
            let field = match encode_repeated_field(&resolved.0, resolved.1, entry) {
                Ok(x) => x,
                Err(e) => {
                    proof {
                        lemma_try_map_prefix_err(list_items, g, j as int + 1);
                    }
                    return Err(e);
                },
            };
            let ghost before = fields@;
            let ghost done = try_map(list_items.take(j as int), g)->Ok_0;
            fields.push(field);
            assert(data_fields_view(fields@) =~= single_fields + done.push(field@)) by {
                assert(data_fields_view(fields@) =~= data_fields_view(before).push(field@));
            }
            j += 1;
        }
        assert(list_items.take(m as int) =~= list_items);
        let id = if request.has_action() {
            self.get_action_by_name(request.get_action_name())?.id()
        } else {
            0
        };
        Ok(TableData { action_id: id, fields })
    }

    /// The entity that reads the entries of this table which match the keys
    /// of `request`; all entries where the request has no keys.
    pub fn build_read_request(&self, request: &Request, target: &TargetDevice) -> (r: Result<Entity, RBFRTError>)
        ensures
            result_view(r) == self@.read_entity(request@, *target),
    {
        let value = self.build_table_key_data(request)?;
        Ok(
            Entity::TableEntry(
                crate::protos::bfrt_proto::TableEntry {
                    table_id: self.id,
                    data: None,
                    is_default_entry: false,
                    entry_tgt: pipe_target(request.get_pipe(), target),
                    value,
                },
            ),
        )
    }

    /// The update that writes the entry of `request` into this table.
    pub fn build_write_request(&self, request: &Request, target: &TargetDevice) -> (r: Result<Update, RBFRTError>)
        ensures
            result_view(r) == self@.write_update(request@, *target),
    {
        let data = self.build_table_action_data(request)?;
        let value = self.build_table_key_data(request)?;
        let update_type = match request.get_type() {
            RequestType::Update => UpdateType::Modify,
            _ => UpdateType::Insert,
        };
        Ok(
            Update {
                update_type,
                entity: Entity::TableEntry(
                    crate::protos::bfrt_proto::TableEntry {
                        table_id: self.id,
                        data: Some(data),
                        is_default_entry: request.is_default(),
                        entry_tgt: pipe_target(request.get_pipe(), target),
                        value,
                    },
                ),
            },
        )
    }

    /// The update that runs the operation of `request` on this table.
    pub fn build_operation_request(&self, request: &Request) -> (r: Result<Update, RBFRTError>)
        ensures
            result_view(r) == Ok::<UpdateView, ErrorSpec>(self@.operation_update(request@)),
    {
        Ok(
            Update {
                update_type: UpdateType::Insert,
                entity: Entity::TableOperation(
                    crate::protos::bfrt_proto::TableOperation {
                        table_id: self.id,
                        table_operations_type: request.get_operation().get_string(),
                    },
                ),
            },
        )
    }

    /// The update that deletes the entries of this table which match the
    /// keys of `request`; all entries where the request has no keys.
    pub fn build_delete_request(&self, request: &Request, target: &TargetDevice) -> (r: Result<Update, RBFRTError>)
        ensures
            result_view(r) == self@.delete_update(request@, *target),
    {
        let value = self.build_table_key_data(request)?;
        Ok(
            Update {
                update_type: UpdateType::Delete,
                entity: Entity::TableEntry(
                    crate::protos::bfrt_proto::TableEntry {
                        table_id: self.id,
                        data: None,
                        is_default_entry: request.is_default(),
                        entry_tgt: pipe_target(request.get_pipe(), target),
                        value,
                    },
                ),
            },
        )
    }
}

/// The call's target moved to the given pipe, if one is given.
pub fn pipe_target(pipe: Option<u32>, target: &TargetDevice) -> (r: Option<TargetDevice>)
    ensures
        r == entry_target(pipe, *target),
{
    match pipe {
        Some(p) => Some(
            TargetDevice {
                device_id: target.device_id,
                pipe_id: p,
                direction: target.direction,
                prsr_id: target.prsr_id,
            },
        ),
        None => None,
    }
}

/// The match value that a wire key field stands for. An optional match,
/// which no table of this client has, reads as an exact match without bytes.
pub open spec fn decode_match(m: MatchTypeView) -> MatchSpec {
    match m {
        MatchTypeView::Exact { value } => MatchSpec::Exact { bytes: value },
        MatchTypeView::Range { low, high } => MatchSpec::Range { low, high },
        MatchTypeView::Lpm { value, prefix_len } => MatchSpec::Lpm { bytes: value, prefix_len },
        MatchTypeView::Ternary { value, mask } => MatchSpec::Ternary { value, mask },
        MatchTypeView::Optional { value, is_valid } => MatchSpec::Exact { bytes: Seq::<u8>::empty() },
    }
}

/// The bytes under which a wire payload is reported: a byte stream as it
/// is; a text, a bool and a float as the bytes of their message; a list of
/// integers as the big-endian bytes of each. Other payloads have no bytes.
pub open spec fn payload_bytes(v: DataValueView) -> Option<Seq<u8>> {
    match v {
        DataValueView::Stream(s) => Some(s),
        DataValueView::StrVal(s) => Some(encoded_string(s)),
        DataValueView::BoolVal(b) => Some(bool_message(b)),
        DataValueView::FloatVal(bits) => Some(float_message(bits)),
        DataValueView::IntArrVal(words) => Some(words_to_bytes(words)),
        _ => None,
    }
}

/// The map that holds each name with its value; of two values under one
/// name the later one.
pub open spec fn keys_to_map(keys: Seq<NamedMatch>) -> Map<Seq<char>, MatchSpec>
    decreases keys.len(),
{
    if keys.len() == 0 {
        Map::empty()
    } else {
        keys_to_map(keys.drop_last()).insert(keys.last().name, keys.last().value)
    }
}

/// The text that stands for the action of an entry of a table without actions.
pub open spec fn no_action() -> Seq<char> {
    "NoAction"@
}

impl TableSchema {
    /// The name and the value that a wire key field stands for.
    pub open spec fn decode_key(self, f: KeyFieldView) -> Result<NamedMatch, ErrorSpec> {
        match self.key_by_id(f.field_id) {
            None => Err(ErrorSpec::UnknownKeyId { id: f.field_id, table_name: self.name }),
            Some(k) => Ok(NamedMatch { name: self.keys[k].name, value: decode_match(f.match_type) }),
        }
    }

    pub open spec fn key_decoder(self) -> spec_fn(KeyFieldView) -> Result<NamedMatch, ErrorSpec> {
        |f: KeyFieldView| self.decode_key(f)
    }

    /// The match keys of a wire entry; none where the entry gives a handle
    /// or nothing in place of a key.
    pub open spec fn decode_keys(self, value: Option<TableValueView>) -> Result<
        Map<Seq<char>, MatchSpec>,
        ErrorSpec,
    > {
        match value {
            Some(TableValueView::Key(fields)) => match try_map(fields, self.key_decoder()) {
                Err(e) => Err(e),
                Ok(keys) => Ok(keys_to_map(keys)),
            },
            _ => Ok(Map::empty()),
        }
    }

    /// The action's name of an entry: in a match-action table the name of
    /// the action with the entry's action id, in any other a fixed marker.
    pub open spec fn entry_action(self, action_id: u32) -> Result<Seq<char>, ErrorSpec> {
        if self.kind is MatchActionDirect {
            match self.action_by_id(action_id) {
                Some(a) => Ok(self.actions[a].name),
                None => Err(ErrorSpec::UnknownActionId { action_id }),
            }
        } else {
            Ok(no_action())
        }
    }

    /// The name and the bytes of one data field of an entry.
    pub open spec fn decode_field(self, action_id: u32, f: DataFieldView) -> Result<NamedBytes, ErrorSpec> {
        match self.action_param_name(action_id, f.field_id) {
            Err(e) => Err(e),
            Ok(key) => match payload_bytes(f.value) {
                Some(data) => Ok(NamedBytes { key, data }),
                None => Err(ErrorSpec::UnsupportedType { name: key }),
            },
        }
    }

    pub open spec fn field_decoder(self, action_id: u32) -> spec_fn(DataFieldView) -> Result<
        NamedBytes,
        ErrorSpec,
    > {
        |f: DataFieldView| self.decode_field(action_id, f)
    }

    /// The entry that a wire entity of a read stands for, under the given
    /// table name.
    pub open spec fn parse_entity(self, e: EntityView, table_name: Seq<char>) -> Result<EntryView, ErrorSpec> {
        match e {
            EntityView::TableEntry(t) => match t.data {
                None => Err(ErrorSpec::MalformedReadResult),
                Some(data) => match self.decode_keys(t.value) {
                    Err(e) => Err(e),
                    Ok(match_keys) => match self.entry_action(data.action_id) {
                        Err(e) => Err(e),
                        Ok(action) => match try_map(data.fields, self.field_decoder(data.action_id)) {
                            Err(e) => Err(e),
                            Ok(action_data) => Ok(
                                EntryView {
                                    table_id: t.table_id,
                                    table_name,
                                    match_keys,
                                    default_entry: t.is_default_entry,
                                    action,
                                    action_data,
                                },
                            ),
                        },
                    },
                },
            },
            _ => Err(ErrorSpec::UnknownReadResult),
        }
    }
}

/// The match value that a wire key field stands for.
pub fn decode_match_type(m: &MatchType) -> (r: MatchValue)
    ensures
        r@ == decode_match(m@),
{
    match m {
        MatchType::Exact { value } => MatchValue::ExactValue { bytes: copy_bytes(value) },
        MatchType::Range { low, high } => MatchValue::RangeValue {
            lower_bytes: copy_bytes(low),
            higher_bytes: copy_bytes(high),
        },
        MatchType::Lpm { value, prefix_len } => MatchValue::LPM {
            bytes: copy_bytes(value),
            prefix_length: *prefix_len,
        },
        MatchType::Ternary { value, mask } => MatchValue::Ternary {
            value: copy_bytes(value),
            mask: copy_bytes(mask),
        },
        MatchType::Optional { value, is_valid } => MatchValue::ExactValue { bytes: Vec::new() },
    }
}

/// The bytes under which a wire payload is reported, if it has any.
pub fn decode_payload(v: &DataValue) -> (r: Option<Vec<u8>>)
    ensures
        match r {
            Some(bytes) => payload_bytes(v@) == Some(bytes@),
            None => payload_bytes(v@) is None,
        },
{
    match v {
        DataValue::Stream(s) => Some(copy_bytes(s)),
        DataValue::StrVal(s) => Some(encode_string(s)),
        DataValue::BoolVal(b) => Some(encode_bool(*b)),
        DataValue::FloatVal(bits) => Some(encode_float_bits(*bits)),
        DataValue::IntArrVal(words) => Some(words.to_bytes()),
        _ => None,
    }
}

impl BFRTTableObject {
    /// The match keys of a wire entry, in the schema's names.
    pub fn parse_match_keys(&self, value: &Option<TableValue>) -> (r: Result<StrMap<MatchValue>, RBFRTError>)
        ensures
            match r {
                Ok(m) => self@.decode_keys(table_value_view(*value)) == Ok::<Map<Seq<char>, MatchSpec>, ErrorSpec>(
                    match_keys_view(m),
                ),
                Err(e) => self@.decode_keys(table_value_view(*value)) == Err::<
                    Map<Seq<char>, MatchSpec>,
                    ErrorSpec,
                >(e@),
            },
    {
        let mut match_keys: StrMap<MatchValue> = StrMap::new();
        assert(match_keys_view(match_keys) =~= Map::<Seq<char>, MatchSpec>::empty());
        match value {
            Some(TableValue::Key(keys)) => {
                let n = keys.fields.len();
                let ghost fields = keys@;
                let ghost f = self@.key_decoder();
                let ghost mut done: Seq<NamedMatch> = Seq::empty();
                let mut i: usize = 0;
                assert(fields.take(0) =~= Seq::<KeyFieldView>::empty());
                while i < n
                    invariant
                        n == keys.fields.len(),
                        i <= n,
                        fields == keys@,
                        table_value_view(*value) == Some(TableValueView::Key(keys@)),
                        f == self@.key_decoder(),
                        try_map(fields.take(i as int), f) == Ok::<Seq<NamedMatch>, ErrorSpec>(done),
                        match_keys_view(match_keys) == keys_to_map(done),
                    decreases n - i,
                {
                    proof {
                        lemma_try_map_step(fields, f, i as int);
                        assert(fields[i as int] == keys.fields@[i as int]@);
                        assert(f(fields[i as int]) == self@.decode_key(fields[i as int]));
                    }
                    let k = &keys.fields[i];
                    let key = match self.get_key_by_id(k.field_id) {
                        Ok(key) => key,
                        Err(e) => {
                            proof {
                                lemma_try_map_prefix_err(fields, f, i as int + 1);
                            }
                            return Err(e);
                        },
                    };
                    let name = key.name().to_owned();
                    let value = decode_match_type(&k.match_type);
                    let ghost before = match_keys;
                    match_keys = match_keys.insert(name, value);
                    proof {
                        let entry = NamedMatch { name: name@, value: value@ };
                        assert(done.push(entry).drop_last() =~= done);
                        assert(match_keys_view(match_keys) =~= match_keys_view(before).insert(name@, value@));
                        done = done.push(entry);
                    }
                    i += 1;
                }
                assert(fields.take(n as int) =~= fields);
                Ok(match_keys)
            },
            _ => Ok(match_keys),
        }
    }

    /// The name and the bytes of one data field of an entry with the given action.
    pub fn parse_data_field(&self, action_id: u32, f: &DataField) -> (r: Result<ActionData, RBFRTError>)
        ensures
            result_view(r) == self@.decode_field(action_id, f@),
    {
        let key_name = self.get_action_param_name(action_id, f.field_id)?;
        match decode_payload(&f.value) {
            Some(bytes) => Ok(ActionData::new(key_name, bytes)),
            None => Err(RBFRTError::UnsupportedType { name: key_name.to_owned() }),
        }
    }

    /// Decodes an entity of a read into a table entry under `table_name`.
    pub fn parse_read_request(&self, entry: Entity, table_name: &str) -> (r: Result<TableEntry, RBFRTError>)
        ensures
            result_view(r) == self@.parse_entity(entry@, table_name@),
    {
        match &entry {
            Entity::TableEntry(t) => {
                let data = match &t.data {
                    Some(data) => data,
                    None => {
                        return Err(RBFRTError::MalformedReadResult {  });
                    },
                };
                let match_keys = self.parse_match_keys(&t.value)?;
                let action = match self.table_type {
                    TableType::MatchActionDirect => self.get_action_by_id(data.action_id)?.name().to_owned(),
                    _ => "NoAction".to_owned(),
                };
                let n = data.fields.len();
                let ghost fields = data@.fields;
                let ghost f = self@.field_decoder(data.action_id);
                let mut action_data: Vec<ActionData> = Vec::new();
                let mut i: usize = 0;
                proof {
                    assert(fields.take(0) =~= Seq::<DataFieldView>::empty());
                    assert(action_data@.map_values(|a: ActionData| a@) =~= Seq::<NamedBytes>::empty());
                }
                while i < n
                    invariant
                        n == data.fields.len(),
                        i <= n,
                        fields == data@.fields,
                        f == self@.field_decoder(data.action_id),
                        try_map(fields.take(i as int), f) == Ok::<Seq<NamedBytes>, ErrorSpec>(
                            action_data@.map_values(|a: ActionData| a@),
                        ),
                        entry@ == EntityView::TableEntry(t@),
                        t.data == Some(*data),
                        self@.decode_keys(table_value_view(t.value)) is Ok,
                        self@.entry_action(data.action_id) is Ok,
                    decreases n - i,
                {
                    proof {
                        lemma_try_map_step(fields, f, i as int);
                        assert(fields[i as int] == data.fields@[i as int]@);
                        assert(f(fields[i as int]) == self@.decode_field(data.action_id, fields[i as int]));
                    }
                    let field = match self.parse_data_field(data.action_id, &data.fields[i]) {
                        Ok(x) => x,
                        Err(e) => {
                            proof {
                                lemma_try_map_prefix_err(fields, f, i as int + 1);
                            }
                            return Err(e);
                        },
                    };
                    let ghost before = action_data@;
                    action_data.push(field);
                    assert(action_data@.map_values(|a: ActionData| a@) =~= before.map_values(
                        |a: ActionData| a@,
                    ).push(field@));
                    i += 1;
                }
                assert(fields.take(n as int) =~= fields);
                Ok(
                    TableEntry {
                        table_id: t.table_id,
                        table_name: table_name.to_owned(),
                        match_keys,
                        default_entry: t.is_default_entry,
                        action,
                        action_data,
                    },
                )
            },
            _ => Err(RBFRTError::UnknownReadResult {  }),
        }
    }
}

} // verus!
