use vstd::prelude::*;
use crate::error::RBFRTError;
use crate::str_map::StrMap;
use crate::table::action_data::{ActionData, ActionDataRepeated, NamedByteList, NamedBytes};
use crate::table::match_value::{MatchSpec, MatchValue};
use crate::table::to_bytes::ToBytes;
use crate::seq_ext::{clone_items, first_index, is_first, lemma_first_index_none, lemma_first_index_some};
use crate::text::str_eq;

verus! {

/// The match keys of a request or an entry, each name with the view of its value.
pub open spec fn match_keys_view(m: StrMap<MatchValue>) -> Map<Seq<char>, MatchSpec> {
    m@.map_values(|v: MatchValue| v@)
}

/// A table entry as the switch reported it, in the schema's names.
#[derive(Debug)]
pub struct TableEntry {
    pub table_id: u32,
    pub table_name: String,
    pub match_keys: StrMap<MatchValue>,
    pub default_entry: bool,
    pub action: String,
    pub action_data: Vec<ActionData>,
}

pub struct TableEntryView {
    pub table_id: u32,
    pub table_name: Seq<char>,
    pub match_keys: Map<Seq<char>, MatchSpec>,
    pub default_entry: bool,
    pub action: Seq<char>,
    pub action_data: Seq<NamedBytes>,
}

impl View for TableEntry {
    type V = TableEntryView;

    open spec fn view(&self) -> TableEntryView {
        TableEntryView {
            table_id: self.table_id,
            table_name: self.table_name@,
            match_keys: match_keys_view(self.match_keys),
            default_entry: self.default_entry,
            action: self.action@,
            action_data: self.action_data@.map_values(|a: ActionData| a@),
        }
    }
}

impl TableEntryView {
    /// Position of the first action data under the given name.
    pub open spec fn action_data_index(self, name: Seq<char>) -> Option<int> {
        first_index(self.action_data, |a: NamedBytes| a.key == name)
    }
}

impl TableEntry {
    /// The value of the match key with the given name.
    pub fn get_key(&self, name: &str) -> (r: Result<&MatchValue, RBFRTError>)
        ensures
            match r {
                Ok(v) => self@.match_keys.contains_key(name@) && v@ == self@.match_keys[name@],
                Err(e) => !self@.match_keys.contains_key(name@) && (e matches RBFRTError::UnknownKeyName {
                    name: n,
                    table_name,
                } && n@ == name@ && table_name@ == self@.table_name),
            },
    {
        match self.match_keys.get(name) {
            Some(v) => Ok(v),
            None => Err(
                RBFRTError::UnknownKeyName { name: name.to_owned(), table_name: self.table_name.clone() },
            ),
        }
    }

    /// Whether the entry has a match key with the given name.
    pub fn has_key(&self, name: &str) -> (r: bool)
        ensures
            r == self@.match_keys.contains_key(name@),
    {
        self.match_keys.contains_key(name)
    }

    /// The first action data under the given name.
    pub fn get_action_data(&self, name: &str) -> (r: Result<&ActionData, RBFRTError>)
        ensures
            match r {
                Ok(a) => self@.action_data_index(name@) matches Some(i) && a@ == self@.action_data[i],
                Err(e) => self@.action_data_index(name@) is None && (e matches RBFRTError::UnknownActionName {
                    name: n,
                } && n@ == name@),
            },
    {
        let ghost p = |a: NamedBytes| a.key == name@;
        let n = self.action_data.len();
        let mut i: usize = 0;
        while i < n
            invariant
                n == self.action_data.len(),
                i <= n,
                p == |a: NamedBytes| a.key == name@,
                forall|j: int| 0 <= j < i ==> !p(#[trigger] self@.action_data[j]),
            decreases n - i,
        {
            if str_eq(self.action_data[i].get_key(), name) {
                proof {
                    lemma_first_index_some(self@.action_data, p, i as int);
                }
                return Ok(&self.action_data[i]);
            }
            i += 1;
        }
        proof {
            lemma_first_index_none(self@.action_data, p);
        }
        Err(RBFRTError::UnknownActionName { name: name.to_owned() })
    }

    /// Whether the entry has action data under the given name.
    pub fn has_action_data(&self, name: &str) -> (r: bool)
        ensures
            r == self@.action_data_index(name@) is Some,
    {
        self.get_action_data(name).is_ok()
    }

    /// Name of the entry's action.
    pub fn get_action_name(&self) -> (r: &str)
        ensures
            r@ == self@.action,
    {
        self.action.as_str()
    }
}

/// What a request asks the switch to do.
#[derive(Debug, Clone, Copy, PartialEq, Eq, Structural)]
pub enum RequestType {
    Read,
    Write,
    Update,
    Operation,
    Delete,
}

/// The operations on a whole table.
#[derive(Debug, Clone, Copy, PartialEq, Eq, Structural)]
pub enum TableOperation {
    NoOperation,
    SyncCounters,
    SyncRegister,
}

impl TableOperation {
    /// The name of the operation on the wire.
    pub open spec fn spec_string(self) -> Seq<char> {
        match self {
            TableOperation::NoOperation => ""@,
            TableOperation::SyncCounters => "SyncCounters"@,
            TableOperation::SyncRegister => "SyncRegisters"@,
        }
    }

    pub fn get_string(&self) -> (r: String)
        ensures
            r@ == self.spec_string(),
    {
        match self {
            TableOperation::NoOperation => "".to_owned(),
            TableOperation::SyncCounters => "SyncCounters".to_owned(),
            TableOperation::SyncRegister => "SyncRegisters".to_owned(),
        }
    }
}

/// A symbolic request on one table. It is built up call by call and handed
/// to the session, which sets its kind.
#[derive(Debug)]
pub struct Request {
    pub table_name: String,
    match_keys: StrMap<MatchValue>,
    action: Option<String>,
    action_data: Vec<ActionData>,
    action_data_repeated: Vec<ActionDataRepeated>,
    request_type: RequestType,
    operation: TableOperation,
    is_default_entry: bool,
    pipe: Option<u32>,
}

/// A match key of a request: its name and its value.
pub struct NamedMatch {
    pub name: Seq<char>,
    pub value: MatchSpec,
}

pub struct RequestView {
    pub table_name: Seq<char>,
    /// The match keys in the order in which their names came in.
    pub keys: Seq<NamedMatch>,
    pub action: Option<Seq<char>>,
    pub action_data: Seq<NamedBytes>,
    pub action_data_repeated: Seq<NamedByteList>,
    pub request_type: RequestType,
    pub operation: TableOperation,
    pub is_default_entry: bool,
    pub pipe: Option<u32>,
}

/// The entries of a map of match keys, in order.
pub open spec fn named_matches(m: StrMap<MatchValue>) -> Seq<NamedMatch> {
    Seq::new(m.spec_keys().len(), |i: int| NamedMatch { name: m.spec_keys()[i], value: m.spec_values()[i]@ })
}

/// `keys` with `value` under `name`: in the place of the name if it is
/// there, at the end otherwise.
pub open spec fn put_key(keys: Seq<NamedMatch>, name: Seq<char>, value: MatchSpec) -> Seq<NamedMatch> {
    match first_index(keys, |k: NamedMatch| k.name == name) {
        Some(i) => keys.update(i, NamedMatch { name, value }),
        None => keys.push(NamedMatch { name, value }),
    }
}

/// The first key of a request is its only key.
pub proof fn lemma_put_first_key(name: Seq<char>, value: MatchSpec)
    ensures
        put_key(Seq::<NamedMatch>::empty(), name, value) == seq![NamedMatch { name, value }],
{
    let p = |k: NamedMatch| k.name == name;
    lemma_first_index_none(Seq::<NamedMatch>::empty(), p);
    assert(Seq::<NamedMatch>::empty().push(NamedMatch { name, value }) =~= seq![NamedMatch { name, value }]);
}

/// No name stands twice among `keys`.
pub open spec fn distinct_names(keys: Seq<NamedMatch>) -> bool {
    forall|i: int, j: int| 0 <= i < j < keys.len() ==> (#[trigger] keys[i]).name != (#[trigger] keys[j]).name
}

impl View for Request {
    type V = RequestView;

    closed spec fn view(&self) -> RequestView {
        RequestView {
            table_name: self.table_name@,
            keys: named_matches(self.match_keys),
            action: match self.action {
                Some(a) => Some(a@),
                None => None,
            },
            action_data: self.action_data@.map_values(|a: ActionData| a@),
            action_data_repeated: self.action_data_repeated@.map_values(|a: ActionDataRepeated| a@),
            request_type: self.request_type,
            operation: self.operation,
            is_default_entry: self.is_default_entry,
            pipe: self.pipe,
        }
    }
}

impl Clone for Request {
    fn clone(&self) -> (r: Request)
        ensures
            r@ == self@,
    {
        let n = self.match_keys.len();
        let mut keys: StrMap<MatchValue> = StrMap::new();
        let mut i: usize = 0;
        proof {
            use_type_invariant(&self.match_keys);
            self.match_keys.lemma_entries();
        }
        while i < n
            invariant
                n == self.match_keys.spec_keys().len(),
                n == self.match_keys.spec_values().len(),
                i <= n,
                self.match_keys.wf(),
                self.match_keys.spec_keys().no_duplicates(),
                keys.wf(),
                keys.spec_keys() == self.match_keys.spec_keys().take(i as int),
                keys.spec_values().len() == i,
                forall|j: int| 0 <= j < i ==> (#[trigger] keys.spec_values()[j])@ == self.match_keys.spec_values()[j]@,
            decreases n - i,
        {
            let name = self.match_keys.key_at(i).to_owned();
            let value = self.match_keys.value_at(i).clone();
            proof {
                keys.lemma_entries();
                if keys@.contains_key(name@) {
                    let k = keys.spec_keys().index_of(name@);
                    assert(self.match_keys.spec_keys()[k] == self.match_keys.spec_keys()[i as int]);
                }
            }
            let ghost before = keys;
            keys = keys.insert(name, value);
            proof {
                assert(keys.spec_keys() =~= self.match_keys.spec_keys().take(i as int + 1));
            }
            i += 1;
        }
        let action_data = clone_items(&self.action_data);
        let action_data_repeated = clone_items(&self.action_data_repeated);
        let r = Request {
            table_name: self.table_name.clone(),
            match_keys: keys,
            action: match &self.action {
                Some(a) => Some(a.clone()),
                None => None,
            },
            action_data,
            action_data_repeated,
            request_type: self.request_type,
            operation: self.operation,
            is_default_entry: self.is_default_entry,
            pipe: self.pipe,
        };
        proof {
            assert(self.match_keys.spec_keys().take(n as int) =~= self.match_keys.spec_keys());
            assert(r@.keys =~= self@.keys);
        }
        r
    }
}

/// The request on a table that asks for nothing yet.
pub open spec fn empty_request(table_name: Seq<char>) -> RequestView {
    RequestView {
        table_name,
        keys: Seq::empty(),
        action: None,
        action_data: Seq::empty(),
        action_data_repeated: Seq::empty(),
        request_type: RequestType::Read,
        operation: TableOperation::NoOperation,
        is_default_entry: false,
        pipe: None,
    }
}

impl Request {
    /// An empty read request for the table with the given name.
    pub fn new(table_name: &str) -> (r: Request)
        ensures
            r@ == empty_request(table_name@),
    {
        let r = Request {
            table_name: table_name.to_owned(),
            match_keys: StrMap::new(),
            action: None,
            action_data: Vec::new(),
            action_data_repeated: Vec::new(),
            request_type: RequestType::Read,
            operation: TableOperation::NoOperation,
            is_default_entry: false,
            pipe: None,
        };
        proof {
            assert(r@.keys =~= Seq::empty());
            assert(r@.action_data =~= Seq::empty());
            assert(r@.action_data_repeated =~= Seq::empty());
        }
        r
    }

    pub fn get_table_name(&self) -> (r: &str)
        ensures
            r@ == self@.table_name,
    {
        self.table_name.as_str()
    }

    /// Puts `match_value` under the key `name`, in place of what was there.
    pub fn match_key(self, name: &str, match_value: MatchValue) -> (r: Request)
        ensures
            r@ == (RequestView { keys: put_key(self@.keys, name@, match_value@), ..self@ }),
    {
        let ghost before = self;
        let ghost p = |k: NamedMatch| k.name == name@;
        proof {
            use_type_invariant(&self.match_keys);
            self.match_keys.lemma_entries();
            let keys = self.match_keys.spec_keys();
            if self.match_keys@.contains_key(name@) {
                let i = keys.index_of(name@);
                assert(is_first(before@.keys, p, i)) by {
                    assert forall|j: int| 0 <= j < i implies !p(#[trigger] before@.keys[j]) by {
                        assert(keys[j] != keys[i]);
                    }
                }
                lemma_first_index_some(before@.keys, p, i);
            } else {
                assert forall|j: int| 0 <= j < before@.keys.len() implies !p(#[trigger] before@.keys[j]) by {
                    assert(keys.contains(keys[j]));
                }
                lemma_first_index_none(before@.keys, p);
            }
        }
        let Request {
            table_name,
            match_keys,
            action,
            action_data,
            action_data_repeated,
            request_type,
            operation,
            is_default_entry,
            pipe,
        } = self;
        let match_keys = match_keys.insert(name.to_owned(), match_value);
        let r = Request {
            table_name,
            match_keys,
            action,
            action_data,
            action_data_repeated,
            request_type,
            operation,
            is_default_entry,
            pipe,
        };
        proof {
            assert(r@.keys =~= put_key(before@.keys, name@, match_value@));
        }
        r
    }

    /// Replaces all match keys by the given ones.
    pub fn match_keys(self, match_keys: StrMap<MatchValue>) -> (r: Request)
        ensures
            r@ == (RequestView { keys: named_matches(match_keys), ..self@ }),
    {
        Request { match_keys, ..self }
    }

    /// The match keys. No name stands twice among them.
    pub fn get_match_keys(&self) -> (r: &StrMap<MatchValue>)
        ensures
            named_matches(*r) == self@.keys,
            distinct_names(self@.keys),
    {
        proof {
            use_type_invariant(&self.match_keys);
            self.match_keys.lemma_entries();
        }
        &self.match_keys
    }

    /// Sets the action's name.
    pub fn action(self, action: &str) -> (r: Request)
        ensures
            r@ == (RequestView { action: Some(action@), ..self@ }),
    {
        Request { action: Some(action.to_owned()), ..self }
    }

    /// The action's name.
    pub fn get_action_name(&self) -> (r: &str)
        requires
            self@.action is Some,
        ensures
            Some(r@) == self@.action,
    {
        match &self.action {
            Some(a) => a.as_str(),
            None => {
                proof {
                    assert(false);
                }
                unreached()
            },
        }
    }

    /// Whether an action is named.
    pub fn has_action(&self) -> (r: bool)
        ensures
            r == self@.action is Some,
    {
        self.action.is_some()
    }

    /// Sets the pipe that the request is for.
    pub fn pipe(self, pipe: u32) -> (r: Request)
        ensures
            r@ == (RequestView { pipe: Some(pipe), ..self@ }),
    {
        Request { pipe: Some(pipe), ..self }
    }

    pub fn get_pipe(&self) -> (r: Option<u32>)
        ensures
            r == self@.pipe,
    {
        self.pipe
    }

    /// Sets whether the entry is the table's default entry.
    pub fn default(self, is_default: bool) -> (r: Request)
        ensures
            r@ == (RequestView { is_default_entry: is_default, ..self@ }),
    {
        Request { is_default_entry: is_default, ..self }
    }

    pub fn is_default(&self) -> (r: bool)
        ensures
            r == self@.is_default_entry,
    {
        self.is_default_entry
    }

    /// Adds one value of action data under `name`.
    pub fn action_data<T: ToBytes>(self, name: &str, data: T) -> (r: Request)
        ensures
            r@ == (RequestView {
                action_data: self@.action_data.push(NamedBytes { key: name@, data: data.spec_bytes() }),
                ..self@
            }),
    {
        let ghost before = self;
        let mut action_data = self.action_data;
        action_data.push(ActionData::new(name, data));
        let r = Request {
            table_name: self.table_name,
            match_keys: self.match_keys,
            action: self.action,
            action_data,
            action_data_repeated: self.action_data_repeated,
            request_type: self.request_type,
            operation: self.operation,
            is_default_entry: self.is_default_entry,
            pipe: self.pipe,
        };
        proof {
            assert(r@.action_data =~= before@.action_data.push(
                NamedBytes { key: name@, data: data.spec_bytes() },
            ));
        }
        r
    }

    pub fn get_action_data(&self) -> (r: &Vec<ActionData>)
        ensures
            r@.map_values(|a: ActionData| a@) == self@.action_data,
    {
        &self.action_data
    }

    /// Adds a list of values of action data under `name`.
    pub fn action_data_repeated<T: ToBytes>(self, name: &str, data: Vec<T>) -> (r: Request)
        ensures
            r@ == (RequestView {
                action_data_repeated: self@.action_data_repeated.push(
                    NamedByteList { key: name@, data: data@.map_values(|d: T| d.spec_bytes()) },
                ),
                ..self@
            }),
    {
        let ghost before = self;
        let mut action_data_repeated = self.action_data_repeated;
        action_data_repeated.push(ActionDataRepeated::new(name, data));
        let r = Request {
            table_name: self.table_name,
            match_keys: self.match_keys,
            action: self.action,
            action_data: self.action_data,
            action_data_repeated,
            request_type: self.request_type,
            operation: self.operation,
            is_default_entry: self.is_default_entry,
            pipe: self.pipe,
        };
        proof {
            assert(r@.action_data_repeated =~= before@.action_data_repeated.push(
                NamedByteList { key: name@, data: data@.map_values(|d: T| d.spec_bytes()) },
            ));
        }
        r
    }

    pub fn get_action_data_repeated(&self) -> (r: &Vec<ActionDataRepeated>)
        ensures
            r@.map_values(|a: ActionDataRepeated| a@) == self@.action_data_repeated,
    {
        &self.action_data_repeated
    }

    /// Sets the operation on the table.
    pub fn operation(self, operation: TableOperation) -> (r: Request)
        ensures
            r@ == (RequestView { operation, ..self@ }),
    {
        Request { operation, ..self }
    }

    pub fn get_operation(&self) -> (r: &TableOperation)
        ensures
            *r == self@.operation,
    {
        &self.operation
    }

    /// Sets the kind of the request.
    pub fn request_type(self, request_type: RequestType) -> (r: Request)
        ensures
            r@ == (RequestView { request_type, ..self@ }),
    {
        Request { request_type, ..self }
    }

    pub fn get_type(&self) -> (r: &RequestType)
        ensures
            *r == self@.request_type,
    {
        &self.request_type
    }
}

/// Copies of the requests, each of the given kind.
pub fn tag_requests(requests: &Vec<Request>, kind: RequestType) -> (r: Vec<Request>)
    ensures
        r@.len() == requests@.len(),
        forall|i: int|
            0 <= i < requests@.len() ==> (#[trigger] r@[i])@ == (RequestView { request_type: kind, ..requests@[i]@ }),
{
    let n = requests.len();
    let mut out: Vec<Request> = Vec::new();
    let mut i: usize = 0;
    while i < n
        invariant
            n == requests@.len(),
            i <= n,
            out@.len() == i,
            forall|j: int|
                0 <= j < i ==> (#[trigger] out@[j])@ == (RequestView { request_type: kind, ..requests@[j]@ }),
        decreases n - i,
    {
        out.push(requests[i].clone().request_type(kind));
        i += 1;
    }
    out
}

/// The requests that delete all entries of the tables with the given names.
pub fn clear_requests(names: &Vec<String>) -> (r: Vec<Request>)
    ensures
        r@.len() == names@.len(),
        forall|i: int|
            0 <= i < names@.len() ==> (#[trigger] r@[i])@ == (RequestView {
                request_type: RequestType::Delete,
                ..empty_request(names@[i]@)
            }),
{
    let n = names.len();
    let mut out: Vec<Request> = Vec::new();
    let mut i: usize = 0;
    while i < n
        invariant
            n == names@.len(),
            i <= n,
            out@.len() == i,
            forall|j: int|
                0 <= j < i ==> (#[trigger] out@[j])@ == (RequestView {
                    request_type: RequestType::Delete,
                    ..empty_request(names@[j]@)
                }),
        decreases n - i,
    {
        out.push(Request::new(names[i].as_str()).request_type(RequestType::Delete));
        i += 1;
    }
    out
}

} // verus!
