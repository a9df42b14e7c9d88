use vstd::prelude::*;
use std::collections::HashMap;
use crate::codec::{canonicalize, strip_leading_zeros};
use crate::error::{result_view, ErrorSpec, RBFRTError};
use crate::str_map::StrMap;
use crate::table::action_data::{copy_byte_list, ActionData, NamedBytes};
use crate::table::match_value::{MatchSpec, MatchValue};
use crate::table::table_entry::{
    lemma_put_first_key, NamedMatch, Request as TableRequest, RequestType, RequestView, TableEntry,
    TableEntryView, TableOperation,
};
use crate::table::to_bytes::{be_bytes, be_value, copy_bytes, to_u32, ToBytes};

verus! {

broadcast use vstd::std_specs::hash::group_hash_axioms;

/// Type of the index of a register.
pub type IndexType = u32;

/// The values of a register at one index: for each field one value per pipe.
#[derive(Debug)]
pub struct RegisterEntry {
    index: IndexType,
    data: StrMap<Vec<Vec<u8>>>,
}

pub struct RegisterEntryView {
    pub index: u32,
    pub data: Map<Seq<char>, Seq<Seq<u8>>>,
}

pub open spec fn byte_lists_view(m: StrMap<Vec<Vec<u8>>>) -> Map<Seq<char>, Seq<Seq<u8>>> {
    m@.map_values(|l: Vec<Vec<u8>>| l@.map_values(|b: Vec<u8>| b@))
}

impl View for RegisterEntry {
    type V = RegisterEntryView;

    closed spec fn view(&self) -> RegisterEntryView {
        RegisterEntryView { index: self.index, data: byte_lists_view(self.data) }
    }
}

impl RegisterEntry {
    pub fn new(index: IndexType, data: StrMap<Vec<Vec<u8>>>) -> (r: RegisterEntry)
        ensures
            r@ == (RegisterEntryView { index, data: byte_lists_view(data) }),
    {
        RegisterEntry { index, data }
    }

    pub fn get_index(&self) -> (r: IndexType)
        ensures
            r == self@.index,
    {
        self.index
    }

    /// All fields with their values, one for each pipe.
    pub fn get_data(&self) -> (r: &StrMap<Vec<Vec<u8>>>)
        ensures
            byte_lists_view(*r) == self@.data,
    {
        &self.data
    }

    /// The values of the field with the given name, one for each pipe.
    pub fn get(&self, name: &str) -> (r: Option<&Vec<Vec<u8>>>)
        ensures
            match r {
                Some(l) => self@.data.contains_key(name@) && l@.map_values(|b: Vec<u8>| b@) == self@.data[name@],
                None => !self@.data.contains_key(name@),
            },
    {
        self.data.get(name)
    }
}

/// A register with the entries that were read of it.
#[derive(Debug)]
pub struct Register {
    name: String,
    entries: HashMap<IndexType, RegisterEntry>,
}

pub struct RegisterView {
    pub name: Seq<char>,
    pub entries: Map<u32, RegisterEntryView>,
}

pub open spec fn entries_view(m: Map<u32, RegisterEntry>) -> Map<u32, RegisterEntryView> {
    m.map_values(|e: RegisterEntry| e@)
}

impl View for Register {
    type V = RegisterView;

    closed spec fn view(&self) -> RegisterView {
        RegisterView { name: self.name@, entries: entries_view(self.entries@) }
    }
}

/// The name of the match key that holds the index of a register.
pub open spec fn register_index_name() -> Seq<char> {
    "$REGISTER_INDEX"@
}

/// Whether a table entry is an entry of a register: it has the index as an
/// exact match of at most 32 bits.
pub open spec fn has_register_index(e: TableEntryView) -> bool {
    &&& e.match_keys.contains_key(register_index_name())
    &&& e.match_keys[register_index_name()] matches MatchSpec::Exact { bytes }
    &&& strip_leading_zeros(bytes).len() <= 4
}

/// The index of an entry of a register.
pub open spec fn entry_index(e: TableEntryView) -> u32 {
    be_value(e.match_keys[register_index_name()]->Exact_bytes) as u32
}

/// The values of each name, in the order in which they came.
pub open spec fn group_data(data: Seq<NamedBytes>) -> Map<Seq<char>, Seq<Seq<u8>>>
    decreases data.len(),
{
    if data.len() == 0 {
        Map::empty()
    } else {
        let done = group_data(data.drop_last());
        let d = data.last();
        if done.contains_key(d.key) {
            done.insert(d.key, done[d.key].push(d.data))
        } else {
            done.insert(d.key, seq![d.data])
        }
    }
}

/// The register entry that a table entry stands for.
pub open spec fn register_entry(e: TableEntryView) -> RegisterEntryView {
    RegisterEntryView { index: entry_index(e), data: group_data(e.action_data) }
}

/// The entries of a register by index; of two under one index the later one.
pub open spec fn register_entries(entries: Seq<TableEntryView>) -> Map<u32, RegisterEntryView>
    decreases entries.len(),
{
    if entries.len() == 0 {
        Map::empty()
    } else {
        register_entries(entries.drop_last()).insert(
            entry_index(entries.last()),
            register_entry(entries.last()),
        )
    }
}

/// Whether a table entry is an entry of a register.
pub fn is_register_entry(entry: &TableEntry) -> (r: bool)
    ensures
        r == has_register_index(entry@),
{
    match entry.match_keys.get("$REGISTER_INDEX") {
        Some(v) => match v {
            MatchValue::ExactValue { bytes } => canonicalize(copy_bytes(bytes), "$REGISTER_INDEX", 32).is_ok(),
            _ => false,
        },
        None => false,
    }
}

/// Groups the action data of a table entry by name.
pub fn group_action_data(data: &Vec<ActionData>) -> (r: StrMap<Vec<Vec<u8>>>)
    ensures
        byte_lists_view(r) == group_data(data@.map_values(|a: ActionData| a@)),
{
    let ghost all = data@.map_values(|a: ActionData| a@);
    let mut reg_data: StrMap<Vec<Vec<u8>>> = StrMap::new();
    let n = data.len();
    let mut i: usize = 0;
    proof {
        assert(all.take(0) =~= Seq::<NamedBytes>::empty());
        assert(byte_lists_view(reg_data) =~= Map::<Seq<char>, Seq<Seq<u8>>>::empty());
    }
    while i < n
        invariant
            n == data.len(),
            i <= n,
            all == data@.map_values(|a: ActionData| a@),
            byte_lists_view(reg_data) == group_data(all.take(i as int)),
        decreases n - i,
    {
        proof {
            assert(all.take(i as int + 1).drop_last() =~= all.take(i as int));
            assert(all[i as int] == data@[i as int]@);
        }
        let key = data[i].get_key();
        let value = copy_bytes(data[i].get_data());
        let ghost before = reg_data;
        let mut list: Vec<Vec<u8>> = match reg_data.get(key) {
            Some(l) => copy_byte_list(l),
            None => Vec::new(),
        };
        let ghost old_list = list@.map_values(|b: Vec<u8>| b@);
        list.push(value);
        proof {
            assert(list@.map_values(|b: Vec<u8>| b@) =~= old_list.push(value@));
            if !before@.contains_key(key@) {
                assert(old_list =~= Seq::<Seq<u8>>::empty());
                assert(old_list.push(value@) =~= seq![value@]);
            }
        }
        reg_data = reg_data.insert(key.to_owned(), list);
        proof {
            assert(byte_lists_view(reg_data) =~= byte_lists_view(before).insert(
                key@,
                list@.map_values(|b: Vec<u8>| b@),
            ));
        }
        i += 1;
    }
    assert(all.take(n as int) =~= all);
    reg_data
}

impl Register {
    pub fn new(name: &str, entries: HashMap<IndexType, RegisterEntry>) -> (r: Register)
        ensures
            r@ == (RegisterView { name: name@, entries: entries_view(entries@) }),
    {
        Register { name: name.to_owned(), entries }
    }

    pub fn name(&self) -> (r: &str)
        ensures
            r@ == self@.name,
    {
        self.name.as_str()
    }

    /// All entries by index.
    pub fn entries(&self) -> (r: &HashMap<IndexType, RegisterEntry>)
        ensures
            entries_view(r@) == self@.entries,
    {
        &self.entries
    }

    /// The entry at the given index.
    pub fn get(&self, index: IndexType) -> (r: Option<&RegisterEntry>)
        ensures
            match r {
                Some(e) => self@.entries.contains_key(index) && e@ == self@.entries[index],
                None => !self@.entries.contains_key(index),
            },
    {
        self.entries.get(&index)
    }

    /// Turns table entries into the register named `name` if each of them
    /// is an entry of a register.
    pub fn from_entries(entries: Vec<TableEntry>, name: &str) -> (r: Option<Register>)
        ensures
            r is Some <==> forall|i: int| 0 <= i < entries@.len() ==> has_register_index(#[trigger] entries@[i]@),
            r matches Some(reg) ==> reg@ == (RegisterView {
                name: name@,
                entries: register_entries(entries@.map_values(|e: TableEntry| e@)),
            }),
    {
        let n = entries.len();
        let mut i: usize = 0;
        while i < n
            invariant
                n == entries.len(),
                i <= n,
                forall|j: int| 0 <= j < i ==> has_register_index(#[trigger] entries@[j]@),
            decreases n - i,
        {
            if !is_register_entry(&entries[i]) {
                return None;
            }
            i += 1;
        }
        Some(Register::parse_register_entries(entries, name))
    }

    /// Turns the table entries of a register into the register named `name`.
    pub fn parse_register_entries(entries: Vec<TableEntry>, name: &str) -> (r: Register)
        requires
            forall|i: int| 0 <= i < entries@.len() ==> has_register_index(#[trigger] entries@[i]@),
        ensures
            r@ == (RegisterView {
                name: name@,
                entries: register_entries(entries@.map_values(|e: TableEntry| e@)),
            }),
    {
        let ghost all = entries@.map_values(|e: TableEntry| e@);
        let mut register_entries: HashMap<IndexType, RegisterEntry> = HashMap::new();
        let n = entries.len();
        let mut i: usize = 0;
        proof {
            assert(all.take(0) =~= Seq::<TableEntryView>::empty());
            assert(entries_view(register_entries@) =~= Map::<u32, RegisterEntryView>::empty());
        }
        while i < n
            invariant
                n == entries.len(),
                i <= n,
                all == entries@.map_values(|e: TableEntry| e@),
                forall|j: int| 0 <= j < entries@.len() ==> has_register_index(#[trigger] entries@[j]@),
                entries_view(register_entries@) == crate::register::register_entries(all.take(i as int)),
            decreases n - i,
        {
            proof {
                assert(all.take(i as int + 1).drop_last() =~= all.take(i as int));
                assert(all[i as int] == entries@[i as int]@);
                assert(has_register_index(entries@[i as int]@));
            }
            let e = &entries[i];
            let index = match e.match_keys.get("$REGISTER_INDEX") {
                Some(v) => match v {
                    MatchValue::ExactValue { bytes } => to_u32(bytes),
                    _ => 0,
                },
                None => 0,
            };
            let reg_data = group_action_data(&e.action_data);
            let ghost before = register_entries@;
            let entry = RegisterEntry::new(index, reg_data);
            register_entries.insert(index, entry);
            proof {
                assert(entries_view(register_entries@) =~= entries_view(before).insert(index, entry@));
            }
            i += 1;
        }
        assert(all.take(n as int) =~= all);
        Register::new(name, register_entries)
    }
}

/// A request on a register: the index to read or write, and the values to write.
#[derive(Debug)]
pub struct Request {
    name: String,
    index: Option<IndexType>,
    data: StrMap<Vec<u8>>,
}

pub struct RegisterRequestView {
    pub name: Seq<char>,
    pub index: Option<u32>,
    /// The names of the values in the order in which they came in.
    pub data_names: Seq<Seq<char>>,
    pub data: Map<Seq<char>, Seq<u8>>,
}

pub open spec fn bytes_view(m: StrMap<Vec<u8>>) -> Map<Seq<char>, Seq<u8>> {
    m@.map_values(|b: Vec<u8>| b@)
}

impl View for Request {
    type V = RegisterRequestView;

    closed spec fn view(&self) -> RegisterRequestView {
        RegisterRequestView {
            name: self.name@,
            index: self.index,
            data_names: self.data.spec_keys(),
            data: bytes_view(self.data),
        }
    }
}

/// The action data that the values of a register request become, in the
/// order of their names.
pub open spec fn request_data(names: Seq<Seq<char>>, data: Map<Seq<char>, Seq<u8>>) -> Seq<NamedBytes> {
    names.map_values(|n: Seq<char>| NamedBytes { key: n, data: data[n] })
}

/// The match key that selects the index of a register.
pub open spec fn index_key(index: u32) -> NamedMatch {
    NamedMatch { name: register_index_name(), value: MatchSpec::Exact { bytes: be_bytes(index as nat, 4) } }
}

/// The table request that reads what a register request asks for: the
/// entry at the index, or all entries where no index is given.
pub open spec fn read_request_view(req: RegisterRequestView) -> RequestView {
    RequestView {
        table_name: req.name,
        keys: match req.index {
            Some(i) => seq![index_key(i)],
            None => Seq::empty(),
        },
        action: None,
        action_data: Seq::empty(),
        action_data_repeated: Seq::empty(),
        request_type: RequestType::Read,
        operation: TableOperation::NoOperation,
        is_default_entry: false,
        pipe: None,
    }
}

/// The table request that writes the values of a register request at its
/// index; a request without an index cannot be written.
pub open spec fn write_request_view(req: RegisterRequestView) -> Result<RequestView, ErrorSpec> {
    match req.index {
        None => Err(ErrorSpec::MissingRegisterIndex),
        Some(i) => Ok(
            RequestView {
                table_name: req.name,
                keys: seq![index_key(i)],
                action: None,
                action_data: request_data(req.data_names, req.data),
                action_data_repeated: Seq::empty(),
                request_type: RequestType::Read,
                operation: TableOperation::NoOperation,
                is_default_entry: false,
                pipe: None,
            },
        ),
    }
}

impl Request {
    /// A request for the register with the given name.
    pub fn new(name: &str) -> (r: Request)
        ensures
            r@ == (RegisterRequestView {
                name: name@,
                index: None,
                data_names: Seq::empty(),
                data: Map::empty(),
            }),
    {
        let r = Request { name: name.to_owned(), index: None, data: StrMap::new() };
        assert(r@.data =~= Map::<Seq<char>, Seq<u8>>::empty());
        r
    }

    /// Sets the index.
    pub fn index(self, index: IndexType) -> (r: Request)
        ensures
            r@ == (RegisterRequestView { index: Some(index), ..self@ }),
    {
        Request { index: Some(index), ..self }
    }

    pub fn get_name(&self) -> (r: &str)
        ensures
            r@ == self@.name,
    {
        self.name.as_str()
    }

    pub fn get_index(&self) -> (r: &Option<IndexType>)
        ensures
            *r == self@.index,
    {
        &self.index
    }

    /// Sets the value to write under `name`.
    pub fn data<T: ToBytes>(self, name: &str, value: T) -> (r: Request)
        ensures
            r@.name == self@.name,
            r@.index == self@.index,
            r@.data == self@.data.insert(name@, value.spec_bytes()),
            r@.data_names == (if self@.data.contains_key(name@) {
                self@.data_names
            } else {
                self@.data_names.push(name@)
            }),
    {
        let ghost before = self.data;
        let Request { name: reg_name, index, data } = self;
        let bytes = value.to_bytes();
        let data = data.insert(name.to_owned(), bytes);
        proof {
            assert(bytes_view(data) =~= bytes_view(before).insert(name@, bytes@));
        }
        Request { name: reg_name, index, data }
    }

    /// The values to write, by name.
    pub fn get_data(&self) -> (r: &StrMap<Vec<u8>>)
        ensures
            bytes_view(*r) == self@.data,
            r.spec_keys() == self@.data_names,
    {
        &self.data
    }

    /// The table request that reads what this request asks for.
    pub fn read_request(&self) -> (r: TableRequest)
        ensures
            r@ == read_request_view(self@),
    {
        let table_request = TableRequest::new(self.name.as_str()).request_type(RequestType::Read);
        match self.index {
            Some(index) => {
                let ghost before = table_request@;
                let r = table_request.match_key("$REGISTER_INDEX", MatchValue::exact(index));
                proof {
                    lemma_put_first_key(register_index_name(), MatchSpec::Exact { bytes: be_bytes(index as nat, 4) });
                }
                r
            },
            None => table_request,
        }
    }

    /// The table request that writes the values of this request.
    pub fn write_request(&self) -> (r: Result<TableRequest, RBFRTError>)
        ensures
            result_view(r) == write_request_view(self@),
    {
        let index = match self.index {
            Some(index) => index,
            None => {
                return Err(RBFRTError::MissingRegisterIndex);
            },
        };
        let start = TableRequest::new(self.name.as_str());
        let ghost before = start@;
        let mut table_request = start.match_key("$REGISTER_INDEX", MatchValue::exact(index));
        proof {
            lemma_put_first_key(register_index_name(), MatchSpec::Exact { bytes: be_bytes(index as nat, 4) });
            use_type_invariant(&self.data);
            self.data.lemma_entries();
        }
        let ghost expect = request_data(self@.data_names, self@.data);
        let ghost base = table_request@;
        let n = self.data.len();
        let mut i: usize = 0;
        proof {
            assert(expect.take(0) =~= Seq::<NamedBytes>::empty());
        }
        while i < n
            invariant
                n == self.data.spec_keys().len(),
                n == self.data.spec_values().len(),
                i <= n,
                self.data.wf(),
                expect == request_data(self@.data_names, self@.data),
                table_request@ == (RequestView { action_data: expect.take(i as int), ..base }),
            decreases n - i,
        {
            let name = self.data.key_at(i);
            let value = copy_bytes(self.data.value_at(i));
            proof {
                self.data.lemma_entries();
                assert(self.data@.contains_key(self.data.spec_keys()[i as int]));
                assert(expect[i as int] == NamedBytes { key: name@, data: value@ });
                assert(expect.take(i as int + 1) =~= expect.take(i as int).push(expect[i as int]));
            }
            table_request = table_request.action_data(name, value);
            i += 1;
        }
        proof {
            assert(expect.take(n as int) =~= expect);
        }
        Ok(table_request)
    }
}

/// The table requests that read what the register requests ask for. A
/// request without an index is passed over.
pub open spec fn read_request_views(requests: Seq<RegisterRequestView>) -> Seq<RequestView>
    decreases requests.len(),
{
    if requests.len() == 0 {
        Seq::empty()
    } else if requests.last().index is Some {
        read_request_views(requests.drop_last()).push(read_request_view(requests.last()))
    } else {
        read_request_views(requests.drop_last())
    }
}

pub fn read_requests(requests: &Vec<Request>) -> (r: Vec<TableRequest>)
    ensures
        r@.map_values(|q: TableRequest| q@) == read_request_views(requests@.map_values(|q: Request| q@)),
{
    let ghost all = requests@.map_values(|q: Request| q@);
    let n = requests.len();
    let mut out: Vec<TableRequest> = Vec::new();
    let mut i: usize = 0;
    proof {
        assert(all.take(0) =~= Seq::<RegisterRequestView>::empty());
        assert(out@.map_values(|q: TableRequest| q@) =~= Seq::<RequestView>::empty());
    }
    while i < n
        invariant
            n == requests.len(),
            i <= n,
            all == requests@.map_values(|q: Request| q@),
            out@.map_values(|q: TableRequest| q@) == read_request_views(all.take(i as int)),
        decreases n - i,
    {
        proof {
            assert(all.take(i as int + 1).drop_last() =~= all.take(i as int));
            assert(all[i as int] == requests@[i as int]@);
        }
        if requests[i].get_index().is_some() {
            let ghost before = out@;
            let q = requests[i].read_request();
            out.push(q);
            assert(out@.map_values(|q: TableRequest| q@) =~= before.map_values(|q: TableRequest| q@).push(q@));
        }
        i += 1;
    }
    assert(all.take(n as int) =~= all);
    out
}

pub open spec fn write_encoder() -> spec_fn(RegisterRequestView) -> Result<RequestView, ErrorSpec> {
    |q: RegisterRequestView| write_request_view(q)
}

/// The table requests that write the values of the register requests; none
/// where one of them has no index.
pub fn write_requests(requests: &Vec<Request>) -> (r: Result<Vec<TableRequest>, RBFRTError>)
    ensures
        match r {
            Ok(out) => crate::seq_ext::try_map(requests@.map_values(|q: Request| q@), write_encoder()) == Ok::<
                Seq<RequestView>,
                ErrorSpec,
            >(out@.map_values(|q: TableRequest| q@)),
            Err(e) => crate::seq_ext::try_map(requests@.map_values(|q: Request| q@), write_encoder()) == Err::<
                Seq<RequestView>,
                ErrorSpec,
            >(e@),
        },
{
    let ghost all = requests@.map_values(|q: Request| q@);
    let ghost f = write_encoder();
    let n = requests.len();
    let mut out: Vec<TableRequest> = Vec::new();
    let mut i: usize = 0;
    proof {
        assert(all.take(0) =~= Seq::<RegisterRequestView>::empty());
        assert(out@.map_values(|q: TableRequest| q@) =~= Seq::<RequestView>::empty());
    }
    while i < n
        invariant
            n == requests.len(),
            i <= n,
            all == requests@.map_values(|q: Request| q@),
            f == write_encoder(),
            crate::seq_ext::try_map(all.take(i as int), f) == Ok::<Seq<RequestView>, ErrorSpec>(
                out@.map_values(|q: TableRequest| q@),
            ),
        decreases n - i,
    {
        proof {
            crate::seq_ext::lemma_try_map_step(all, f, i as int);
            assert(all[i as int] == requests@[i as int]@);
            assert(f(all[i as int]) == write_request_view(all[i as int]));
        }
        let q = match requests[i].write_request() {
            Ok(q) => q,
            Err(e) => {
                proof {
                    crate::seq_ext::lemma_try_map_prefix_err(all, f, i as int + 1);
                }
                return Err(e);
            },
        };
        let ghost before = out@;
        out.push(q);
        assert(out@.map_values(|q: TableRequest| q@) =~= before.map_values(|q: TableRequest| q@).push(q@));
        i += 1;
    }
    assert(all.take(n as int) =~= all);
    Ok(out)
}

} // verus!
