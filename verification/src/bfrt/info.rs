use vstd::prelude::*;
use vstd::string::StringExecFns;
use crate::bfrt::learn_filter::{LearnFilterObject, LearnFilterSchema};
use crate::bfrt::table_object::{BFRTTableObject, TableSchema};
use crate::error::{ErrorSpec, RBFRTError};
use crate::seq_ext::{
    clone_items, first_index, is_first, lemma_first_index, lemma_first_index_none, lemma_first_index_some,
};
use crate::text::str_eq;

verus! {

/// The schema that the switch publishes: its tables and its learn filters.
#[derive(Debug)]
pub struct BFRTInfo {
    tables: Vec<BFRTTableObject>,
    learn_filters: Option<Vec<LearnFilterObject>>,
}

/// The catalog that the lookups read. A missing list of learn filters reads
/// as empty.
pub struct SchemaCatalog {
    pub tables: Seq<TableSchema>,
    pub learn_filters: Seq<LearnFilterSchema>,
}

pub open spec fn tables_view(tables: Seq<BFRTTableObject>) -> Seq<TableSchema> {
    tables.map_values(|t: BFRTTableObject| t@)
}

pub open spec fn learn_filters_view(filters: Option<Vec<LearnFilterObject>>) -> Seq<LearnFilterSchema> {
    match filters {
        Some(v) => v@.map_values(|l: LearnFilterObject| l@),
        None => Seq::empty(),
    }
}

/// The prefix under which a table of the pipeline may be registered.
pub open spec fn pipe_prefix() -> Seq<char> {
    "pipe."@
}

/// Whether a table registered as `registered` answers to `name`: under the
/// bare name or under the name in the pipeline's scope.
pub open spec fn answers_to(registered: Seq<char>, name: Seq<char>) -> bool {
    registered == pipe_prefix() + name || registered == name
}

impl View for BFRTInfo {
    type V = SchemaCatalog;

    closed spec fn view(&self) -> SchemaCatalog {
        SchemaCatalog { tables: tables_view(self.tables@), learn_filters: learn_filters_view(self.learn_filters) }
    }
}

impl SchemaCatalog {
    /// Position of the first table that answers to the given name.
    pub open spec fn table_by_name(self, name: Seq<char>) -> Option<int> {
        first_index(self.tables, |t: TableSchema| answers_to(t.name, name))
    }

    /// Position of the first table with the given id.
    pub open spec fn table_by_id(self, id: u32) -> Option<int> {
        first_index(self.tables, |t: TableSchema| t.id == id)
    }

    /// Position of the first learn filter with the given id.
    pub open spec fn learn_filter_by_id(self, id: u32) -> Option<int> {
        first_index(self.learn_filters, |l: LearnFilterSchema| l.id == id)
    }

    /// No two tables share an id.
    pub open spec fn unique_table_ids(self) -> bool {
        forall|i: int, j: int|
            0 <= i < j < self.tables.len() ==> (#[trigger] self.tables[i]).id != (#[trigger] self.tables[j]).id
    }
}

/// In a catalog without a repeated table id, looking a table up by its own
/// name and then by the id of what was found leads to one and the same
/// table, and that table carries the name, bare or in the pipeline's scope.
pub proof fn lemma_table_name_id_round_trip(c: SchemaCatalog, i: int)
    requires
        c.unique_table_ids(),
        0 <= i < c.tables.len(),
    ensures
        c.table_by_name(c.tables[i].name) matches Some(j) && 0 <= j < c.tables.len() && c.table_by_id(
            c.tables[j].id,
        ) == Some(j) && answers_to(c.tables[j].name, c.tables[i].name),
{
    let name = c.tables[i].name;
    let p = |t: TableSchema| answers_to(t.name, name);
    lemma_first_index(c.tables, p);
    assert(p(c.tables[i]));
    let j = c.table_by_name(name)->Some_0;
    let q = |t: TableSchema| t.id == c.tables[j].id;
    assert(is_first(c.tables, q, j)) by {
        assert forall|k: int| 0 <= k < j implies !q(#[trigger] c.tables[k]) by {
            assert(c.tables[k].id != c.tables[j].id);
        }
    }
    lemma_first_index_some(c.tables, q, j);
}

impl Clone for BFRTInfo {
    fn clone(&self) -> (r: BFRTInfo)
        ensures
            r@ == self@,
    {
        BFRTInfo {
            tables: clone_items(&self.tables),
            learn_filters: match &self.learn_filters {
                Some(v) => Some(clone_items(v)),
                None => None,
            },
        }
    }
}

impl BFRTInfo {
    pub fn new(tables: Vec<BFRTTableObject>, learn_filters: Option<Vec<LearnFilterObject>>) -> (r: BFRTInfo)
        ensures
            r@ == (SchemaCatalog { tables: tables_view(tables@), learn_filters: learn_filters_view(learn_filters) }),
    {
        BFRTInfo { tables, learn_filters }
    }

    /// The first table that answers to `name`.
    pub fn table_get(&self, name: &str) -> (r: Result<&BFRTTableObject, RBFRTError>)
        ensures
            match r {
                Ok(t) => self@.table_by_name(name@) matches Some(i) && t@ == self@.tables[i],
                Err(e) => self@.table_by_name(name@) is None && e@ == (ErrorSpec::UnknownTable {
                    table_name: name@,
                }),
            },
    {
        let ghost p = |t: TableSchema| answers_to(t.name, name@);
        let scoped = String::from_str("pipe.").concat(name);
        let n = self.tables.len();
        let mut i: usize = 0;
        while i < n
            invariant
                n == self.tables.len(),
                i <= n,
                scoped@ == pipe_prefix() + name@,
                p == |t: TableSchema| answers_to(t.name, name@),
                forall|j: int| 0 <= j < i ==> !p(#[trigger] self@.tables[j]),
            decreases n - i,
        {
            let t = &self.tables[i];
            if str_eq(t.name(), scoped.as_str()) || str_eq(t.name(), name) {
                proof {
                    lemma_first_index_some(self@.tables, p, i as int);
                }
                return Ok(t);
            }
            i += 1;
        }
        proof {
            lemma_first_index_none(self@.tables, p);
        }
        Err(RBFRTError::UnknownTable { table_name: name.to_owned() })
    }

    /// The first table with the given id.
    pub fn table_get_by_id(&self, id: u32) -> (r: Result<&BFRTTableObject, RBFRTError>)
        ensures
            match r {
                Ok(t) => self@.table_by_id(id) matches Some(i) && t@ == self@.tables[i],
                Err(e) => self@.table_by_id(id) is None && e@ == (ErrorSpec::UnknownTableId { table_id: id }),
            },
    {
        let ghost p = |t: TableSchema| t.id == id;
        let n = self.tables.len();
        let mut i: usize = 0;
        while i < n
            invariant
                n == self.tables.len(),
                i <= n,
                p == |t: TableSchema| t.id == id,
                forall|j: int| 0 <= j < i ==> !p(#[trigger] self@.tables[j]),
            decreases n - i,
        {
            if self.tables[i].id() == id {
                proof {
                    lemma_first_index_some(self@.tables, p, i as int);
                }
                return Ok(&self.tables[i]);
            }
            i += 1;
        }
        proof {
            lemma_first_index_none(self@.tables, p);
        }
        Err(RBFRTError::UnknownTableId { table_id: id })
    }

    /// The tables, in order.
    pub fn tables(self) -> (r: Vec<BFRTTableObject>)
        ensures
            tables_view(r@) == self@.tables,
    {
        self.tables
    }

    /// Adds a table behind those that are there.
    pub fn add_table(&mut self, table: BFRTTableObject)
        ensures
            final(self)@.tables == old(self)@.tables.push(table@),
            final(self)@.learn_filters == old(self)@.learn_filters,
    {
        self.tables.push(table);
        assert(tables_view(self.tables@) =~= tables_view(old(self).tables@).push(table@));
    }

    /// The first learn filter with the given id.
    pub fn learn_filter_get(&self, id: u32) -> (r: Result<&LearnFilterObject, RBFRTError>)
        ensures
            match r {
                Ok(l) => self@.learn_filter_by_id(id) matches Some(i) && l@ == self@.learn_filters[i],
                Err(e) => self@.learn_filter_by_id(id) is None && e@ == (ErrorSpec::UnknownLearnFilter {
                    filter_id: id,
                }),
            },
    {
        let ghost p = |l: LearnFilterSchema| l.id == id;
        if let Some(filters) = &self.learn_filters {
            let n = filters.len();
            let mut i: usize = 0;
            while i < n
                invariant
                    n == filters.len(),
                    i <= n,
                    self@.learn_filters == filters@.map_values(|l: LearnFilterObject| l@),
                    p == |l: LearnFilterSchema| l.id == id,
                    forall|j: int| 0 <= j < i ==> !p(#[trigger] self@.learn_filters[j]),
                decreases n - i,
            {
                if filters[i].id == id {
                    proof {
                        lemma_first_index_some(self@.learn_filters, p, i as int);
                    }
                    return Ok(&filters[i]);
                }
                i += 1;
            }
        }
        proof {
            lemma_first_index_none(self@.learn_filters, p);
        }
        Err(RBFRTError::UnknownLearnFilter { filter_id: id })
    }
}

} // verus!
