use vstd::prelude::*;
use crate::bfrt::info::{BFRTInfo, SchemaCatalog};
use crate::bfrt::learn_filter::{LearnFilterObject, LearnFilterSchema};
use crate::protos::bfrt_proto::{
    DataFieldView, DataValue, DataValueView, DigestList, DigestListView, StreamMessageResponse,
    StreamMessageResponseView, TableData, TableDataView,
};
use crate::str_map::StrMap;
use crate::table::to_bytes::copy_bytes;

verus! {

/// A message that the data plane sent to the controller: the name of its
/// learn filter and the bytes of each field under the field's name.
#[derive(Debug)]
pub struct Digest {
    pub name: String,
    pub data: StrMap<Vec<u8>>,
}

pub struct DigestView {
    pub name: Seq<char>,
    pub data: Map<Seq<char>, Seq<u8>>,
}

impl View for Digest {
    type V = DigestView;

    open spec fn view(&self) -> DigestView {
        DigestView { name: self.name@, data: self.data@.map_values(|b: Vec<u8>| b@) }
    }
}

impl LearnFilterSchema {
    /// The fields of a digest record under their names. A field whose id the
    /// filter does not know, or whose payload is no byte stream, is left
    /// out; of two fields under one name the later one stays.
    pub open spec fn record_fields(self, fields: Seq<DataFieldView>) -> Map<Seq<char>, Seq<u8>>
        decreases fields.len(),
    {
        if fields.len() == 0 {
            Map::empty()
        } else {
            let done = self.record_fields(fields.drop_last());
            let f = fields.last();
            match (self.field_by_id(f.field_id), f.value) {
                (Some(i), DataValueView::Stream(bytes)) => done.insert(self.fields[i].name, bytes),
                _ => done,
            }
        }
    }

    /// The digest that one record of a digest list stands for.
    pub open spec fn record_digest(self, record: TableDataView) -> DigestView {
        DigestView { name: self.name, data: self.record_fields(record.fields) }
    }
}

impl SchemaCatalog {
    /// The digests of a digest list: one for each record where the list's
    /// learn filter is known, none where it is not.
    pub open spec fn digests(self, list: DigestListView) -> Seq<DigestView> {
        match self.learn_filter_by_id(list.digest_id) {
            None => Seq::empty(),
            Some(l) => list.data.map_values(|record: TableDataView| self.learn_filters[l].record_digest(record)),
        }
    }

    /// The digests that a message of the notification stream gives rise to.
    pub open spec fn notification_digests(self, msg: StreamMessageResponseView) -> Seq<DigestView> {
        match msg {
            StreamMessageResponseView::Digest(list) => self.digests(list),
            _ => Seq::empty(),
        }
    }
}

/// Whether a message of the notification stream goes on to the decoder:
/// answers to the subscription and digests do, all others are dropped.
pub open spec fn is_relayed(msg: StreamMessageResponseView) -> bool {
    msg is Subscribe || msg is Digest
}

pub fn relay_filter(msg: &StreamMessageResponse) -> (r: bool)
    ensures
        r == is_relayed(msg@),
{
    match msg {
        StreamMessageResponse::Subscribe(_) => true,
        StreamMessageResponse::Digest(_) => true,
        _ => false,
    }
}

/// Decodes one record of a digest list with the layout of `filter`.
pub fn decode_record(filter: &LearnFilterObject, record: &TableData) -> (r: Digest)
    ensures
        r@ == filter@.record_digest(record@),
{
    let mut fields: StrMap<Vec<u8>> = StrMap::new();
    let n = record.fields.len();
    let ghost all = record@.fields;
    let mut i: usize = 0;
    proof {
        assert(all.take(0) =~= Seq::<DataFieldView>::empty());
        assert(fields@.map_values(|b: Vec<u8>| b@) =~= Map::<Seq<char>, Seq<u8>>::empty());
    }
    while i < n
        invariant
            n == record.fields.len(),
            i <= n,
            all == record@.fields,
            fields@.map_values(|b: Vec<u8>| b@) == filter@.record_fields(all.take(i as int)),
        decreases n - i,
    {
        let field = &record.fields[i];
        proof {
            assert(all.take(i as int + 1).drop_last() =~= all.take(i as int));
            assert(all[i as int] == record.fields@[i as int]@);
        }
        match filter.get_data_field_name_by_id(field.field_id) {
            Ok(name) => {
                match &field.value {
                    DataValue::Stream(data) => {
                        let ghost before = fields;
                        let bytes = copy_bytes(data);
                        fields = fields.insert(name, bytes);
                        assert(fields@.map_values(|b: Vec<u8>| b@) =~= before@.map_values(
                            |b: Vec<u8>| b@,
                        ).insert(name@, bytes@));
                    },
                    _ => {},
                }
            },
            Err(_) => {},
        }
        i += 1;
    }
    assert(all.take(n as int) =~= all);
    Digest { name: filter.name.clone(), data: fields }
}

/// Decodes a digest list against the schema. A list whose learn filter the
/// schema does not know yields nothing.
pub fn decode_digest_list(info: &BFRTInfo, list: &DigestList) -> (r: Vec<Digest>)
    ensures
        r@.map_values(|d: Digest| d@) == info@.digests(list@),
{
    let mut out: Vec<Digest> = Vec::new();
    match info.learn_filter_get(list.digest_id) {
        Ok(filter) => {
            let n = list.data.len();
            let mut i: usize = 0;
            while i < n
                invariant
                    n == list.data.len(),
                    i <= n,
                    out@.len() == i,
                    forall|j: int| 0 <= j < i ==> (#[trigger] out@[j])@ == filter@.record_digest(list.data@[j]@),
                decreases n - i,
            {
                out.push(decode_record(filter, &list.data[i]));
                i += 1;
            }
            assert(out@.map_values(|d: Digest| d@) =~= info@.digests(list@));
        },
        Err(_) => {
            assert(out@.map_values(|d: Digest| d@) =~= info@.digests(list@));
        },
    }
    out
}

/// The digests that a message of the notification stream gives rise to.
pub fn decode_notification(info: &BFRTInfo, msg: &StreamMessageResponse) -> (r: Vec<Digest>)
    ensures
        r@.map_values(|d: Digest| d@) == info@.notification_digests(msg@),
{
    match msg {
        StreamMessageResponse::Digest(list) => decode_digest_list(info, list),
        _ => {
            let out: Vec<Digest> = Vec::new();
            assert(out@.map_values(|d: Digest| d@) =~= Seq::<DigestView>::empty());
            out
        },
    }
}

} // verus!
