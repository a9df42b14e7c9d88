use vstd::prelude::*;
use crate::bfrt::action::{ActionSchema, ParamSchema};
use crate::bfrt::data::FieldSchema;
use crate::bfrt::table_key_object::KeySchema;
use crate::bfrt::table_object::{keys_to_map, TableSchema};
use crate::codec::canonical;
use crate::error::ErrorSpec;
use crate::protos::bfrt_proto::{DataFieldView, DataValueView, TargetDevice};
use crate::table::action_data::{NamedByteList, NamedBytes};
use crate::table::match_value::MatchSpec;
use crate::table::table_entry::{NamedMatch, RequestView};
use crate::seq_ext::{
    is_first, lemma_first_index, lemma_first_index_none, lemma_first_index_some, lemma_try_map_ok,
    lemma_try_map_pointwise, try_map,
};

verus! {

/// A match value with every byte payload in canonical form for `width` bits.
pub open spec fn canonical_match(m: MatchSpec, width: u32) -> MatchSpec {
    match m {
        MatchSpec::Exact { bytes } => MatchSpec::Exact { bytes: canonical(bytes, width) },
        MatchSpec::Range { low, high } => MatchSpec::Range {
            low: canonical(low, width),
            high: canonical(high, width),
        },
        MatchSpec::Lpm { bytes, prefix_len } => MatchSpec::Lpm { bytes: canonical(bytes, width), prefix_len },
        MatchSpec::Ternary { value, mask } => MatchSpec::Ternary {
            value: canonical(value, width),
            mask: canonical(mask, width),
        },
    }
}

impl TableSchema {
    /// Ids are unique in their scope: among the keys, among the actions,
    /// among the parameters of each action and among the singletons; and no
    /// parameter shares its id with a singleton.
    pub open spec fn wf(self) -> bool {
        &&& forall|i: int, j: int|
            0 <= i < j < self.keys.len() ==> (#[trigger] self.keys[i]).id != (#[trigger] self.keys[j]).id
        &&& forall|i: int, j: int|
            0 <= i < j < self.actions.len() ==> (#[trigger] self.actions[i]).id != (#[trigger] self.actions[j]).id
        &&& forall|i: int, j: int|
            0 <= i < j < self.singletons.len() ==> (#[trigger] self.singletons[i]).id != (
            #[trigger] self.singletons[j]).id
        &&& forall|a: int, i: int, j: int|
            0 <= a < self.actions.len() && 0 <= i < j < self.actions[a].params.len() ==> (
            #[trigger] self.actions[a].params[i]).id != (#[trigger] self.actions[a].params[j]).id
        &&& forall|a: int, i: int, s: int|
            0 <= a < self.actions.len() && 0 <= i < self.actions[a].params.len() && 0 <= s
                < self.singletons.len() ==> (#[trigger] self.actions[a].params[i]).id != (
            #[trigger] self.singletons[s]).id
    }

    /// The match key `k` of a request as a read of the written entry reports it.
    pub open spec fn canonical_key(self, k: NamedMatch) -> NamedMatch {
        NamedMatch {
            name: k.name,
            value: canonical_match(
                k.value,
                self.keys[self.key_by_name(k.name)->Some_0].field_type.spec_width(),
            ),
        }
    }

    /// The action data `d` of a request as a read of the written entry reports it.
    pub open spec fn canonical_data(self, action: Option<Seq<char>>, d: NamedBytes) -> NamedBytes {
        NamedBytes {
            key: d.key,
            data: canonical(d.data, self.resolve_field(action, d.key)->Ok_0.field_type.spec_width()),
        }
    }

    /// Whether a read reports the action data of the request under the
    /// names and with the bytes that the request gave: every value goes
    /// out as a byte stream, and the table's kind resolves each id in the
    /// namespace from which the name came.
    pub open spec fn reads_back(self, req: RequestView) -> bool {
        &&& req.action_data_repeated.len() == 0
        &&& self.kind is MatchActionDirect ==> req.action is Some
        &&& forall|i: int|
            0 <= i < req.action_data.len() ==> {
                let d = #[trigger] req.action_data[i];
                &&& self.resolve_field(req.action, d.key) matches Ok(f)
                &&& !(f.field_type.kind() is Text)
                &&& !(f.field_type.kind() is Bool)
                &&& !(self.kind is MatchActionDirect) ==> self.singleton_by_name(d.key) is Some
            }
    }
}

/// What was encoded for a key decodes to the key's name and canonical value.
proof fn lemma_key_round_trip(t: TableSchema, k: NamedMatch)
    requires
        t.wf(),
        t.encode_key(k) is Ok,
    ensures
        t.decode_key(t.encode_key(k)->Ok_0) == Ok::<NamedMatch, ErrorSpec>(t.canonical_key(k)),
{
    let p = |x: KeySchema| x.name == k.name;
    lemma_first_index(t.keys, p);
    let i = t.key_by_name(k.name)->Some_0;
    let key = t.keys[i];
    let q = |x: KeySchema| x.id == key.id;
    assert(is_first(t.keys, q, i)) by {
        assert forall|j: int| 0 <= j < i implies !q(#[trigger] t.keys[j]) by {
            assert(t.keys[j].id != t.keys[i].id);
        }
    }
    lemma_first_index_some(t.keys, q, i);
    assert(t.encode_key(k)->Ok_0.field_id == key.id);
}

/// What was encoded for a value of action data decodes to its name and
/// canonical bytes.
proof fn lemma_data_round_trip(t: TableSchema, req: RequestView, i: int)
    requires
        t.wf(),
        t.reads_back(req),
        0 <= i < req.action_data.len(),
        t.scalar_field(req.action, req.action_data[i]) is Ok,
        t.action_id(req.action) is Ok,
    ensures
        t.decode_field(t.action_id(req.action)->Ok_0, t.scalar_field(req.action, req.action_data[i])->Ok_0)
            == Ok::<NamedBytes, ErrorSpec>(t.canonical_data(req.action, req.action_data[i])),
{
    let d = req.action_data[i];
    let field = t.resolve_field(req.action, d.key)->Ok_0;
    let wire = t.scalar_field(req.action, d)->Ok_0;
    assert(wire.field_id == field.id);
    assert(wire.value == DataValueView::Stream(canonical(d.data, field.field_type.spec_width())));
    let action_id = t.action_id(req.action)->Ok_0;
    let s = t.singleton_by_name(d.key);
    let ps = |x: FieldSchema| x.name == d.key;
    lemma_first_index(t.singletons, ps);
    if t.kind is MatchActionDirect {
        let name = req.action->Some_0;
        let pa = |x: ActionSchema| x.name == name;
        lemma_first_index(t.actions, pa);
        let a = t.action_by_name(name)->Some_0;
        let qa = |x: ActionSchema| x.id == action_id;
        assert(is_first(t.actions, qa, a)) by {
            assert forall|j: int| 0 <= j < a implies !qa(#[trigger] t.actions[j]) by {
                assert(t.actions[j].id != t.actions[a].id);
            }
        }
        lemma_first_index_some(t.actions, qa, a);
        let params = t.actions[a].params;
        let qp = |x: ParamSchema| x.id == field.id;
        if s is Some {
            let si = s->Some_0;
            assert forall|j: int| 0 <= j < params.len() implies !qp(#[trigger] params[j]) by {
                assert(t.actions[a].params[j].id != t.singletons[si].id);
            }
            lemma_first_index_none(params, qp);
            let qs = |x: FieldSchema| x.id == field.id;
            assert(is_first(t.singletons, qs, si)) by {
                assert forall|j: int| 0 <= j < si implies !qs(#[trigger] t.singletons[j]) by {
                    assert(t.singletons[j].id != t.singletons[si].id);
                }
            }
            lemma_first_index_some(t.singletons, qs, si);
        } else {
            let pp = |x: ParamSchema| x.name == d.key;
            lemma_first_index(params, pp);
            let pi = t.actions[a].param_by_name(d.key)->Some_0;
            assert(is_first(params, qp, pi)) by {
                assert forall|j: int| 0 <= j < pi implies !qp(#[trigger] params[j]) by {
                    assert(t.actions[a].params[j].id != t.actions[a].params[pi].id);
                }
            }
            lemma_first_index_some(params, qp, pi);
        }
    } else {
        let si = s->Some_0;
        let qs = |x: FieldSchema| x.id == field.id;
        assert(is_first(t.singletons, qs, si)) by {
            assert forall|j: int| 0 <= j < si implies !qs(#[trigger] t.singletons[j]) by {
                assert(t.singletons[j].id != t.singletons[si].id);
            }
        }
        lemma_first_index_some(t.singletons, qs, si);
    }
}

/// Writing and reading back: the entity that `write_update` builds for a
/// request decodes, in a table whose ids are unique, to an entry that holds
/// the request's match keys and action data in canonical form, provided the
/// action data reads back (see `reads_back`).
pub proof fn lemma_write_then_parse(t: TableSchema, req: RequestView, target: TargetDevice, table_name: Seq<char>)
    requires
        t.wf(),
        t.reads_back(req),
        t.write_update(req, target) is Ok,
    ensures
        t.parse_entity(t.write_update(req, target)->Ok_0.entity, table_name) matches Ok(e) && e.table_id == t.id
            && e.table_name == table_name && e.default_entry == req.is_default_entry && e.match_keys
            == keys_to_map(req.keys.map_values(|k: NamedMatch| t.canonical_key(k))) && e.action_data
            == req.action_data.map_values(|d: NamedBytes| t.canonical_data(req.action, d)),
{
    let update = t.write_update(req, target)->Ok_0;
    let data = t.table_data(req)->Ok_0;
    let value = t.key_data(req.keys)->Ok_0;
    // the keys
    let expect_keys = req.keys.map_values(|k: NamedMatch| t.canonical_key(k));
    if req.keys.len() > 0 {
        let fields = try_map(req.keys, t.key_encoder())->Ok_0;
        lemma_try_map_ok(req.keys, t.key_encoder());
        assert forall|i: int| 0 <= i < fields.len() implies (t.key_decoder())(#[trigger] fields[i]) == Ok::<
            NamedMatch,
            ErrorSpec,
        >(expect_keys[i]) by {
            assert((t.key_encoder())(req.keys[i]) == t.encode_key(req.keys[i]));
            lemma_key_round_trip(t, req.keys[i]);
        }
        lemma_try_map_pointwise(fields, t.key_decoder(), expect_keys);
    } else {
        assert(expect_keys =~= Seq::<NamedMatch>::empty());
    }
    // the action
    let action_id = t.action_id(req.action)->Ok_0;
    if t.kind is MatchActionDirect {
        let name = req.action->Some_0;
        let pa = |x: ActionSchema| x.name == name;
        lemma_first_index(t.actions, pa);
        let a = t.action_by_name(name)->Some_0;
        let qa = |x: ActionSchema| x.id == action_id;
        assert(is_first(t.actions, qa, a)) by {
            assert forall|j: int| 0 <= j < a implies !qa(#[trigger] t.actions[j]) by {
                assert(t.actions[j].id != t.actions[a].id);
            }
        }
        lemma_first_index_some(t.actions, qa, a);
    }
    // the data
    let single = try_map(req.action_data, t.scalar_encoder(req.action))->Ok_0;
    lemma_try_map_ok(req.action_data, t.scalar_encoder(req.action));
    assert(req.action_data_repeated =~= Seq::<NamedByteList>::empty());
    let lists = try_map(req.action_data_repeated, t.repeated_encoder(req.action))->Ok_0;
    assert(lists =~= Seq::<DataFieldView>::empty());
    assert(data.fields =~= single);
    let expect_data = req.action_data.map_values(|d: NamedBytes| t.canonical_data(req.action, d));
    assert forall|i: int| 0 <= i < single.len() implies (t.field_decoder(action_id))(#[trigger] single[i]) == Ok::<
        NamedBytes,
        ErrorSpec,
    >(expect_data[i]) by {
        assert((t.scalar_encoder(req.action))(req.action_data[i]) == t.scalar_field(
            req.action,
            req.action_data[i],
        ));
        lemma_data_round_trip(t, req, i);
    }
    lemma_try_map_pointwise(single, t.field_decoder(action_id), expect_data);
}

} // verus!
