//! What holds of the decoder on payloads that are well formed: in each of the
//! four shapes the decoder gives one variable for each entry, and each
//! variable has the type that its entry names.

use vstd::prelude::*;

use crate::json::{lemma_member_value_occurs, member_value, text_member, JsonModel};
use crate::process_variables::{
    all_entries, all_entry_maps, decoded, document_variables, entries_end, entry_of, has_named,
    holds_entries, is_entry_map, lemma_entries_end, lemma_maps_end, maps_end, shape_of,
    stream_variables, type_tag, variable_of, with_maps, with_members, with_named, Shape,
    VariableModel,
};
use crate::string_map::{
    distinct_keys, lemma_pairs_map_len, lemma_pairs_map_value, pairs_map,
};

verus! {

/// Whether a document holds an entry of one of the three types that the
/// decoder knows.
pub open spec fn is_typed_entry(doc: JsonModel) -> bool {
    entry_of(doc).is_some() && variable_of(entry_of(doc).unwrap()).is_some()
}

/// Whether a document holds an entry of a known type that carries a name.
pub open spec fn is_named_entry(doc: JsonModel) -> bool {
    is_typed_entry(doc) && entry_of(doc).unwrap().name.len() > 0
}

/// Whether a document is an object in which every member is an entry of a
/// known type.
pub open spec fn is_typed_entry_map(doc: JsonModel) -> bool {
    doc matches JsonModel::Object(members) && forall|i: int|
        0 <= i < members.len() ==> is_typed_entry((#[trigger] members[i]).1)
}

/// The variable that an entry of a known type describes.
pub open spec fn entry_variable(doc: JsonModel) -> VariableModel {
    variable_of(entry_of(doc).unwrap()).unwrap()
}

/// Each member's key with the variable of the member's entry.
pub open spec fn member_variables(members: Seq<(Seq<char>, JsonModel)>) -> Seq<
    (Seq<char>, VariableModel),
> {
    Seq::new(members.len(), |i: int| (members[i].0, entry_variable(members[i].1)))
}

/// Each entry's own name with the entry's variable.
pub open spec fn named_variables(docs: Seq<JsonModel>) -> Seq<(Seq<char>, VariableModel)> {
    Seq::new(docs.len(), |i: int| (entry_of(docs[i]).unwrap().name, entry_variable(docs[i])))
}

/// The members of all the objects, one object after the other.
pub open spec fn all_members(docs: Seq<JsonModel>) -> Seq<(Seq<char>, JsonModel)>
    decreases docs.len(),
{
    if docs.len() == 0 {
        Seq::empty()
    } else {
        all_members(docs.drop_last()) + docs.last()->Object_0
    }
}

/// The variable of an entry of a known type has the type that the entry
/// names.
pub proof fn lemma_variable_keeps_type(doc: JsonModel)
    requires
        is_typed_entry(doc),
    ensures
        type_tag(entry_variable(doc)) == entry_of(doc).unwrap().typ,
{
}

proof fn lemma_with_members_split(
    vars: Map<Seq<char>, VariableModel>,
    front: Seq<(Seq<char>, JsonModel)>,
    back: Seq<(Seq<char>, JsonModel)>,
)
    ensures
        with_members(vars, front + back) == with_members(with_members(vars, front), back),
    decreases back.len(),
{
    if back.len() == 0 {
        assert(front + back =~= front);
    } else {
        lemma_with_members_split(vars, front, back.drop_last());
        assert((front + back).drop_last() =~= front + back.drop_last());
        assert((front + back).last() == back.last());
    }
}

proof fn lemma_with_maps_members(docs: Seq<JsonModel>)
    ensures
        with_maps(Map::empty(), docs) == with_members(Map::empty(), all_members(docs)),
    decreases docs.len(),
{
    if docs.len() > 0 {
        lemma_with_maps_members(docs.drop_last());
        lemma_with_members_split(
            Map::empty(),
            all_members(docs.drop_last()),
            docs.last()->Object_0,
        );
    }
}

proof fn lemma_all_members_typed(docs: Seq<JsonModel>)
    requires
        forall|i: int| 0 <= i < docs.len() ==> is_typed_entry_map(#[trigger] docs[i]),
    ensures
        forall|i: int|
            0 <= i < all_members(docs).len() ==> is_typed_entry((#[trigger] all_members(docs)[i]).1),
    decreases docs.len(),
{
    if docs.len() > 0 {
        let front = docs.drop_last();
        assert forall|i: int| 0 <= i < front.len() implies is_typed_entry_map(
            #[trigger] front[i],
        ) by {
            assert(is_typed_entry_map(docs[i]));
        }
        lemma_all_members_typed(front);
        assert(is_typed_entry_map(docs[docs.len() - 1]));
        let before = all_members(front);
        let last = docs.last()->Object_0;
        assert forall|i: int| 0 <= i < all_members(docs).len() implies is_typed_entry(
            (#[trigger] all_members(docs)[i]).1,
        ) by {
            if i < before.len() {
                assert(all_members(docs)[i] == before[i]);
            } else {
                assert(all_members(docs)[i] == last[i - before.len()]);
            }
        }
    }
}

proof fn lemma_with_members_pairs(members: Seq<(Seq<char>, JsonModel)>)
    requires
        forall|i: int| 0 <= i < members.len() ==> is_typed_entry((#[trigger] members[i]).1),
    ensures
        with_members(Map::empty(), members) == pairs_map(member_variables(members)),
    decreases members.len(),
{
    if members.len() > 0 {
        let front = members.drop_last();
        assert forall|i: int| 0 <= i < front.len() implies is_typed_entry(
            (#[trigger] front[i]).1,
        ) by {
            assert(is_typed_entry(members[i].1));
        }
        lemma_with_members_pairs(front);
        assert(is_typed_entry(members[members.len() - 1].1));
        assert(member_variables(members).drop_last() =~= member_variables(front));
    }
}

proof fn lemma_with_named_pairs(docs: Seq<JsonModel>)
    requires
        forall|i: int| 0 <= i < docs.len() ==> is_named_entry(#[trigger] docs[i]),
    ensures
        with_named(Map::empty(), docs) == pairs_map(named_variables(docs)),
    decreases docs.len(),
{
    if docs.len() > 0 {
        let front = docs.drop_last();
        assert forall|i: int| 0 <= i < front.len() implies is_named_entry(#[trigger] front[i]) by {
            assert(is_named_entry(docs[i]));
        }
        lemma_with_named_pairs(front);
        assert(is_named_entry(docs[docs.len() - 1]));
        assert(named_variables(docs).drop_last() =~= named_variables(front));
    }
}

/// An object from names to entries holds no entry itself: its `type` would
/// have to be a string and an entry at once.
pub proof fn lemma_entry_map_is_no_entry(doc: JsonModel)
    requires
        is_entry_map(doc),
    ensures
        entry_of(doc).is_none(),
{
    let members = doc->Object_0;
    if text_member(members, "type"@).is_some() {
        lemma_member_value_occurs(members, "type"@);
        let i = choose|i: int|
            0 <= i < members.len() && #[trigger] members[i] == (
                "type"@,
                member_value(members, "type"@).unwrap(),
            );
        assert(entry_of(members[i].1).is_some());
    }
}

/// What the members' entries decode to, where every entry has a known type
/// and no key occurs twice: one variable for each member, under the member's
/// key, of the type that the entry names.
proof fn lemma_members_decoded(members: Seq<(Seq<char>, JsonModel)>)
    requires
        distinct_keys(members),
        forall|i: int| 0 <= i < members.len() ==> is_typed_entry((#[trigger] members[i]).1),
    ensures
        with_members(Map::empty(), members).dom().finite(),
        with_members(Map::empty(), members).len() == members.len(),
        forall|i: int|
            0 <= i < members.len() ==> {
                &&& with_members(Map::empty(), members).contains_key((#[trigger] members[i]).0)
                &&& type_tag(with_members(Map::empty(), members)[members[i].0]) == entry_of(
                    members[i].1,
                ).unwrap().typ
            },
{
    let pairs = member_variables(members);
    lemma_with_members_pairs(members);
    assert(distinct_keys(pairs)) by {
        assert forall|i: int, j: int| 0 <= i < j < pairs.len() implies (#[trigger] pairs[i]).0 != (
        #[trigger] pairs[j]).0 by {
            assert(members[i].0 != members[j].0);
        }
    }
    lemma_pairs_map_len(pairs);
    assert forall|i: int| 0 <= i < members.len() implies {
        &&& with_members(Map::empty(), members).contains_key((#[trigger] members[i]).0)
        &&& type_tag(with_members(Map::empty(), members)[members[i].0]) == entry_of(
            members[i].1,
        ).unwrap().typ
    } by {
        lemma_pairs_map_value(pairs, i);
        assert(pairs[i] == (members[i].0, entry_variable(members[i].1)));
        assert(is_typed_entry(members[i].1));
        lemma_variable_keeps_type(members[i].1);
    }
}

proof fn lemma_named_decoded(docs: Seq<JsonModel>)
    requires
        distinct_keys(named_variables(docs)),
        forall|i: int| 0 <= i < docs.len() ==> is_named_entry(#[trigger] docs[i]),
    ensures
        with_named(Map::empty(), docs).dom().finite(),
        with_named(Map::empty(), docs).len() == docs.len(),
        forall|i: int|
            0 <= i < docs.len() ==> {
                &&& with_named(Map::empty(), docs).contains_key(
                    (#[trigger] entry_of(docs[i])).unwrap().name,
                )
                &&& type_tag(with_named(Map::empty(), docs)[entry_of(docs[i]).unwrap().name])
                    == entry_of(docs[i]).unwrap().typ
            },
{
    let pairs = named_variables(docs);
    lemma_with_named_pairs(docs);
    lemma_pairs_map_len(pairs);
    assert forall|i: int| 0 <= i < docs.len() implies {
        &&& with_named(Map::empty(), docs).contains_key(
            (#[trigger] entry_of(docs[i])).unwrap().name,
        )
        &&& type_tag(with_named(Map::empty(), docs)[entry_of(docs[i]).unwrap().name]) == entry_of(
            docs[i],
        ).unwrap().typ
    } by {
        lemma_pairs_map_value(pairs, i);
        assert(pairs[i] == (entry_of(docs[i]).unwrap().name, entry_variable(docs[i])));
        assert(is_named_entry(docs[i]));
        lemma_variable_keeps_type(docs[i]);
    }
}

/// The first shape. A payload that is one object from names to entries, each
/// of a known type and no name twice, decodes to as many variables as the
/// object has members, and the variable under each name has the type that
/// the entry names.
pub proof fn law_entry_map(members: Seq<(Seq<char>, JsonModel)>, stream: Seq<JsonModel>)
    requires
        distinct_keys(members),
        forall|i: int| 0 <= i < members.len() ==> is_typed_entry((#[trigger] members[i]).1),
    ensures
        decoded(Some(JsonModel::Object(members)), stream).dom().finite(),
        decoded(Some(JsonModel::Object(members)), stream).len() == members.len(),
        forall|i: int|
            0 <= i < members.len() ==> {
                &&& decoded(Some(JsonModel::Object(members)), stream).contains_key(
                    (#[trigger] members[i]).0,
                )
                &&& type_tag(decoded(Some(JsonModel::Object(members)), stream)[members[i].0])
                    == entry_of(members[i].1).unwrap().typ
            },
{
    let doc = JsonModel::Object(members);
    assert(holds_entries(members)) by {
        assert forall|i: int| 0 <= i < members.len() implies entry_of(
            (#[trigger] members[i]).1,
        ).is_some() by {
            assert(is_typed_entry(members[i].1));
        }
    }
    assert(is_entry_map(doc));
    assert(decoded(Some(doc), stream) == with_members(Map::empty(), members));
    lemma_members_decoded(members);
}

/// The second shape. A payload that is one array of entries, each of a known
/// type and with a name of its own that no other entry has, decodes to as
/// many variables as the array has entries, and the variable under each name
/// has the type that the entry names.
pub proof fn law_entry_array(docs: Seq<JsonModel>, stream: Seq<JsonModel>)
    requires
        distinct_keys(named_variables(docs)),
        forall|i: int| 0 <= i < docs.len() ==> is_named_entry(#[trigger] docs[i]),
    ensures
        decoded(Some(JsonModel::Array(docs)), stream).dom().finite(),
        decoded(Some(JsonModel::Array(docs)), stream).len() == docs.len(),
        forall|i: int|
            0 <= i < docs.len() ==> {
                &&& decoded(Some(JsonModel::Array(docs)), stream).contains_key(
                    (#[trigger] entry_of(docs[i])).unwrap().name,
                )
                &&& type_tag(
                    decoded(Some(JsonModel::Array(docs)), stream)[entry_of(docs[i]).unwrap().name],
                ) == entry_of(docs[i]).unwrap().typ
            },
{
    let doc = JsonModel::Array(docs);
    assert(all_entries(docs)) by {
        assert forall|i: int| 0 <= i < docs.len() implies entry_of(#[trigger] docs[i]).is_some() by {
            assert(is_named_entry(docs[i]));
        }
    }
    assert(decoded(Some(doc), stream) == with_named(Map::empty(), docs));
    lemma_named_decoded(docs);
}

/// The third shape. A payload that is one array of objects from names to
/// entries, each entry of a known type and no name twice in the whole array,
/// decodes to as many variables as the objects have members together, and the
/// variable under each name has the type that the entry names.
pub proof fn law_map_array(docs: Seq<JsonModel>, stream: Seq<JsonModel>)
    requires
        distinct_keys(all_members(docs)),
        forall|i: int| 0 <= i < docs.len() ==> is_typed_entry_map(#[trigger] docs[i]),
    ensures
        decoded(Some(JsonModel::Array(docs)), stream).dom().finite(),
        decoded(Some(JsonModel::Array(docs)), stream).len() == all_members(docs).len(),
        forall|i: int|
            0 <= i < all_members(docs).len() ==> {
                &&& decoded(Some(JsonModel::Array(docs)), stream).contains_key(
                    (#[trigger] all_members(docs)[i]).0,
                )
                &&& type_tag(
                    decoded(Some(JsonModel::Array(docs)), stream)[all_members(docs)[i].0],
                ) == entry_of(all_members(docs)[i].1).unwrap().typ
            },
{
    let doc = JsonModel::Array(docs);
    lemma_typed_maps_are_maps(docs);
    lemma_with_maps_members(docs);
    lemma_all_members_typed(docs);
    lemma_members_decoded(all_members(docs));
    if docs.len() == 0 {
        assert(all_entries(docs));
        assert(all_members(docs) =~= Seq::empty());
    } else {
        lemma_entry_map_is_no_entry(docs[0]);
        assert(!all_entries(docs));
    }
    assert(decoded(Some(doc), stream) == with_members(Map::empty(), all_members(docs)));
}

proof fn lemma_typed_maps_are_maps(docs: Seq<JsonModel>)
    requires
        forall|i: int| 0 <= i < docs.len() ==> is_typed_entry_map(#[trigger] docs[i]),
    ensures
        all_entry_maps(docs),
{
    assert forall|i: int| 0 <= i < docs.len() implies is_entry_map(#[trigger] docs[i]) by {
        assert(is_typed_entry_map(docs[i]));
        let members = docs[i]->Object_0;
        assert forall|k: int| 0 <= k < members.len() implies entry_of(
            (#[trigger] members[k]).1,
        ).is_some() by {
            assert(is_typed_entry(members[k].1));
        }
    }
}

/// The fourth shape, with entries. A payload that is no single document of
/// the first three shapes, and holds entries one after the other, each of a
/// known type and with a name of its own that no other entry has, decodes to
/// as many variables as there are entries, and the variable under each name
/// has the type that the entry names.
pub proof fn law_entry_stream(doc: Option<JsonModel>, stream: Seq<JsonModel>)
    requires
        doc matches Some(d) ==> document_variables(d).is_none(),
        distinct_keys(named_variables(stream)),
        forall|i: int| 0 <= i < stream.len() ==> is_named_entry(#[trigger] stream[i]),
    ensures
        decoded(doc, stream).dom().finite(),
        decoded(doc, stream).len() == stream.len(),
        forall|i: int|
            0 <= i < stream.len() ==> {
                &&& decoded(doc, stream).contains_key((#[trigger] entry_of(stream[i])).unwrap().name)
                &&& type_tag(decoded(doc, stream)[entry_of(stream[i]).unwrap().name]) == entry_of(
                    stream[i],
                ).unwrap().typ
            },
{
    assert(decoded(doc, stream) == stream_variables(stream));
    lemma_entries_end(stream, 0);
    let end = entries_end(stream, 0);
    if end < stream.len() {
        assert(is_named_entry(stream[end]));
    }
    assert(stream.take(end) =~= stream);
    lemma_named_decoded(stream);
    if stream.len() > 0 {
        assert(is_named_entry(stream[0]));
        assert(entry_of(stream[0]).unwrap().name.len() > 0);
        assert(has_named(stream));
    } else {
        assert(!has_named(stream));
        lemma_maps_end(stream, 0);
        assert(stream.take(maps_end(stream, 0)) =~= Seq::empty());
    }
}

/// The fourth shape, with objects. A payload that is no single document of
/// the first three shapes, and holds objects from names to entries one after
/// the other, each entry of a known type and no name twice in the whole
/// payload, decodes to as many variables as the objects have members
/// together, and the variable under each name has the type that the entry
/// names.
pub proof fn law_map_stream(doc: Option<JsonModel>, stream: Seq<JsonModel>)
    requires
        doc matches Some(d) ==> document_variables(d).is_none(),
        distinct_keys(all_members(stream)),
        forall|i: int| 0 <= i < stream.len() ==> is_typed_entry_map(#[trigger] stream[i]),
    ensures
        decoded(doc, stream).dom().finite(),
        decoded(doc, stream).len() == all_members(stream).len(),
        forall|i: int|
            0 <= i < all_members(stream).len() ==> {
                &&& decoded(doc, stream).contains_key((#[trigger] all_members(stream)[i]).0)
                &&& type_tag(decoded(doc, stream)[all_members(stream)[i].0]) == entry_of(
                    all_members(stream)[i].1,
                ).unwrap().typ
            },
{
    assert(decoded(doc, stream) == stream_variables(stream));
    lemma_typed_maps_are_maps(stream);
    lemma_with_maps_members(stream);
    lemma_all_members_typed(stream);
    lemma_members_decoded(all_members(stream));
    lemma_entries_end(stream, 0);
    lemma_maps_end(stream, 0);
    let end = maps_end(stream, 0);
    if end < stream.len() {
        assert(is_entry_map(stream[end]));
    }
    assert(stream.take(end) =~= stream);
    if stream.len() > 0 {
        lemma_entry_map_is_no_entry(stream[0]);
        assert(entries_end(stream, 0) == 0);
    }
    assert(stream.take(entries_end(stream, 0)) =~= Seq::empty()) by {
        if stream.len() == 0 {
        }
    }
    assert(!has_named(stream.take(entries_end(stream, 0))));
}

/// A payload of no shape decodes to no variables. Such is every payload in
/// which no JSON can be read at all.
pub proof fn law_unreadable_is_empty(doc: Option<JsonModel>, stream: Seq<JsonModel>)
    requires
        shape_of(doc, stream) == Shape::Unreadable,
    ensures
        decoded(doc, stream) == Map::<Seq<char>, VariableModel>::empty(),
        shape_of(None, Seq::empty()) == Shape::Unreadable,
{
    lemma_maps_end(stream, 0);
    assert(stream.take(maps_end(stream, 0)) =~= Seq::empty());
    let none: Seq<JsonModel> = Seq::empty();
    lemma_entries_end(none, 0);
    lemma_maps_end(none, 0);
    assert(none.take(entries_end(none, 0)) =~= Seq::empty());
    assert(!has_named(none.take(entries_end(none, 0))));
}

} // verus!
