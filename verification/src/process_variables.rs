//! The engine's typed variables, and the decoder for the payloads in which
//! the engine sends them.
//!
//! The engine is known to answer in four shapes: an object from names to
//! entries, an array of entries that carry their own name, an array of such
//! objects, and such entries or objects written one after the other. The
//! decoder tries them in this order and keeps to the first that fits.

use vstd::prelude::*;

use crate::codec::{parsed_document, parsed_stream};
use crate::json::{
    bool_member, items_model, lemma_model_of_parts, member_value, members_model, text_member, Json,
    JsonModel,
};
use crate::string_map::{pairs_map, StringMap};

verus! {

/// The description of a JSON node that the engine sends as the value of a
/// variable of type `Json`.
#[derive(Debug)]
pub struct JsonValue {
    data_format_name: String,
    value: Json,
    string: bool,
    object: bool,
    boolean: bool,
    number: bool,
    array: bool,
    null_val: bool,
    node_type: String,
}

/// The model of a [`JsonValue`].
pub struct JsonValueModel {
    pub data_format_name: Seq<char>,
    pub value: JsonModel,
    pub string: bool,
    pub object: bool,
    pub boolean: bool,
    pub number: bool,
    pub array: bool,
    pub null_val: bool,
    pub node_type: Seq<char>,
}

impl View for JsonValue {
    type V = JsonValueModel;

    closed spec fn view(&self) -> JsonValueModel {
        JsonValueModel {
            data_format_name: self.data_format_name@,
            value: self.value@,
            string: self.string,
            object: self.object,
            boolean: self.boolean,
            number: self.number,
            array: self.array,
            null_val: self.null_val,
            node_type: self.node_type@,
        }
    }
}

/// A variable of type `Json`.
#[derive(Debug)]
pub struct JsonVar {
    pub json_value: JsonValue,
    pub value_info: StringMap<Json>,
}

/// A variable of type `Boolean`.
#[derive(Debug)]
pub struct BoolVar {
    pub value: bool,
    pub value_info: StringMap<Json>,
}

/// A variable of type `String`.
#[derive(Debug)]
pub struct StringVar {
    pub value: String,
    pub value_info: StringMap<Json>,
}

/// A typed variable of a process instance. The variant is the variable's
/// type, and holds the one payload that this type has.
#[derive(Debug)]
pub enum ProcessInstanceVariable {
    Json(JsonVar),
    Boolean(BoolVar),
    String(StringVar),
}

/// The model of a [`ProcessInstanceVariable`]: the payload and the metadata.
#[allow(inconsistent_fields)]
pub enum VariableModel {
    Json { json_value: JsonValueModel, value_info: Map<Seq<char>, JsonModel> },
    Boolean { value: bool, value_info: Map<Seq<char>, JsonModel> },
    String { value: Seq<char>, value_info: Map<Seq<char>, JsonModel> },
}

impl View for ProcessInstanceVariable {
    type V = VariableModel;

    open spec fn view(&self) -> VariableModel {
        match self {
            ProcessInstanceVariable::Json(v) => VariableModel::Json {
                json_value: v.json_value@,
                value_info: v.value_info@,
            },
            ProcessInstanceVariable::Boolean(v) => VariableModel::Boolean {
                value: v.value,
                value_info: v.value_info@,
            },
            ProcessInstanceVariable::String(v) => VariableModel::String {
                value: v.value@,
                value_info: v.value_info@,
            },
        }
    }
}

/// The variables of one task, by name.
pub type InputVariables = StringMap<ProcessInstanceVariable>;

/// The name of the type that a variable has on the wire.
pub open spec fn type_tag(variable: VariableModel) -> Seq<char> {
    match variable {
        VariableModel::Json { .. } => "Json"@,
        VariableModel::Boolean { .. } => "Boolean"@,
        VariableModel::String { .. } => "String"@,
    }
}

impl ProcessInstanceVariable {
    /// The truth value of a `Boolean` variable; `None` for any other.
    pub fn as_bool(&self) -> (value: Option<bool>)
        ensures
            value == (match self@ {
                VariableModel::Boolean { value, .. } => Some(value),
                _ => None,
            }),
    {
        match self {
            ProcessInstanceVariable::Boolean(b) => Some(b.value),
            _ => None,
        }
    }

    /// The text of a `String` variable; `None` for any other.
    pub fn as_str(&self) -> (text: Option<&str>)
        ensures
            match self@ {
                VariableModel::String { value, .. } => text.is_some() && text.unwrap()@ == value,
                _ => text.is_none(),
            },
    {
        match self {
            ProcessInstanceVariable::String(s) => Some(s.value.as_str()),
            _ => None,
        }
    }

    /// The document of a `Json` variable; `None` for any other.
    pub fn as_json(&self) -> (doc: Option<&Json>)
        ensures
            match self@ {
                VariableModel::Json { json_value, .. } => doc.is_some() && doc.unwrap()@
                    == json_value.value,
                _ => doc.is_none(),
            },
    {
        match self {
            ProcessInstanceVariable::Json(j) => Some(&j.json_value.value),
            _ => None,
        }
    }
}

/// What stands for a `Json` variable whose value is no description of a JSON
/// node: the JSON `null`, with empty names.
pub open spec fn null_json_value() -> JsonValueModel {
    JsonValueModel {
        data_format_name: Seq::empty(),
        value: JsonModel::Null,
        string: false,
        object: false,
        boolean: false,
        number: false,
        array: false,
        null_val: true,
        node_type: Seq::empty(),
    }
}

/// The description of a JSON node that a document holds: an object that has
/// the two names as strings, the six flags as truth values, and a value.
pub open spec fn json_value_of(doc: JsonModel) -> Option<JsonValueModel> {
    match doc {
        JsonModel::Object(m) => {
            if text_member(m, "dataFormatName"@).is_some() && member_value(m, "value"@).is_some()
                && bool_member(m, "string"@).is_some() && bool_member(m, "object"@).is_some()
                && bool_member(m, "boolean"@).is_some() && bool_member(m, "number"@).is_some()
                && bool_member(m, "array"@).is_some() && bool_member(m, "null"@).is_some()
                && text_member(m, "nodeType"@).is_some() {
                Some(
                    JsonValueModel {
                        data_format_name: text_member(m, "dataFormatName"@).unwrap(),
                        value: member_value(m, "value"@).unwrap(),
                        string: bool_member(m, "string"@).unwrap(),
                        object: bool_member(m, "object"@).unwrap(),
                        boolean: bool_member(m, "boolean"@).unwrap(),
                        number: bool_member(m, "number"@).unwrap(),
                        array: bool_member(m, "array"@).unwrap(),
                        null_val: bool_member(m, "null"@).unwrap(),
                        node_type: text_member(m, "nodeType"@).unwrap(),
                    },
                )
            } else {
                None
            }
        },
        _ => None,
    }
}

impl JsonValue {
    /// The JSON document that the description carries.
    pub fn value(&self) -> (doc: &Json)
        ensures
            doc@ == self@.value,
    {
        &self.value
    }

    /// What stands for a value that is no description of a JSON node.
    pub fn null() -> (placeholder: JsonValue)
        ensures
            placeholder@ == null_json_value(),
    {
        JsonValue {
            data_format_name: String::new(),
            value: Json::Null,
            string: false,
            object: false,
            boolean: false,
            number: false,
            array: false,
            null_val: true,
            node_type: String::new(),
        }
    }

    /// Reads the description of a JSON node from a document.
    pub fn from_json(doc: &Json) -> (read: Option<JsonValue>)
        ensures
            match read {
                Some(v) => json_value_of(doc@) == Some(v@),
                None => json_value_of(doc@).is_none(),
            },
    {
        let data_format_name = match doc.text_field("dataFormatName") {
            Some(t) => t.clone(),
            None => { return None; },
        };
        let value = match doc.field("value") {
            Some(v) => v.clone(),
            None => { return None; },
        };
        let string = match doc.bool_field("string") {
            Some(b) => b,
            None => { return None; },
        };
        let object = match doc.bool_field("object") {
            Some(b) => b,
            None => { return None; },
        };
        let boolean = match doc.bool_field("boolean") {
            Some(b) => b,
            None => { return None; },
        };
        let number = match doc.bool_field("number") {
            Some(b) => b,
            None => { return None; },
        };
        let array = match doc.bool_field("array") {
            Some(b) => b,
            None => { return None; },
        };
        let null_val = match doc.bool_field("null") {
            Some(b) => b,
            None => { return None; },
        };
        let node_type = match doc.text_field("nodeType") {
            Some(t) => t.clone(),
            None => { return None; },
        };
        Some(
            JsonValue {
                data_format_name,
                value,
                string,
                object,
                boolean,
                number,
                array,
                null_val,
                node_type,
            },
        )
    }
}

/// One variable as the engine writes it: the name of its type, its own name
/// if it carries one, its value and its metadata.
#[derive(Debug)]
pub struct Entry {
    typ: String,
    name: String,
    value: Json,
    value_info: StringMap<Json>,
}

/// The model of an [`Entry`].
pub struct EntryModel {
    pub typ: Seq<char>,
    pub name: Seq<char>,
    pub value: JsonModel,
    pub value_info: Map<Seq<char>, JsonModel>,
}

impl View for Entry {
    type V = EntryModel;

    closed spec fn view(&self) -> EntryModel {
        EntryModel {
            typ: self.typ@,
            name: self.name@,
            value: self.value@,
            value_info: self.value_info@,
        }
    }
}

/// The entry that a document holds: an object in which `type` is a string,
/// `value` is there, `valueInfo` is an object, and `name` is a string or
/// missing. Other members do not count.
pub open spec fn entry_of(doc: JsonModel) -> Option<EntryModel> {
    match doc {
        JsonModel::Object(m) => match (
            text_member(m, "type"@),
            member_value(m, "value"@),
            member_value(m, "valueInfo"@),
            member_value(m, "name"@),
        ) {
            (Some(typ), Some(value), Some(JsonModel::Object(info)), None) => Some(
                EntryModel { typ, name: Seq::empty(), value, value_info: pairs_map(info) },
            ),
            (
                Some(typ),
                Some(value),
                Some(JsonModel::Object(info)),
                Some(JsonModel::String(name)),
            ) => Some(EntryModel { typ, name, value, value_info: pairs_map(info) }),
            _ => None,
        },
        _ => None,
    }
}

/// The variable that an entry describes, if its type is one of `Json`,
/// `Boolean` and `String`. A value that does not fit the type gives the
/// type's empty value: `false`, the empty text, the JSON `null`.
pub open spec fn variable_of(entry: EntryModel) -> Option<VariableModel> {
    if entry.typ == "Json"@ {
        Some(
            VariableModel::Json {
                json_value: match json_value_of(entry.value) {
                    Some(v) => v,
                    None => null_json_value(),
                },
                value_info: entry.value_info,
            },
        )
    } else if entry.typ == "Boolean"@ {
        Some(
            VariableModel::Boolean {
                value: match entry.value {
                    JsonModel::Bool(b) => b,
                    _ => false,
                },
                value_info: entry.value_info,
            },
        )
    } else if entry.typ == "String"@ {
        Some(
            VariableModel::String {
                value: match entry.value {
                    JsonModel::String(s) => s,
                    _ => Seq::empty(),
                },
                value_info: entry.value_info,
            },
        )
    } else {
        None
    }
}

/// The variables after an entry has come under a name: the entry's variable
/// takes the name, and an entry of another type changes nothing.
pub open spec fn with_entry(
    vars: Map<Seq<char>, VariableModel>,
    name: Seq<char>,
    entry: EntryModel,
) -> Map<Seq<char>, VariableModel> {
    match variable_of(entry) {
        Some(variable) => vars.insert(name, variable),
        None => vars,
    }
}

/// The map that the members of a JSON object stand for.
pub fn object_map(members: &Vec<(String, Json)>) -> (map: StringMap<Json>)
    ensures
        map@ == pairs_map(members_model(members@)),
{
    let mut map: StringMap<Json> = StringMap::new();
    let ghost all = members_model(members@);
    let mut i: usize = 0;
    assert(all.take(0) =~= Seq::empty());
    while i < members.len()
        invariant
            i <= members@.len(),
            all == members_model(members@),
            map@ == pairs_map(all.take(i as int)),
        decreases members@.len() - i,
    {
        proof {
            assert(all.take(i + 1).drop_last() =~= all.take(i as int));
            assert(all.take(i + 1).last() == all[i as int]);
        }
        map.insert(members[i].0.clone(), members[i].1.clone());
        i = i + 1;
    }
    assert(all.take(members@.len() as int) =~= all);
    map
}

impl Entry {
    /// Reads an entry from a document.
    pub fn from_json(doc: &Json) -> (read: Option<Entry>)
        ensures
            match read {
                Some(e) => entry_of(doc@) == Some(e@),
                None => entry_of(doc@).is_none(),
            },
    {
        let typ = match doc.text_field("type") {
            Some(t) => t.clone(),
            None => { return None; },
        };
        let value = match doc.field("value") {
            Some(v) => v.clone(),
            None => { return None; },
        };
        let value_info = match doc.field("valueInfo") {
            Some(Json::Object(info)) => {
                proof {
                    lemma_model_of_parts(Json::Object(*info));
                }
                object_map(info)
            },
            _ => { return None; },
        };
        let name = match doc.field("name") {
            None => String::new(),
            Some(Json::String(n)) => n.clone(),
            Some(_) => { return None; },
        };
        Some(Entry { typ, name, value, value_info })
    }

    /// The entry's own name; empty where it carries none.
    pub fn name(&self) -> (name: &String)
        ensures
            name@ == self@.name,
    {
        &self.name
    }

    /// The variable that the entry describes, if its type is known.
    pub fn into_variable(self) -> (variable: Option<ProcessInstanceVariable>)
        ensures
            match variable {
                Some(v) => variable_of(self@) == Some(v@),
                None => variable_of(self@).is_none(),
            },
    {
        let Entry { typ, name: _, value, value_info } = self;
        if typ == "Json".to_owned() {
            let json_value = match JsonValue::from_json(&value) {
                Some(v) => v,
                None => JsonValue::null(),
            };
            Some(ProcessInstanceVariable::Json(JsonVar { json_value, value_info }))
        } else if typ == "Boolean".to_owned() {
            let flag = match value {
                Json::Bool(b) => b,
                _ => false,
            };
            Some(ProcessInstanceVariable::Boolean(BoolVar { value: flag, value_info }))
        } else if typ == "String".to_owned() {
            let text = match value {
                Json::String(s) => s,
                _ => String::new(),
            };
            Some(ProcessInstanceVariable::String(StringVar { value: text, value_info }))
        } else {
            None
        }
    }
}

/// Puts the variable of an entry under a name; an entry of a type that is
/// not known changes nothing.
pub fn insert_entry(result: &mut InputVariables, name: String, entry: Entry)
    ensures
        final(result)@ == with_entry(old(result)@, name@, entry@),
{
    match entry.into_variable() {
        Some(variable) => {
            result.insert(name, variable);
        },
        None => {},
    }
}

/// Whether every member of an object holds an entry.
pub open spec fn holds_entries(members: Seq<(Seq<char>, JsonModel)>) -> bool {
    forall|i: int| 0 <= i < members.len() ==> entry_of((#[trigger] members[i]).1).is_some()
}

/// Whether a document is an object from names to entries.
pub open spec fn is_entry_map(doc: JsonModel) -> bool {
    doc matches JsonModel::Object(members) && holds_entries(members)
}

/// Whether every document of a sequence holds an entry.
pub open spec fn all_entries(docs: Seq<JsonModel>) -> bool {
    forall|i: int| 0 <= i < docs.len() ==> entry_of(#[trigger] docs[i]).is_some()
}

/// Whether every document of a sequence is an object from names to entries.
pub open spec fn all_entry_maps(docs: Seq<JsonModel>) -> bool {
    forall|i: int| 0 <= i < docs.len() ==> is_entry_map(#[trigger] docs[i])
}

/// The variables after the members of an object from names to entries have
/// come, one after the other, each under its key.
pub open spec fn with_members(
    vars: Map<Seq<char>, VariableModel>,
    members: Seq<(Seq<char>, JsonModel)>,
) -> Map<Seq<char>, VariableModel>
    decreases members.len(),
{
    if members.len() == 0 {
        vars
    } else {
        with_entry(
            with_members(vars, members.drop_last()),
            members.last().0,
            entry_of(members.last().1).unwrap(),
        )
    }
}

/// The variables after entries that carry their own name have come, one
/// after the other. An entry without a name is passed over.
pub open spec fn with_named(
    vars: Map<Seq<char>, VariableModel>,
    docs: Seq<JsonModel>,
) -> Map<Seq<char>, VariableModel>
    decreases docs.len(),
{
    if docs.len() == 0 {
        vars
    } else {
        let before = with_named(vars, docs.drop_last());
        let entry = entry_of(docs.last()).unwrap();
        if entry.name.len() > 0 {
            with_entry(before, entry.name, entry)
        } else {
            before
        }
    }
}

/// The variables after objects from names to entries have come, one after
/// the other.
pub open spec fn with_maps(
    vars: Map<Seq<char>, VariableModel>,
    docs: Seq<JsonModel>,
) -> Map<Seq<char>, VariableModel>
    decreases docs.len(),
{
    if docs.len() == 0 {
        vars
    } else {
        with_members(with_maps(vars, docs.drop_last()), docs.last()->Object_0)
    }
}

/// What one document decodes to: the first of the three shapes that it has
/// decides, and a document of none of them decodes to nothing.
pub open spec fn document_variables(doc: JsonModel) -> Option<Map<Seq<char>, VariableModel>> {
    if is_entry_map(doc) {
        Some(with_members(Map::empty(), doc->Object_0))
    } else if doc is Array && all_entries(doc->Array_0) {
        Some(with_named(Map::empty(), doc->Array_0))
    } else if doc is Array && all_entry_maps(doc->Array_0) {
        Some(with_maps(Map::empty(), doc->Array_0))
    } else {
        None
    }
}

/// The place at which the run of entries that starts at `from` ends.
pub open spec fn entries_end(docs: Seq<JsonModel>, from: int) -> int
    decreases docs.len() - from,
{
    if 0 <= from < docs.len() && entry_of(docs[from]).is_some() {
        entries_end(docs, from + 1)
    } else {
        from
    }
}

/// The place at which the run of objects from names to entries that starts
/// at `from` ends.
pub open spec fn maps_end(docs: Seq<JsonModel>, from: int) -> int
    decreases docs.len() - from,
{
    if 0 <= from < docs.len() && is_entry_map(docs[from]) {
        maps_end(docs, from + 1)
    } else {
        from
    }
}

/// Whether one of the entries carries a name.
pub open spec fn has_named(docs: Seq<JsonModel>) -> bool {
    exists|i: int| 0 <= i < docs.len() && (#[trigger] entry_of(docs[i])).unwrap().name.len() > 0
}

/// What documents written one after the other decode to. The entries at the
/// start count, if one of them carries a name; else the objects from names to
/// entries at the start. Either run ends at the first document of another
/// kind.
pub open spec fn stream_variables(docs: Seq<JsonModel>) -> Map<Seq<char>, VariableModel> {
    let entries = docs.take(entries_end(docs, 0));
    if has_named(entries) {
        with_named(Map::empty(), entries)
    } else {
        with_maps(Map::empty(), docs.take(maps_end(docs, 0)))
    }
}

/// What a payload decodes to, given the one document that the whole text
/// holds, if it holds one, and the documents that stand one after the other
/// at its start.
pub open spec fn decoded(doc: Option<JsonModel>, stream: Seq<JsonModel>) -> Map<
    Seq<char>,
    VariableModel,
> {
    match doc {
        Some(d) if document_variables(d).is_some() => document_variables(d).unwrap(),
        _ => stream_variables(stream),
    }
}

/// Whether every member of an object holds an entry.
fn members_hold_entries(members: &Vec<(String, Json)>) -> (all: bool)
    ensures
        all == holds_entries(members_model(members@)),
{
    let mut i: usize = 0;
    while i < members.len()
        invariant
            i <= members@.len(),
            forall|k: int|
                0 <= k < i ==> entry_of((#[trigger] members_model(members@)[k]).1).is_some(),
        decreases members@.len() - i,
    {
        if Entry::from_json(&members[i].1).is_none() {
            assert(entry_of(members_model(members@)[i as int].1).is_none());
            return false;
        }
        i = i + 1;
    }
    true
}

/// Whether a document is an object from names to entries.
fn check_entry_map(doc: &Json) -> (fits: bool)
    ensures
        fits == is_entry_map(doc@),
{
    match doc {
        Json::Object(members) => {
            proof {
                lemma_model_of_parts(*doc);
            }
            members_hold_entries(members)
        },
        _ => false,
    }
}

/// Puts the members of an object from names to entries among the variables.
fn insert_members(result: &mut InputVariables, members: &Vec<(String, Json)>)
    requires
        holds_entries(members_model(members@)),
    ensures
        final(result)@ == with_members(old(result)@, members_model(members@)),
{
    let ghost all = members_model(members@);
    let ghost start = result@;
    let mut i: usize = 0;
    assert(all.take(0) =~= Seq::empty());
    while i < members.len()
        invariant
            i <= members@.len(),
            all == members_model(members@),
            holds_entries(all),
            result@ == with_members(start, all.take(i as int)),
        decreases members@.len() - i,
    {
        proof {
            assert(all.take(i + 1).drop_last() =~= all.take(i as int));
            assert(all.take(i + 1).last() == all[i as int]);
            assert(entry_of(all[i as int].1).is_some());
        }
        match Entry::from_json(&members[i].1) {
            Some(entry) => {
                insert_entry(result, members[i].0.clone(), entry);
            },
            None => {},
        }
        i = i + 1;
    }
    assert(all.take(members@.len() as int) =~= all);
}

/// Puts the entries that carry a name among the variables.
fn insert_named(result: &mut InputVariables, docs: &Vec<Json>, end: usize)
    requires
        end <= docs@.len(),
        all_entries(items_model(docs@).take(end as int)),
    ensures
        final(result)@ == with_named(old(result)@, items_model(docs@).take(end as int)),
{
    let ghost all = items_model(docs@).take(end as int);
    let ghost start = result@;
    let mut i: usize = 0;
    assert(all.take(0) =~= Seq::empty());
    while i < end
        invariant
            i <= end <= docs@.len(),
            all == items_model(docs@).take(end as int),
            all_entries(all),
            result@ == with_named(start, all.take(i as int)),
        decreases end - i,
    {
        proof {
            assert(all.take(i + 1).drop_last() =~= all.take(i as int));
            assert(all.take(i + 1).last() == all[i as int]);
            assert(entry_of(all[i as int]).is_some());
        }
        match Entry::from_json(&docs[i]) {
            Some(entry) => {
                if !entry.name().as_str().is_empty() {
                    let name = entry.name().clone();
                    insert_entry(result, name, entry);
                }
            },
            None => {},
        }
        i = i + 1;
    }
    assert(all.take(end as int) =~= all);
}

/// Puts the members of objects from names to entries among the variables.
fn insert_maps(result: &mut InputVariables, docs: &Vec<Json>, end: usize)
    requires
        end <= docs@.len(),
        all_entry_maps(items_model(docs@).take(end as int)),
    ensures
        final(result)@ == with_maps(old(result)@, items_model(docs@).take(end as int)),
{
    let ghost all = items_model(docs@).take(end as int);
    let ghost start = result@;
    let mut i: usize = 0;
    assert(all.take(0) =~= Seq::empty());
    while i < end
        invariant
            i <= end <= docs@.len(),
            all == items_model(docs@).take(end as int),
            all_entry_maps(all),
            result@ == with_maps(start, all.take(i as int)),
        decreases end - i,
    {
        proof {
            assert(all.take(i + 1).drop_last() =~= all.take(i as int));
            assert(all.take(i + 1).last() == all[i as int]);
            assert(is_entry_map(all[i as int]));
            lemma_model_of_parts(docs@[i as int]);
        }
        match &docs[i] {
            Json::Object(members) => {
                insert_members(result, members);
            },
            _ => {},
        }
        i = i + 1;
    }
    assert(all.take(end as int) =~= all);
}

/// The end of the run of entries at the start of the documents, and whether
/// one of them carries a name.
fn leading_entries(docs: &Vec<Json>) -> (run: (usize, bool))
    ensures
        run.0 == entries_end(items_model(docs@), 0),
        run.0 <= docs@.len(),
        all_entries(items_model(docs@).take(run.0 as int)),
        run.1 == has_named(items_model(docs@).take(run.0 as int)),
{
    let ghost all = items_model(docs@);
    let mut named = false;
    let mut i: usize = 0;
    while i < docs.len()
        invariant
            i <= docs@.len(),
            all == items_model(docs@),
            entries_end(all, 0) == entries_end(all, i as int),
            all_entries(all.take(i as int)),
            named == has_named(all.take(i as int)),
        decreases docs@.len() - i,
    {
        match Entry::from_json(&docs[i]) {
            Some(entry) => {
                let ghost before = all.take(i as int);
                let ghost after = all.take(i + 1);
                proof {
                    assert(forall|k: int| 0 <= k < i ==> after[k] == before[k]);
                    assert(after[i as int] == all[i as int]);
                    if has_named(before) {
                        let k = choose|k: int|
                            0 <= k < before.len() && (#[trigger] entry_of(
                                before[k],
                            )).unwrap().name.len() > 0;
                        assert(entry_of(after[k]).unwrap().name.len() > 0);
                    }
                    if has_named(after) && !has_named(before) {
                        let k = choose|k: int|
                            0 <= k < after.len() && (#[trigger] entry_of(
                                after[k],
                            )).unwrap().name.len() > 0;
                        if k < i {
                            assert(entry_of(before[k]).unwrap().name.len() > 0);
                        }
                    }
                }
                if !entry.name().as_str().is_empty() {
                    proof {
                        assert(entry_of(after[i as int]).unwrap().name.len() > 0);
                    }
                    named = true;
                }
            },
            None => {
                return (i, named);
            },
        }
        i = i + 1;
    }
    (i, named)
}

/// The end of the run of objects from names to entries at the start of the
/// documents.
fn leading_maps(docs: &Vec<Json>) -> (end: usize)
    ensures
        end == maps_end(items_model(docs@), 0),
        end <= docs@.len(),
        all_entry_maps(items_model(docs@).take(end as int)),
{
    let ghost all = items_model(docs@);
    let mut i: usize = 0;
    while i < docs.len()
        invariant
            i <= docs@.len(),
            all == items_model(docs@),
            maps_end(all, 0) == maps_end(all, i as int),
            all_entry_maps(all.take(i as int)),
        decreases docs@.len() - i,
    {
        if !check_entry_map(&docs[i]) {
            return i;
        }
        i = i + 1;
    }
    i
}

/// Whether every document holds an entry.
fn check_all_entries(docs: &Vec<Json>) -> (all: bool)
    ensures
        all == all_entries(items_model(docs@)),
{
    let run = leading_entries(docs);
    proof {
        let items = items_model(docs@);
        if run.0 == docs@.len() {
            assert(items.take(run.0 as int) =~= items);
        } else {
            lemma_entries_end(items, 0);
        }
    }
    run.0 == docs.len()
}

/// Whether every document is an object from names to entries.
fn check_all_entry_maps(docs: &Vec<Json>) -> (all: bool)
    ensures
        all == all_entry_maps(items_model(docs@)),
{
    let end = leading_maps(docs);
    proof {
        let items = items_model(docs@);
        if end == docs@.len() {
            assert(items.take(end as int) =~= items);
        } else {
            lemma_maps_end(items, 0);
        }
    }
    end == docs.len()
}

/// The run of entries ends at the end of the documents or before a document
/// that holds no entry.
pub proof fn lemma_entries_end(docs: Seq<JsonModel>, from: int)
    requires
        0 <= from <= docs.len(),
    ensures
        from <= entries_end(docs, from) <= docs.len(),
        forall|k: int| from <= k < entries_end(docs, from) ==> entry_of(#[trigger] docs[k]).is_some(),
        entries_end(docs, from) < docs.len() ==> entry_of(docs[entries_end(docs, from)]).is_none(),
    decreases docs.len() - from,
{
    if from < docs.len() && entry_of(docs[from]).is_some() {
        lemma_entries_end(docs, from + 1);
    }
}

/// The run of objects from names to entries ends at the end of the documents
/// or before a document of another kind.
pub proof fn lemma_maps_end(docs: Seq<JsonModel>, from: int)
    requires
        0 <= from <= docs.len(),
    ensures
        from <= maps_end(docs, from) <= docs.len(),
        forall|k: int| from <= k < maps_end(docs, from) ==> is_entry_map(#[trigger] docs[k]),
        maps_end(docs, from) < docs.len() ==> !is_entry_map(docs[maps_end(docs, from)]),
    decreases docs.len() - from,
{
    if from < docs.len() && is_entry_map(docs[from]) {
        lemma_maps_end(docs, from + 1);
    }
}

/// Decodes one document: an object from names to entries, an array of
/// entries that carry their name, or an array of such objects. `None` for a
/// document of another shape.
pub fn decode_document(doc: &Json) -> (vars: Option<InputVariables>)
    ensures
        match vars {
            Some(v) => document_variables(doc@) == Some(v@),
            None => document_variables(doc@).is_none(),
        },
{
    proof {
        lemma_model_of_parts(*doc);
    }
    match doc {
        Json::Object(members) => {
            if members_hold_entries(members) {
                let mut result: InputVariables = StringMap::new();
                insert_members(&mut result, members);
                Some(result)
            } else {
                None
            }
        },
        Json::Array(items) => {
            if check_all_entries(items) {
                let mut result: InputVariables = StringMap::new();
                assert(items_model(items@).take(items@.len() as int) =~= items_model(items@));
                insert_named(&mut result, items, items.len());
                Some(result)
            } else if check_all_entry_maps(items) {
                let mut result: InputVariables = StringMap::new();
                assert(items_model(items@).take(items@.len() as int) =~= items_model(items@));
                insert_maps(&mut result, items, items.len());
                Some(result)
            } else {
                None
            }
        },
        _ => None,
    }
}

/// Decodes documents that were written one after the other.
pub fn decode_stream(docs: &Vec<Json>) -> (vars: InputVariables)
    ensures
        vars@ == stream_variables(items_model(docs@)),
{
    let mut result: InputVariables = StringMap::new();
    let run = leading_entries(docs);
    if run.1 {
        insert_named(&mut result, docs, run.0);
    } else {
        let end = leading_maps(docs);
        insert_maps(&mut result, docs, end);
    }
    result
}

/// Decodes what was read from a payload: the one document that the whole
/// text holds, if it holds one, and the documents that stand one after the
/// other at its start.
pub fn decode_parsed(doc: Option<&Json>, stream: &Vec<Json>) -> (vars: InputVariables)
    ensures
        vars@ == decoded(
            match doc {
                Some(d) => Some(d@),
                None => None,
            },
            items_model(stream@),
        ),
{
    match doc {
        Some(d) => match decode_document(d) {
            Some(vars) => vars,
            None => decode_stream(stream),
        },
        None => decode_stream(stream),
    }
}

/// Decodes the payload in which the engine sends the variables of a process
/// instance. A text that fits none of the shapes gives no variables.
pub fn parse_process_instance_variables(json_str: &str) -> (vars: InputVariables)
    ensures
        vars@ == decoded(parsed_document(json_str@), parsed_stream(json_str@)),
{
    let doc = Json::from_text(json_str);
    match &doc {
        Some(d) => match decode_document(d) {
            Some(vars) => { return vars; },
            None => {},
        },
        None => {},
    }
    let stream = Json::stream_from_text(json_str);
    assert(items_model(stream@) =~= parsed_stream(json_str@));
    decode_stream(&stream)
}

/// Why a document could not be read as one variable.
#[derive(Debug)]
pub enum VariableError {
    /// The document is no object from names to entries.
    NotAnEntryMap,
    /// The object has no member.
    NoEntries,
    /// The entry's type is none of `Json`, `Boolean` and `String`; the type
    /// is given.
    UnknownType(String),
    /// The entry's value does not fit its type.
    ValueMismatch,
}

/// The model of a [`VariableError`].
pub enum VariableErrorModel {
    NotAnEntryMap,
    NoEntries,
    UnknownType(Seq<char>),
    ValueMismatch,
}

impl View for VariableError {
    type V = VariableErrorModel;

    open spec fn view(&self) -> VariableErrorModel {
        match self {
            VariableError::NotAnEntryMap => VariableErrorModel::NotAnEntryMap,
            VariableError::NoEntries => VariableErrorModel::NoEntries,
            VariableError::UnknownType(typ) => VariableErrorModel::UnknownType(typ@),
            VariableError::ValueMismatch => VariableErrorModel::ValueMismatch,
        }
    }
}

/// The variable that an entry describes, where nothing is forgiven: the
/// value must fit the type, and the type must be known.
pub open spec fn strict_variable_of(entry: EntryModel) -> Result<VariableModel, VariableErrorModel> {
    if entry.typ == "Json"@ {
        match json_value_of(entry.value) {
            Some(json_value) => Ok(
                VariableModel::Json { json_value, value_info: entry.value_info },
            ),
            None => Err(VariableErrorModel::ValueMismatch),
        }
    } else if entry.typ == "Boolean"@ {
        match entry.value {
            JsonModel::Bool(value) => Ok(
                VariableModel::Boolean { value, value_info: entry.value_info },
            ),
            _ => Err(VariableErrorModel::ValueMismatch),
        }
    } else if entry.typ == "String"@ {
        match entry.value {
            JsonModel::String(value) => Ok(
                VariableModel::String { value, value_info: entry.value_info },
            ),
            _ => Err(VariableErrorModel::ValueMismatch),
        }
    } else {
        Err(VariableErrorModel::UnknownType(entry.typ))
    }
}

/// The one variable that a document holds: that of the first member of an
/// object from names to entries.
pub open spec fn single_variable(doc: JsonModel) -> Result<VariableModel, VariableErrorModel> {
    if !is_entry_map(doc) {
        Err(VariableErrorModel::NotAnEntryMap)
    } else if doc->Object_0.len() == 0 {
        Err(VariableErrorModel::NoEntries)
    } else {
        strict_variable_of(entry_of(doc->Object_0[0].1).unwrap())
    }
}

impl Entry {
    /// The variable that the entry describes, where nothing is forgiven.
    pub fn into_strict_variable(self) -> (variable: Result<ProcessInstanceVariable, VariableError>)
        ensures
            match variable {
                Ok(v) => strict_variable_of(self@) == Ok::<VariableModel, VariableErrorModel>(v@),
                Err(e) => strict_variable_of(self@) == Err::<VariableModel, VariableErrorModel>(e@),
            },
    {
        let Entry { typ, name: _, value, value_info } = self;
        if typ == "Json".to_owned() {
            match JsonValue::from_json(&value) {
                Some(json_value) => Ok(
                    ProcessInstanceVariable::Json(JsonVar { json_value, value_info }),
                ),
                None => Err(VariableError::ValueMismatch),
            }
        } else if typ == "Boolean".to_owned() {
            match value {
                Json::Bool(flag) => Ok(
                    ProcessInstanceVariable::Boolean(BoolVar { value: flag, value_info }),
                ),
                _ => Err(VariableError::ValueMismatch),
            }
        } else if typ == "String".to_owned() {
            match value {
                Json::String(text) => Ok(
                    ProcessInstanceVariable::String(StringVar { value: text, value_info }),
                ),
                _ => Err(VariableError::ValueMismatch),
            }
        } else {
            Err(VariableError::UnknownType(typ))
        }
    }
}

impl ProcessInstanceVariable {
    /// Reads one variable from an object from names to entries. The first
    /// member counts, and nothing is forgiven: a value that does not fit its
    /// type and a type that is not known are errors.
    pub fn deserialize(doc: &Json) -> (variable: Result<ProcessInstanceVariable, VariableError>)
        ensures
            match variable {
                Ok(v) => single_variable(doc@) == Ok::<VariableModel, VariableErrorModel>(v@),
                Err(e) => single_variable(doc@) == Err::<VariableModel, VariableErrorModel>(e@),
            },
    {
        proof {
            lemma_model_of_parts(*doc);
        }
        match doc {
            Json::Object(members) => {
                if !members_hold_entries(members) {
                    return Err(VariableError::NotAnEntryMap);
                }
                if members.len() == 0 {
                    return Err(VariableError::NoEntries);
                }
                assert(entry_of(members_model(members@)[0].1).is_some());
                match Entry::from_json(&members[0].1) {
                    Some(entry) => entry.into_strict_variable(),
                    None => Err(VariableError::NotAnEntryMap),
                }
            },
            _ => Err(VariableError::NotAnEntryMap),
        }
    }
}

/// The shape in which a payload was read.
#[derive(Debug, Clone, Copy, PartialEq, Eq, Structural)]
pub enum Shape {
    /// One object from names to entries.
    EntryMap,
    /// One array of entries that carry their name.
    EntryArray,
    /// One array of objects from names to entries.
    MapArray,
    /// Entries one after the other, at least one of them with a name.
    EntryStream,
    /// Objects from names to entries one after the other, at least one.
    MapStream,
    /// None of these: the payload gives no variables.
    Unreadable,
}

/// The shape of a payload, given the one document that the whole text holds,
/// if it holds one, and the documents that stand one after the other at its
/// start.
pub open spec fn shape_of(doc: Option<JsonModel>, stream: Seq<JsonModel>) -> Shape {
    if doc matches Some(d) && is_entry_map(d) {
        Shape::EntryMap
    } else if doc matches Some(d) && d is Array && all_entries(d->Array_0) {
        Shape::EntryArray
    } else if doc matches Some(d) && d is Array && all_entry_maps(d->Array_0) {
        Shape::MapArray
    } else if has_named(stream.take(entries_end(stream, 0))) {
        Shape::EntryStream
    } else if maps_end(stream, 0) > 0 {
        Shape::MapStream
    } else {
        Shape::Unreadable
    }
}

/// Tells the shape of what was read from a payload.
pub fn shape_of_parsed(doc: Option<&Json>, stream: &Vec<Json>) -> (shape: Shape)
    ensures
        shape == shape_of(
            match doc {
                Some(d) => Some(d@),
                None => None,
            },
            items_model(stream@),
        ),
{
    match doc {
        Some(d) => {
            proof {
                lemma_model_of_parts(*d);
            }
            match d {
                Json::Object(members) => {
                    if members_hold_entries(members) {
                        return Shape::EntryMap;
                    }
                },
                Json::Array(items) => {
                    if check_all_entries(items) {
                        return Shape::EntryArray;
                    }
                    if check_all_entry_maps(items) {
                        return Shape::MapArray;
                    }
                },
                _ => {},
            }
        },
        None => {},
    }
    let run = leading_entries(stream);
    if run.1 {
        Shape::EntryStream
    } else if leading_maps(stream) > 0 {
        Shape::MapStream
    } else {
        Shape::Unreadable
    }
}

/// Tells the shape of a payload: what there is to note where a payload gives
/// no variables.
pub fn payload_shape(json_str: &str) -> (shape: Shape)
    ensures
        shape == shape_of(parsed_document(json_str@), parsed_stream(json_str@)),
{
    let doc = Json::from_text(json_str);
    let stream = Json::stream_from_text(json_str);
    assert(items_model(stream@) =~= parsed_stream(json_str@));
    match &doc {
        Some(d) => shape_of_parsed(Some(d), &stream),
        None => shape_of_parsed(None, &stream),
    }
}

} // verus!
