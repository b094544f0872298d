//! What a task handler takes and gives: the variables it reads, the
//! variables it writes back, and the errors it can raise.

use vstd::prelude::*;

use crate::codec::document_text;
use crate::json::{members_model, Json, JsonModel, JsonNumber, NumberModel};
use crate::string_map::StringMap;

pub use crate::process_variables::InputVariables;

verus! {

/// A variable that a handler writes back to the engine: a value, the name of
/// its type, and metadata.
#[derive(Debug)]
pub struct OutVariable {
    pub value: Json,
    pub typ: String,
    pub value_info: StringMap<Json>,
}

/// The model of an [`OutVariable`]. The metadata stands in the order in which
/// it is written to the wire.
pub struct OutVariableModel {
    pub value: JsonModel,
    pub typ: Seq<char>,
    pub value_info: Seq<(Seq<char>, JsonModel)>,
}

impl View for OutVariable {
    type V = OutVariableModel;

    open spec fn view(&self) -> OutVariableModel {
        OutVariableModel {
            value: self.value@,
            typ: self.typ@,
            value_info: self.value_info.entries(),
        }
    }
}

/// The variables that a handler writes back, by name.
pub type OutputVariables = StringMap<OutVariable>;

/// A variable of type `String`.
pub fn out_string(value: &str) -> (variable: OutVariable)
    ensures
        variable@ == (OutVariableModel {
            value: JsonModel::String(value@),
            typ: "String"@,
            value_info: Seq::empty(),
        }),
{
    OutVariable {
        value: Json::String(value.to_owned()),
        typ: "String".to_owned(),
        value_info: StringMap::new(),
    }
}

/// A variable of type `Boolean`.
pub fn out_bool(value: bool) -> (variable: OutVariable)
    ensures
        variable@ == (OutVariableModel {
            value: JsonModel::Bool(value),
            typ: "Boolean"@,
            value_info: Seq::empty(),
        }),
{
    OutVariable {
        value: Json::Bool(value),
        typ: "Boolean".to_owned(),
        value_info: StringMap::new(),
    }
}

/// The JSON number of an integer.
pub open spec fn integer_number(value: int) -> NumberModel {
    if value < 0 {
        NumberModel::NegInt(value as i64)
    } else {
        NumberModel::PosInt(value as u64)
    }
}

/// A variable of type `Integer`.
pub fn out_integer(value: i32) -> (variable: OutVariable)
    ensures
        variable@ == (OutVariableModel {
            value: JsonModel::Number(integer_number(value as int)),
            typ: "Integer"@,
            value_info: Seq::empty(),
        }),
{
    let number = if value < 0 {
        JsonNumber::NegInt(value as i64)
    } else {
        JsonNumber::PosInt(value as u64)
    };
    OutVariable {
        value: Json::Number(number),
        typ: "Integer".to_owned(),
        value_info: StringMap::new(),
    }
}

/// A variable of type `Long`.
pub fn out_long(value: i64) -> (variable: OutVariable)
    ensures
        variable@ == (OutVariableModel {
            value: JsonModel::Number(integer_number(value as int)),
            typ: "Long"@,
            value_info: Seq::empty(),
        }),
{
    let number = if value < 0 {
        JsonNumber::NegInt(value)
    } else {
        JsonNumber::PosInt(value as u64)
    };
    OutVariable {
        value: Json::Number(number),
        typ: "Long".to_owned(),
        value_info: StringMap::new(),
    }
}

/// A variable of type `Json`. The engine takes such a value as a string that
/// holds the document's text, with the format named in the metadata.
pub fn out_json(value: &Json) -> (variable: OutVariable)
    ensures
        variable@ == (OutVariableModel {
            value: JsonModel::String(document_text(value@)),
            typ: "Json"@,
            value_info: seq![
                ("serializationDataFormat"@, JsonModel::String("application/json"@)),
            ],
        }),
{
    let mut value_info: StringMap<Json> = StringMap::new();
    value_info.insert(
        "serializationDataFormat".to_owned(),
        Json::String("application/json".to_owned()),
    );
    let variable = OutVariable {
        value: Json::String(value.to_text()),
        typ: "Json".to_owned(),
        value_info,
    };
    assert(variable@.value_info =~= seq![
        ("serializationDataFormat"@, JsonModel::String("application/json"@)),
    ]);
    variable
}

/// The object in which a variable goes to the engine.
pub open spec fn wire_variable(variable: OutVariableModel) -> JsonModel {
    JsonModel::Object(
        seq![
            ("value"@, variable.value),
            ("type"@, JsonModel::String(variable.typ)),
            ("valueInfo"@, JsonModel::Object(variable.value_info)),
        ],
    )
}

/// The object in which variables go to the engine: each name with the object
/// of its variable.
pub open spec fn wire_variables(variables: Seq<(Seq<char>, OutVariableModel)>) -> JsonModel {
    JsonModel::Object(
        Seq::new(variables.len(), |i: int| (variables[i].0, wire_variable(variables[i].1))),
    )
}

/// The entries of a map of documents, as the members of a JSON object.
pub fn map_members(map: &StringMap<Json>) -> (members: Vec<(String, Json)>)
    ensures
        members_model(members@) == map.entries(),
{
    let mut members: Vec<(String, Json)> = Vec::new();
    let count = map.len();
    let mut i: usize = 0;
    while i < count
        invariant
            i <= count,
            count == map.entries().len(),
            members@.len() == i,
            forall|k: int|
                0 <= k < i ==> ((#[trigger] members@[k]).0@, members@[k].1@) == map.entries()[k],
        decreases count - i,
    {
        match map.entry_at(i) {
            Some((name, value)) => {
                members.push((name.clone(), value.clone()));
            },
            None => {},
        }
        i = i + 1;
    }
    assert(members_model(members@) =~= map.entries());
    members
}

impl OutVariable {
    /// The object in which the variable goes to the engine.
    pub fn to_wire(&self) -> (wire: Json)
        ensures
            wire@ == wire_variable(self@),
    {
        let info = map_members(&self.value_info);
        let mut members: Vec<(String, Json)> = Vec::new();
        members.push(("value".to_owned(), self.value.clone()));
        members.push(("type".to_owned(), Json::String(self.typ.clone())));
        members.push(("valueInfo".to_owned(), Json::Object(info)));
        let wire = Json::Object(members);
        proof {
            crate::json::lemma_model_of_parts(wire);
            crate::json::lemma_model_of_parts(members@[2].1);
            assert(members_model(members@) =~= wire_variable(self@)->Object_0);
        }
        wire
    }
}

/// The object in which a handler's variables go to the engine.
pub fn variables_to_wire(variables: &OutputVariables) -> (wire: Json)
    ensures
        wire@ == wire_variables(variables.entries()),
{
    let mut members: Vec<(String, Json)> = Vec::new();
    let count = variables.len();
    let mut i: usize = 0;
    while i < count
        invariant
            i <= count,
            count == variables.entries().len(),
            members@.len() == i,
            forall|k: int|
                0 <= k < i ==> ((#[trigger] members@[k]).0@, members@[k].1@) == (
                    variables.entries()[k].0,
                    wire_variable(variables.entries()[k].1),
                ),
        decreases count - i,
    {
        match variables.entry_at(i) {
            Some((name, variable)) => {
                members.push((name.clone(), variable.to_wire()));
            },
            None => {},
        }
        i = i + 1;
    }
    let wire = Json::Object(members);
    proof {
        crate::json::lemma_model_of_parts(wire);
        assert(members_model(members@) =~= wire_variables(variables.entries())->Object_0);
    }
    wire
}

/// A business error: a fault that the process model can catch by its code.
#[derive(Debug)]
pub struct BpmnError {
    pub code: String,
    pub message: Option<String>,
}

/// The text that describes a business error.
pub open spec fn bpmn_error_text(code: Seq<char>, message: Option<Seq<char>>) -> Seq<char> {
    match message {
        Some(m) => "BPMN Error "@ + code + ": "@ + m,
        None => "BPMN Error "@ + code,
    }
}

/// The text of an optional string.
pub open spec fn option_text(text: Option<String>) -> Option<Seq<char>> {
    match text {
        Some(t) => Some(t@),
        None => None,
    }
}

impl BpmnError {
    /// A business error with a code and a message.
    pub fn new(code: &str, message: &str) -> (error: Self)
        ensures
            error.code@ == code@,
            option_text(error.message) == Some(message@),
    {
        BpmnError { code: code.to_owned(), message: Some(message.to_owned()) }
    }

    /// A business error with a code and no message.
    pub fn with_code_only(code: &str) -> (error: Self)
        ensures
            error.code@ == code@,
            error.message.is_none(),
    {
        BpmnError { code: code.to_owned(), message: None }
    }

    /// The text that describes the error.
    pub fn to_text(&self) -> (text: String)
        ensures
            text@ == bpmn_error_text(self.code@, option_text(self.message)),
    {
        let mut text = "BPMN Error ".to_owned();
        text.append(self.code.as_str());
        match &self.message {
            Some(m) => {
                text.append(": ");
                text.append(m.as_str());
            },
            None => {},
        }
        text
    }
}

/// What a handler raises: a business error, or a technical failure with the
/// text that describes it.
#[derive(Debug)]
pub enum HandlerError {
    Business(BpmnError),
    Technical(String),
}

/// What a handler returns.
pub type HandlerResult = Result<OutputVariables, HandlerError>;

/// A task handler: from the variables of a task to the variables to write
/// back, or an error.
pub type ExternalTaskFn = fn(&InputVariables) -> HandlerResult;

} // verus!
