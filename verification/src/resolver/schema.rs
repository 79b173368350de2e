//! Tool definitions as the JSON Schema the model reads, and property schemas
//! read back from JSON.
use vstd::prelude::*;
use vstd::string::*;

use crate::json::{JsonNumber, JsonValue, json_str};
use crate::lines::views;
use crate::resolver::action::str_equals;
use crate::resolver::tool::{ParamDef, PropDef, ToolDefination, prop_description, prop_type};

verus! {

/// The allowed values of a property as JSON, when it has some.
pub open spec fn enum_json(p: PropDef, v: JsonValue) -> bool {
    match (p, v) {
        (PropDef::String { enum_: Some(e), .. }, JsonValue::Array(a)) => {
            &&& a@.len() == e@.len()
            &&& forall|j: int| 0 <= j < a@.len() ==> json_str(Some(#[trigger] a@[j])) == Some(e@[j]@)
        },
        (PropDef::Number { enum_: Some(e), .. }, JsonValue::Array(a)) => {
            &&& a@.len() == e@.len()
            &&& forall|j: int| 0 <= j < a@.len() ==> #[trigger] a@[j] == JsonValue::Number(e@[j])
        },
        _ => false,
    }
}

/// Whether a property has allowed values.
pub open spec fn has_enum(p: PropDef) -> bool {
    match p {
        PropDef::String { enum_, .. } => enum_ is Some,
        PropDef::Number { enum_, .. } => enum_ is Some,
        _ => false,
    }
}

/// The JSON of a property: its description, its type name, and its allowed
/// values when it has some.
pub open spec fn is_prop_json(p: PropDef, v: JsonValue) -> bool {
    match v {
        JsonValue::Object(m) => {
            &&& m@.len() == if has_enum(p) {
                3int
            } else {
                2int
            }
            &&& m@[0].0@ == "description"@
            &&& json_str(Some(m@[0].1)) == Some(prop_description(p))
            &&& m@[1].0@ == "type"@
            &&& json_str(Some(m@[1].1)) == Some(prop_type(p))
            &&& has_enum(p) ==> m@[2].0@ == "enum"@ && enum_json(p, m@[2].1)
        },
        _ => false,
    }
}

/// The JSON object of named properties, one member per property.
pub open spec fn is_props_json(props: Seq<(Seq<char>, PropDef)>, v: JsonValue) -> bool {
    match v {
        JsonValue::Object(m) => {
            &&& m@.len() == props.len()
            &&& forall|i: int| 0 <= i < m@.len() ==> (#[trigger] m@[i]).0@ == props[i].0 && is_prop_json(props[i].1, m@[i].1)
        },
        _ => false,
    }
}

/// A JSON array of strings.
pub open spec fn is_strings_json(s: Seq<Seq<char>>, v: JsonValue) -> bool {
    match v {
        JsonValue::Array(a) => {
            &&& a@.len() == s.len()
            &&& forall|j: int| 0 <= j < a@.len() ==> json_str(Some(#[trigger] a@[j])) == Some(s[j])
        },
        _ => false,
    }
}

/// The JSON Schema of a parameter object: its type, its properties, the
/// required names when given, and whether other properties are allowed when
/// given, in that order.
pub open spec fn is_param_json(p: ParamDef, v: JsonValue) -> bool {
    match v {
        JsonValue::Object(m) => {
            let req: int = if p.required is Some { 1 } else { 0 };
            let add: int = if p.additional_props is Some { 1 } else { 0 };
            &&& m@.len() == 2 + req + add
            &&& m@[0].0@ == "type"@
            &&& json_str(Some(m@[0].1)) == Some(p.type_@)
            &&& m@[1].0@ == "properties"@
            &&& is_props_json(p.props@, m@[1].1)
            &&& p.required is Some ==> m@[2].0@ == "required"@ && is_strings_json(
                views(p.required->0@),
                m@[2].1,
            )
            &&& p.additional_props is Some ==> m@[2 + req].0@ == "additionalProperties"@ && m@[2
                + req].1 == JsonValue::Bool(p.additional_props->0)
        },
        _ => false,
    }
}

fn str_json(s: &str) -> (r: JsonValue)
    ensures
        json_str(Some(r)) == Some(s@),
{
    JsonValue::String(s.to_owned())
}

fn strings_json(s: &Vec<String>) -> (r: JsonValue)
    ensures
        is_strings_json(views(s@), r),
{
    let mut out: Vec<JsonValue> = Vec::new();
    let mut i: usize = 0;
    while i < s.len()
        invariant
            i <= s@.len(),
            out@.len() == i,
            forall|j: int| 0 <= j < i ==> json_str(Some(#[trigger] out@[j])) == Some(s@[j]@),
        decreases s@.len() - i,
    {
        out.push(str_json(s[i].as_str()));
        i = i + 1;
    }
    JsonValue::Array(out)
}

fn enum_values_json(p: &PropDef) -> (r: Option<JsonValue>)
    ensures
        match r {
            Some(v) => has_enum(*p) && enum_json(*p, v),
            None => !has_enum(*p),
        },
{
    match p {
        PropDef::String { enum_: Some(e), .. } => Some(strings_json(e)),
        PropDef::Number { enum_: Some(e), .. } => {
            let mut out: Vec<JsonValue> = Vec::new();
            let mut i: usize = 0;
            while i < e.len()
                invariant
                    i <= e@.len(),
                    out@.len() == i,
                    forall|j: int| 0 <= j < i ==> #[trigger] out@[j] == JsonValue::Number(e@[j]),
                decreases e@.len() - i,
            {
                out.push(JsonValue::Number(e[i].clone()));
                i = i + 1;
            }
            Some(JsonValue::Array(out))
        },
        _ => None,
    }
}

/// The JSON of a property; see [`is_prop_json`].
pub fn prop_json(p: &PropDef) -> (r: JsonValue)
    ensures
        is_prop_json(*p, r),
{
    let mut m: Vec<(String, JsonValue)> = Vec::new();
    proof {
        reveal_strlit("description");
        reveal_strlit("type");
        reveal_strlit("enum");
    }
    m.push(("description".to_owned(), str_json(p.description())));
    m.push(("type".to_owned(), str_json(p.typ())));
    match enum_values_json(p) {
        Some(v) => m.push(("enum".to_owned(), v)),
        None => {},
    }
    JsonValue::Object(m)
}

impl ParamDef {
    /// The JSON Schema of the parameters; see [`is_param_json`].
    pub fn to_value(&self) -> (r: JsonValue)
        ensures
            is_param_json(*self, r),
    {
        let mut props: Vec<(String, JsonValue)> = Vec::new();
        let n = self.props.len();
        let mut i: usize = 0;
        while i < n
            invariant
                n == self.props@.len(),
                i <= n,
                props@.len() == i,
                forall|k: int| 0 <= k < i ==> (#[trigger] props@[k]).0@ == self.props@[k].0 && is_prop_json(
                    self.props@[k].1,
                    props@[k].1,
                ),
            decreases n - i,
        {
            let (name, prop) = self.props.entry(i);
            props.push((name.to_owned(), prop_json(prop)));
            i = i + 1;
        }
        let mut m: Vec<(String, JsonValue)> = Vec::new();
        m.push(("type".to_owned(), str_json(self.type_.as_str())));
        m.push(("properties".to_owned(), JsonValue::Object(props)));
        match &self.required {
            Some(r) => m.push(("required".to_owned(), strings_json(r))),
            None => {},
        }
        match self.additional_props {
            Some(b) => m.push(("additionalProperties".to_owned(), JsonValue::Bool(b))),
            None => {},
        }
        proof {
            reveal_strlit("type");
            reveal_strlit("properties");
            reveal_strlit("required");
            reveal_strlit("additionalProperties");
        }
        JsonValue::Object(m)
    }
}

/// The JSON a tool is offered to the model as: a function with the tool's
/// name, description and parameter schema.
pub open spec fn is_tool_json(t: ToolDefination, v: JsonValue) -> bool {
    match v {
        JsonValue::Object(m) => {
            &&& m@.len() == 2
            &&& m@[0].0@ == "type"@
            &&& json_str(Some(m@[0].1)) == Some("function"@)
            &&& m@[1].0@ == "function"@
            &&& match m@[1].1 {
                JsonValue::Object(f) => {
                    &&& f@.len() == 3
                    &&& f@[0].0@ == "name"@
                    &&& json_str(Some(f@[0].1)) == Some(t.name@)
                    &&& f@[1].0@ == "description"@
                    &&& json_str(Some(f@[1].1)) == Some(t.description@)
                    &&& f@[2].0@ == "parameters"@
                    &&& is_param_json(t.parameters, f@[2].1)
                },
                _ => false,
            }
        },
        _ => false,
    }
}

/// The JSON of a tool; see [`is_tool_json`].
pub fn tool_json(t: &ToolDefination) -> (r: JsonValue)
    ensures
        is_tool_json(*t, r),
{
    proof {
        reveal_strlit("type");
        reveal_strlit("function");
        reveal_strlit("name");
        reveal_strlit("description");
        reveal_strlit("parameters");
    }
    let mut f: Vec<(String, JsonValue)> = Vec::new();
    f.push(("name".to_owned(), str_json(t.name.as_str())));
    f.push(("description".to_owned(), str_json(t.description.as_str())));
    f.push(("parameters".to_owned(), t.parameters.to_value()));
    let mut m: Vec<(String, JsonValue)> = Vec::new();
    m.push(("type".to_owned(), str_json("function")));
    m.push(("function".to_owned(), JsonValue::Object(f)));
    JsonValue::Object(m)
}

// ---------------------------------------------------------------------------
// Reading a property schema
// ---------------------------------------------------------------------------

/// Why a property schema could not be read.
#[derive(Debug)]
pub enum SchemaError {
    StringEnumNotStrings,
    NumberEnumNotNumbers,
    UnsupportedType(String),
}

impl SchemaError {
    /// The text of the error.
    pub fn message(&self) -> (r: String)
        ensures
            r@ == match *self {
                SchemaError::StringEnumNotStrings => "string enum must contain strings"@,
                SchemaError::NumberEnumNotNumbers => "number enum must contain numbers"@,
                SchemaError::UnsupportedType(t) => "unsupported property type: "@ + t@,
            },
    {
        match self {
            SchemaError::StringEnumNotStrings => "string enum must contain strings".to_owned(),
            SchemaError::NumberEnumNotNumbers => "number enum must contain numbers".to_owned(),
            SchemaError::UnsupportedType(t) => {
                let mut m = "unsupported property type: ".to_owned();
                m.append(t.as_str());
                m
            },
        }
    }
}

/// The property a schema describes, from its `type`, its description and
/// its `enum` values when given: a string property whose values must all be
/// strings, a number property whose values must all be numbers, or a
/// boolean, array or object property (whose values are not read); any other
/// type is unsupported.
#[verifier::loop_isolation(false)]
pub fn prop_def_from_schema(typ: &str, desc: String, enum_values: Option<Vec<JsonValue>>) -> (r: Result<PropDef, SchemaError>)
    ensures
        match r {
            Ok(p) => prop_type(p) == typ@ && prop_description(p) == desc@ && match p {
                PropDef::String { enum_, .. } => match (enum_, enum_values) {
                    (None, None) => true,
                    (Some(e), Some(v)) => e@.len() == v@.len() && forall|j: int|
                        0 <= j < e@.len() ==> json_str(Some(#[trigger] v@[j])) == Some(e@[j]@),
                    _ => false,
                },
                PropDef::Number { enum_, .. } => match (enum_, enum_values) {
                    (None, None) => true,
                    (Some(e), Some(v)) => e@.len() == v@.len() && forall|j: int|
                        0 <= j < e@.len() ==> #[trigger] v@[j] == JsonValue::Number(e@[j]),
                    _ => false,
                },
                _ => true,
            },
            Err(SchemaError::StringEnumNotStrings) => typ@ == "string"@ && (enum_values matches Some(v)
                && exists|j: int| 0 <= j < v@.len() && !(v@[j] is String)),
            Err(SchemaError::NumberEnumNotNumbers) => typ@ == "number"@ && (enum_values matches Some(v)
                && exists|j: int| 0 <= j < v@.len() && !(v@[j] is Number)),
            Err(SchemaError::UnsupportedType(t)) => t@ == typ@ && typ@ != "string"@ && typ@ != "number"@
                && typ@ != "boolean"@ && typ@ != "array"@ && typ@ != "object"@,
        },
{
    if str_equals(typ, "string") {
        let e = match enum_values {
            Some(values) => {
                let mut strings: Vec<String> = Vec::new();
                let mut i: usize = 0;
                while i < values.len()
                    invariant
                        i <= values@.len(),
                        strings@.len() == i,
                        forall|j: int| 0 <= j < i ==> json_str(Some(#[trigger] values@[j])) == Some(
                            strings@[j]@,
                        ),
                    decreases values@.len() - i,
                {
                    match &values[i] {
                        JsonValue::String(s) => strings.push(s.clone()),
                        _ => {
                            assert(!(values@[i as int] is String));
                            return Err(SchemaError::StringEnumNotStrings);
                        },
                    }
                    i = i + 1;
                }
                Some(strings)
            },
            None => None,
        };
        proof {
            reveal_strlit("string");
        }
        Ok(PropDef::String { desc, enum_: e })
    } else if str_equals(typ, "number") {
        let e = match enum_values {
            Some(values) => {
                let mut numbers: Vec<JsonNumber> = Vec::new();
                let mut i: usize = 0;
                while i < values.len()
                    invariant
                        i <= values@.len(),
                        numbers@.len() == i,
                        forall|j: int| 0 <= j < i ==> #[trigger] values@[j] == JsonValue::Number(
                            numbers@[j],
                        ),
                    decreases values@.len() - i,
                {
                    match &values[i] {
                        JsonValue::Number(n) => numbers.push(n.clone()),
                        _ => {
                            assert(!(values@[i as int] is Number));
                            return Err(SchemaError::NumberEnumNotNumbers);
                        },
                    }
                    i = i + 1;
                }
                Some(numbers)
            },
            None => None,
        };
        proof {
            reveal_strlit("number");
        }
        Ok(PropDef::Number { desc, enum_: e })
    } else if str_equals(typ, "boolean") {
        proof {
            reveal_strlit("boolean");
        }
        Ok(PropDef::Boolean { desc })
    } else if str_equals(typ, "array") {
        proof {
            reveal_strlit("array");
        }
        Ok(PropDef::Array { desc })
    } else if str_equals(typ, "object") {
        proof {
            reveal_strlit("object");
        }
        Ok(PropDef::Object { desc })
    } else {
        Err(SchemaError::UnsupportedType(typ.to_owned()))
    }
}

} // verus!
