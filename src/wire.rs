use vstd::prelude::*;

verus! {

/// Kind of a wire value: a string.
pub const KIND_TEXT: u8 = 0;

/// Kind of a wire value: a JSON number, carried as its decimal text.
pub const KIND_NUMBER: u8 = 1;

/// Kind of a wire value: anything else (null, boolean, array, object).
pub const KIND_OTHER: u8 = 2;

/// One value of a wire record, before it is classified.
#[derive(Debug, Clone)]
pub enum WireValue {
    Text(String),
    Number(String),
    Other,
}

impl WireValue {
    pub open spec fn kind(&self) -> u8 {
        match self {
            WireValue::Text(_) => KIND_TEXT,
            WireValue::Number(_) => KIND_NUMBER,
            WireValue::Other => KIND_OTHER,
        }
    }

    pub open spec fn text(&self) -> Seq<char> {
        match self {
            WireValue::Text(s) => s@,
            WireValue::Number(s) => s@,
            WireValue::Other => Seq::empty(),
        }
    }
}

/// One key/value pair of a wire record.
#[derive(Debug, Clone)]
pub struct Field {
    pub key: String,
    pub value: WireValue,
}

impl View for Field {
    type V = (Seq<char>, u8, Seq<char>);

    open spec fn view(&self) -> (Seq<char>, u8, Seq<char>) {
        (self.key@, self.value.kind(), self.value.text())
    }
}

pub open spec fn fields_view(v: Seq<Field>) -> Seq<(Seq<char>, u8, Seq<char>)> {
    v.map_values(|f: Field| f@)
}

pub uninterp spec fn json_object_fields(s: Seq<char>) -> Option<Seq<(Seq<char>, u8, Seq<char>)>>;

/// Relies on `serde_json::from_str` into a `Value` and `Value::as_object`: the
/// members of the JSON object that `line` holds, or nothing when it holds
/// no JSON or JSON that is not an object. Numbers come as their `Display` text.
#[verifier::external_body]
pub(crate) fn json_object(line: &str) -> (r: Option<Vec<Field>>)
    ensures
        match r {
            Some(v) => json_object_fields(line@) == Some(fields_view(v@)),
            None => json_object_fields(line@) is None,
        },
{
    let value: serde_json::Value = serde_json::from_str(line).ok()?;
    let members = value.as_object()?;
    Some(members.iter().map(|(k, v)| Field { key: k.clone(), value: match v {
        serde_json::Value::String(t) => WireValue::Text(t.clone()),
        serde_json::Value::Number(n) => WireValue::Number(n.to_string()),
        _ => WireValue::Other,
    } }).collect())
}

} // verus!
