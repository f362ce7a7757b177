//! JSON documents as the library reads them: `serde_json` parses, and the
//! values that the readers look at come back as plain library values.
use vstd::prelude::*;
use crate::json::JsonScalar::{Num, Other, Str};
use serde_json::Value::{Null, Number};
use serde_json::{from_str, Value};

verus! {

/// A value that is not looked into: `null`, a string, a number (by its
/// text), or the JSON text of anything else (`true`, `false`, an object or
/// an array).
pub enum JsonScalar {
    Null,
    Str(String),
    Num(String),
    Other(String),
}

/// A field of a record: the value, and its items when it is an array.
pub type JsonField = (JsonScalar, Option<Vec<JsonScalar>>);

/// A record: the fields asked for, in the order asked, `None` where the
/// value has no such field (a value that is no object has none).
pub type JsonRecord = Vec<Option<JsonField>>;

/// A document: whether it is `null`, its items read as records when it is
/// an array, and its own fields.
pub type JsonDoc = (bool, Option<Vec<JsonRecord>>, JsonRecord);

pub enum ScalarView {
    Null,
    Str(Seq<char>),
    Num(Seq<char>),
    Other(Seq<char>),
}

pub struct FieldView {
    pub value: ScalarView,
    pub items: Option<Seq<ScalarView>>,
}

pub struct DocView {
    pub null: bool,
    pub items: Option<Seq<Seq<Option<FieldView>>>>,
    pub own: Seq<Option<FieldView>>,
}

pub open spec fn scalar_view(s: JsonScalar) -> ScalarView {
    match s {
        JsonScalar::Null => ScalarView::Null,
        JsonScalar::Str(t) => ScalarView::Str(t@),
        JsonScalar::Num(t) => ScalarView::Num(t@),
        JsonScalar::Other(t) => ScalarView::Other(t@),
    }
}

pub open spec fn scalars_view(v: Seq<JsonScalar>) -> Seq<ScalarView> {
    v.map_values(|s: JsonScalar| scalar_view(s))
}

pub open spec fn json_field_view(f: Option<JsonField>) -> Option<FieldView> {
    match f {
        Some(p) => Some(
            FieldView {
                value: scalar_view(p.0),
                items: match p.1 {
                    Some(a) => Some(scalars_view(a@)),
                    None => None,
                },
            },
        ),
        None => None,
    }
}

pub open spec fn json_record_view(r: Seq<Option<JsonField>>) -> Seq<Option<FieldView>> {
    r.map_values(|f: Option<JsonField>| json_field_view(f))
}

pub open spec fn records_view(v: Seq<JsonRecord>) -> Seq<Seq<Option<FieldView>>> {
    v.map_values(|r: JsonRecord| json_record_view(r@))
}

pub open spec fn doc_view(d: JsonDoc) -> DocView {
    DocView {
        null: d.0,
        items: match d.1 {
            Some(a) => Some(records_view(a@)),
            None => None,
        },
        own: json_record_view(d.2@),
    }
}

/// Every record of the document has one field per key.
pub open spec fn fields_per_record(d: DocView, n: nat) -> bool {
    &&& d.own.len() == n
    &&& match d.items {
        Some(a) => forall|i: int| 0 <= i < a.len() ==> (#[trigger] a[i]).len() == n,
        None => true,
    }
}

/// What `serde_json` reads of `text` as a document with the fields `keys`;
/// nothing when `text` is no JSON value.
pub uninterp spec fn json_doc(text: Seq<char>, keys: Seq<Seq<char>>) -> Option<DocView>;

/// `serde_json::from_str` into a `Value`, `Value::is_null`,
/// `Value::as_array`, `Value::get` of each key, and `Value::to_string` and
/// `Number::to_string` for the texts of values. The contract names the
/// result, and says that each record has one field per key (the body asks
/// each record for each key); it says nothing of how JSON is read.
#[verifier::external_body]
pub(crate) fn parse_json_doc(text: &str, keys: &Vec<&str>) -> (r: Option<JsonDoc>)
    ensures
        match r {
            Some(d) => json_doc(text@, keys@.map_values(|k: &str| k@)) == Some(doc_view(d))
                && fields_per_record(doc_view(d), keys.len() as nat),
            None => json_doc(text@, keys@.map_values(|k: &str| k@)) is None,
        },
{
    let scalar = |v: &Value| match v {
        Null => JsonScalar::Null,
        Value::String(s) => Str(s.clone()),
        Number(n) => Num(n.to_string()),
        o => Other(o.to_string()),
    };
    let field = |v: &Value| (scalar(v), v.as_array().map(|a| a.iter().map(scalar).collect()));
    let record = |i: &Value| keys.iter().map(|k| i.get(k).map(field)).collect();
    let v: Value = from_str(text).ok()?;
    Some((v.is_null(), v.as_array().map(|a| a.iter().map(record).collect()), record(&v)))
}

pub open spec fn text_opt(o: Option<String>) -> Option<Seq<char>> {
    match o {
        Some(t) => Some(t@),
        None => None,
    }
}

/// A field read as text: an array by its first item when that is a string,
/// a string as it is, a number by its text; nothing for anything else or a
/// missing field.
pub open spec fn json_string_spec(f: Option<FieldView>) -> Option<Seq<char>> {
    match f {
        None => None,
        Some(fv) => match fv.items {
            Some(a) => if a.len() > 0 {
                match a[0] {
                    ScalarView::Str(t) => Some(t),
                    _ => None,
                }
            } else {
                None
            },
            None => match fv.value {
                ScalarView::Str(t) => Some(t),
                ScalarView::Num(t) => Some(t),
                _ => None,
            },
        },
    }
}

/// A field read as text (see `json_string_spec`).
pub fn json_string(f: &Option<JsonField>) -> (r: Option<String>)
    ensures
        text_opt(r) == json_string_spec(json_field_view(*f)),
{
    match f {
        None => None,
        Some(p) => match &p.1 {
            Some(a) => if a.len() > 0 {
                match &a[0] {
                    JsonScalar::Str(t) => Some(t.clone()),
                    _ => None,
                }
            } else {
                None
            },
            None => match &p.0 {
                JsonScalar::Str(t) => Some(t.clone()),
                JsonScalar::Num(t) => Some(t.clone()),
                _ => None,
            },
        },
    }
}

/// The records of a document: an array's items; none for `null`; else the
/// value itself as one record.
pub open spec fn json_values_spec(d: DocView) -> Seq<Seq<Option<FieldView>>> {
    match d.items {
        Some(a) => a,
        None => if d.null {
            Seq::empty()
        } else {
            seq![d.own]
        },
    }
}

/// The records of a document (see `json_values_spec`).
pub fn json_values(d: JsonDoc) -> (r: Vec<JsonRecord>)
    ensures
        records_view(r@) == json_values_spec(doc_view(d)),
{
    let ghost dv = doc_view(d);
    let (null, items, own) = d;
    match items {
        Some(a) => a,
        None => if null {
            let r: Vec<JsonRecord> = Vec::new();
            assert(records_view(r@) =~= Seq::<Seq<Option<FieldView>>>::empty());
            r
        } else {
            let ghost ov = json_record_view(own@);
            let mut r: Vec<JsonRecord> = Vec::new();
            r.push(own);
            assert(records_view(r@) =~= seq![ov]);
            r
        },
    }
}

} // verus!
