//! A JSON value held as plain data, with `serde_json` doing the parsing
//! and the printing.
use vstd::prelude::*;

verus! {

#[verifier::external_type_specification]
#[verifier::external_body]
pub struct ExJsonError(serde_json::Error);

#[verifier::external_type_specification]
#[verifier::external_body]
pub struct ExJsonValue(serde_json::Value);

/// A JSON value. Numbers keep their text; an object keeps its members in
/// order.
#[derive(Debug)]
pub enum Json {
    Null,
    Bool(bool),
    Number(String),
    Str(String),
    Array(Vec<Json>),
    Object(Vec<(String, Json)>),
}

/// The value that `serde_json` reads from the text `s`, or `None` when it
/// does not read `s` (not JSON, or nested deeper than its recursion limit).
pub uninterp spec fn json_of_text(s: Seq<char>) -> Option<Json>;

/// The text that `serde_json` prints for `j`, pretty-printed, once `j` is
/// turned into a `serde_json::Value` member for member (a `Number` whose
/// text `serde_json` does not read as a number becomes `null`).
pub uninterp spec fn json_pretty(j: Json) -> Seq<char>;

/// Converts a `serde_json` value into a `Json`, member for member.
#[verifier::external_body]
fn from_value(v: serde_json::Value) -> Json {
    match v {
        serde_json::Value::Null => Json::Null,
        serde_json::Value::Bool(b) => Json::Bool(b),
        serde_json::Value::Number(n) => Json::Number(n.to_string()),
        serde_json::Value::String(s) => Json::Str(s),
        serde_json::Value::Array(a) => Json::Array(a.into_iter().map(from_value).collect()),
        serde_json::Value::Object(m) => Json::Object(m.into_iter().map(|(k, x)| (k, from_value(x))).collect()),
    }
}

/// Converts a `Json` into a `serde_json` value, member for member.
#[verifier::external_body]
fn to_value(j: &Json) -> serde_json::Value {
    match j {
        Json::Null => serde_json::Value::Null,
        Json::Bool(b) => serde_json::Value::Bool(*b),
        Json::Number(n) => n.parse::<serde_json::Number>().map_or(serde_json::Value::Null, serde_json::Value::Number),
        Json::Str(s) => serde_json::Value::String(s.clone()),
        Json::Array(a) => serde_json::Value::Array(a.iter().map(to_value).collect()),
        Json::Object(m) => serde_json::Value::Object(m.iter().map(|(k, x)| (k.clone(), to_value(x))).collect()),
    }
}

/// Relies on `serde_json::from_str` into a `serde_json::Value`: it fails
/// exactly on text that it does not read (text that is not JSON, or JSON
/// nested deeper than its recursion limit).
#[verifier::external_body]
pub(crate) fn parse_json(s: &str) -> (r: Result<Json, serde_json::Error>)
    ensures
        r is Ok <==> json_of_text(s@) is Some,
        r is Ok ==> json_of_text(s@) == Some(r->Ok_0),
{
    match serde_json::from_str::<serde_json::Value>(s) {
        Ok(v) => Ok(from_value(v)),
        Err(e) => Err(e),
    }
}

/// Relies on `serde_json::to_string_pretty` of a `serde_json::Value`,
/// which does not fail on a value; an empty array prints as `[]`. A
/// `Number` whose text is not a number is handed over as `null`.
#[verifier::external_body]
pub(crate) fn pretty_json(j: &Json) -> (r: String)
    ensures
        r@ == json_pretty(*j),
        (j matches Json::Array(items) && items@.len() == 0) ==> r@ == "[]"@,
{
    match serde_json::to_string_pretty(&to_value(j)) {
        Ok(s) => s,
        Err(_) => String::new(),
    }
}

impl Json {
    /// Reads a JSON text; `None` when it is not valid JSON.
    pub fn parse(s: &str) -> (r: Option<Json>)
        ensures
            r == json_of_text(s@),
    {
        match parse_json(s) {
            Ok(j) => Some(j),
            Err(_) => None,
        }
    }

    /// The pretty-printed text of this value.
    pub fn pretty(&self) -> (r: String)
        ensures
            r@ == json_pretty(*self),
    {
        pretty_json(self)
    }
}

/// The value of the first member of `fields` named `key`.
pub open spec fn lookup(fields: Seq<(String, Json)>, key: Seq<char>) -> Option<Json>
    decreases fields.len(),
{
    if fields.len() == 0 {
        None
    } else if fields[0].0@ == key {
        Some(fields[0].1)
    } else {
        lookup(fields.drop_first(), key)
    }
}

/// The member named `key` of `j`, when `j` is an object that has one.
pub open spec fn member(j: Json, key: Seq<char>) -> Option<Json> {
    match j {
        Json::Object(fields) => lookup(fields@, key),
        _ => None,
    }
}

/// The text of `j` when it is a string.
pub open spec fn str_of(j: Option<Json>) -> Option<Seq<char>> {
    match j {
        Some(Json::Str(s)) => Some(s@),
        _ => None,
    }
}

/// The texts of `items` when each of them is a string.
pub open spec fn strs_of(items: Seq<Json>) -> Option<Seq<Seq<char>>>
    decreases items.len(),
{
    if items.len() == 0 {
        Some(seq![])
    } else {
        match (strs_of(items.drop_last()), items.last()) {
            (Some(prev), Json::Str(s)) => Some(prev.push(s@)),
            _ => None,
        }
    }
}

/// Finds the first member of `fields` named `key`.
pub fn find_member<'a>(fields: &'a Vec<(String, Json)>, key: &str) -> (r: Option<&'a Json>)
    ensures
        match r {
            Some(v) => lookup(fields@, key@) == Some(*v),
            None => lookup(fields@, key@) is None,
        },
{
    let k = String::from_str(key);
    let mut i: usize = 0;
    assert(fields@.skip(0) =~= fields@);
    while i < fields.len()
        invariant
            i <= fields.len(),
            k@ == key@,
            lookup(fields@, key@) == lookup(fields@.skip(i as int), key@),
        decreases fields.len() - i,
    {
        assert(fields@.skip(i as int).drop_first() =~= fields@.skip(i + 1));
        if fields[i].0 == k {
            return Some(&fields[i].1);
        }
        i = i + 1;
    }
    None
}

/// The member named `key` of `j`, when `j` is an object that has one.
pub fn get_member<'a>(j: &'a Json, key: &str) -> (r: Option<&'a Json>)
    ensures
        match r {
            Some(v) => member(*j, key@) == Some(*v),
            None => member(*j, key@) is None,
        },
{
    match j {
        Json::Object(fields) => find_member(fields, key),
        _ => None,
    }
}

/// The texts of `items` when each of them is a string.
pub fn get_strs(items: &Vec<Json>) -> (r: Option<Vec<String>>)
    ensures
        match r {
            Some(v) => strs_of(items@) == Some(crate::text::views(v@)),
            None => strs_of(items@) is None,
        },
{
    let mut out: Vec<String> = Vec::new();
    for i in 0..items.len()
        invariant
            strs_of(items@.take(i as int)) == Some(crate::text::views(out@)),
    {
        assert(items@.take(i + 1).drop_last() =~= items@.take(i as int));
        match &items[i] {
            Json::Str(s) => {
                let ghost before = out@;
                out.push(s.clone());
                assert(crate::text::views(out@) =~= crate::text::views(before).push(s@));
            },
            _ => {
                proof { lemma_strs_prefix(items@, i + 1); }
                return None;
            },
        }
    }
    assert(items@.take(items@.len() as int) =~= items@);
    Some(out)
}

/// Once a prefix holds something other than a string, so does the whole.
proof fn lemma_strs_prefix(items: Seq<Json>, k: int)
    requires
        0 < k <= items.len(),
        strs_of(items.take(k)) is None,
    ensures
        strs_of(items) is None,
    decreases items.len(),
{
    if k < items.len() {
        assert(items.drop_last().take(k) =~= items.take(k));
        lemma_strs_prefix(items.drop_last(), k);
    } else {
        assert(items.take(k) =~= items);
    }
}

} // verus!
