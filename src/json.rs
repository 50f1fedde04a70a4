use vstd::prelude::*;

use crate::text::{decimal, decimal_string, join, joined, texts};

verus! {

/// The JSON string literal that serde_json writes for the text `s`.
pub uninterp spec fn json_string_of(s: Seq<char>) -> Seq<char>;

/// Relies on serde_json::to_string on a `str`: a JSON string literal for `s`,
/// which depends on the characters of `s` alone. It cannot fail: a `str`
/// serializes through `serialize_str` into a `Vec`, and neither step has an
/// error to give.
#[verifier::external_body]
fn json_string(s: &str) -> (r: Result<String, serde_json::Error>)
    ensures
        r is Ok,
        r->Ok_0@ == json_string_of(s@),
{
    serde_json::to_string(s)
}

/// The JSON literal `true` or `false`.
pub open spec fn json_bool(b: bool) -> Seq<char> {
    if b { "true"@ } else { "false"@ }
}

/// One member of a JSON object: a quoted key, a colon, the value's text.
pub open spec fn json_member(key: Seq<char>, value: Seq<char>) -> Seq<char> {
    "\""@ + key + "\":"@ + value
}

/// A JSON object with the given members, in order.
pub open spec fn json_object(members: Seq<(Seq<char>, Seq<char>)>) -> Seq<char> {
    "{"@ + joined(members.map_values(|m: (Seq<char>, Seq<char>)| json_member(m.0, m.1)), ","@)
        + "}"@
}

/// A JSON array of the given element texts, in order.
pub open spec fn json_array(items: Seq<Seq<char>>) -> Seq<char> {
    "["@ + joined(items, ","@) + "]"@
}

/// A JSON array of strings.
pub open spec fn json_string_array(items: Seq<Seq<char>>) -> Seq<char> {
    json_array(items.map_values(|s: Seq<char>| json_string_of(s)))
}

/// An optional number: its numeral, or `null`.
pub open spec fn json_opt_number(n: Option<u64>) -> Seq<char> {
    match n {
        Some(v) => decimal(v as nat),
        None => "null"@,
    }
}

/// An optional list of strings: a JSON array, or `null`.
pub open spec fn json_opt_string_array(items: Option<Seq<Seq<char>>>) -> Seq<char> {
    match items {
        Some(v) => json_string_array(v),
        None => "null"@,
    }
}

/// The views of an optional list of strings.
pub open spec fn opt_texts(v: Option<Vec<String>>) -> Option<Seq<Seq<char>>> {
    match v {
        Some(items) => Some(texts(items@)),
        None => None,
    }
}

/// The views of the members of a JSON object under construction.
pub open spec fn member_texts(v: Seq<(String, String)>) -> Seq<(Seq<char>, Seq<char>)> {
    v.map_values(|m: (String, String)| (m.0@, m.1@))
}

/// A JSON string literal for `s`.
pub fn quote(s: &str) -> (r: String)
    ensures
        r@ == json_string_of(s@),
{
    match json_string(s) {
        Ok(q) => q,
        Err(_) => {
            assert(false);
            String::new()
        },
    }
}

/// The literal `true` or `false`.
pub fn bool_text(b: bool) -> (r: String)
    ensures
        r@ == json_bool(b),
{
    if b { "true".to_string() } else { "false".to_string() }
}

/// A number's numeral, or `null`.
pub fn opt_number_text(n: Option<u64>) -> (r: String)
    ensures
        r@ == json_opt_number(n),
{
    match n {
        Some(v) => decimal_string(v),
        None => "null".to_string(),
    }
}

/// A JSON array of the strings in `items`.
pub fn string_array_text(items: &Vec<String>) -> (r: String)
    ensures
        r@ == json_string_array(texts(items@)),
{
    let mut quoted: Vec<String> = Vec::new();
    let mut i: usize = 0;
    while i < items.len()
        invariant
            i <= items.len(),
            quoted@.len() == i,
            forall|j: int| 0 <= j < i ==> quoted@[j]@ == json_string_of(items@[j]@),
        decreases items.len() - i,
    {
        quoted.push(quote(items[i].as_str()));
        i = i + 1;
    }
    let body = join(&quoted, ",");
    let mut r = String::new();
    r.append("[");
    r.append(body.as_str());
    r.append("]");
    assert(texts(quoted@) =~= texts(items@).map_values(|s: Seq<char>| json_string_of(s)));
    assert(r@ =~= json_string_array(texts(items@)));
    r
}

/// An optional list of strings as a JSON array, or `null`.
pub fn opt_string_array_text(items: &Option<Vec<String>>) -> (r: String)
    ensures
        r@ == json_opt_string_array(opt_texts(*items)),
{
    match items {
        Some(v) => string_array_text(v),
        None => "null".to_string(),
    }
}

/// A JSON object of the given members (keys and value texts), in order.
pub fn object_text(members: &Vec<(String, String)>) -> (r: String)
    ensures
        r@ == json_object(member_texts(members@)),
{
    let mut parts: Vec<String> = Vec::new();
    let mut i: usize = 0;
    while i < members.len()
        invariant
            i <= members.len(),
            parts@.len() == i,
            forall|j: int|
                0 <= j < i ==> parts@[j]@ == json_member(members@[j].0@, members@[j].1@),
        decreases members.len() - i,
    {
        let mut m = String::new();
        m.append("\"");
        m.append(members[i].0.as_str());
        m.append("\":");
        m.append(members[i].1.as_str());
        assert(m@ =~= json_member(members@[i as int].0@, members@[i as int].1@));
        parts.push(m);
        i = i + 1;
    }
    let body = join(&parts, ",");
    let mut r = String::new();
    r.append("{");
    r.append(body.as_str());
    r.append("}");
    assert(texts(parts@) =~= member_texts(members@).map_values(
        |m: (Seq<char>, Seq<char>)| json_member(m.0, m.1),
    ));
    assert(r@ =~= json_object(member_texts(members@)));
    r
}

} // verus!
