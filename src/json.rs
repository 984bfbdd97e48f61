//! JSON text for the values this client writes: strings quoted by
//! serde_json, and the objects and arrays framed around them.

use vstd::prelude::*;
use vstd::string::*;

verus! {

#[verifier::external_type_specification]
#[verifier::external_body]
pub struct ExJsonError(serde_json::Error);

/// Lower-case hexadecimal digit of `d`.
pub open spec fn hex_lower(d: u8) -> char {
    if d < 10 {
        (('0' as u8) + d) as char
    } else {
        (('a' as u8) + (d - 10)) as char
    }
}

/// How serde_json writes one character inside a string literal.
pub open spec fn json_escape_char(c: char) -> Seq<char> {
    if c == '"' {
        seq!['\\', '"']
    } else if c == '\\' {
        seq!['\\', '\\']
    } else if c == '\x08' {
        seq!['\\', 'b']
    } else if c == '\t' {
        seq!['\\', 't']
    } else if c == '\n' {
        seq!['\\', 'n']
    } else if c == '\x0C' {
        seq!['\\', 'f']
    } else if c == '\r' {
        seq!['\\', 'r']
    } else if (c as u32) < 0x20 {
        seq!['\\', 'u', '0', '0', hex_lower(((c as u32) / 16) as u8), hex_lower(((c as u32) % 16) as u8)]
    } else {
        seq![c]
    }
}

/// The characters of `s`, each escaped as in a JSON string literal.
pub open spec fn json_escaped(s: Seq<char>) -> Seq<char>
    decreases s.len(),
{
    if s.len() == 0 {
        Seq::empty()
    } else {
        json_escaped(s.drop_last()) + json_escape_char(s.last())
    }
}

/// `s` as a JSON string literal.
pub open spec fn json_quoted(s: Seq<char>) -> Seq<char> {
    seq!['"'] + json_escaped(s) + seq!['"']
}

/// `items` separated by `sep`.
pub open spec fn joined(items: Seq<Seq<char>>, sep: Seq<char>) -> Seq<char>
    decreases items.len(),
{
    if items.len() == 0 {
        Seq::empty()
    } else if items.len() == 1 {
        items[0]
    } else {
        joined(items.drop_last(), sep) + sep + items.last()
    }
}

/// A JSON array of already written values.
pub open spec fn json_array(items: Seq<Seq<char>>) -> Seq<char> {
    seq!['['] + joined(items, seq![',']) + seq![']']
}

/// `"key":value` of a JSON object.
pub open spec fn json_member(key: Seq<char>, value: Seq<char>) -> Seq<char> {
    json_quoted(key) + seq![':'] + value
}

/// A JSON object of already written members.
pub open spec fn json_object(members: Seq<Seq<char>>) -> Seq<char> {
    seq!['{'] + joined(members, seq![',']) + seq!['}']
}

/// Relies on serde_json::to_string on a `str`: it writes the string literal
/// through the escape table of serde_json's formatter, into a `Vec` that
/// cannot fail to grow.
#[verifier::external_body]
fn serde_quote(s: &str) -> (r: Result<String, serde_json::Error>)
    ensures
        r is Ok,
        r matches Ok(t) ==> t@ == json_quoted(s@),
{
    serde_json::to_string(s)
}

/// `s` as a JSON string literal.
pub fn quote(s: &str) -> (r: String)
    ensures
        r@ == json_quoted(s@),
{
    match serde_quote(s) {
        Ok(t) => t,
        Err(_) => String::new(),
    }
}

proof fn lemma_joined_push(items: Seq<Seq<char>>, sep: Seq<char>, i: int)
    requires
        0 < i < items.len(),
    ensures
        joined(items.take(i + 1), sep) == joined(items.take(i), sep) + sep + items[i],
{
    assert(items.take(i + 1).drop_last() =~= items.take(i));
}

/// `items` separated by `sep`.
pub fn join(items: &Vec<String>, sep: &str) -> (r: String)
    ensures
        r@ == joined(items@.map_values(|s: String| s@), sep@),
{
    let ghost views = items@.map_values(|s: String| s@);
    let mut r = String::new();
    let mut i: usize = 0;
    while i < items.len()
        invariant
            i <= items.len(),
            views == items@.map_values(|s: String| s@),
            r@ == joined(views.take(i as int), sep@),
        decreases items.len() - i,
    {
        proof {
            if i > 0 {
                lemma_joined_push(views, sep@, i as int);
            } else {
                assert(views.take(1).drop_last() =~= views.take(0));
            }
        }
        if i > 0 {
            r.append(sep);
        }
        r.append(items[i].as_str());
        i = i + 1;
    }
    assert(views.take(i as int) =~= views);
    r
}

/// Wraps `inner` in `open` and `close`.
pub fn enclose(open: &str, inner: String, close: &str) -> (r: String)
    ensures
        r@ == open@ + inner@ + close@,
{
    let mut r = String::from_str(open);
    r.append(inner.as_str());
    r.append(close);
    r
}

/// A JSON array of already written values.
pub fn array(items: &Vec<String>) -> (r: String)
    ensures
        r@ == json_array(items@.map_values(|s: String| s@)),
{
    let r = enclose("[", join(items, ","), "]");
    proof {
        reveal_strlit("[");
        reveal_strlit(",");
        reveal_strlit("]");
        assert("["@ =~= seq!['[']);
        assert(","@ =~= seq![',']);
        assert("]"@ =~= seq![']']);
    }
    r
}

/// A JSON object of already written members.
pub fn object(members: &Vec<String>) -> (r: String)
    ensures
        r@ == json_object(members@.map_values(|s: String| s@)),
{
    let r = enclose("{", join(members, ","), "}");
    proof {
        reveal_strlit("{");
        reveal_strlit(",");
        reveal_strlit("}");
        assert("{"@ =~= seq!['{']);
        assert(","@ =~= seq![',']);
        assert("}"@ =~= seq!['}']);
    }
    r
}

/// `"key":value`.
pub fn member(key: &str, value: &str) -> (r: String)
    ensures
        r@ == json_member(key@, value@),
{
    let mut r = quote(key);
    r.append(":");
    r.append(value);
    proof {
        reveal_strlit(":");
    }
    r
}

} // verus!
