//! A JSON document as the library reads it: the value tree that the JSON parser hands over,
//! with member lookup and pointer paths.

use vstd::prelude::*;
use crate::text::str_eq;

verus! {

/// A JSON value. Numbers keep their JSON text; objects keep their members in order.
#[derive(Debug, PartialEq)]
pub enum JsonValue {
    Null,
    Bool(bool),
    Number(String),
    Str(String),
    Array(Vec<JsonValue>),
    Object(Vec<(String, JsonValue)>),
}

#[verifier::external_type_specification]
#[verifier::external_body]
pub struct ExSerdeValue(serde_json::Value);

/// Copies a `serde_json::Value` tree into a [`JsonValue`]: numbers by their `Display` text,
/// object members in the map's iteration order. Nothing is claimed of the copy.
#[verifier::external_body]
fn json_from_serde(v: &serde_json::Value) -> JsonValue {
    match v {
        serde_json::Value::Null => JsonValue::Null,
        serde_json::Value::Bool(b) => JsonValue::Bool(*b),
        serde_json::Value::Number(n) => JsonValue::Number(n.to_string()),
        serde_json::Value::String(s) => JsonValue::Str(s.clone()),
        serde_json::Value::Array(a) => JsonValue::Array(a.iter().map(json_from_serde).collect()),
        serde_json::Value::Object(o) => JsonValue::Object(
            o.iter().map(|(k, x)| (k.clone(), json_from_serde(x))).collect(),
        ),
    }
}

/// What `serde_json::from_str::<serde_json::Value>` reads from a text, as a [`JsonValue`]
/// (`None` where it reports a syntax error).
pub uninterp spec fn parsed_json(text: Seq<char>) -> Option<JsonValue>;

/// Calls `serde_json::from_str::<serde_json::Value>`. The value it returns depends on the
/// text alone and is named by [`parsed_json`]; the error's message is the parser's own and
/// nothing is claimed of it.
#[verifier::external_body]
pub(crate) fn parse_json_text(text: &str) -> (r: Result<JsonValue, String>)
    ensures
        match r {
            Ok(v) => parsed_json(text@) == Some(v),
            Err(_) => parsed_json(text@) is None,
        },
{
    match serde_json::from_str::<serde_json::Value>(text) {
        Ok(v) => Ok(json_from_serde(&v)),
        Err(e) => Err(e.to_string()),
    }
}

/// Copies a [`JsonValue`] into a `serde_json::Value`: numbers read back from their text
/// (`null` where that text is not a JSON number), members inserted in order into the
/// crate's map. Nothing is claimed of the copy.
#[verifier::external_body]
fn serde_from_json(v: &JsonValue) -> serde_json::Value {
    match v {
        JsonValue::Null => serde_json::Value::Null,
        JsonValue::Bool(b) => serde_json::Value::Bool(*b),
        JsonValue::Number(n) => n.parse::<serde_json::Number>().map(serde_json::Value::Number).unwrap_or(serde_json::Value::Null),
        JsonValue::Str(s) => serde_json::Value::String(s.clone()),
        JsonValue::Array(a) => serde_json::Value::Array(a.iter().map(serde_from_json).collect()),
        JsonValue::Object(m) => serde_json::Value::Object(m.iter().map(|(k, x)| (k.clone(), serde_from_json(x))).collect()),
    }
}

/// What `serde_json::to_string` writes for a value (compact JSON text).
pub uninterp spec fn json_text(v: JsonValue) -> Seq<char>;

/// Calls `serde_json::to_string` on the value. Claimed: the text is [`json_text`] of the
/// value. (Writing a `serde_json::Value` cannot fail; the empty text stands in, as in the
/// caller, should it ever.)
#[verifier::external_body]
pub(crate) fn json_to_string(v: &JsonValue) -> (r: String)
    ensures
        r@ == json_text(*v),
{
    serde_json::to_string(&serde_from_json(v)).unwrap_or_default()
}

/// The position of the first member named `key` among `members`.
pub open spec fn member_index(members: Seq<(String, JsonValue)>, key: Seq<char>) -> Option<int>
    decreases members.len(),
{
    if members.len() == 0 {
        None
    } else if members[0].0@ == key {
        Some(0)
    } else {
        match member_index(members.drop_first(), key) {
            Some(i) => Some(i + 1),
            None => None,
        }
    }
}

pub proof fn lemma_member_index_bounds(members: Seq<(String, JsonValue)>, key: Seq<char>)
    ensures
        member_index(members, key) matches Some(i) ==> 0 <= i < members.len() && members[i].0@ == key,
    decreases members.len(),
{
    if members.len() > 0 && members[0].0@ != key {
        lemma_member_index_bounds(members.drop_first(), key);
    }
}

/// `Value::get` with a key: the member of an object named `key`.
pub open spec fn json_get(v: JsonValue, key: Seq<char>) -> Option<JsonValue> {
    match v {
        JsonValue::Object(m) => match member_index(m@, key) {
            Some(i) => Some(m@[i].1),
            None => None,
        },
        _ => None,
    }
}

/// Looks up a member of an object.
pub fn get_member<'a>(v: &'a JsonValue, key: &str) -> (r: Option<&'a JsonValue>)
    ensures
        match r {
            Some(x) => json_get(*v, key@) == Some(*x),
            None => json_get(*v, key@) is None,
        },
{
    match v {
        JsonValue::Object(m) => {
            let mut i: usize = 0;
            assert(m@.subrange(0, m@.len() as int) =~= m@);
            while i < m.len()
                invariant
                    i <= m.len(),
                    *v == JsonValue::Object(*m),
                    forall|j: int| 0 <= j < i ==> m@[j].0@ != key@,
                    member_index(m@, key@) == (match member_index(m@.subrange(i as int, m@.len() as int), key@) {
                        Some(k) => Some(k + i),
                        None => None::<int>,
                    }),
                decreases m.len() - i,
            {
                let ghost rest = m@.subrange(i as int, m@.len() as int);
                assert(rest[0] == m@[i as int]);
                if str_eq(m[i].0.as_str(), key) {
                    assert(member_index(rest, key@) == Some(0int));
                    assert(member_index(m@, key@) == Some(i as int));
                    assert(*v == JsonValue::Object(*m));
                    assert(json_get(*v, key@) == Some(m@[i as int].1));
                    return Some(&m[i].1);
                }
                assert(rest.drop_first() =~= m@.subrange(i + 1, m@.len() as int));
                i = i + 1;
            }
            assert(m@.subrange(i as int, m@.len() as int) =~= Seq::<(String, JsonValue)>::empty());
            None
        },
        _ => None,
    }
}

/// A pointer token read as an array index: decimal digits without a leading zero (but `0`
/// itself), fitting in `usize`, as `serde_json` reads it.
pub open spec fn index_token(t: Seq<char>) -> Option<int> {
    if t.len() > 0 && (forall|i: int| 0 <= i < t.len() ==> '0' <= #[trigger] t[i] <= '9')
        && (t.len() == 1 || t[0] != '0') && digits_value(t) <= usize::MAX {
        Some(digits_value(t))
    } else {
        None
    }
}

/// The value of a string of decimal digits.
pub open spec fn digits_value(t: Seq<char>) -> int
    decreases t.len(),
{
    if t.len() == 0 {
        0
    } else {
        digits_value(t.drop_last()) * 10 + ((t.last() as int) - ('0' as int))
    }
}

/// Reads a pointer token as an array index.
pub fn parse_index_token(t: &str) -> (r: Option<usize>)
    ensures
        match r {
            Some(i) => index_token(t@) == Some(i as int),
            None => index_token(t@) is None,
        },
{
    let n = t.unicode_len();
    if n == 0 {
        return None;
    }
    let first = t.get_char(0);
    if n > 1 && first == '0' {
        return None;
    }
    let mut value: usize = 0;
    let mut overflow = false;
    let mut i: usize = 0;
    while i < n
        invariant
            i <= n == t@.len(),
            n > 0,
            t@[0] == first,
            forall|j: int| 0 <= j < i ==> '0' <= #[trigger] t@[j] <= '9',
            !overflow ==> value as int == digits_value(t@.subrange(0, i as int)),
            overflow ==> digits_value(t@.subrange(0, i as int)) > usize::MAX,
        decreases n - i,
    {
        let c = t.get_char(i);
        if !('0' <= c && c <= '9') {
            return None;
        }
        let d = (c as u32 - '0' as u32) as usize;
        let ghost pre = t@.subrange(0, i as int);
        assert(t@.subrange(0, i + 1).drop_last() =~= pre);
        proof {
            lemma_digits_nonneg(pre);
        }
        if !overflow {
            if value > (usize::MAX - d) / 10 {
                overflow = true;
                assert(value * 10 + d > usize::MAX) by (nonlinear_arith)
                    requires value > (usize::MAX - d) / 10, d <= 9;
            } else {
                assert(value * 10 + d <= usize::MAX) by (nonlinear_arith)
                    requires value <= (usize::MAX - d) / 10, d <= 9;
                value = value * 10 + d;
            }
        } else {
            assert(digits_value(pre) * 10 + d > usize::MAX) by (nonlinear_arith)
                requires digits_value(pre) > usize::MAX, d >= 0;
        }
        i = i + 1;
    }
    assert(t@.subrange(0, n as int) =~= t@);
    if overflow {
        None
    } else {
        Some(value)
    }
}

pub proof fn lemma_digits_nonneg(t: Seq<char>)
    requires
        forall|j: int| 0 <= j < t.len() ==> '0' <= #[trigger] t[j] <= '9',
    ensures
        digits_value(t) >= 0,
    decreases t.len(),
{
    if t.len() > 0 {
        assert forall|j: int| 0 <= j < t.drop_last().len() implies '0' <= #[trigger] t.drop_last()[j] <= '9' by {
            assert(t.drop_last()[j] == t[j]);
        }
        lemma_digits_nonneg(t.drop_last());
    }
}

/// One step of a pointer: an object member, or an array element when the token is an index.
pub open spec fn pointer_step(v: JsonValue, token: Seq<char>) -> Option<JsonValue> {
    match v {
        JsonValue::Object(_) => json_get(v, token),
        JsonValue::Array(a) => match index_token(token) {
            Some(i) => if i < a@.len() { Some(a@[i]) } else { None },
            None => None,
        },
        _ => None,
    }
}

/// `Value::pointer` with the given (unescaped) tokens.
pub open spec fn json_pointer(v: JsonValue, tokens: Seq<Seq<char>>) -> Option<JsonValue>
    decreases tokens.len(),
{
    if tokens.len() == 0 {
        Some(v)
    } else {
        match pointer_step(v, tokens[0]) {
            Some(w) => json_pointer(w, tokens.drop_first()),
            None => None,
        }
    }
}

/// Follows one pointer token.
pub fn follow_token<'a>(v: &'a JsonValue, token: &str) -> (r: Option<&'a JsonValue>)
    ensures
        match r {
            Some(x) => pointer_step(*v, token@) == Some(*x),
            None => pointer_step(*v, token@) is None,
        },
{
    match v {
        JsonValue::Object(_) => get_member(v, token),
        JsonValue::Array(a) => match parse_index_token(token) {
            Some(i) => if i < a.len() { Some(&a[i]) } else { None },
            None => None,
        },
        _ => None,
    }
}

/// The character sequences of a list of tokens.
pub open spec fn token_views(tokens: Seq<&str>) -> Seq<Seq<char>> {
    tokens.map_values(|t: &str| t@)
}

/// Follows a list of pointer tokens.
pub fn follow_pointer<'a>(v: &'a JsonValue, tokens: &Vec<&str>) -> (r: Option<&'a JsonValue>)
    ensures
        match r {
            Some(x) => json_pointer(*v, token_views(tokens@)) == Some(*x),
            None => json_pointer(*v, token_views(tokens@)) is None,
        },
{
    let ghost all = token_views(tokens@);
    let mut cur: &JsonValue = v;
    let mut i: usize = 0;
    assert(all.subrange(0, all.len() as int) =~= all);
    while i < tokens.len()
        invariant
            i <= tokens.len(),
            all == token_views(tokens@),
            json_pointer(*v, all) == json_pointer(*cur, all.subrange(i as int, all.len() as int)),
        decreases tokens.len() - i,
    {
        let ghost rest = all.subrange(i as int, all.len() as int);
        assert(rest[0] == tokens@[i as int]@);
        assert(rest.drop_first() =~= all.subrange(i + 1, all.len() as int));
        match follow_token(cur, tokens[i]) {
            Some(next) => {
                cur = next;
            },
            None => {
                return None;
            },
        }
        i = i + 1;
    }
    assert(all.subrange(i as int, all.len() as int) =~= Seq::<Seq<char>>::empty());
    Some(cur)
}

} // verus!
