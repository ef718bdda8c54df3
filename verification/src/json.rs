use vstd::prelude::*;

use crate::text::{chars_of, seq_contains};

verus! {

/// A JSON document as the ONVIF metadata stream delivers it once its XML has
/// been turned into JSON. A number is kept as the text that JSON prints for it.
pub enum JsonValue {
    Null,
    Bool(bool),
    Number(String),
    Str(String),
    Array(Vec<JsonValue>),
    Object(Vec<JsonMember>),
}

/// One `"key": value` member of a JSON object, in document order.
pub struct JsonMember {
    pub key: String,
    pub value: JsonValue,
}

/// The lower-case hexadecimal digit of `n` (below 16).
pub open spec fn hex_digit(n: u32) -> char {
    if n < 10 {
        ((('0' as u32) + n) as char)
    } else {
        ((('a' as u32) + n - 10) as char)
    }
}

/// How one character stands inside a JSON string: `"` and `\` behind a
/// backslash; backspace, tab, line feed, form feed and carriage return as
/// `\b`, `\t`, `\n`, `\f`, `\r`; any other character below 0x20 as
/// `\u00` and two lower-case hex digits; every other character as it is.
pub open spec fn escape_char(c: char) -> Seq<char> {
    let n = c as u32;
    if c == '"' {
        seq!['\\', '"']
    } else if c == '\\' {
        seq!['\\', '\\']
    } else if n == 8 {
        seq!['\\', 'b']
    } else if n == 9 {
        seq!['\\', 't']
    } else if n == 10 {
        seq!['\\', 'n']
    } else if n == 12 {
        seq!['\\', 'f']
    } else if n == 13 {
        seq!['\\', 'r']
    } else if n < 32 {
        seq!['\\', 'u', '0', '0', hex_digit(n / 16), hex_digit(n % 16)]
    } else {
        seq![c]
    }
}

/// The characters of `s`, each as it stands inside a JSON string.
pub open spec fn json_escaped(s: Seq<char>) -> Seq<char>
    decreases s.len(),
{
    if s.len() == 0 {
        Seq::empty()
    } else {
        json_escaped(s.drop_last()) + escape_char(s.last())
    }
}

/// The JSON literal of a string: its escaped characters between double
/// quotes.
pub open spec fn json_quoted_of(s: Seq<char>) -> Seq<char> {
    seq!['"'] + json_escaped(s) + seq!['"']
}

/// No character of `s` is escaped inside a JSON string.
pub open spec fn json_plain(s: Seq<char>) -> bool {
    forall|i: int| 0 <= i < s.len() ==> s[i] != '"' && s[i] != '\\' && (s[i] as u32) >= 32
}

/// Escaping goes character by character.
pub proof fn lemma_escaped_concat(a: Seq<char>, b: Seq<char>)
    ensures
        json_escaped(a + b) == json_escaped(a) + json_escaped(b),
    decreases b.len(),
{
    if b.len() == 0 {
        assert(a + b =~= a);
        assert(json_escaped(a) + json_escaped(b) =~= json_escaped(a));
    } else {
        lemma_escaped_concat(a, b.drop_last());
        assert((a + b).drop_last() =~= a + b.drop_last());
        assert((a + b).last() == b.last());
        assert(json_escaped(a + b) =~= json_escaped(a) + json_escaped(b));
    }
}

/// A text without escaped characters stands in a JSON string as it is.
pub proof fn lemma_escaped_plain(s: Seq<char>)
    requires
        json_plain(s),
    ensures
        json_escaped(s) == s,
    decreases s.len(),
{
    if s.len() > 0 {
        lemma_escaped_plain(s.drop_last());
        assert(json_escaped(s) =~= s);
    }
}

/// A pattern that neither starts nor ends with a double quote occurs in a
/// text between double quotes exactly where it occurs in the text itself.
pub proof fn lemma_contains_quoted(c: Seq<char>, p: Seq<char>)
    requires
        p.len() > 0,
        p[0] != '"',
        p.last() != '"',
    ensures
        seq_contains(seq!['"'] + c + seq!['"'], p) == seq_contains(c, p),
{
    let q = seq!['"'] + c + seq!['"'];
    if seq_contains(q, p) {
        let i = choose|i: int| 0 <= i && i + p.len() <= q.len() && #[trigger] q.subrange(i, i + p.len()) == p;
        assert(q.subrange(i, i + p.len())[0] == q[i]);
        assert(q.subrange(i, i + p.len())[p.len() - 1] == q[i + p.len() - 1]);
        assert(1 <= i);
        assert(i + p.len() <= c.len() + 1);
        assert(c.subrange(i - 1, i - 1 + p.len()) =~= q.subrange(i, i + p.len()));
    }
    if seq_contains(c, p) {
        let j = choose|j: int| 0 <= j && j + p.len() <= c.len() && #[trigger] c.subrange(j, j + p.len()) == p;
        assert(q.subrange(j + 1, j + 1 + p.len()) =~= c.subrange(j, j + p.len()));
    }
}

/// `serde_json::to_string` of a string: its JSON literal, the characters
/// escaped as `serde_json`'s escape table gives them. A string always
/// serializes, so the call does not fail.
#[verifier::external_body]
pub(crate) fn quote_json_string(s: &String) -> (r: Vec<char>)
    ensures
        r@ == json_quoted_of(s@),
{
    serde_json::to_string(s.as_str()).unwrap().chars().collect()
}

/// The value of the first member of `ms` whose key is `key`.
pub open spec fn find_member(ms: Seq<JsonMember>, key: Seq<char>) -> Option<JsonValue>
    decreases ms.len(),
{
    if ms.len() == 0 {
        None
    } else if ms[0].key@ == key {
        Some(ms[0].value)
    } else {
        find_member(ms.drop_first(), key)
    }
}

/// `v.get(key)`: the member `key` of an object, and nothing for any other value.
pub open spec fn json_get(v: JsonValue, key: Seq<char>) -> Option<JsonValue> {
    match v {
        JsonValue::Object(ms) => find_member(ms@, key),
        _ => None,
    }
}

/// `v[key]`: the member `key` of an object, `null` where there is none.
pub open spec fn json_index(v: JsonValue, key: Seq<char>) -> JsonValue {
    match json_get(v, key) {
        Some(x) => x,
        None => JsonValue::Null,
    }
}

/// The compact JSON text of a value (what `to_string` prints for it).
pub open spec fn json_text(v: JsonValue) -> Seq<char>
    decreases v,
{
    match v {
        JsonValue::Null => "null"@,
        JsonValue::Bool(b) => if b { "true"@ } else { "false"@ },
        JsonValue::Number(t) => t@,
        JsonValue::Str(s) => json_quoted_of(s@),
        JsonValue::Array(items) => seq!['['] + items_text(items@) + seq![']'],
        JsonValue::Object(ms) => seq!['{'] + members_text(ms@) + seq!['}'],
    }
}

/// The texts of `items`, separated by commas.
pub open spec fn items_text(items: Seq<JsonValue>) -> Seq<char>
    decreases items,
{
    if items.len() == 0 {
        Seq::empty()
    } else if items.len() == 1 {
        json_text(items[0])
    } else {
        items_text(items.drop_last()) + seq![','] + json_text(items.last())
    }
}

/// The texts `"key":value` of `ms`, separated by commas.
pub open spec fn members_text(ms: Seq<JsonMember>) -> Seq<char>
    decreases ms,
{
    if ms.len() == 0 {
        Seq::empty()
    } else if ms.len() == 1 {
        member_text(ms[0])
    } else {
        members_text(ms.drop_last()) + seq![','] + member_text(ms.last())
    }
}

/// The text `"key":value` of one member.
pub open spec fn member_text(m: JsonMember) -> Seq<char>
    decreases m,
{
    json_quoted_of(m.key@) + seq![':'] + json_text(m.value)
}


/// Skipping members whose key differs does not change which member is found.
proof fn lemma_find_member_skip(ms: Seq<JsonMember>, key: Seq<char>, i: int)
    requires
        0 <= i <= ms.len(),
        forall|j: int| 0 <= j < i ==> ms[j].key@ != key,
    ensures
        find_member(ms, key) == find_member(ms.skip(i), key),
    decreases i,
{
    if i == 0 {
        assert(ms.skip(0) =~= ms);
    } else {
        lemma_find_member_skip(ms, key, i - 1);
        assert(ms.skip(i - 1).drop_first() =~= ms.skip(i));
        assert(ms.skip(i - 1)[0] == ms[i - 1]);
    }
}

impl JsonValue {
    /// `v.get(key)`: the member `key` of an object; `None` for any other value
    /// or a missing key.
    pub fn get<'a>(&'a self, key: &str) -> (r: Option<&'a JsonValue>)
        ensures
            match r {
                Some(x) => json_get(*self, key@) == Some(*x),
                None => json_get(*self, key@) is None,
            },
    {
        match self {
            JsonValue::Object(ms) => {
                let k = key.to_string();
                assert(k@ == key@);
                let mut i: usize = 0;
                while i < ms.len()
                    invariant
                        i <= ms@.len(),
                        k@ == key@,
                        json_get(*self, key@) == find_member(ms@, key@),
                        forall|j: int| 0 <= j < i ==> ms@[j].key@ != key@,
                    decreases ms.len() - i,
                {
                    if ms[i].key == k {
                        proof {
                            lemma_find_member_skip(ms@, key@, i as int);
                            assert(ms@.skip(i as int)[0] == ms@[i as int]);
                        }
                        return Some(&ms[i].value);
                    }
                    i = i + 1;
                }
                proof {
                    lemma_find_member_skip(ms@, key@, i as int);
                }
                None
            },
            _ => None,
        }
    }
}


impl JsonValue {
    /// The compact JSON text of the value, as `serde_json` prints it: `null`,
    /// `true`, `false`, the number's text, the quoted string, `[a,b]` and
    /// `{"k":v}` with members in document order.
    pub fn text(&self) -> (r: Vec<char>)
        ensures
            r@ == json_text(*self),
        decreases self,
    {
        match self {
            JsonValue::Null => chars_of("null"),
            JsonValue::Bool(b) => if *b { chars_of("true") } else { chars_of("false") },
            JsonValue::Number(t) => chars_of(t.as_str()),
            JsonValue::Str(s) => quote_json_string(s),
            JsonValue::Array(items) => {
                let mut r: Vec<char> = Vec::new();
                r.push('[');
                let mut i: usize = 0;
                while i < items.len()
                    invariant
                        i <= items@.len(),
                        *self == JsonValue::Array(*items),
                        r@ == seq!['['] + items_text(items@.take(i as int)),
                    decreases items.len() - i,
                {
                    proof {
                        assert(items@.take(i + 1).drop_last() =~= items@.take(i as int));
                        assert(items@.take(i + 1).last() == items@[i as int]);
                        if i == 0 {
                            assert(items@.take(0) =~= Seq::<JsonValue>::empty());
                        }
                    }
                    if i > 0 {
                        r.push(',');
                    }
                    proof {
                        assert(decreases_to!(*self => (*self)->Array_0));
                        assert(decreases_to!(*items => items@));
                        assert(decreases_to!(items@ => items@[i as int]));
                        assert(decreases_to!(*self => items@[i as int]));
                    }
                    let mut t = items[i].text();
                    r.append(&mut t);
                    i = i + 1;
                }
                assert(items@.take(items@.len() as int) =~= items@);
                r.push(']');
                r
            },
            JsonValue::Object(ms) => {
                let mut r: Vec<char> = Vec::new();
                r.push('{');
                let mut i: usize = 0;
                while i < ms.len()
                    invariant
                        i <= ms@.len(),
                        *self == JsonValue::Object(*ms),
                        r@ == seq!['{'] + members_text(ms@.take(i as int)),
                    decreases ms.len() - i,
                {
                    proof {
                        assert(ms@.take(i + 1).drop_last() =~= ms@.take(i as int));
                        assert(ms@.take(i + 1).last() == ms@[i as int]);
                        if i == 0 {
                            assert(ms@.take(0) =~= Seq::<JsonMember>::empty());
                        }
                    }
                    if i > 0 {
                        r.push(',');
                    }
                    let mut k = quote_json_string(&ms[i].key);
                    r.append(&mut k);
                    r.push(':');
                    proof {
                        assert(decreases_to!(*self => (*self)->Object_0));
                        assert(decreases_to!(*ms => ms@));
                        assert(decreases_to!(ms@ => ms@[i as int]));
                        assert(decreases_to!(ms@[i as int] => ms@[i as int].value));
                        assert(decreases_to!(*self => ms@[i as int].value));
                    }
                    let mut t = ms[i].value.text();
                    assert(member_text(ms@[i as int]) == json_quoted_of(ms@[i as int].key@) + seq![':'] + json_text(ms@[i as int].value));
                    r.append(&mut t);
                    i = i + 1;
                }
                assert(ms@.take(ms@.len() as int) =~= ms@);
                r.push('}');
                r
            },
        }
    }
}


/// The value a lookup found, `null` where it found nothing.
pub open spec fn or_null(o: Option<&JsonValue>) -> JsonValue {
    match o {
        Some(x) => *x,
        None => JsonValue::Null,
    }
}

/// One step of a lookup path: `v[key]`, kept as `None` where it gives `null`
/// because nothing stands there.
pub fn child<'a>(o: Option<&'a JsonValue>, key: &str) -> (r: Option<&'a JsonValue>)
    ensures
        or_null(r) == json_index(or_null(o), key@),
        r is Some <==> json_get(or_null(o), key@) is Some,
{
    match o {
        Some(v) => v.get(key),
        None => None,
    }
}

/// The JSON text of what a lookup found (`null` where it found nothing).
pub fn text_or_null(o: Option<&JsonValue>) -> (r: Vec<char>)
    ensures
        r@ == json_text(or_null(o)),
{
    match o {
        Some(v) => v.text(),
        None => chars_of("null"),
    }
}

} // verus!
