//! The JSON values that the converter reads, with their mathematical model.
//!
//! `JsonValue` holds a JSON document as plain values, in the shape of
//! `serde_json::Value`: a number is a non-negative integer, a negative
//! integer, or a float kept as the text that JSON serialization gives it;
//! an object keeps its entries in iteration order.

use vstd::prelude::*;
use crate::text::{decimal, digit_char, push_decimal, str_eq};

verus! {

/// A JSON number.
#[derive(Debug)]
pub enum JsonNumber {
    /// A non-negative integer.
    PosInt(u64),
    /// A negative integer.
    NegInt(i64),
    /// A finite float, held as its JSON text.
    Float(String),
}

/// A JSON value.
#[derive(Debug)]
pub enum JsonValue {
    Null,
    Bool(bool),
    Number(JsonNumber),
    String(String),
    Array(Vec<JsonValue>),
    /// The entries of an object, in iteration order.
    Object(Vec<(String, JsonValue)>),
}

/// The mathematical model of a JSON value: strings become character sequences.
pub enum JsonModel {
    Null,
    Bool(bool),
    PosInt(u64),
    NegInt(i64),
    Float(Seq<char>),
    Str(Seq<char>),
    Array(Seq<JsonModel>),
    Object(Seq<(Seq<char>, JsonModel)>),
}

/// The model of a JSON value.
pub open spec fn json_view(v: JsonValue) -> JsonModel
    decreases v,
{
    match v {
        JsonValue::Null => JsonModel::Null,
        JsonValue::Bool(b) => JsonModel::Bool(b),
        JsonValue::Number(JsonNumber::PosInt(n)) => JsonModel::PosInt(n),
        JsonValue::Number(JsonNumber::NegInt(n)) => JsonModel::NegInt(n),
        JsonValue::Number(JsonNumber::Float(t)) => JsonModel::Float(t@),
        JsonValue::String(s) => JsonModel::Str(s@),
        JsonValue::Array(items) => JsonModel::Array(
            Seq::new(
                items.len() as nat,
                |i: int|
                    if 0 <= i < items.len() {
                        json_view(items[i])
                    } else {
                        JsonModel::Null
                    },
            ),
        ),
        JsonValue::Object(entries) => JsonModel::Object(
            Seq::new(
                entries.len() as nat,
                |i: int|
                    if 0 <= i < entries.len() {
                        (entries[i].0@, json_view(entries[i].1))
                    } else {
                        (Seq::empty(), JsonModel::Null)
                    },
            ),
        ),
    }
}

impl View for JsonValue {
    type V = JsonModel;

    open spec fn view(&self) -> JsonModel {
        json_view(*self)
    }
}


/// The value under `key` among an object's entries: that of the first entry with this key.
pub open spec fn entries_get(es: Seq<(Seq<char>, JsonModel)>, key: Seq<char>) -> Option<JsonModel>
    decreases es.len(),
{
    if es.len() == 0 {
        None
    } else if es[0].0 == key {
        Some(es[0].1)
    } else {
        entries_get(es.drop_first(), key)
    }
}

/// The member `key` of a JSON value: present only in an object that has it.
pub open spec fn model_get(m: JsonModel, key: Seq<char>) -> Option<JsonModel> {
    match m {
        JsonModel::Object(es) => entries_get(es, key),
        _ => None,
    }
}

/// The text of a JSON string.
pub open spec fn model_str(m: JsonModel) -> Option<Seq<char>> {
    match m {
        JsonModel::Str(s) => Some(s),
        _ => None,
    }
}

/// The value of a JSON boolean.
pub open spec fn model_bool(m: JsonModel) -> Option<bool> {
    match m {
        JsonModel::Bool(b) => Some(b),
        _ => None,
    }
}

/// The value of a JSON number that is a non-negative integer.
pub open spec fn model_u64(m: JsonModel) -> Option<u64> {
    match m {
        JsonModel::PosInt(n) => Some(n),
        _ => None,
    }
}

/// The elements of a JSON array.
pub open spec fn model_array(m: JsonModel) -> Option<Seq<JsonModel>> {
    match m {
        JsonModel::Array(xs) => Some(xs),
        _ => None,
    }
}

/// The member `key` of `m`, where it is a string.
pub open spec fn field_str(m: JsonModel, key: Seq<char>) -> Option<Seq<char>> {
    match model_get(m, key) {
        Some(v) => model_str(v),
        None => None,
    }
}

/// The member `key` of `m`, where it is a boolean.
pub open spec fn field_bool(m: JsonModel, key: Seq<char>) -> Option<bool> {
    match model_get(m, key) {
        Some(v) => model_bool(v),
        None => None,
    }
}

/// The member `key` of `m`, where it is a non-negative integer.
pub open spec fn field_u64(m: JsonModel, key: Seq<char>) -> Option<u64> {
    match model_get(m, key) {
        Some(v) => model_u64(v),
        None => None,
    }
}

/// The member `key` of `m`, where it is an array.
pub open spec fn field_array(m: JsonModel, key: Seq<char>) -> Option<Seq<JsonModel>> {
    match model_get(m, key) {
        Some(v) => model_array(v),
        None => None,
    }
}

/// The model of an optional reference to a JSON value.
pub open spec fn opt_json_view(o: Option<&JsonValue>) -> Option<JsonModel> {
    match o {
        Some(v) => Some(v@),
        None => None,
    }
}

/// The model of an optional JSON value.
pub open spec fn opt_json_owned_view(o: Option<JsonValue>) -> Option<JsonModel> {
    match o {
        Some(v) => Some(v@),
        None => None,
    }
}

/// The models of the elements of a vector of JSON values.
pub open spec fn json_vec_view(xs: Vec<JsonValue>) -> Seq<JsonModel> {
    Seq::new(xs.len() as nat, |i: int| xs[i]@)
}

impl JsonValue {
    /// The member `key` of this value, where it is an object that has one.
    pub fn get(&self, key: &str) -> (r: Option<&JsonValue>)
        ensures
            opt_json_view(r) == model_get(self@, key@),
    {
        match self {
            JsonValue::Object(entries) => {
                let ghost ms = match self@ {
                    JsonModel::Object(es) => es,
                    _ => Seq::empty(),
                };
                assert(ms.len() == entries.len());
                assert(ms.skip(0) =~= ms);
                let mut i: usize = 0;
                while i < entries.len()
                    invariant
                        0 <= i <= entries.len(),
                        ms.len() == entries.len(),
                        forall|j: int|
                            0 <= j < entries.len() ==> #[trigger] ms[j] == (
                                entries[j].0@,
                                entries[j].1@,
                            ),
                        model_get(self@, key@) == entries_get(ms, key@),
                        entries_get(ms, key@) == entries_get(ms.skip(i as int), key@),
                    decreases entries.len() - i,
                {
                    assert(ms[i as int] == (entries[i as int].0@, entries[i as int].1@));
                    if str_eq(entries[i].0.as_str(), key) {
                        return Some(&entries[i].1);
                    }
                    assert(ms.skip(i as int).drop_first() =~= ms.skip(i + 1));
                    i += 1;
                }
                None
            },
            _ => None,
        }
    }

    /// The text of this value, where it is a string.
    pub fn as_str(&self) -> (r: Option<&str>)
        ensures
            match r {
                Some(s) => model_str(self@) == Some(s@),
                None => model_str(self@) is None,
            },
    {
        match self {
            JsonValue::String(s) => Some(s.as_str()),
            _ => None,
        }
    }

    /// The value of this boolean.
    pub fn as_bool(&self) -> (r: Option<bool>)
        ensures
            r == model_bool(self@),
    {
        match self {
            JsonValue::Bool(b) => Some(*b),
            _ => None,
        }
    }

    /// The value of this number, where it is a non-negative integer.
    pub fn as_u64(&self) -> (r: Option<u64>)
        ensures
            r == model_u64(self@),
    {
        match self {
            JsonValue::Number(JsonNumber::PosInt(n)) => Some(*n),
            _ => None,
        }
    }

    /// The elements of this array.
    pub fn as_array(&self) -> (r: Option<&Vec<JsonValue>>)
        ensures
            match r {
                Some(xs) => model_array(self@) == Some(json_vec_view(*xs)),
                None => model_array(self@) is None,
            },
    {
        match self {
            JsonValue::Array(items) => {
                assert(json_vec_view(*items) =~= self@->Array_0);
                Some(items)
            },
            _ => None,
        }
    }
}


impl Clone for JsonNumber {
    fn clone(&self) -> (r: Self)
        ensures
            r == *self,
    {
        match self {
            JsonNumber::PosInt(n) => JsonNumber::PosInt(*n),
            JsonNumber::NegInt(n) => JsonNumber::NegInt(*n),
            JsonNumber::Float(t) => JsonNumber::Float(t.clone()),
        }
    }
}

impl Clone for JsonValue {
    /// A copy with the same model.
    fn clone(&self) -> (r: Self)
        ensures
            r@ == self@,
        decreases self,
    {
        match self {
            JsonValue::Null => JsonValue::Null,
            JsonValue::Bool(b) => JsonValue::Bool(*b),
            JsonValue::Number(n) => JsonValue::Number(n.clone()),
            JsonValue::String(s) => JsonValue::String(s.clone()),
            JsonValue::Array(items) => {
                let mut out: Vec<JsonValue> = Vec::new();
                let mut i: usize = 0;
                while i < items.len()
                    invariant
                        0 <= i <= items.len(),
                        out.len() == i,
                        *self == JsonValue::Array(*items),
                        forall|j: int| 0 <= j < i ==> #[trigger] json_view(out[j]) == json_view(items[j]),
                    decreases items.len() - i,
                {
                    proof {
                        assert(decreases_to!(*self => (*self)->Array_0));
                        assert(decreases_to!(*items => items[i as int]));
                    }
                    let c = items[i].clone();
                    out.push(c);
                    i += 1;
                }
                let ghost outv = out;
                let r = JsonValue::Array(out);
                assert forall|j: int| 0 <= j < outv.len() implies #[trigger] r@->Array_0[j]
                    == self@->Array_0[j] by {
                    assert(json_view(outv[j]) == json_view(items[j]));
                }
                assert(r@->Array_0 =~= self@->Array_0);
                r
            },
            JsonValue::Object(entries) => {
                let mut out: Vec<(String, JsonValue)> = Vec::new();
                let mut i: usize = 0;
                while i < entries.len()
                    invariant
                        0 <= i <= entries.len(),
                        out.len() == i,
                        *self == JsonValue::Object(*entries),
                        forall|j: int|
                            0 <= j < i ==> #[trigger] out[j].0@ == entries[j].0@ && json_view(out[j].1)
                                == json_view(entries[j].1),
                    decreases entries.len() - i,
                {
                    let k = entries[i].0.clone();
                    proof {
                        assert(decreases_to!(*self => (*self)->Object_0));
                        assert(decreases_to!(*entries => entries[i as int]));
                        assert(decreases_to!(entries[i as int] => entries[i as int].1));
                    }
                    let c = entries[i].1.clone();
                    out.push((k, c));
                    i += 1;
                }
                let r = JsonValue::Object(out);
                assert(r@->Object_0 =~= self@->Object_0);
                r
            },
        }
    }
}

/// The lowercase hexadecimal digit for a value below sixteen.
pub open spec fn hex_digit(d: nat) -> char {
    if d < 10 {
        digit_char(d)
    } else if d == 10 {
        'a'
    } else if d == 11 {
        'b'
    } else if d == 12 {
        'c'
    } else if d == 13 {
        'd'
    } else if d == 14 {
        'e'
    } else {
        'f'
    }
}

/// How one character stands inside a JSON string: the quote and the backslash behind a
/// backslash; backspace, tab, line feed, form feed and carriage return as `\b`, `\t`,
/// `\n`, `\f`, `\r`; any other character below U+0020 as `\u00` and two lowercase hex
/// digits; every other character as itself.
pub open spec fn escape_char(c: char) -> Seq<char> {
    if c == '"' {
        seq!['\\', '"']
    } else if c == '\\' {
        seq!['\\', '\\']
    } else if c == '\u{8}' {
        seq!['\\', 'b']
    } else if c == '\t' {
        seq!['\\', 't']
    } else if c == '\n' {
        seq!['\\', 'n']
    } else if c == '\u{c}' {
        seq!['\\', 'f']
    } else if c == '\r' {
        seq!['\\', 'r']
    } else if (c as nat) < 0x20 {
        seq!['\\', 'u', '0', '0', hex_digit((c as nat) / 16), hex_digit((c as nat) % 16)]
    } else {
        seq![c]
    }
}

/// The characters of a string, each as it stands inside a JSON string.
pub open spec fn escape_chars(s: Seq<char>) -> Seq<char>
    decreases s.len(),
{
    if s.len() == 0 {
        Seq::empty()
    } else {
        escape_chars(s.drop_last()) + escape_char(s.last())
    }
}

/// The JSON string literal for `s`: its escaped characters between double quotes.
pub open spec fn json_string_literal(s: Seq<char>) -> Seq<char> {
    seq!['"'] + escape_chars(s) + seq!['"']
}

/// Calls `serde_json::to_string` on a string slice. The contract claims what serde_json's
/// serializer writes for a string: a double quote, each character escaped as
/// `escape_char` says (serde_json escapes by byte, and the bytes it escapes are the ASCII
/// ones below 0x20, the quote and the backslash), and a closing double quote. Serializing
/// a string into memory does not fail.
#[verifier::external_body]
fn quote_json_string(s: &str) -> (r: String)
    ensures
        r@ == json_string_literal(s@),
{
    serde_json::to_string(s).unwrap_or_default()
}

/// The compact JSON text of a value, as `serde_json::to_string` writes it: no spaces,
/// elements and entries in order, separated by commas.
pub open spec fn json_text(m: JsonModel) -> Seq<char>
    decreases m,
{
    match m {
        JsonModel::Null => "null"@,
        JsonModel::Bool(b) => if b {
            "true"@
        } else {
            "false"@
        },
        JsonModel::PosInt(n) => decimal(n as nat),
        JsonModel::NegInt(n) => if n < 0 {
            "-"@ + decimal((-n) as nat)
        } else {
            decimal(n as nat)
        },
        JsonModel::Float(t) => t,
        JsonModel::Str(s) => json_string_literal(s),
        JsonModel::Array(xs) => "["@ + array_body(xs) + "]"@,
        JsonModel::Object(es) => "{"@ + object_body(es) + "}"@,
    }
}

/// The elements of an array in JSON text, separated by commas.
pub open spec fn array_body(xs: Seq<JsonModel>) -> Seq<char>
    decreases xs,
{
    if xs.len() == 0 {
        Seq::empty()
    } else if xs.len() == 1 {
        json_text(xs[0])
    } else {
        array_body(xs.subrange(0, xs.len() - 1)) + ","@ + json_text(xs[xs.len() - 1])
    }
}

/// The entries of an object in JSON text, `"key":value`, separated by commas.
pub open spec fn object_body(es: Seq<(Seq<char>, JsonModel)>) -> Seq<char>
    decreases es,
{
    if es.len() == 0 {
        Seq::empty()
    } else if es.len() == 1 {
        json_string_literal(es[0].0) + ":"@ + json_text(es[0].1)
    } else {
        object_body(es.subrange(0, es.len() - 1)) + ","@ + json_string_literal(
            es[es.len() - 1].0,
        ) + ":"@ + json_text(es[es.len() - 1].1)
    }
}

/// Appends the compact JSON text of `v` to `out`.
pub fn write_json(v: &JsonValue, out: &mut String)
    ensures
        final(out)@ == old(out)@ + json_text(v@),
    decreases v,
{
    let ghost start = out@;
    match v {
        JsonValue::Null => out.append("null"),
        JsonValue::Bool(b) => {
            if *b {
                out.append("true")
            } else {
                out.append("false")
            }
        },
        JsonValue::Number(JsonNumber::PosInt(n)) => push_decimal(out, *n),
        JsonValue::Number(JsonNumber::NegInt(n)) => {
            if *n < 0 {
                out.append("-");
                let m: u64 = ((-(*n + 1)) as u64) + 1;
                assert(m == -n);
                push_decimal(out, m);
            } else {
                push_decimal(out, *n as u64);
            }
        },
        JsonValue::Number(JsonNumber::Float(t)) => out.append(t.as_str()),
        JsonValue::String(s) => {
            let q = quote_json_string(s.as_str());
            out.append(q.as_str());
        },
        JsonValue::Array(items) => {
            let ghost xs = v@->Array_0;
            out.append("[");
            let mut i: usize = 0;
            while i < items.len()
                invariant
                    0 <= i <= items.len(),
                    xs.len() == items.len(),
                    *v == JsonValue::Array(*items),
                    forall|j: int| 0 <= j < items.len() ==> #[trigger] xs[j] == items[j]@,
                    out@ == start + "["@ + array_body(xs.subrange(0, i as int)),
                decreases items.len() - i,
            {
                let ghost before = out@;
                if i > 0 {
                    out.append(",");
                }
                proof {
                    assert(decreases_to!(*v => (*v)->Array_0));
                    assert(decreases_to!(*items => items[i as int]));
                }
                write_json(&items[i], out);
                assert(xs.subrange(0, i + 1).subrange(0, i as int) =~= xs.subrange(0, i as int));
                assert(xs[i as int] == items[i as int]@);
                i += 1;
            }
            out.append("]");
            assert(xs.subrange(0, items.len() as int) =~= xs);
        },
        JsonValue::Object(entries) => {
            let ghost es = v@->Object_0;
            out.append("{");
            let mut i: usize = 0;
            while i < entries.len()
                invariant
                    0 <= i <= entries.len(),
                    es.len() == entries.len(),
                    *v == JsonValue::Object(*entries),
                    forall|j: int|
                        0 <= j < entries.len() ==> #[trigger] es[j] == (
                            entries[j].0@,
                            entries[j].1@,
                        ),
                    out@ == start + "{"@ + object_body(es.subrange(0, i as int)),
                decreases entries.len() - i,
            {
                if i > 0 {
                    out.append(",");
                }
                let q = quote_json_string(entries[i].0.as_str());
                out.append(q.as_str());
                out.append(":");
                proof {
                    assert(decreases_to!(*v => (*v)->Object_0));
                    assert(decreases_to!(*entries => entries[i as int]));
                    assert(decreases_to!(entries[i as int] => entries[i as int].1));
                }
                write_json(&entries[i].1, out);
                assert(es.subrange(0, i + 1).subrange(0, i as int) =~= es.subrange(0, i as int));
                assert(es[i as int] == (entries[i as int].0@, entries[i as int].1@));
                i += 1;
            }
            out.append("}");
            assert(es.subrange(0, entries.len() as int) =~= es);
        },
    }
    assert(out@ =~= start + json_text(v@));
}

/// The compact JSON text of a value.
pub fn to_json_text(v: &JsonValue) -> (r: String)
    ensures
        r@ == json_text(v@),
{
    let mut out = String::new();
    write_json(v, &mut out);
    assert(out@ =~= json_text(v@));
    out
}

} // verus!
