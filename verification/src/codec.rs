//! Literal encoding and decoding of field values.
//!
//! Writing a value produces its canonical literal (see [`crate::literal`]);
//! a text value is passed through as it stands, so that reading and writing
//! are consistent with each other. Reading accepts at least every canonical
//! literal; what a non-canonical literal means is left to the structured
//! literal decoder, `serde_json`, whose verdict the spec functions
//! [`read_int`], [`read_bool`] and [`read_int_list`] model.

use vstd::prelude::*;
use crate::literal::{
    bool_literal, int_literal, lemma_int_literal_injective, lemma_list_literal_injective,
    list_literal,
};
use crate::value::{tag_of, TypeTag, Value, ValueModel};

verus! {

/// What `serde_json::from_str::<i64>` returns on a given text.
pub uninterp spec fn json_int(s: Seq<char>) -> Option<i64>;

/// What `serde_json::from_str::<bool>` returns on a given text.
pub uninterp spec fn json_bool(s: Seq<char>) -> Option<bool>;

/// What `serde_json::from_str::<Vec<i64>>` returns on a given text.
pub uninterp spec fn json_int_list(s: Seq<char>) -> Option<Seq<i64>>;

/// The integer a raw text denotes: its value when the text is a canonical
/// integer literal, otherwise whatever the structured literal decoder says.
pub open spec fn read_int(s: Seq<char>) -> Option<i64> {
    if exists|n: i64| s == int_literal(n as int) {
        Some(choose|n: i64| s == int_literal(n as int))
    } else {
        json_int(s)
    }
}

/// The boolean a raw text denotes.
pub open spec fn read_bool(s: Seq<char>) -> Option<bool> {
    if s == bool_literal(true) {
        Some(true)
    } else if s == bool_literal(false) {
        Some(false)
    } else {
        json_bool(s)
    }
}

/// The integer list a raw text denotes.
pub open spec fn read_int_list(s: Seq<char>) -> Option<Seq<i64>> {
    if exists|v: Seq<i64>| s == list_literal(v) {
        Some(choose|v: Seq<i64>| s == list_literal(v))
    } else {
        json_int_list(s)
    }
}

/// Reading back the canonical literal of an integer yields that integer.
pub proof fn lemma_read_int_literal(n: i64)
    ensures
        read_int(int_literal(n as int)) == Some(n),
{
    let s = int_literal(n as int);
    assert(exists|m: i64| s == int_literal(m as int));
    let m = choose|m: i64| s == int_literal(m as int);
    lemma_int_literal_injective(m as int, n as int);
}

/// Reading back the literal of a boolean yields that boolean.
pub proof fn lemma_read_bool_literal(b: bool)
    ensures
        read_bool(bool_literal(b)) == Some(b),
{
    assert(bool_literal(true).len() != bool_literal(false).len());
}

/// Reading back the canonical literal of an integer list yields that list.
pub proof fn lemma_read_int_list_literal(v: Seq<i64>)
    ensures
        read_int_list(list_literal(v)) == Some(v),
{
    let s = list_literal(v);
    assert(exists|w: Seq<i64>| s == list_literal(w));
    let w = choose|w: Seq<i64>| s == list_literal(w);
    lemma_list_literal_injective(w, v);
}

/// Relies on `serde_json::to_string::<i64>`: it writes the integer's decimal
/// digits, with a leading `-` when it is negative, and cannot fail on an
/// integer.
#[verifier::external_body]
fn render_int(n: i64) -> (r: String)
    ensures
        r@ == int_literal(n as int),
{
    serde_json::to_string(&n).unwrap()
}

/// Relies on `serde_json::to_string::<bool>`: it writes `true` or `false`,
/// and cannot fail on a boolean.
#[verifier::external_body]
fn render_bool(b: bool) -> (r: String)
    ensures
        r@ == bool_literal(b),
{
    serde_json::to_string(&b).unwrap()
}

/// Relies on `serde_json::to_string::<Vec<i64>>`: it writes the elements'
/// decimal literals joined by commas between square brackets, and cannot
/// fail on a list of integers.
#[verifier::external_body]
fn render_int_list(l: &Vec<i64>) -> (r: String)
    ensures
        r@ == list_literal(l@),
{
    serde_json::to_string(l).unwrap()
}

/// Relies on `serde_json::from_str::<i64>`: it is a deterministic function
/// of the text, and on the canonical decimal literal of an integer it
/// returns that integer.
#[verifier::external_body]
fn parse_int(s: &str) -> (r: Result<i64, String>)
    ensures
        (r matches Ok(n) ==> read_int(s@) == Some(n)),
        (r is Err ==> read_int(s@) is None),
        (r is Err ==> json_int(s@) is None),
{
    serde_json::from_str::<i64>(s).map_err(|e| e.to_string())
}

/// Relies on `serde_json::from_str::<bool>`: it is a deterministic function
/// of the text, and on `true` or `false` it returns that boolean.
#[verifier::external_body]
fn parse_bool(s: &str) -> (r: Result<bool, String>)
    ensures
        (r matches Ok(b) ==> read_bool(s@) == Some(b)),
        (r is Err ==> read_bool(s@) is None),
        (r is Err ==> json_bool(s@) is None),
{
    serde_json::from_str::<bool>(s).map_err(|e| e.to_string())
}

/// Relies on `serde_json::from_str::<Vec<i64>>`: it is a deterministic
/// function of the text, and on the canonical literal of an integer list it
/// returns that list.
#[verifier::external_body]
fn parse_int_list(s: &str) -> (r: Result<Vec<i64>, String>)
    ensures
        (r matches Ok(l) ==> read_int_list(s@) == Some(l@)),
        (r is Err ==> read_int_list(s@) is None),
        (r is Err ==> json_int_list(s@) is None),
{
    serde_json::from_str::<Vec<i64>>(s).map_err(|e| e.to_string())
}

/// The raw text a value is written to the store as: a text value as it
/// stands, any other value as its canonical literal.
pub open spec fn write_value(v: ValueModel) -> Seq<char> {
    match v {
        ValueModel::Text(s) => s,
        ValueModel::Int(n) => int_literal(n as int),
        ValueModel::Bool(b) => bool_literal(b),
        ValueModel::IntList(l) => list_literal(l),
    }
}

/// Writes a value as raw text.
pub fn encode_value(v: &Value) -> (r: String)
    ensures
        r@ == write_value(v@),
{
    match v {
        Value::VText(s) => s.clone(),
        Value::VInt(n) => render_int(*n),
        Value::VBool(b) => render_bool(*b),
        Value::VIntList(l) => render_int_list(l),
    }
}

/// The value a raw text denotes under a declared type: text is taken as it
/// stands, every other type goes through the structured literal decoder.
/// `None` is a decode failure.
pub open spec fn read_value(tag: TypeTag, s: Seq<char>) -> Option<ValueModel> {
    match tag {
        TypeTag::TText => Some(ValueModel::Text(s)),
        TypeTag::TInt => match read_int(s) {
            Some(n) => Some(ValueModel::Int(n)),
            None => None,
        },
        TypeTag::TBool => match read_bool(s) {
            Some(b) => Some(ValueModel::Bool(b)),
            None => None,
        },
        TypeTag::TIntList => match read_int_list(s) {
            Some(l) => Some(ValueModel::IntList(l)),
            None => None,
        },
    }
}

/// Reads a raw text as a value of the declared type. An `Err` carries the
/// decoder's account of the failure.
pub fn decode_value(tag: TypeTag, s: &String) -> (r: Result<Value, String>)
    ensures
        (r matches Ok(v) ==> read_value(tag, s@) == Some(v@)),
        (r is Err ==> read_value(tag, s@) is None),
{
    match tag {
        TypeTag::TText => Ok(Value::VText(s.clone())),
        TypeTag::TInt => match parse_int(s.as_str()) {
            Ok(n) => Ok(Value::VInt(n)),
            Err(e) => Err(e),
        },
        TypeTag::TBool => match parse_bool(s.as_str()) {
            Ok(b) => Ok(Value::VBool(b)),
            Err(e) => Err(e),
        },
        TypeTag::TIntList => match parse_int_list(s.as_str()) {
            Ok(l) => Ok(Value::VIntList(l)),
            Err(e) => Err(e),
        },
    }
}

/// Writing a value and reading the text back under the value's own type
/// yields the value again.
pub proof fn lemma_write_read_value(v: ValueModel)
    ensures
        read_value(tag_of(v), write_value(v)) == Some(v),
{
    match v {
        ValueModel::Text(_) => {},
        ValueModel::Int(n) => {
            lemma_read_int_literal(n);
        },
        ValueModel::Bool(b) => {
            lemma_read_bool_literal(b);
        },
        ValueModel::IntList(l) => {
            lemma_read_int_list_literal(l);
        },
    }
}

} // verus!
