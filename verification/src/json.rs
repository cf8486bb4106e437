//! The JSON document model: a mathematical value (`JVal`), its executable
//! counterpart (`Json`), and lookup of a key inside an object.
//!
//! A number is carried as its decimal lexeme (the exact characters that stood
//! in the document), so no precision is lost and a document can be
//! re-serialized byte for byte.

use vstd::prelude::*;

verus! {

broadcast use vstd::std_specs::vec::axiom_vec_index_decreases;

/// A JSON value as a mathematical object: the model that all contracts of
/// this library speak of.
pub enum JVal {
    Null,
    Bool(bool),
    /// A number, as its decimal lexeme.
    Num(Seq<char>),
    Str(Seq<char>),
    Arr(Seq<JVal>),
    /// An object, as its entries in document order.
    Obj(Seq<(Seq<char>, JVal)>),
}

/// A JSON value, executable form. Its mathematical meaning is
/// [`jval_of`].
pub enum Json {
    Null,
    Bool(bool),
    /// A number, as its decimal lexeme.
    Num(String),
    Str(String),
    Arr(Vec<Json>),
    /// An object, as its entries in document order.
    Obj(Vec<(String, Json)>),
}

/// The mathematical value of an executable JSON value.
pub open spec fn jval_of(j: Json) -> JVal
    decreases j,
{
    match j {
        Json::Null => JVal::Null,
        Json::Bool(b) => JVal::Bool(b),
        Json::Num(s) => JVal::Num(s@),
        Json::Str(s) => JVal::Str(s@),
        Json::Arr(v) => JVal::Arr(jarr_of(v)),
        Json::Obj(v) => JVal::Obj(jobj_of(v)),
    }
}

/// The mathematical value of a vector of object entries.
pub open spec fn jobj_of(v: Vec<(String, Json)>) -> Seq<(Seq<char>, JVal)>
    decreases v,
{
    Seq::new(
        v.len() as nat,
        |i: int|
            if 0 <= i < v.len() {
                (v[i].0@, jval_of(v[i].1))
            } else {
                (Seq::empty(), JVal::Null)
            },
    )
}

/// The mathematical value of a vector of JSON values.
pub open spec fn jarr_of(v: Vec<Json>) -> Seq<JVal>
    decreases v,
{
    Seq::new(
        v.len() as nat,
        |i: int|
            if 0 <= i < v.len() {
                jval_of(v[i])
            } else {
                JVal::Null
            },
    )
}

impl View for Json {
    type V = JVal;

    open spec fn view(&self) -> JVal {
        jval_of(*self)
    }
}

/// The value under the first entry of `entries` with key `k`, searching from
/// position `i` on.
pub open spec fn obj_get_from(entries: Seq<(Seq<char>, JVal)>, k: Seq<char>, i: int) -> Option<
    JVal,
>
    decreases entries.len() - i,
{
    if i < 0 || i >= entries.len() {
        None
    } else if entries[i].0 == k {
        Some(entries[i].1)
    } else {
        obj_get_from(entries, k, i + 1)
    }
}

/// The value under the first entry of `entries` with key `k`, if any.
pub open spec fn obj_get(entries: Seq<(Seq<char>, JVal)>, k: Seq<char>) -> Option<JVal> {
    obj_get_from(entries, k, 0)
}

/// Looks up the first entry with key `k` from position `i` on.
fn get_entry_from<'a>(entries: &'a Vec<(String, Json)>, k: &String, i: usize) -> (r: Option<
    &'a Json,
>)
    requires
        i <= entries.len(),
    ensures
        match r {
            Some(j) => obj_get_from(jobj_of(*entries), k@, i as int) == Some(jval_of(*j)),
            None => obj_get_from(jobj_of(*entries), k@, i as int) is None,
        },
    decreases entries.len() - i,
{
    if i >= entries.len() {
        None
    } else if entries[i].0.eq(k) {
        Some(&entries[i].1)
    } else {
        get_entry_from(entries, k, i + 1)
    }
}

/// Looks up the first entry of a JSON object with key `k`, if any.
pub fn get_entry<'a>(entries: &'a Vec<(String, Json)>, k: &String) -> (r: Option<&'a Json>)
    ensures
        match r {
            Some(j) => obj_get(jobj_of(*entries), k@) == Some(jval_of(*j)),
            None => obj_get(jobj_of(*entries), k@) is None,
        },
{
    get_entry_from(entries, k, 0)
}

} // verus!
