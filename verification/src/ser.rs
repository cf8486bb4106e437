//! Serializing a [`Json`] value back to JSON text.
//!
//! The output is canonical: no whitespace, number lexemes exactly as
//! carried, strings with only the quote, the backslash and control
//! characters escaped. The result is pinned to the spec serialization
//! functions in this module.

use vstd::prelude::*;
use crate::json::{JVal, Json, jarr_of, jobj_of, jval_of};
use crate::strutil::{str_chars, string_from_chars};

verus! {

/// The character for one hexadecimal digit.
pub open spec fn spec_hex_char(d: u32) -> char {
    if d == 0 {
        '0'
    } else if d == 1 {
        '1'
    } else if d == 2 {
        '2'
    } else if d == 3 {
        '3'
    } else if d == 4 {
        '4'
    } else if d == 5 {
        '5'
    } else if d == 6 {
        '6'
    } else if d == 7 {
        '7'
    } else if d == 8 {
        '8'
    } else if d == 9 {
        '9'
    } else if d == 10 {
        'a'
    } else if d == 11 {
        'b'
    } else if d == 12 {
        'c'
    } else if d == 13 {
        'd'
    } else if d == 14 {
        'e'
    } else {
        'f'
    }
}

/// The serialization of one string character: the quote and the backslash
/// are escaped, a control character becomes a `u`-escape, anything else
/// stands as itself.
pub open spec fn esc_one(c: char) -> Seq<char> {
    if c == '"' {
        seq!['\\', '"']
    } else if c == '\\' {
        seq!['\\', '\\']
    } else if (c as u32) < 0x20 {
        seq!['\\', 'u', '0', '0', spec_hex_char((c as u32) / 16), spec_hex_char((c as u32) % 16)]
    } else {
        seq![c]
    }
}

/// The serialization of a string body from position `i` on.
pub open spec fn spec_esc_from(s: Seq<char>, i: int) -> Seq<char>
    decreases s.len() - i,
{
    if i < 0 || i >= s.len() {
        Seq::empty()
    } else {
        esc_one(s[i]) + spec_esc_from(s, i + 1)
    }
}

/// The serialization of a JSON value.
pub open spec fn spec_ser(v: JVal) -> Seq<char>
    decreases v, 0int,
{
    match v {
        JVal::Null => "null"@,
        JVal::Bool(b) => if b {
            "true"@
        } else {
            "false"@
        },
        JVal::Num(s) => s,
        JVal::Str(s) => seq!['"'] + spec_esc_from(s, 0) + seq!['"'],
        JVal::Arr(elems) => seq!['['] + spec_ser_elems(elems, 0) + seq![']'],
        JVal::Obj(entries) => seq!['{'] + spec_ser_members(entries, 0) + seq!['}'],
    }
}

/// The serialization of the elements of an array from position `i` on,
/// separated by commas.
pub open spec fn spec_ser_elems(elems: Seq<JVal>, i: int) -> Seq<char>
    decreases elems, elems.len() - i, 0int,
{
    if i < 0 || i >= elems.len() {
        Seq::empty()
    } else {
        spec_ser(elems[i]) + if i + 1 < elems.len() {
            seq![','] + spec_ser_elems(elems, i + 1)
        } else {
            Seq::empty()
        }
    }
}

/// The serialization of the members of an object from position `i` on:
/// quoted keys, colons, and values, separated by commas.
pub open spec fn spec_ser_members(entries: Seq<(Seq<char>, JVal)>, i: int) -> Seq<char>
    decreases entries, entries.len() - i, 0int,
{
    if i < 0 || i >= entries.len() {
        Seq::empty()
    } else {
        seq!['"'] + spec_esc_from(entries[i].0, 0) + seq!['"', ':'] + spec_ser(entries[i].1) + if i
            + 1 < entries.len() {
            seq![','] + spec_ser_members(entries, i + 1)
        } else {
            Seq::empty()
        }
    }
}

/// Writes one hexadecimal digit.
fn hex_char(d: u32) -> (c: char)
    requires
        d < 16,
    ensures
        c == spec_hex_char(d),
{
    match d {
        0 => '0',
        1 => '1',
        2 => '2',
        3 => '3',
        4 => '4',
        5 => '5',
        6 => '6',
        7 => '7',
        8 => '8',
        9 => '9',
        10 => 'a',
        11 => 'b',
        12 => 'c',
        13 => 'd',
        14 => 'e',
        _ => 'f',
    }
}

/// Writes a string body, escaping as it goes.
fn ser_esc(v: &Vec<char>, i: usize, out: &mut Vec<char>)
    requires
        i <= v.len(),
    ensures
        final(out)@ == old(out)@ + spec_esc_from(v@, i as int),
    decreases v.len() - i,
{
    if i >= v.len() {
        proof {
            assert(final(out)@ =~= old(out)@ + spec_esc_from(v@, i as int));
        }
        return ;
    }
    let ghost pre = out@;
    let c = v[i];
    if c == '"' {
        out.push('\\');
        out.push('"');
    } else if c == '\\' {
        out.push('\\');
        out.push('\\');
    } else if (c as u32) < 0x20 {
        out.push('\\');
        out.push('u');
        out.push('0');
        out.push('0');
        out.push(hex_char((c as u32) / 16));
        out.push(hex_char((c as u32) % 16));
    } else {
        out.push(c);
    }
    proof {
        assert(out@ =~= pre + esc_one(v@[i as int]));
    }
    ser_esc(v, i + 1, out);
    proof {
        assert(final(out)@ =~= old(out)@ + spec_esc_from(v@, i as int));
    }
}

/// Writes a JSON value.
fn ser_val(j: &Json, out: &mut Vec<char>)
    ensures
        final(out)@ == old(out)@ + spec_ser(jval_of(*j)),
    decreases *j, 0int, 0int,
{
    match j {
        Json::Null => {
            out.push('n');
            out.push('u');
            out.push('l');
            out.push('l');
            proof {
                reveal_strlit("null");
                assert(out@ =~= old(out)@ + "null"@);
            }
        },
        Json::Bool(b) => {
            if *b {
                out.push('t');
                out.push('r');
                out.push('u');
                out.push('e');
                proof {
                    reveal_strlit("true");
                    assert(out@ =~= old(out)@ + "true"@);
                }
            } else {
                out.push('f');
                out.push('a');
                out.push('l');
                out.push('s');
                out.push('e');
                proof {
                    reveal_strlit("false");
                    assert(out@ =~= old(out)@ + "false"@);
                }
            }
        },
        Json::Num(s) => {
            let mut chars = str_chars(s.as_str());
            out.append(&mut chars);
        },
        Json::Str(s) => {
            let chars = str_chars(s.as_str());
            out.push('"');
            ser_esc(&chars, 0, out);
            out.push('"');
            proof {
                assert(out@ =~= old(out)@ + (seq!['"'] + spec_esc_from(s@, 0) + seq!['"']));
            }
        },
        Json::Arr(elems) => {
            out.push('[');
            ser_elems(elems, 0, out);
            out.push(']');
            proof {
                assert(jval_of(*j) == JVal::Arr(jarr_of(*elems)));
                assert(out@ =~= old(out)@ + (seq!['['] + spec_ser_elems(jarr_of(*elems), 0)
                    + seq![']']));
            }
        },
        Json::Obj(entries) => {
            out.push('{');
            ser_members(entries, 0, out);
            out.push('}');
            proof {
                assert(jval_of(*j) == JVal::Obj(jobj_of(*entries)));
                assert(out@ =~= old(out)@ + (seq!['{'] + spec_ser_members(jobj_of(*entries), 0)
                    + seq!['}']));
            }
        },
    }
}

/// Writes the elements of an array from `i` on, separated by commas.
fn ser_elems(v: &Vec<Json>, i: usize, out: &mut Vec<char>)
    requires
        i <= v.len(),
    ensures
        final(out)@ == old(out)@ + spec_ser_elems(jarr_of(*v), i as int),
    decreases *v, v.len() - i, 1int,
{
    if i >= v.len() {
        proof {
            assert(final(out)@ =~= old(out)@ + spec_ser_elems(jarr_of(*v), i as int));
        }
        return ;
    }
    ser_val(&v[i], out);
    if i + 1 < v.len() {
        out.push(',');
        let ghost mid = out@;
        ser_elems(v, i + 1, out);
        proof {
            assert(final(out)@ =~= old(out)@ + spec_ser_elems(jarr_of(*v), i as int));
        }
    } else {
        proof {
            assert(final(out)@ =~= old(out)@ + spec_ser_elems(jarr_of(*v), i as int));
        }
    }
}

/// Writes the members of an object from `i` on, separated by commas.
fn ser_members(v: &Vec<(String, Json)>, i: usize, out: &mut Vec<char>)
    requires
        i <= v.len(),
    ensures
        final(out)@ == old(out)@ + spec_ser_members(jobj_of(*v), i as int),
    decreases *v, v.len() - i, 1int,
{
    if i >= v.len() {
        proof {
            assert(final(out)@ =~= old(out)@ + spec_ser_members(jobj_of(*v), i as int));
        }
        return ;
    }
    let key_chars = str_chars(v[i].0.as_str());
    out.push('"');
    ser_esc(&key_chars, 0, out);
    out.push('"');
    out.push(':');
    ser_val(&v[i].1, out);
    if i + 1 < v.len() {
        out.push(',');
        ser_members(v, i + 1, out);
        proof {
            assert(final(out)@ =~= old(out)@ + spec_ser_members(jobj_of(*v), i as int));
        }
    } else {
        proof {
            assert(final(out)@ =~= old(out)@ + spec_ser_members(jobj_of(*v), i as int));
        }
    }
}

/// Serializes a JSON value to its canonical text.
pub fn to_json_text(j: &Json) -> (s: String)
    ensures
        s@ == spec_ser(jval_of(*j)),
{
    let mut out: Vec<char> = Vec::new();
    ser_val(j, &mut out);
    proof {
        assert(out@ =~= spec_ser(jval_of(*j)));
    }
    string_from_chars(&out)
}

} // verus!
