//! Parsing JSON text into a [`Json`] value.
//!
//! The grammar is read character by character by a recursive-descent parser
//! whose result is pinned, case by case, to the spec parsing functions in
//! this module. Nesting is bounded by a fixed depth, as parsers of this
//! format commonly bound it; a document nested deeper is rejected.

use vstd::prelude::*;
use crate::decode::{DecodeError, spec_decode_profile, decode_profile};
use crate::json::{JVal, Json, jarr_of, jobj_of, jval_of};
use crate::model::StarRailInfoParsed;
use crate::strutil::{char_of_scalar, str_chars, string_from_chars};

verus! {

/// The deepest nesting of arrays and objects a document may have.
pub const JSON_DEPTH: u32 = 128;

/// A JSON whitespace character.
pub open spec fn is_ws(c: char) -> bool {
    c == ' ' || c == '\t' || c == '\n' || c == '\r'
}

/// A decimal digit.
pub open spec fn is_digit(c: char) -> bool {
    48 <= (c as u32) <= 57
}

/// The first position at or after `i` that holds no whitespace.
pub open spec fn sp_skip_ws(s: Seq<char>, i: int) -> int
    decreases s.len() - i,
{
    if 0 <= i < s.len() && is_ws(s[i]) {
        sp_skip_ws(s, i + 1)
    } else {
        i
    }
}

/// The value of a hexadecimal digit.
pub open spec fn hex_val(c: char) -> Option<u32> {
    let d = c as u32;
    if 48 <= d <= 57 {
        Some((d - 48) as u32)
    } else if 65 <= d <= 70 {
        Some((d - 55) as u32)
    } else if 97 <= d <= 102 {
        Some((d - 87) as u32)
    } else {
        None
    }
}

/// The character named by a single-character escape.
pub open spec fn esc_char(c: char) -> Option<char> {
    if c == '"' {
        Some('"')
    } else if c == '\\' {
        Some('\\')
    } else if c == '/' {
        Some('/')
    } else if c == 'b' {
        Some('\u{8}')
    } else if c == 'f' {
        Some('\u{c}')
    } else if c == 'n' {
        Some('\n')
    } else if c == 'r' {
        Some('\r')
    } else if c == 't' {
        Some('\t')
    } else {
        None
    }
}

/// The value of the four hexadecimal digits at `i`.
pub open spec fn sp_hex4(s: Seq<char>, i: int) -> Option<u32> {
    if 0 <= i && i + 4 <= s.len() && hex_val(s[i]) is Some && hex_val(s[i + 1]) is Some && hex_val(
        s[i + 2],
    ) is Some && hex_val(s[i + 3]) is Some {
        Some(
            (hex_val(s[i])->0 * 4096 + hex_val(s[i + 1])->0 * 256 + hex_val(s[i + 2])->0 * 16
                + hex_val(s[i + 3])->0) as u32,
        )
    } else {
        None
    }
}

/// The code is a unicode scalar value: not a surrogate, and in range.
pub open spec fn scalar_ok(c: u32) -> bool {
    c < 0xD800 || (0xE000 <= c && c <= 0x10FFFF)
}

/// The body of a string literal from `i` (just after the opening quote):
/// its unescaped content, and the position after the closing quote. Escapes
/// stand for their characters; a surrogate pair of `u`-escapes stands for
/// one supplementary character; an unescaped control character ends the
/// parse with nothing.
pub open spec fn sp_str_body(s: Seq<char>, i: int) -> Option<(Seq<char>, int)>
    decreases s.len() - i,
{
    if i < 0 || i >= s.len() {
        None
    } else {
        let c = s[i];
        if c == '"' {
            Some((Seq::empty(), i + 1))
        } else if c == '\\' {
            if i + 1 >= s.len() {
                None
            } else {
                let e = s[i + 1];
                if esc_char(e) is Some {
                    match sp_str_body(s, i + 2) {
                        Some((rest, j)) => Some((seq![esc_char(e)->0] + rest, j)),
                        None => None,
                    }
                } else if e == 'u' {
                    match sp_hex4(s, i + 2) {
                        Some(h) => {
                            if 0xD800 <= h < 0xDC00 {
                                if i + 8 <= s.len() && s[i + 6] == '\\' && s[i + 7] == 'u'
                                    && sp_hex4(s, i + 8) is Some && 0xDC00 <= sp_hex4(s, i + 8)->0
                                    < 0xE000 {
                                    let code = (0x10000 + (h - 0xD800) * 0x400 + (sp_hex4(
                                        s,
                                        i + 8,
                                    )->0 - 0xDC00)) as u32;
                                    match sp_str_body(s, i + 12) {
                                        Some((rest, j)) => Some((seq![code as char] + rest, j)),
                                        None => None,
                                    }
                                } else {
                                    None
                                }
                            } else if 0xDC00 <= h < 0xE000 {
                                None
                            } else {
                                match sp_str_body(s, i + 6) {
                                    Some((rest, j)) => Some((seq![h as char] + rest, j)),
                                    None => None,
                                }
                            }
                        },
                        None => None,
                    }
                } else {
                    None
                }
            }
        } else if (c as u32) < 0x20 {
            None
        } else {
            match sp_str_body(s, i + 1) {
                Some((rest, j)) => Some((seq![c] + rest, j)),
                None => None,
            }
        }
    }
}

/// The end of the run of decimal digits starting at `i`.
pub open spec fn sp_digits_end(s: Seq<char>, i: int) -> int
    decreases s.len() - i,
{
    if 0 <= i < s.len() && is_digit(s[i]) {
        sp_digits_end(s, i + 1)
    } else {
        i
    }
}

/// The end of the integer part at `i`: a single zero, or a nonzero digit
/// followed by any digits.
pub open spec fn sp_int_end(s: Seq<char>, i: int) -> Option<int> {
    if 0 <= i < s.len() && is_digit(s[i]) {
        if s[i] == '0' {
            Some(i + 1)
        } else {
            Some(sp_digits_end(s, i))
        }
    } else {
        None
    }
}

/// The end of the optional fraction part at `i`.
pub open spec fn sp_frac_end(s: Seq<char>, i: int) -> Option<int> {
    if 0 <= i < s.len() && s[i] == '.' {
        if i + 1 < s.len() && is_digit(s[i + 1]) {
            Some(sp_digits_end(s, i + 1))
        } else {
            None
        }
    } else {
        Some(i)
    }
}

/// The end of the optional exponent part at `i`.
pub open spec fn sp_exp_end(s: Seq<char>, i: int) -> Option<int> {
    if 0 <= i < s.len() && (s[i] == 'e' || s[i] == 'E') {
        let p = if i + 1 < s.len() && (s[i + 1] == '+' || s[i + 1] == '-') {
            i + 2
        } else {
            i + 1
        };
        if p < s.len() && is_digit(s[p]) {
            Some(sp_digits_end(s, p))
        } else {
            None
        }
    } else {
        Some(i)
    }
}

/// The end of the number lexeme at `i`: an optional sign, an integer part,
/// an optional fraction and an optional exponent.
pub open spec fn sp_num_end(s: Seq<char>, i: int) -> Option<int> {
    let p = if 0 <= i < s.len() && s[i] == '-' {
        i + 1
    } else {
        i
    };
    match sp_int_end(s, p) {
        None => None,
        Some(q) => match sp_frac_end(s, q) {
            None => None,
            Some(q2) => sp_exp_end(s, q2),
        },
    }
}

/// The JSON value at `i` with nesting budget `d`, and the position after
/// it. An object or an array spends one unit of the budget; a document that
/// would spend more than the whole budget parses as nothing.
pub open spec fn sp_value(s: Seq<char>, i: int, d: nat) -> Option<(JVal, int)>
    decreases d, s.len() - i, 0int,
{
    if i < 0 || i >= s.len() {
        None
    } else {
        let c = s[i];
        if c == '{' {
            if d == 0 {
                None
            } else {
                sp_obj_rest(s, i + 1, (d - 1) as nat)
            }
        } else if c == '[' {
            if d == 0 {
                None
            } else {
                sp_arr_rest(s, i + 1, (d - 1) as nat)
            }
        } else if c == '"' {
            match sp_str_body(s, i + 1) {
                Some((content, j)) => Some((JVal::Str(content), j)),
                None => None,
            }
        } else if c == 't' {
            if i + 4 <= s.len() && s[i + 1] == 'r' && s[i + 2] == 'u' && s[i + 3] == 'e' {
                Some((JVal::Bool(true), i + 4))
            } else {
                None
            }
        } else if c == 'f' {
            if i + 5 <= s.len() && s[i + 1] == 'a' && s[i + 2] == 'l' && s[i + 3] == 's' && s[i + 4]
                == 'e' {
                Some((JVal::Bool(false), i + 5))
            } else {
                None
            }
        } else if c == 'n' {
            if i + 4 <= s.len() && s[i + 1] == 'u' && s[i + 2] == 'l' && s[i + 3] == 'l' {
                Some((JVal::Null, i + 4))
            } else {
                None
            }
        } else if c == '-' || is_digit(c) {
            match sp_num_end(s, i) {
                Some(j) => if i < j <= s.len() {
                    Some((JVal::Num(s.subrange(i, j)), j))
                } else {
                    None
                },
                None => None,
            }
        } else {
            None
        }
    }
}

/// The rest of an array from `i` (just after the opening bracket).
pub open spec fn sp_arr_rest(s: Seq<char>, i: int, d: nat) -> Option<(JVal, int)>
    decreases d, s.len() - i, 2int,
{
    let k = sp_skip_ws(s, i);
    if k < i || k > s.len() {
        None
    } else if k < s.len() && s[k] == ']' {
        Some((JVal::Arr(Seq::empty()), k + 1))
    } else {
        match sp_elems(s, k, d) {
            Some((elems, j)) => Some((JVal::Arr(elems), j)),
            None => None,
        }
    }
}

/// The elements of an array from `i` (at the first character of a value),
/// and the position after the closing bracket.
pub open spec fn sp_elems(s: Seq<char>, i: int, d: nat) -> Option<(Seq<JVal>, int)>
    decreases d, s.len() - i, 1int,
{
    if i < 0 {
        None
    } else {
        match sp_value(s, i, d) {
            None => None,
            Some((v, j)) => {
                if j <= i {
                    None
                } else {
                    let k = sp_skip_ws(s, j);
                    if k < j || k > s.len() {
                        None
                    } else if k < s.len() && s[k] == ']' {
                        Some((seq![v], k + 1))
                    } else if k < s.len() && s[k] == ',' {
                        let k2 = sp_skip_ws(s, k + 1);
                        if k2 < k + 1 || k2 > s.len() {
                            None
                        } else {
                            match sp_elems(s, k2, d) {
                                Some((rest, j2)) => Some((seq![v] + rest, j2)),
                                None => None,
                            }
                        }
                    } else {
                        None
                    }
                }
            },
        }
    }
}

/// The rest of an object from `i` (just after the opening brace).
pub open spec fn sp_obj_rest(s: Seq<char>, i: int, d: nat) -> Option<(JVal, int)>
    decreases d, s.len() - i, 2int,
{
    let k = sp_skip_ws(s, i);
    if k < i || k > s.len() {
        None
    } else if k < s.len() && s[k] == '}' {
        Some((JVal::Obj(Seq::empty()), k + 1))
    } else {
        match sp_members(s, k, d) {
            Some((entries, j)) => Some((JVal::Obj(entries), j)),
            None => None,
        }
    }
}

/// The members of an object from `i` (at the opening quote of a key), and
/// the position after the closing brace.
pub open spec fn sp_members(s: Seq<char>, i: int, d: nat) -> Option<(Seq<(Seq<char>, JVal)>, int)>
    decreases d, s.len() - i, 1int,
{
    if !(0 <= i < s.len() && s[i] == '"') {
        None
    } else {
        match sp_str_body(s, i + 1) {
            None => None,
            Some((key, j1)) => {
                if j1 <= i {
                    None
                } else {
                    let k2 = sp_skip_ws(s, j1);
                    if k2 < j1 || k2 > s.len() || !(k2 < s.len() && s[k2] == ':') {
                        None
                    } else {
                        let k3 = sp_skip_ws(s, k2 + 1);
                        if k3 < k2 + 1 || k3 > s.len() {
                            None
                        } else {
                            match sp_value(s, k3, d) {
                                None => None,
                                Some((v, j2)) => {
                                    if j2 <= k3 {
                                        None
                                    } else {
                                        let k4 = sp_skip_ws(s, j2);
                                        if k4 < j2 || k4 > s.len() {
                                            None
                                        } else if k4 < s.len() && s[k4] == '}' {
                                            Some((seq![(key, v)], k4 + 1))
                                        } else if k4 < s.len() && s[k4] == ',' {
                                            let k5 = sp_skip_ws(s, k4 + 1);
                                            if k5 < k4 + 1 || k5 > s.len() {
                                                None
                                            } else {
                                                match sp_members(s, k5, d) {
                                                    Some((rest, j3)) => Some(
                                                        (seq![(key, v)] + rest, j3),
                                                    ),
                                                    None => None,
                                                }
                                            }
                                        } else {
                                            None
                                        }
                                    }
                                },
                            }
                        }
                    }
                }
            },
        }
    }
}

/// The JSON document that the whole text holds: one value, surrounded by
/// nothing but whitespace, nested no deeper than the fixed budget.
pub open spec fn sp_doc(s: Seq<char>) -> Option<JVal> {
    let k = sp_skip_ws(s, 0);
    if k < 0 {
        None
    } else {
        match sp_value(s, k, JSON_DEPTH as nat) {
            None => None,
            Some((v, j)) => {
                if sp_skip_ws(s, j) == s.len() {
                    Some(v)
                } else {
                    None
                }
            },
        }
    }
}

/// Skips whitespace from `i` on.
fn p_skip_ws(v: &Vec<char>, i: usize) -> (r: usize)
    requires
        i <= v.len(),
    ensures
        r as int == sp_skip_ws(v@, i as int),
        i <= r <= v.len(),
    decreases v.len() - i,
{
    if i < v.len() {
        let c = v[i];
        if c == ' ' || c == '\t' || c == '\n' || c == '\r' {
            return p_skip_ws(v, i + 1);
        }
    }
    i
}

/// Reads one hexadecimal digit.
fn p_hex_digit(c: char) -> (r: Option<u32>)
    ensures
        r == hex_val(c),
{
    let d = c as u32;
    if 48 <= d && d <= 57 {
        Some(d - 48)
    } else if 65 <= d && d <= 70 {
        Some(d - 55)
    } else if 97 <= d && d <= 102 {
        Some(d - 87)
    } else {
        None
    }
}

/// Reads the four hexadecimal digits at `i`.
fn p_hex4(v: &Vec<char>, i: usize) -> (r: Option<u32>)
    requires
        i <= v.len(),
    ensures
        r == sp_hex4(v@, i as int),
{
    if v.len() >= 4 && i <= v.len() - 4 {
        let a = match p_hex_digit(v[i]) {
            Some(x) => x,
            None => { return None },
        };
        let b = match p_hex_digit(v[i + 1]) {
            Some(x) => x,
            None => { return None },
        };
        let c = match p_hex_digit(v[i + 2]) {
            Some(x) => x,
            None => { return None },
        };
        let d = match p_hex_digit(v[i + 3]) {
            Some(x) => x,
            None => { return None },
        };
        Some(a * 4096 + b * 256 + c * 16 + d)
    } else {
        None
    }
}

/// Reads one single-character escape.
fn p_esc_char(c: char) -> (r: Option<char>)
    ensures
        r == esc_char(c),
{
    if c == '"' {
        Some('"')
    } else if c == '\\' {
        Some('\\')
    } else if c == '/' {
        Some('/')
    } else if c == 'b' {
        Some('\u{8}')
    } else if c == 'f' {
        Some('\u{c}')
    } else if c == 'n' {
        Some('\n')
    } else if c == 'r' {
        Some('\r')
    } else if c == 't' {
        Some('\t')
    } else {
        None
    }
}

/// Reads a string body from `i` (just after the opening quote).
fn p_str_body(v: &Vec<char>, i: usize) -> (r: Result<(Vec<char>, usize), DecodeError>)
    requires
        i <= v.len(),
    ensures
        match r {
            Ok(p) => sp_str_body(v@, i as int) == Some((p.0@, p.1 as int)) && i < p.1 <= v.len(),
            Err(e) => sp_str_body(v@, i as int) is None && e == DecodeError::Syntax,
        },
    decreases v.len() - i,
{
    if i >= v.len() {
        return Err(DecodeError::Syntax);
    }
    let c = v[i];
    if c == '"' {
        let out: Vec<char> = Vec::new();
        proof {
            assert(out@ =~= Seq::<char>::empty());
        }
        return Ok((out, i + 1));
    }
    if c == '\\' {
        if i + 1 >= v.len() {
            return Err(DecodeError::Syntax);
        }
        let e = v[i + 1];
        match p_esc_char(e) {
            Some(ec) => {
                match p_str_body(v, i + 2) {
                    Ok((rest, j)) => {
                        let ghost grest = rest@;
                        let mut out: Vec<char> = Vec::new();
                        out.push(ec);
                        let mut tail = rest;
                        out.append(&mut tail);
                        proof {
                            assert(out@ =~= seq![esc_char(e)->0] + grest);
                        }
                        Ok((out, j))
                    },
                    Err(er) => Err(er),
                }
            },
            None => {
                if e == 'u' {
                    match p_hex4(v, i + 2) {
                        Some(h) => {
                            if 0xD800 <= h && h < 0xDC00 {
                                if v.len() >= 8 && i <= v.len() - 8 && v[i + 6] == '\\' && v[i + 7]
                                    == 'u' {
                                    match p_hex4(v, i + 8) {
                                        Some(l) => {
                                            if 0xDC00 <= l && l < 0xE000 {
                                                let code = 0x10000 + (h - 0xD800) * 0x400 + (l
                                                    - 0xDC00);
                                                let ch = char_of_scalar(code);
                                                match p_str_body(v, i + 12) {
                                                    Ok((rest, j)) => {
                                                        let ghost grest = rest@;
                                                        let mut out: Vec<char> = Vec::new();
                                                        out.push(ch);
                                                        let mut tail = rest;
                                                        out.append(&mut tail);
                                                        proof {
                                                            assert(out@ =~= seq![(code as char)]
                                                                + grest);
                                                        }
                                                        Ok((out, j))
                                                    },
                                                    Err(er) => Err(er),
                                                }
                                            } else {
                                                Err(DecodeError::Syntax)
                                            }
                                        },
                                        None => Err(DecodeError::Syntax),
                                    }
                                } else {
                                    Err(DecodeError::Syntax)
                                }
                            } else if 0xDC00 <= h && h < 0xE000 {
                                Err(DecodeError::Syntax)
                            } else {
                                let ch = char_of_scalar(h);
                                match p_str_body(v, i + 6) {
                                    Ok((rest, j)) => {
                                        let ghost grest = rest@;
                                        let mut out: Vec<char> = Vec::new();
                                        out.push(ch);
                                        let mut tail = rest;
                                        out.append(&mut tail);
                                        proof {
                                            assert(out@ =~= seq![(h as char)] + grest);
                                        }
                                        Ok((out, j))
                                    },
                                    Err(er) => Err(er),
                                }
                            }
                        },
                        None => Err(DecodeError::Syntax),
                    }
                } else {
                    Err(DecodeError::Syntax)
                }
            },
        }
    } else if (c as u32) < 0x20 {
        Err(DecodeError::Syntax)
    } else {
        match p_str_body(v, i + 1) {
            Ok((rest, j)) => {
                let ghost grest = rest@;
                let mut out: Vec<char> = Vec::new();
                out.push(c);
                let mut tail = rest;
                out.append(&mut tail);
                proof {
                    assert(out@ =~= seq![c] + grest);
                }
                Ok((out, j))
            },
            Err(er) => Err(er),
        }
    }
}

/// Skips the run of decimal digits from `i` on.
fn p_digits_end(v: &Vec<char>, i: usize) -> (r: usize)
    requires
        i <= v.len(),
    ensures
        r as int == sp_digits_end(v@, i as int),
        i <= r <= v.len(),
    decreases v.len() - i,
{
    if i < v.len() {
        let d = v[i] as u32;
        if 48 <= d && d <= 57 {
            return p_digits_end(v, i + 1);
        }
    }
    i
}

/// A digits run never ends before its start.
proof fn lemma_digits_end_ge(s: Seq<char>, i: int)
    ensures
        sp_digits_end(s, i) >= i,
    decreases s.len() - i,
{
    if 0 <= i < s.len() && is_digit(s[i]) {
        lemma_digits_end_ge(s, i + 1);
    }
}

/// Finds the end of the number lexeme at `i`.
fn p_num_end(v: &Vec<char>, i: usize) -> (r: Option<usize>)
    requires
        i <= v.len(),
    ensures
        match r {
            Some(j) => sp_num_end(v@, i as int) == Some(j as int) && i < j <= v.len(),
            None => sp_num_end(v@, i as int) is None,
        },
{
    let p = if i < v.len() && v[i] == '-' {
        i + 1
    } else {
        i
    };
    if !(p < v.len()) {
        return None;
    }
    let d0 = v[p] as u32;
    if !(48 <= d0 && d0 <= 57) {
        return None;
    }
    let q = if v[p] == '0' {
        p + 1
    } else {
        p_digits_end(v, p)
    };
    proof {
        lemma_digits_end_ge(v@, p as int + 1);
        assert(q > p);
    }
    let q2 = if q < v.len() && v[q] == '.' {
        if q + 1 < v.len() && {
            let d1 = v[q + 1] as u32;
            48 <= d1 && d1 <= 57
        } {
            p_digits_end(v, q + 1)
        } else {
            return None;
        }
    } else {
        q
    };
    proof {
        assert(sp_int_end(v@, p as int) == Some(q as int));
        assert(sp_frac_end(v@, q as int) == Some(q2 as int));
    }
    if q2 < v.len() && (v[q2] == 'e' || v[q2] == 'E') {
        let pp = if q2 + 1 < v.len() && (v[q2 + 1] == '+' || v[q2 + 1] == '-') {
            q2 + 2
        } else {
            q2 + 1
        };
        if pp < v.len() && {
            let d2 = v[pp] as u32;
            48 <= d2 && d2 <= 57
        } {
            let j = p_digits_end(v, pp);
            proof {
                assert(sp_exp_end(v@, q2 as int) == Some(j as int));
                assert(sp_num_end(v@, i as int) == Some(j as int));
            }
            Some(j)
        } else {
            proof {
                assert(sp_exp_end(v@, q2 as int) is None);
                assert(sp_num_end(v@, i as int) is None);
            }
            None
        }
    } else {
        proof {
            assert(sp_exp_end(v@, q2 as int) == Some(q2 as int));
            assert(sp_num_end(v@, i as int) == Some(q2 as int));
        }
        Some(q2)
    }
}

/// Copies the characters of `v` between `i` and `j`.
fn copy_range(v: &Vec<char>, i: usize, j: usize) -> (out: Vec<char>)
    requires
        i <= j <= v.len(),
    ensures
        out@ == v@.subrange(i as int, j as int),
{
    let mut out: Vec<char> = Vec::new();
    let mut k = i;
    while k < j
        invariant
            i <= k <= j <= v.len(),
            out@ == v@.subrange(i as int, k as int),
        decreases j - k,
    {
        out.push(v[k]);
        proof {
            assert(out@ =~= v@.subrange(i as int, k as int + 1));
        }
        k += 1;
    }
    out
}

/// Reads the JSON value at `i` with nesting budget `d`.
fn p_value(v: &Vec<char>, i: usize, d: u32) -> (r: Result<(Json, usize), DecodeError>)
    requires
        i <= v.len(),
    ensures
        match r {
            Ok(p) => sp_value(v@, i as int, d as nat) == Some((jval_of(p.0), p.1 as int)) && i < p.1
                <= v.len(),
            Err(e) => sp_value(v@, i as int, d as nat) is None && e == DecodeError::Syntax,
        },
    decreases d, v.len() - i, 0int,
{
    if i >= v.len() {
        return Err(DecodeError::Syntax);
    }
    let c = v[i];
    if c == '{' {
        if d == 0 {
            Err(DecodeError::Syntax)
        } else {
            p_obj_rest(v, i + 1, d - 1)
        }
    } else if c == '[' {
        if d == 0 {
            Err(DecodeError::Syntax)
        } else {
            p_arr_rest(v, i + 1, d - 1)
        }
    } else if c == '"' {
        match p_str_body(v, i + 1) {
            Ok((content, j)) => {
                let s = string_from_chars(&content);
                Ok((Json::Str(s), j))
            },
            Err(e) => Err(e),
        }
    } else if c == 't' {
        if v.len() >= 4 && i <= v.len() - 4 && v[i + 1] == 'r' && v[i + 2] == 'u' && v[i + 3]
            == 'e' {
            Ok((Json::Bool(true), i + 4))
        } else {
            Err(DecodeError::Syntax)
        }
    } else if c == 'f' {
        if v.len() >= 5 && i <= v.len() - 5 && v[i + 1] == 'a' && v[i + 2] == 'l' && v[i + 3] == 's'
            && v[i + 4] == 'e' {
            Ok((Json::Bool(false), i + 5))
        } else {
            Err(DecodeError::Syntax)
        }
    } else if c == 'n' {
        if v.len() >= 4 && i <= v.len() - 4 && v[i + 1] == 'u' && v[i + 2] == 'l' && v[i + 3]
            == 'l' {
            Ok((Json::Null, i + 4))
        } else {
            Err(DecodeError::Syntax)
        }
    } else if c == '-' || {
        let dd = c as u32;
        48 <= dd && dd <= 57
    } {
        match p_num_end(v, i) {
            Some(j) => {
                let lex = copy_range(v, i, j);
                let s = string_from_chars(&lex);
                Ok((Json::Num(s), j))
            },
            None => Err(DecodeError::Syntax),
        }
    } else {
        Err(DecodeError::Syntax)
    }
}

/// Reads the rest of an array from `i` (just after the opening bracket).
fn p_arr_rest(v: &Vec<char>, i: usize, d: u32) -> (r: Result<(Json, usize), DecodeError>)
    requires
        i <= v.len(),
    ensures
        match r {
            Ok(p) => sp_arr_rest(v@, i as int, d as nat) == Some((jval_of(p.0), p.1 as int)) && i
                < p.1 <= v.len(),
            Err(e) => sp_arr_rest(v@, i as int, d as nat) is None && e == DecodeError::Syntax,
        },
    decreases d, v.len() - i, 2int,
{
    let k = p_skip_ws(v, i);
    if k < v.len() && v[k] == ']' {
        let out: Vec<Json> = Vec::new();
        proof {
            assert(jarr_of(out) =~= Seq::<JVal>::empty());
        }
        Ok((Json::Arr(out), k + 1))
    } else {
        match p_elems(v, k, d) {
            Ok((elems, j)) => Ok((Json::Arr(elems), j)),
            Err(e) => Err(e),
        }
    }
}

/// Reads the elements of an array from `i` (at the first character of a
/// value), through the closing bracket.
fn p_elems(v: &Vec<char>, i: usize, d: u32) -> (r: Result<(Vec<Json>, usize), DecodeError>)
    requires
        i <= v.len(),
    ensures
        match r {
            Ok(p) => sp_elems(v@, i as int, d as nat) == Some((jarr_of(p.0), p.1 as int)) && i < p.1
                <= v.len(),
            Err(e) => sp_elems(v@, i as int, d as nat) is None && e == DecodeError::Syntax,
        },
    decreases d, v.len() - i, 1int,
{
    match p_value(v, i, d) {
        Err(e) => Err(e),
        Ok((val, j)) => {
            let k = p_skip_ws(v, j);
            if k < v.len() && v[k] == ']' {
                let ghost gval = jval_of(val);
                let mut out: Vec<Json> = Vec::new();
                out.push(val);
                proof {
                    assert(jarr_of(out) =~= seq![gval]);
                }
                Ok((out, k + 1))
            } else if k < v.len() && v[k] == ',' {
                let k2 = p_skip_ws(v, k + 1);
                match p_elems(v, k2, d) {
                    Ok((rest, j2)) => {
                        let ghost gval = jval_of(val);
                        let ghost grest = jarr_of(rest);
                        let mut out: Vec<Json> = Vec::new();
                        out.push(val);
                        let mut tail = rest;
                        out.append(&mut tail);
                        proof {
                            assert(jarr_of(out) =~= seq![gval] + grest);
                        }
                        Ok((out, j2))
                    },
                    Err(e) => Err(e),
                }
            } else {
                Err(DecodeError::Syntax)
            }
        },
    }
}

/// Reads the rest of an object from `i` (just after the opening brace).
fn p_obj_rest(v: &Vec<char>, i: usize, d: u32) -> (r: Result<(Json, usize), DecodeError>)
    requires
        i <= v.len(),
    ensures
        match r {
            Ok(p) => sp_obj_rest(v@, i as int, d as nat) == Some((jval_of(p.0), p.1 as int)) && i
                < p.1 <= v.len(),
            Err(e) => sp_obj_rest(v@, i as int, d as nat) is None && e == DecodeError::Syntax,
        },
    decreases d, v.len() - i, 2int,
{
    let k = p_skip_ws(v, i);
    if k < v.len() && v[k] == '}' {
        let out: Vec<(String, Json)> = Vec::new();
        proof {
            assert(jobj_of(out) =~= Seq::<(Seq<char>, JVal)>::empty());
        }
        Ok((Json::Obj(out), k + 1))
    } else {
        match p_members(v, k, d) {
            Ok((entries, j)) => Ok((Json::Obj(entries), j)),
            Err(e) => Err(e),
        }
    }
}

/// Reads the members of an object from `i` (at the opening quote of a key),
/// through the closing brace.
fn p_members(v: &Vec<char>, i: usize, d: u32) -> (r: Result<
    (Vec<(String, Json)>, usize),
    DecodeError,
>)
    requires
        i <= v.len(),
    ensures
        match r {
            Ok(p) => sp_members(v@, i as int, d as nat) == Some((jobj_of(p.0), p.1 as int)) && i
                < p.1 <= v.len(),
            Err(e) => sp_members(v@, i as int, d as nat) is None && e == DecodeError::Syntax,
        },
    decreases d, v.len() - i, 1int,
{
    if !(i < v.len() && v[i] == '"') {
        return Err(DecodeError::Syntax);
    }
    match p_str_body(v, i + 1) {
        Err(e) => Err(e),
        Ok((key_chars, j1)) => {
            let key = string_from_chars(&key_chars);
            let k2 = p_skip_ws(v, j1);
            if !(k2 < v.len() && v[k2] == ':') {
                return Err(DecodeError::Syntax);
            }
            let k3 = p_skip_ws(v, k2 + 1);
            match p_value(v, k3, d) {
                Err(e) => Err(e),
                Ok((val, j2)) => {
                    let k4 = p_skip_ws(v, j2);
                    if k4 < v.len() && v[k4] == '}' {
                        let ghost gkey = key@;
                        let ghost gval = jval_of(val);
                        let mut out: Vec<(String, Json)> = Vec::new();
                        out.push((key, val));
                        proof {
                            assert(jobj_of(out) =~= seq![(gkey, gval)]);
                        }
                        Ok((out, k4 + 1))
                    } else if k4 < v.len() && v[k4] == ',' {
                        let k5 = p_skip_ws(v, k4 + 1);
                        match p_members(v, k5, d) {
                            Ok((rest, j3)) => {
                                let ghost gkey = key@;
                                let ghost gval = jval_of(val);
                                let ghost grest = jobj_of(rest);
                                let mut out: Vec<(String, Json)> = Vec::new();
                                out.push((key, val));
                                let mut tail = rest;
                                out.append(&mut tail);
                                proof {
                                    assert(jobj_of(out) =~= seq![(gkey, gval)] + grest);
                                }
                                Ok((out, j3))
                            },
                            Err(e) => Err(e),
                        }
                    } else {
                        Err(DecodeError::Syntax)
                    }
                },
            }
        },
    }
}

/// Parses a whole text as one JSON document: one value, surrounded by
/// nothing but whitespace.
pub fn parse_json(text: &str) -> (r: Result<Json, DecodeError>)
    ensures
        match r {
            Ok(j) => sp_doc(text@) == Some(jval_of(j)),
            Err(e) => sp_doc(text@) is None && e == DecodeError::Syntax,
        },
{
    let v = str_chars(text);
    let k = p_skip_ws(&v, 0);
    match p_value(&v, k, JSON_DEPTH) {
        Ok((j, n)) => {
            let m = p_skip_ws(&v, n);
            if m == v.len() {
                Ok(j)
            } else {
                Err(DecodeError::Syntax)
            }
        },
        Err(e) => Err(e),
    }
}

/// Parses a whole text as a profile snapshot: the text must be one JSON
/// document of the profile schema. A text that is not JSON is refused as a
/// syntax error; a JSON document of the wrong shape as a shape error.
pub fn parse_profile(text: &str) -> (r: Result<StarRailInfoParsed, DecodeError>)
    ensures
        match r {
            Ok(p) => sp_doc(text@) is Some && spec_decode_profile(sp_doc(text@)->0) == Some(
                p.deep_view(),
            ),
            Err(e) => if e == DecodeError::Syntax {
                sp_doc(text@) is None
            } else {
                sp_doc(text@) is Some && spec_decode_profile(sp_doc(text@)->0) is None
            },
        },
{
    match parse_json(text) {
        Ok(j) => decode_profile(&j),
        Err(e) => Err(e),
    }
}

} // verus!
