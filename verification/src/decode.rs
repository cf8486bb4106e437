//! Decoding a JSON value into the typed profile model.
//!
//! Every required field must be present with the right shape, or decoding
//! fails; the explicitly optional fields may be absent or null, and both are
//! represented as absent. Each decoder's contract ties its result to a spec
//! decoding function over the mathematical JSON value.

use vstd::prelude::*;
use crate::json::{JVal, Json, jarr_of, jobj_of, jval_of, obj_get, get_entry};
use crate::model::{Avatar, AvatarV, Path, PathV, Element, ElementV, ForgottenHall, ForgottenHallV,
    SpaceInfo, SpaceInfoV, Player, PlayerV, Attribute, AttributeV, Property, PropertyV, MainAffix,
    MainAffixV, SubAffix, SubAffixV, TraceTreeNode, TraceTreeNodeV, Trace, TraceV, LightCone,
    LightConeV, Relic, RelicV, RelicSet, RelicSetV, Character, CharacterV, StarRailInfoParsed,
    StarRailInfoParsedV};

verus! {

/// Why a document was rejected: it was not JSON at all, or it was JSON of
/// the wrong shape for the profile schema.
#[derive(Clone, Copy, PartialEq, Eq, Structural, Debug)]
pub enum DecodeError {
    /// The text is not well-formed JSON.
    Syntax,
    /// The document is JSON, but a required field is missing or a field has
    /// the wrong shape.
    Shape,
}

/// The string under an optional JSON value, if it is a string.
pub open spec fn jv_str(o: Option<JVal>) -> Option<Seq<char>> {
    match o {
        Some(JVal::Str(s)) => Some(s),
        _ => None,
    }
}

/// The number lexeme under an optional JSON value, if it is a number.
pub open spec fn jv_num(o: Option<JVal>) -> Option<Seq<char>> {
    match o {
        Some(JVal::Num(s)) => Some(s),
        _ => None,
    }
}

/// The boolean under an optional JSON value, if it is a boolean.
pub open spec fn jv_bool(o: Option<JVal>) -> Option<bool> {
    match o {
        Some(JVal::Bool(b)) => Some(b),
        _ => None,
    }
}

/// The elements under an optional JSON value, if it is an array.
pub open spec fn jv_arr(o: Option<JVal>) -> Option<Seq<JVal>> {
    match o {
        Some(JVal::Arr(a)) => Some(a),
        _ => None,
    }
}

/// An optional string field: absent and null both mean "absent"; a string
/// means "present"; any other shape is an error (`None`).
pub open spec fn jv_opt_str(o: Option<JVal>) -> Option<Option<Seq<char>>> {
    match o {
        None => Some(None),
        Some(JVal::Null) => Some(None),
        Some(JVal::Str(s)) => Some(Some(s)),
        _ => None,
    }
}

/// Every character of `s` is a decimal digit.
pub open spec fn all_digits(s: Seq<char>) -> bool {
    forall|i: int| 0 <= i < s.len() ==> 48 <= #[trigger] (s[i] as u32) <= 57
}

/// `s` is the canonical decimal form of a natural number: nonempty, all
/// digits, and no leading zero.
pub open spec fn canon_nat(s: Seq<char>) -> bool {
    s.len() > 0 && all_digits(s) && (s.len() == 1 || s[0] as u32 != 48)
}

/// The value of the decimal digits of `s` from position `i` on, over an
/// accumulator.
pub open spec fn dec_val_from(s: Seq<char>, i: int, acc: int) -> int
    decreases s.len() - i,
{
    if i < 0 || i >= s.len() {
        acc
    } else {
        dec_val_from(s, i + 1, acc * 10 + (s[i] as u32 - 48))
    }
}

/// The value of `s` read as decimal digits.
pub open spec fn dec_val(s: Seq<char>) -> int {
    dec_val_from(s, 0, 0)
}

/// The number a lexeme stands for, if it is a canonical natural number no
/// greater than `bound`.
pub open spec fn spec_uint(s: Seq<char>, bound: u32) -> Option<u32> {
    if canon_nat(s) && dec_val(s) <= bound {
        Some(dec_val(s) as u32)
    } else {
        None
    }
}

/// The eight-bit number under an optional JSON value, if it is a number
/// whose lexeme is a canonical natural within range.
pub open spec fn jv_u8(o: Option<JVal>) -> Option<u8> {
    match jv_num(o) {
        Some(s) => match spec_uint(s, 255) {
            Some(v) => Some(v as u8),
            None => None,
        },
        None => None,
    }
}

/// The sixteen-bit number under an optional JSON value.
pub open spec fn jv_u16(o: Option<JVal>) -> Option<u16> {
    match jv_num(o) {
        Some(s) => match spec_uint(s, 65535) {
            Some(v) => Some(v as u16),
            None => None,
        },
        None => None,
    }
}

/// Reading digits onto a nonnegative accumulator never shrinks it.
proof fn lemma_dec_val_from_ge(s: Seq<char>, i: int, acc: int)
    requires
        all_digits(s),
        0 <= acc,
    ensures
        dec_val_from(s, i, acc) >= acc,
    decreases s.len() - i,
{
    if 0 <= i < s.len() {
        assert(48 <= s[i] as u32 <= 57);
        lemma_dec_val_from_ge(s, i + 1, acc * 10 + (s[i] as u32 - 48));
    }
}

/// Reads a lexeme as a canonical natural number, rejecting anything that is
/// not one, or whose value exceeds `bound`.
fn parse_uint_lexeme(s: &String, bound: u32) -> (r: Option<u32>)
    requires
        bound <= 65535,
    ensures
        r == spec_uint(s@, bound),
{
    let st = s.as_str();
    let n = st.unicode_len();
    if n == 0 {
        return None;
    }
    if n > 1 && st.get_char(0) as u32 == 48 {
        return None;
    }
    let mut i: usize = 0;
    while i < n
        invariant
            i <= n,
            n == s@.len(),
            st@ == s@,
            forall|k: int| 0 <= k < i ==> 48 <= #[trigger] (s@[k] as u32) <= 57,
        decreases n - i,
    {
        let d = st.get_char(i) as u32;
        if d < 48 || d > 57 {
            assert(!all_digits(s@));
            return None;
        }
        i += 1;
    }
    assert(all_digits(s@));
    let mut acc: u32 = 0;
    i = 0;
    while i < n
        invariant
            i <= n,
            n == s@.len(),
            st@ == s@,
            all_digits(s@),
            acc <= bound,
            bound <= 65535,
            dec_val(s@) == dec_val_from(s@, i as int, acc as int),
        decreases n - i,
    {
        let d = st.get_char(i) as u32;
        assert(48 <= d <= 57);
        let next = acc * 10 + (d - 48);
        if next > bound {
            proof {
                lemma_dec_val_from_ge(s@, i as int + 1, next as int);
            }
            return None;
        }
        acc = next;
        i += 1;
    }
    Some(acc)
}

/// Looks up a required field of any shape.
fn req_field<'a>(o: &'a Vec<(String, Json)>, k: &str) -> (r: Result<&'a Json, DecodeError>)
    ensures
        match r {
            Ok(j) => obj_get(jobj_of(*o), k@) == Some(jval_of(*j)),
            Err(e) => obj_get(jobj_of(*o), k@) is None && e == DecodeError::Shape,
        },
{
    let ks = k.to_owned();
    match get_entry(o, &ks) {
        Some(j) => Ok(j),
        None => Err(DecodeError::Shape),
    }
}

/// Looks up a required string field.
fn req_str(o: &Vec<(String, Json)>, k: &str) -> (r: Result<String, DecodeError>)
    ensures
        match r {
            Ok(s) => jv_str(obj_get(jobj_of(*o), k@)) == Some(s@),
            Err(e) => jv_str(obj_get(jobj_of(*o), k@)) is None && e == DecodeError::Shape,
        },
{
    let ks = k.to_owned();
    match get_entry(o, &ks) {
        Some(Json::Str(s)) => Ok(s.clone()),
        _ => Err(DecodeError::Shape),
    }
}

/// Looks up a required boolean field.
fn req_bool(o: &Vec<(String, Json)>, k: &str) -> (r: Result<bool, DecodeError>)
    ensures
        match r {
            Ok(b) => jv_bool(obj_get(jobj_of(*o), k@)) == Some(b),
            Err(e) => jv_bool(obj_get(jobj_of(*o), k@)) is None && e == DecodeError::Shape,
        },
{
    let ks = k.to_owned();
    match get_entry(o, &ks) {
        Some(Json::Bool(b)) => Ok(*b),
        _ => Err(DecodeError::Shape),
    }
}

/// Looks up a required eight-bit number field.
fn req_u8(o: &Vec<(String, Json)>, k: &str) -> (r: Result<u8, DecodeError>)
    ensures
        match r {
            Ok(v) => jv_u8(obj_get(jobj_of(*o), k@)) == Some(v),
            Err(e) => jv_u8(obj_get(jobj_of(*o), k@)) is None && e == DecodeError::Shape,
        },
{
    let ks = k.to_owned();
    match get_entry(o, &ks) {
        Some(Json::Num(s)) => match parse_uint_lexeme(s, 255) {
            Some(v) => Ok(v as u8),
            None => Err(DecodeError::Shape),
        },
        _ => Err(DecodeError::Shape),
    }
}

/// Looks up a required sixteen-bit number field.
fn req_u16(o: &Vec<(String, Json)>, k: &str) -> (r: Result<u16, DecodeError>)
    ensures
        match r {
            Ok(v) => jv_u16(obj_get(jobj_of(*o), k@)) == Some(v),
            Err(e) => jv_u16(obj_get(jobj_of(*o), k@)) is None && e == DecodeError::Shape,
        },
{
    let ks = k.to_owned();
    match get_entry(o, &ks) {
        Some(Json::Num(s)) => match parse_uint_lexeme(s, 65535) {
            Some(v) => Ok(v as u16),
            None => Err(DecodeError::Shape),
        },
        _ => Err(DecodeError::Shape),
    }
}

/// Looks up a required number field and hands back its lexeme.
fn req_num_lexeme(o: &Vec<(String, Json)>, k: &str) -> (r: Result<String, DecodeError>)
    ensures
        match r {
            Ok(s) => jv_num(obj_get(jobj_of(*o), k@)) == Some(s@),
            Err(e) => jv_num(obj_get(jobj_of(*o), k@)) is None && e == DecodeError::Shape,
        },
{
    let ks = k.to_owned();
    match get_entry(o, &ks) {
        Some(Json::Num(s)) => Ok(s.clone()),
        _ => Err(DecodeError::Shape),
    }
}

/// Looks up an optional string field: absent and null both yield `None`.
fn opt_str(o: &Vec<(String, Json)>, k: &str) -> (r: Result<Option<String>, DecodeError>)
    ensures
        match r {
            Ok(s) => jv_opt_str(obj_get(jobj_of(*o), k@)) == Some(s.deep_view()),
            Err(e) => jv_opt_str(obj_get(jobj_of(*o), k@)) is None && e == DecodeError::Shape,
        },
{
    let ks = k.to_owned();
    match get_entry(o, &ks) {
        None => Ok(None),
        Some(Json::Null) => Ok(None),
        Some(Json::Str(s)) => Ok(Some(s.clone())),
        _ => Err(DecodeError::Shape),
    }
}

/// The decoding of a player's profile picture.
pub open spec fn spec_decode_avatar(j: JVal) -> Option<AvatarV> {
    match j {
        JVal::Obj(o) => {
            if jv_str(obj_get(o, "id"@)) is Some && jv_str(obj_get(o, "name"@)) is Some && jv_str(
                obj_get(o, "icon"@),
            ) is Some {
                Some(
                    AvatarV {
                        id: jv_str(obj_get(o, "id"@))->0,
                        name: jv_str(obj_get(o, "name"@))->0,
                        icon: jv_str(obj_get(o, "icon"@))->0,
                    },
                )
            } else {
                None
            }
        },
        _ => None,
    }
}

/// Decodes a player's profile picture.
pub fn decode_avatar(j: &Json) -> (r: Result<Avatar, DecodeError>)
    ensures
        match r {
            Ok(a) => spec_decode_avatar(jval_of(*j)) == Some(a.deep_view()),
            Err(e) => spec_decode_avatar(jval_of(*j)) is None && e == DecodeError::Shape,
        },
{
    let o = match j {
        Json::Obj(v) => v,
        _ => { return Err(DecodeError::Shape) },
    };
    let id = match req_str(o, "id") {
        Ok(s) => s,
        Err(e) => { return Err(e) },
    };
    let name = match req_str(o, "name") {
        Ok(s) => s,
        Err(e) => { return Err(e) },
    };
    let icon = match req_str(o, "icon") {
        Ok(s) => s,
        Err(e) => { return Err(e) },
    };
    Ok(Avatar { id, name, icon })
}

/// The decoding of a class or role descriptor.
pub open spec fn spec_decode_path(j: JVal) -> Option<PathV> {
    match j {
        JVal::Obj(o) => {
            if jv_str(obj_get(o, "id"@)) is Some && jv_str(obj_get(o, "name"@)) is Some && jv_str(
                obj_get(o, "icon"@),
            ) is Some {
                Some(
                    PathV {
                        id: jv_str(obj_get(o, "id"@))->0,
                        name: jv_str(obj_get(o, "name"@))->0,
                        icon: jv_str(obj_get(o, "icon"@))->0,
                    },
                )
            } else {
                None
            }
        },
        _ => None,
    }
}

/// Decodes a class or role descriptor.
pub fn decode_path(j: &Json) -> (r: Result<Path, DecodeError>)
    ensures
        match r {
            Ok(p) => spec_decode_path(jval_of(*j)) == Some(p.deep_view()),
            Err(e) => spec_decode_path(jval_of(*j)) is None && e == DecodeError::Shape,
        },
{
    let o = match j {
        Json::Obj(v) => v,
        _ => { return Err(DecodeError::Shape) },
    };
    let id = match req_str(o, "id") {
        Ok(s) => s,
        Err(e) => { return Err(e) },
    };
    let name = match req_str(o, "name") {
        Ok(s) => s,
        Err(e) => { return Err(e) },
    };
    let icon = match req_str(o, "icon") {
        Ok(s) => s,
        Err(e) => { return Err(e) },
    };
    Ok(Path { id, name, icon })
}

/// The decoding of a damage-type descriptor.
pub open spec fn spec_decode_element(j: JVal) -> Option<ElementV> {
    match j {
        JVal::Obj(o) => {
            if jv_str(obj_get(o, "id"@)) is Some && jv_str(obj_get(o, "name"@)) is Some && jv_str(
                obj_get(o, "color"@),
            ) is Some && jv_str(obj_get(o, "icon"@)) is Some {
                Some(
                    ElementV {
                        id: jv_str(obj_get(o, "id"@))->0,
                        name: jv_str(obj_get(o, "name"@))->0,
                        color: jv_str(obj_get(o, "color"@))->0,
                        icon: jv_str(obj_get(o, "icon"@))->0,
                    },
                )
            } else {
                None
            }
        },
        _ => None,
    }
}

/// Decodes a damage-type descriptor.
pub fn decode_element(j: &Json) -> (r: Result<Element, DecodeError>)
    ensures
        match r {
            Ok(el) => spec_decode_element(jval_of(*j)) == Some(el.deep_view()),
            Err(e) => spec_decode_element(jval_of(*j)) is None && e == DecodeError::Shape,
        },
{
    let o = match j {
        Json::Obj(v) => v,
        _ => { return Err(DecodeError::Shape) },
    };
    let id = match req_str(o, "id") {
        Ok(s) => s,
        Err(e) => { return Err(e) },
    };
    let name = match req_str(o, "name") {
        Ok(s) => s,
        Err(e) => { return Err(e) },
    };
    let color = match req_str(o, "color") {
        Ok(s) => s,
        Err(e) => { return Err(e) },
    };
    let icon = match req_str(o, "icon") {
        Ok(s) => s,
        Err(e) => { return Err(e) },
    };
    Ok(Element { id, name, color, icon })
}

/// The decoding of a challenge-mode summary.
pub open spec fn spec_decode_forgotten_hall(j: JVal) -> Option<ForgottenHallV> {
    match j {
        JVal::Obj(o) => {
            if jv_u8(obj_get(o, "level"@)) is Some && jv_opt_str(obj_get(o, "chaos_id"@)) is Some
                && jv_u8(obj_get(o, "chaos_level"@)) is Some && jv_u8(
                obj_get(o, "chaos_star_count"@),
            ) is Some {
                Some(
                    ForgottenHallV {
                        level: jv_u8(obj_get(o, "level"@))->0,
                        chaos_id: jv_opt_str(obj_get(o, "chaos_id"@))->0,
                        chaos_level: jv_u8(obj_get(o, "chaos_level"@))->0,
                        chaos_star_count: jv_u8(obj_get(o, "chaos_star_count"@))->0,
                    },
                )
            } else {
                None
            }
        },
        _ => None,
    }
}

/// Decodes a challenge-mode summary. The secondary-mode identifier may be
/// absent or null; both decode to an absent value.
pub fn decode_forgotten_hall(j: &Json) -> (r: Result<ForgottenHall, DecodeError>)
    ensures
        match r {
            Ok(f) => spec_decode_forgotten_hall(jval_of(*j)) == Some(f.deep_view()),
            Err(e) => spec_decode_forgotten_hall(jval_of(*j)) is None && e == DecodeError::Shape,
        },
{
    let o = match j {
        Json::Obj(v) => v,
        _ => { return Err(DecodeError::Shape) },
    };
    let level = match req_u8(o, "level") {
        Ok(v) => v,
        Err(e) => { return Err(e) },
    };
    let chaos_id = match opt_str(o, "chaos_id") {
        Ok(v) => v,
        Err(e) => { return Err(e) },
    };
    let chaos_level = match req_u8(o, "chaos_level") {
        Ok(v) => v,
        Err(e) => { return Err(e) },
    };
    let chaos_star_count = match req_u8(o, "chaos_star_count") {
        Ok(v) => v,
        Err(e) => { return Err(e) },
    };
    Ok(ForgottenHall { level, chaos_id, chaos_level, chaos_star_count })
}

/// The decoding of the account's aggregate progress counters.
pub open spec fn spec_decode_space_info(j: JVal) -> Option<SpaceInfoV> {
    match j {
        JVal::Obj(o) => {
            if obj_get(o, "memory_data"@) is Some && spec_decode_forgotten_hall(
                obj_get(o, "memory_data"@)->0,
            ) is Some && jv_u8(obj_get(o, "universe_level"@)) is Some && jv_u16(
                obj_get(o, "avatar_count"@),
            ) is Some && jv_u16(obj_get(o, "light_cone_count"@)) is Some && jv_u16(
                obj_get(o, "relic_count"@),
            ) is Some && jv_u16(obj_get(o, "achievement_count"@)) is Some && jv_u16(
                obj_get(o, "book_count"@),
            ) is Some && jv_u16(obj_get(o, "music_count"@)) is Some {
                Some(
                    SpaceInfoV {
                        memory_data: spec_decode_forgotten_hall(obj_get(o, "memory_data"@)->0)->0,
                        universe_level: jv_u8(obj_get(o, "universe_level"@))->0,
                        avatar_count: jv_u16(obj_get(o, "avatar_count"@))->0,
                        light_cone_count: jv_u16(obj_get(o, "light_cone_count"@))->0,
                        relic_count: jv_u16(obj_get(o, "relic_count"@))->0,
                        achievement_count: jv_u16(obj_get(o, "achievement_count"@))->0,
                        book_count: jv_u16(obj_get(o, "book_count"@))->0,
                        music_count: jv_u16(obj_get(o, "music_count"@))->0,
                    },
                )
            } else {
                None
            }
        },
        _ => None,
    }
}

/// Decodes the account's aggregate progress counters.
pub fn decode_space_info(j: &Json) -> (r: Result<SpaceInfo, DecodeError>)
    ensures
        match r {
            Ok(s) => spec_decode_space_info(jval_of(*j)) == Some(s.deep_view()),
            Err(e) => spec_decode_space_info(jval_of(*j)) is None && e == DecodeError::Shape,
        },
{
    let o = match j {
        Json::Obj(v) => v,
        _ => { return Err(DecodeError::Shape) },
    };
    let md_j = match req_field(o, "memory_data") {
        Ok(v) => v,
        Err(e) => { return Err(e) },
    };
    let memory_data = match decode_forgotten_hall(md_j) {
        Ok(v) => v,
        Err(e) => { return Err(e) },
    };
    let universe_level = match req_u8(o, "universe_level") {
        Ok(v) => v,
        Err(e) => { return Err(e) },
    };
    let avatar_count = match req_u16(o, "avatar_count") {
        Ok(v) => v,
        Err(e) => { return Err(e) },
    };
    let light_cone_count = match req_u16(o, "light_cone_count") {
        Ok(v) => v,
        Err(e) => { return Err(e) },
    };
    let relic_count = match req_u16(o, "relic_count") {
        Ok(v) => v,
        Err(e) => { return Err(e) },
    };
    let achievement_count = match req_u16(o, "achievement_count") {
        Ok(v) => v,
        Err(e) => { return Err(e) },
    };
    let book_count = match req_u16(o, "book_count") {
        Ok(v) => v,
        Err(e) => { return Err(e) },
    };
    let music_count = match req_u16(o, "music_count") {
        Ok(v) => v,
        Err(e) => { return Err(e) },
    };
    Ok(
        SpaceInfo {
            memory_data,
            universe_level,
            avatar_count,
            light_cone_count,
            relic_count,
            achievement_count,
            book_count,
            music_count,
        },
    )
}

/// The decoding of the player's own record.
pub open spec fn spec_decode_player(j: JVal) -> Option<PlayerV> {
    match j {
        JVal::Obj(o) => {
            if jv_str(obj_get(o, "uid"@)) is Some && jv_str(obj_get(o, "nickname"@)) is Some
                && jv_u8(obj_get(o, "level"@)) is Some && jv_u8(
                obj_get(o, "world_level"@),
            ) is Some && jv_u8(obj_get(o, "friend_count"@)) is Some && obj_get(
                o,
                "avatar"@,
            ) is Some && spec_decode_avatar(obj_get(o, "avatar"@)->0) is Some && jv_str(
                obj_get(o, "signature"@),
            ) is Some && jv_bool(obj_get(o, "is_display"@)) is Some && obj_get(
                o,
                "space_info"@,
            ) is Some && spec_decode_space_info(obj_get(o, "space_info"@)->0) is Some {
                Some(
                    PlayerV {
                        uid: jv_str(obj_get(o, "uid"@))->0,
                        name: jv_str(obj_get(o, "nickname"@))->0,
                        level: jv_u8(obj_get(o, "level"@))->0,
                        world_level: jv_u8(obj_get(o, "world_level"@))->0,
                        friend_count: jv_u8(obj_get(o, "friend_count"@))->0,
                        avatar: spec_decode_avatar(obj_get(o, "avatar"@)->0)->0,
                        signature: jv_str(obj_get(o, "signature"@))->0,
                        is_display: jv_bool(obj_get(o, "is_display"@))->0,
                        space_info: spec_decode_space_info(obj_get(o, "space_info"@)->0)->0,
                    },
                )
            } else {
                None
            }
        },
        _ => None,
    }
}

/// Decodes the player's own record. The display name stands under the wire
/// key `nickname`.
pub fn decode_player(j: &Json) -> (r: Result<Player, DecodeError>)
    ensures
        match r {
            Ok(p) => spec_decode_player(jval_of(*j)) == Some(p.deep_view()),
            Err(e) => spec_decode_player(jval_of(*j)) is None && e == DecodeError::Shape,
        },
{
    let o = match j {
        Json::Obj(v) => v,
        _ => { return Err(DecodeError::Shape) },
    };
    let uid = match req_str(o, "uid") {
        Ok(v) => v,
        Err(e) => { return Err(e) },
    };
    let name = match req_str(o, "nickname") {
        Ok(v) => v,
        Err(e) => { return Err(e) },
    };
    let level = match req_u8(o, "level") {
        Ok(v) => v,
        Err(e) => { return Err(e) },
    };
    let world_level = match req_u8(o, "world_level") {
        Ok(v) => v,
        Err(e) => { return Err(e) },
    };
    let friend_count = match req_u8(o, "friend_count") {
        Ok(v) => v,
        Err(e) => { return Err(e) },
    };
    let av_j = match req_field(o, "avatar") {
        Ok(v) => v,
        Err(e) => { return Err(e) },
    };
    let avatar = match decode_avatar(av_j) {
        Ok(v) => v,
        Err(e) => { return Err(e) },
    };
    let signature = match req_str(o, "signature") {
        Ok(v) => v,
        Err(e) => { return Err(e) },
    };
    let is_display = match req_bool(o, "is_display") {
        Ok(v) => v,
        Err(e) => { return Err(e) },
    };
    let si_j = match req_field(o, "space_info") {
        Ok(v) => v,
        Err(e) => { return Err(e) },
    };
    let space_info = match decode_space_info(si_j) {
        Ok(v) => v,
        Err(e) => { return Err(e) },
    };
    Ok(
        Player {
            uid,
            name,
            level,
            world_level,
            friend_count,
            avatar,
            signature,
            is_display,
            space_info,
        },
    )
}

/// The decoding of a base stat entry. The display string stands under the
/// wire key `display`, the percent flag under `percent`.
pub open spec fn spec_decode_attribute(j: JVal) -> Option<AttributeV> {
    match j {
        JVal::Obj(o) => {
            if jv_str(obj_get(o, "field"@)) is Some && jv_str(obj_get(o, "name"@)) is Some
                && jv_str(obj_get(o, "icon"@)) is Some && jv_num(obj_get(o, "value"@)) is Some
                && jv_str(obj_get(o, "display"@)) is Some && jv_bool(
                obj_get(o, "percent"@),
            ) is Some {
                Some(
                    AttributeV {
                        field: jv_str(obj_get(o, "field"@))->0,
                        name: jv_str(obj_get(o, "name"@))->0,
                        icon: jv_str(obj_get(o, "icon"@))->0,
                        value: jv_num(obj_get(o, "value"@))->0,
                        displayed_value: jv_str(obj_get(o, "display"@))->0,
                        is_percent: jv_bool(obj_get(o, "percent"@))->0,
                    },
                )
            } else {
                None
            }
        },
        _ => None,
    }
}

/// Decodes a base stat entry.
pub fn decode_attribute(j: &Json) -> (r: Result<Attribute, DecodeError>)
    ensures
        match r {
            Ok(a) => spec_decode_attribute(jval_of(*j)) == Some(a.deep_view()),
            Err(e) => spec_decode_attribute(jval_of(*j)) is None && e == DecodeError::Shape,
        },
{
    let o = match j {
        Json::Obj(v) => v,
        _ => { return Err(DecodeError::Shape) },
    };
    let field = match req_str(o, "field") {
        Ok(v) => v,
        Err(e) => { return Err(e) },
    };
    let name = match req_str(o, "name") {
        Ok(v) => v,
        Err(e) => { return Err(e) },
    };
    let icon = match req_str(o, "icon") {
        Ok(v) => v,
        Err(e) => { return Err(e) },
    };
    let value = match req_num_lexeme(o, "value") {
        Ok(v) => v,
        Err(e) => { return Err(e) },
    };
    let displayed_value = match req_str(o, "display") {
        Ok(v) => v,
        Err(e) => { return Err(e) },
    };
    let is_percent = match req_bool(o, "percent") {
        Ok(v) => v,
        Err(e) => { return Err(e) },
    };
    Ok(Attribute { field, name, icon, value, displayed_value, is_percent })
}

/// The decoding of a computed combat stat entry. The classifier stands
/// under the wire key `type`.
pub open spec fn spec_decode_property(j: JVal) -> Option<PropertyV> {
    match j {
        JVal::Obj(o) => {
            if jv_str(obj_get(o, "type"@)) is Some && jv_str(obj_get(o, "field"@)) is Some
                && jv_str(obj_get(o, "name"@)) is Some && jv_str(obj_get(o, "icon"@)) is Some
                && jv_num(obj_get(o, "value"@)) is Some && jv_str(obj_get(o, "display"@)) is Some
                && jv_bool(obj_get(o, "percent"@)) is Some {
                Some(
                    PropertyV {
                        property_type: jv_str(obj_get(o, "type"@))->0,
                        field: jv_str(obj_get(o, "field"@))->0,
                        name: jv_str(obj_get(o, "name"@))->0,
                        icon: jv_str(obj_get(o, "icon"@))->0,
                        value: jv_num(obj_get(o, "value"@))->0,
                        displayed_value: jv_str(obj_get(o, "display"@))->0,
                        is_percent: jv_bool(obj_get(o, "percent"@))->0,
                    },
                )
            } else {
                None
            }
        },
        _ => None,
    }
}

/// Decodes a computed combat stat entry.
pub fn decode_property(j: &Json) -> (r: Result<Property, DecodeError>)
    ensures
        match r {
            Ok(p) => spec_decode_property(jval_of(*j)) == Some(p.deep_view()),
            Err(e) => spec_decode_property(jval_of(*j)) is None && e == DecodeError::Shape,
        },
{
    let o = match j {
        Json::Obj(v) => v,
        _ => { return Err(DecodeError::Shape) },
    };
    let property_type = match req_str(o, "type") {
        Ok(v) => v,
        Err(e) => { return Err(e) },
    };
    let field = match req_str(o, "field") {
        Ok(v) => v,
        Err(e) => { return Err(e) },
    };
    let name = match req_str(o, "name") {
        Ok(v) => v,
        Err(e) => { return Err(e) },
    };
    let icon = match req_str(o, "icon") {
        Ok(v) => v,
        Err(e) => { return Err(e) },
    };
    let value = match req_num_lexeme(o, "value") {
        Ok(v) => v,
        Err(e) => { return Err(e) },
    };
    let displayed_value = match req_str(o, "display") {
        Ok(v) => v,
        Err(e) => { return Err(e) },
    };
    let is_percent = match req_bool(o, "percent") {
        Ok(v) => v,
        Err(e) => { return Err(e) },
    };
    Ok(Property { property_type, field, name, icon, value, displayed_value, is_percent })
}

/// The decoding of a relic's primary stat roll: the stat fields stand
/// directly in the same object.
pub open spec fn spec_decode_main_affix(j: JVal) -> Option<MainAffixV> {
    match spec_decode_property(j) {
        Some(p) => Some(MainAffixV { property: p }),
        None => None,
    }
}

/// Decodes a relic's primary stat roll.
pub fn decode_main_affix(j: &Json) -> (r: Result<MainAffix, DecodeError>)
    ensures
        match r {
            Ok(m) => spec_decode_main_affix(jval_of(*j)) == Some(m.deep_view()),
            Err(e) => spec_decode_main_affix(jval_of(*j)) is None && e == DecodeError::Shape,
        },
{
    match decode_property(j) {
        Ok(p) => Ok(MainAffix { property: p }),
        Err(e) => Err(e),
    }
}

/// The decoding of a relic's secondary stat roll: the stat fields plus the
/// roll count and roll step, all in the same object.
pub open spec fn spec_decode_sub_affix(j: JVal) -> Option<SubAffixV> {
    match j {
        JVal::Obj(o) => {
            if spec_decode_property(j) is Some && jv_u8(obj_get(o, "count"@)) is Some && jv_u8(
                obj_get(o, "step"@),
            ) is Some {
                Some(
                    SubAffixV {
                        property: spec_decode_property(j)->0,
                        count: jv_u8(obj_get(o, "count"@))->0,
                        step: jv_u8(obj_get(o, "step"@))->0,
                    },
                )
            } else {
                None
            }
        },
        _ => None,
    }
}

/// Decodes a relic's secondary stat roll.
pub fn decode_sub_affix(j: &Json) -> (r: Result<SubAffix, DecodeError>)
    ensures
        match r {
            Ok(s) => spec_decode_sub_affix(jval_of(*j)) == Some(s.deep_view()),
            Err(e) => spec_decode_sub_affix(jval_of(*j)) is None && e == DecodeError::Shape,
        },
{
    let o = match j {
        Json::Obj(v) => v,
        _ => { return Err(DecodeError::Shape) },
    };
    let property = match decode_property(j) {
        Ok(v) => v,
        Err(e) => { return Err(e) },
    };
    let count = match req_u8(o, "count") {
        Ok(v) => v,
        Err(e) => { return Err(e) },
    };
    let step = match req_u8(o, "step") {
        Ok(v) => v,
        Err(e) => { return Err(e) },
    };
    Ok(SubAffix { property, count, step })
}

/// The decoding of a skill-tree upgrade node. The parent link may be absent
/// or null (a root node).
pub open spec fn spec_decode_trace_tree_node(j: JVal) -> Option<TraceTreeNodeV> {
    match j {
        JVal::Obj(o) => {
            if jv_str(obj_get(o, "id"@)) is Some && jv_u8(obj_get(o, "level"@)) is Some && jv_u8(
                obj_get(o, "max_level"@),
            ) is Some && jv_str(obj_get(o, "icon"@)) is Some && jv_str(
                obj_get(o, "anchor"@),
            ) is Some && jv_opt_str(obj_get(o, "parent"@)) is Some {
                Some(
                    TraceTreeNodeV {
                        id: jv_str(obj_get(o, "id"@))->0,
                        level: jv_u8(obj_get(o, "level"@))->0,
                        max_level: jv_u8(obj_get(o, "max_level"@))->0,
                        icon: jv_str(obj_get(o, "icon"@))->0,
                        anchor: jv_str(obj_get(o, "anchor"@))->0,
                        parent: jv_opt_str(obj_get(o, "parent"@))->0,
                    },
                )
            } else {
                None
            }
        },
        _ => None,
    }
}

/// Decodes a skill-tree upgrade node.
pub fn decode_trace_tree_node(j: &Json) -> (r: Result<TraceTreeNode, DecodeError>)
    ensures
        match r {
            Ok(t) => spec_decode_trace_tree_node(jval_of(*j)) == Some(t.deep_view()),
            Err(e) => spec_decode_trace_tree_node(jval_of(*j)) is None && e == DecodeError::Shape,
        },
{
    let o = match j {
        Json::Obj(v) => v,
        _ => { return Err(DecodeError::Shape) },
    };
    let id = match req_str(o, "id") {
        Ok(v) => v,
        Err(e) => { return Err(e) },
    };
    let level = match req_u8(o, "level") {
        Ok(v) => v,
        Err(e) => { return Err(e) },
    };
    let max_level = match req_u8(o, "max_level") {
        Ok(v) => v,
        Err(e) => { return Err(e) },
    };
    let icon = match req_str(o, "icon") {
        Ok(v) => v,
        Err(e) => { return Err(e) },
    };
    let anchor = match req_str(o, "anchor") {
        Ok(v) => v,
        Err(e) => { return Err(e) },
    };
    let parent = match opt_str(o, "parent") {
        Ok(v) => v,
        Err(e) => { return Err(e) },
    };
    Ok(TraceTreeNode { id, level, max_level, icon, anchor, parent })
}

/// Looks up a required array field.
fn req_arr<'a>(o: &'a Vec<(String, Json)>, k: &str) -> (r: Result<&'a Vec<Json>, DecodeError>)
    ensures
        match r {
            Ok(a) => jv_arr(obj_get(jobj_of(*o), k@)) == Some(jarr_of(*a)),
            Err(e) => jv_arr(obj_get(jobj_of(*o), k@)) is None && e == DecodeError::Shape,
        },
{
    let ks = k.to_owned();
    match get_entry(o, &ks) {
        Some(Json::Arr(a)) => Ok(a),
        _ => Err(DecodeError::Shape),
    }
}

/// The decoding of an array of strings.
pub open spec fn spec_decode_strs(s: Seq<JVal>) -> Option<Seq<Seq<char>>> {
    if forall|i: int| 0 <= i < s.len() ==> #[trigger] jv_str(Some(s[i])) is Some {
        Some(Seq::new(s.len(), |i: int| jv_str(Some(s[i]))->0))
    } else {
        None
    }
}

/// Decodes an array of strings.
fn decode_strs(v: &Vec<Json>) -> (r: Result<Vec<String>, DecodeError>)
    ensures
        match r {
            Ok(out) => spec_decode_strs(jarr_of(*v)) == Some(out.deep_view()),
            Err(e) => spec_decode_strs(jarr_of(*v)) is None && e == DecodeError::Shape,
        },
{
    let mut out: Vec<String> = Vec::new();
    let mut i: usize = 0;
    while i < v.len()
        invariant
            i <= v.len(),
            out.len() == i,
            forall|k: int| 0 <= k < i ==> #[trigger] jv_str(Some(jarr_of(*v)[k])) is Some,
            forall|k: int|
                0 <= k < i ==> out.deep_view()[k] == jv_str(Some(#[trigger] jarr_of(*v)[k]))->0,
        decreases v.len() - i,
    {
        match &v[i] {
            Json::Str(s) => { out.push(s.clone()) },
            _ => {
                assert(jv_str(Some(jarr_of(*v)[i as int])) is None);
                return Err(DecodeError::Shape);
            },
        }
        i += 1;
    }
    proof {
        assert(out.deep_view() =~= Seq::new(
            jarr_of(*v).len(),
            |k: int| jv_str(Some(jarr_of(*v)[k]))->0,
        ));
    }
    Ok(out)
}

/// An optional element override: absent and null both mean "absent"; any
/// present value must decode as an element.
pub open spec fn jv_opt_element(o: Option<JVal>) -> Option<Option<ElementV>> {
    match o {
        None => Some(None),
        Some(JVal::Null) => Some(None),
        Some(v) => match spec_decode_element(v) {
            Some(el) => Some(Some(el)),
            None => None,
        },
    }
}

/// The decoding of a skill descriptor. The type code stands under the wire
/// key `type`; the element override may be absent or null.
pub open spec fn spec_decode_trace(j: JVal) -> Option<TraceV> {
    match j {
        JVal::Obj(o) => {
            if jv_str(obj_get(o, "id"@)) is Some && jv_str(obj_get(o, "name"@)) is Some && jv_u8(
                obj_get(o, "level"@),
            ) is Some && jv_u8(obj_get(o, "max_level"@)) is Some && jv_opt_element(
                obj_get(o, "element"@),
            ) is Some && jv_str(obj_get(o, "type"@)) is Some && jv_str(
                obj_get(o, "type_text"@),
            ) is Some && jv_str(obj_get(o, "effect"@)) is Some && jv_str(
                obj_get(o, "effect_text"@),
            ) is Some && jv_str(obj_get(o, "simple_desc"@)) is Some && jv_str(
                obj_get(o, "desc"@),
            ) is Some && jv_str(obj_get(o, "icon"@)) is Some {
                Some(
                    TraceV {
                        id: jv_str(obj_get(o, "id"@))->0,
                        name: jv_str(obj_get(o, "name"@))->0,
                        level: jv_u8(obj_get(o, "level"@))->0,
                        max_level: jv_u8(obj_get(o, "max_level"@))->0,
                        element: jv_opt_element(obj_get(o, "element"@))->0,
                        trace_type: jv_str(obj_get(o, "type"@))->0,
                        type_text: jv_str(obj_get(o, "type_text"@))->0,
                        effect: jv_str(obj_get(o, "effect"@))->0,
                        effect_text: jv_str(obj_get(o, "effect_text"@))->0,
                        simple_desc: jv_str(obj_get(o, "simple_desc"@))->0,
                        desc: jv_str(obj_get(o, "desc"@))->0,
                        icon: jv_str(obj_get(o, "icon"@))->0,
                    },
                )
            } else {
                None
            }
        },
        _ => None,
    }
}

/// Decodes a skill descriptor.
pub fn decode_trace(j: &Json) -> (r: Result<Trace, DecodeError>)
    ensures
        match r {
            Ok(t) => spec_decode_trace(jval_of(*j)) == Some(t.deep_view()),
            Err(e) => spec_decode_trace(jval_of(*j)) is None && e == DecodeError::Shape,
        },
{
    let o = match j {
        Json::Obj(v) => v,
        _ => { return Err(DecodeError::Shape) },
    };
    let id = match req_str(o, "id") {
        Ok(v) => v,
        Err(e) => { return Err(e) },
    };
    let name = match req_str(o, "name") {
        Ok(v) => v,
        Err(e) => { return Err(e) },
    };
    let level = match req_u8(o, "level") {
        Ok(v) => v,
        Err(e) => { return Err(e) },
    };
    let max_level = match req_u8(o, "max_level") {
        Ok(v) => v,
        Err(e) => { return Err(e) },
    };
    let ks = "element".to_owned();
    let element = match get_entry(o, &ks) {
        None => None,
        Some(Json::Null) => None,
        Some(ej) => match decode_element(ej) {
            Ok(el) => Some(el),
            Err(e) => { return Err(e) },
        },
    };
    let trace_type = match req_str(o, "type") {
        Ok(v) => v,
        Err(e) => { return Err(e) },
    };
    let type_text = match req_str(o, "type_text") {
        Ok(v) => v,
        Err(e) => { return Err(e) },
    };
    let effect = match req_str(o, "effect") {
        Ok(v) => v,
        Err(e) => { return Err(e) },
    };
    let effect_text = match req_str(o, "effect_text") {
        Ok(v) => v,
        Err(e) => { return Err(e) },
    };
    let simple_desc = match req_str(o, "simple_desc") {
        Ok(v) => v,
        Err(e) => { return Err(e) },
    };
    let desc = match req_str(o, "desc") {
        Ok(v) => v,
        Err(e) => { return Err(e) },
    };
    let icon = match req_str(o, "icon") {
        Ok(v) => v,
        Err(e) => { return Err(e) },
    };
    Ok(
        Trace {
            id,
            name,
            level,
            max_level,
            element,
            trace_type,
            type_text,
            effect,
            effect_text,
            simple_desc,
            desc,
            icon,
        },
    )
}

/// The decoding of an array of skill descriptors.
pub open spec fn spec_decode_traces(s: Seq<JVal>) -> Option<Seq<TraceV>> {
    if forall|i: int| 0 <= i < s.len() ==> #[trigger] spec_decode_trace(s[i]) is Some {
        Some(Seq::new(s.len(), |i: int| spec_decode_trace(s[i])->0))
    } else {
        None
    }
}

/// Decodes an array of skill descriptors.
fn decode_traces(v: &Vec<Json>) -> (r: Result<Vec<Trace>, DecodeError>)
    ensures
        match r {
            Ok(out) => spec_decode_traces(jarr_of(*v)) == Some(out.deep_view()),
            Err(e) => spec_decode_traces(jarr_of(*v)) is None && e == DecodeError::Shape,
        },
{
    let mut out: Vec<Trace> = Vec::new();
    let mut i: usize = 0;
    while i < v.len()
        invariant
            i <= v.len(),
            out.len() == i,
            forall|k: int| 0 <= k < i ==> #[trigger] spec_decode_trace(jarr_of(*v)[k]) is Some,
            forall|k: int|
                0 <= k < i ==> out.deep_view()[k] == spec_decode_trace(
                    #[trigger] jarr_of(*v)[k],
                )->0,
        decreases v.len() - i,
    {
        match decode_trace(&v[i]) {
            Ok(t) => { out.push(t) },
            Err(e) => {
                assert(spec_decode_trace(jarr_of(*v)[i as int]) is None);
                return Err(e);
            },
        }
        i += 1;
    }
    proof {
        assert(out.deep_view() =~= Seq::new(
            jarr_of(*v).len(),
            |k: int| spec_decode_trace(jarr_of(*v)[k])->0,
        ));
    }
    Ok(out)
}

/// The decoding of an array of skill-tree nodes.
pub open spec fn spec_decode_trace_tree(s: Seq<JVal>) -> Option<Seq<TraceTreeNodeV>> {
    if forall|i: int| 0 <= i < s.len() ==> #[trigger] spec_decode_trace_tree_node(s[i]) is Some {
        Some(Seq::new(s.len(), |i: int| spec_decode_trace_tree_node(s[i])->0))
    } else {
        None
    }
}

/// Decodes an array of skill-tree nodes.
fn decode_trace_tree(v: &Vec<Json>) -> (r: Result<Vec<TraceTreeNode>, DecodeError>)
    ensures
        match r {
            Ok(out) => spec_decode_trace_tree(jarr_of(*v)) == Some(out.deep_view()),
            Err(e) => spec_decode_trace_tree(jarr_of(*v)) is None && e == DecodeError::Shape,
        },
{
    let mut out: Vec<TraceTreeNode> = Vec::new();
    let mut i: usize = 0;
    while i < v.len()
        invariant
            i <= v.len(),
            out.len() == i,
            forall|k: int|
                0 <= k < i ==> #[trigger] spec_decode_trace_tree_node(jarr_of(*v)[k]) is Some,
            forall|k: int|
                0 <= k < i ==> out.deep_view()[k] == spec_decode_trace_tree_node(
                    #[trigger] jarr_of(*v)[k],
                )->0,
        decreases v.len() - i,
    {
        match decode_trace_tree_node(&v[i]) {
            Ok(t) => { out.push(t) },
            Err(e) => {
                assert(spec_decode_trace_tree_node(jarr_of(*v)[i as int]) is None);
                return Err(e);
            },
        }
        i += 1;
    }
    proof {
        assert(out.deep_view() =~= Seq::new(
            jarr_of(*v).len(),
            |k: int| spec_decode_trace_tree_node(jarr_of(*v)[k])->0,
        ));
    }
    Ok(out)
}

/// The decoding of an array of base stat entries.
pub open spec fn spec_decode_attributes(s: Seq<JVal>) -> Option<Seq<AttributeV>> {
    if forall|i: int| 0 <= i < s.len() ==> #[trigger] spec_decode_attribute(s[i]) is Some {
        Some(Seq::new(s.len(), |i: int| spec_decode_attribute(s[i])->0))
    } else {
        None
    }
}

/// Decodes an array of base stat entries.
fn decode_attributes(v: &Vec<Json>) -> (r: Result<Vec<Attribute>, DecodeError>)
    ensures
        match r {
            Ok(out) => spec_decode_attributes(jarr_of(*v)) == Some(out.deep_view()),
            Err(e) => spec_decode_attributes(jarr_of(*v)) is None && e == DecodeError::Shape,
        },
{
    let mut out: Vec<Attribute> = Vec::new();
    let mut i: usize = 0;
    while i < v.len()
        invariant
            i <= v.len(),
            out.len() == i,
            forall|k: int| 0 <= k < i ==> #[trigger] spec_decode_attribute(jarr_of(*v)[k]) is Some,
            forall|k: int|
                0 <= k < i ==> out.deep_view()[k] == spec_decode_attribute(
                    #[trigger] jarr_of(*v)[k],
                )->0,
        decreases v.len() - i,
    {
        match decode_attribute(&v[i]) {
            Ok(t) => { out.push(t) },
            Err(e) => {
                assert(spec_decode_attribute(jarr_of(*v)[i as int]) is None);
                return Err(e);
            },
        }
        i += 1;
    }
    proof {
        assert(out.deep_view() =~= Seq::new(
            jarr_of(*v).len(),
            |k: int| spec_decode_attribute(jarr_of(*v)[k])->0,
        ));
    }
    Ok(out)
}

/// The decoding of an array of computed combat stat entries.
pub open spec fn spec_decode_properties(s: Seq<JVal>) -> Option<Seq<PropertyV>> {
    if forall|i: int| 0 <= i < s.len() ==> #[trigger] spec_decode_property(s[i]) is Some {
        Some(Seq::new(s.len(), |i: int| spec_decode_property(s[i])->0))
    } else {
        None
    }
}

/// Decodes an array of computed combat stat entries.
fn decode_properties(v: &Vec<Json>) -> (r: Result<Vec<Property>, DecodeError>)
    ensures
        match r {
            Ok(out) => spec_decode_properties(jarr_of(*v)) == Some(out.deep_view()),
            Err(e) => spec_decode_properties(jarr_of(*v)) is None && e == DecodeError::Shape,
        },
{
    let mut out: Vec<Property> = Vec::new();
    let mut i: usize = 0;
    while i < v.len()
        invariant
            i <= v.len(),
            out.len() == i,
            forall|k: int| 0 <= k < i ==> #[trigger] spec_decode_property(jarr_of(*v)[k]) is Some,
            forall|k: int|
                0 <= k < i ==> out.deep_view()[k] == spec_decode_property(
                    #[trigger] jarr_of(*v)[k],
                )->0,
        decreases v.len() - i,
    {
        match decode_property(&v[i]) {
            Ok(t) => { out.push(t) },
            Err(e) => {
                assert(spec_decode_property(jarr_of(*v)[i as int]) is None);
                return Err(e);
            },
        }
        i += 1;
    }
    proof {
        assert(out.deep_view() =~= Seq::new(
            jarr_of(*v).len(),
            |k: int| spec_decode_property(jarr_of(*v)[k])->0,
        ));
    }
    Ok(out)
}

/// The decoding of an array of secondary stat rolls.
pub open spec fn spec_decode_sub_affixes(s: Seq<JVal>) -> Option<Seq<SubAffixV>> {
    if forall|i: int| 0 <= i < s.len() ==> #[trigger] spec_decode_sub_affix(s[i]) is Some {
        Some(Seq::new(s.len(), |i: int| spec_decode_sub_affix(s[i])->0))
    } else {
        None
    }
}

/// Decodes an array of secondary stat rolls.
fn decode_sub_affixes(v: &Vec<Json>) -> (r: Result<Vec<SubAffix>, DecodeError>)
    ensures
        match r {
            Ok(out) => spec_decode_sub_affixes(jarr_of(*v)) == Some(out.deep_view()),
            Err(e) => spec_decode_sub_affixes(jarr_of(*v)) is None && e == DecodeError::Shape,
        },
{
    let mut out: Vec<SubAffix> = Vec::new();
    let mut i: usize = 0;
    while i < v.len()
        invariant
            i <= v.len(),
            out.len() == i,
            forall|k: int| 0 <= k < i ==> #[trigger] spec_decode_sub_affix(jarr_of(*v)[k]) is Some,
            forall|k: int|
                0 <= k < i ==> out.deep_view()[k] == spec_decode_sub_affix(
                    #[trigger] jarr_of(*v)[k],
                )->0,
        decreases v.len() - i,
    {
        match decode_sub_affix(&v[i]) {
            Ok(t) => { out.push(t) },
            Err(e) => {
                assert(spec_decode_sub_affix(jarr_of(*v)[i as int]) is None);
                return Err(e);
            },
        }
        i += 1;
    }
    proof {
        assert(out.deep_view() =~= Seq::new(
            jarr_of(*v).len(),
            |k: int| spec_decode_sub_affix(jarr_of(*v)[k])->0,
        ));
    }
    Ok(out)
}

/// The decoding of an equipped weapon-like item. Its superimposition rank
/// stands under the wire key `rank`, its ascension tier under `promotion`.
pub open spec fn spec_decode_light_cone(j: JVal) -> Option<LightConeV> {
    match j {
        JVal::Obj(o) => {
            if jv_str(obj_get(o, "id"@)) is Some && jv_str(obj_get(o, "name"@)) is Some && jv_u8(
                obj_get(o, "rarity"@),
            ) is Some && jv_u8(obj_get(o, "rank"@)) is Some && jv_u8(
                obj_get(o, "level"@),
            ) is Some && jv_u8(obj_get(o, "promotion"@)) is Some && jv_str(
                obj_get(o, "icon"@),
            ) is Some && jv_str(obj_get(o, "preview"@)) is Some && jv_str(
                obj_get(o, "portrait"@),
            ) is Some && obj_get(o, "path"@) is Some && spec_decode_path(
                obj_get(o, "path"@)->0,
            ) is Some && jv_arr(obj_get(o, "attributes"@)) is Some && spec_decode_attributes(
                jv_arr(obj_get(o, "attributes"@))->0,
            ) is Some && jv_arr(obj_get(o, "properties"@)) is Some && spec_decode_properties(
                jv_arr(obj_get(o, "properties"@))->0,
            ) is Some {
                Some(
                    LightConeV {
                        id: jv_str(obj_get(o, "id"@))->0,
                        name: jv_str(obj_get(o, "name"@))->0,
                        rarity: jv_u8(obj_get(o, "rarity"@))->0,
                        superimpose: jv_u8(obj_get(o, "rank"@))->0,
                        level: jv_u8(obj_get(o, "level"@))->0,
                        ascension: jv_u8(obj_get(o, "promotion"@))->0,
                        icon: jv_str(obj_get(o, "icon"@))->0,
                        preview: jv_str(obj_get(o, "preview"@))->0,
                        portrait: jv_str(obj_get(o, "portrait"@))->0,
                        path: spec_decode_path(obj_get(o, "path"@)->0)->0,
                        attributes: spec_decode_attributes(jv_arr(obj_get(o, "attributes"@))->0)->0,
                        properties: spec_decode_properties(jv_arr(obj_get(o, "properties"@))->0)->0,
                    },
                )
            } else {
                None
            }
        },
        _ => None,
    }
}

/// Decodes an equipped weapon-like item.
pub fn decode_light_cone(j: &Json) -> (r: Result<LightCone, DecodeError>)
    ensures
        match r {
            Ok(lc) => spec_decode_light_cone(jval_of(*j)) == Some(lc.deep_view()),
            Err(e) => spec_decode_light_cone(jval_of(*j)) is None && e == DecodeError::Shape,
        },
{
    let o = match j {
        Json::Obj(v) => v,
        _ => { return Err(DecodeError::Shape) },
    };
    let id = match req_str(o, "id") {
        Ok(v) => v,
        Err(e) => { return Err(e) },
    };
    let name = match req_str(o, "name") {
        Ok(v) => v,
        Err(e) => { return Err(e) },
    };
    let rarity = match req_u8(o, "rarity") {
        Ok(v) => v,
        Err(e) => { return Err(e) },
    };
    let superimpose = match req_u8(o, "rank") {
        Ok(v) => v,
        Err(e) => { return Err(e) },
    };
    let level = match req_u8(o, "level") {
        Ok(v) => v,
        Err(e) => { return Err(e) },
    };
    let ascension = match req_u8(o, "promotion") {
        Ok(v) => v,
        Err(e) => { return Err(e) },
    };
    let icon = match req_str(o, "icon") {
        Ok(v) => v,
        Err(e) => { return Err(e) },
    };
    let preview = match req_str(o, "preview") {
        Ok(v) => v,
        Err(e) => { return Err(e) },
    };
    let portrait = match req_str(o, "portrait") {
        Ok(v) => v,
        Err(e) => { return Err(e) },
    };
    let path_j = match req_field(o, "path") {
        Ok(v) => v,
        Err(e) => { return Err(e) },
    };
    let path = match decode_path(path_j) {
        Ok(v) => v,
        Err(e) => { return Err(e) },
    };
    let attrs_j = match req_arr(o, "attributes") {
        Ok(v) => v,
        Err(e) => { return Err(e) },
    };
    let attributes = match decode_attributes(attrs_j) {
        Ok(v) => v,
        Err(e) => { return Err(e) },
    };
    let props_j = match req_arr(o, "properties") {
        Ok(v) => v,
        Err(e) => { return Err(e) },
    };
    let properties = match decode_properties(props_j) {
        Ok(v) => v,
        Err(e) => { return Err(e) },
    };
    Ok(
        LightCone {
            id,
            name,
            rarity,
            superimpose,
            level,
            ascension,
            icon,
            preview,
            portrait,
            path,
            attributes,
            properties,
        },
    )
}

/// The decoding of an equipped gear piece. Its secondary rolls stand under
/// the wire key `sub_affix`.
pub open spec fn spec_decode_relic(j: JVal) -> Option<RelicV> {
    match j {
        JVal::Obj(o) => {
            if jv_str(obj_get(o, "id"@)) is Some && jv_str(obj_get(o, "name"@)) is Some && jv_str(
                obj_get(o, "set_id"@),
            ) is Some && jv_str(obj_get(o, "set_name"@)) is Some && jv_u8(
                obj_get(o, "rarity"@),
            ) is Some && jv_u8(obj_get(o, "level"@)) is Some && obj_get(
                o,
                "main_affix"@,
            ) is Some && spec_decode_main_affix(obj_get(o, "main_affix"@)->0) is Some && jv_arr(
                obj_get(o, "sub_affix"@),
            ) is Some && spec_decode_sub_affixes(jv_arr(obj_get(o, "sub_affix"@))->0) is Some
                && jv_str(obj_get(o, "icon"@)) is Some {
                Some(
                    RelicV {
                        id: jv_str(obj_get(o, "id"@))->0,
                        name: jv_str(obj_get(o, "name"@))->0,
                        set_id: jv_str(obj_get(o, "set_id"@))->0,
                        set_name: jv_str(obj_get(o, "set_name"@))->0,
                        rarity: jv_u8(obj_get(o, "rarity"@))->0,
                        level: jv_u8(obj_get(o, "level"@))->0,
                        main_affix: spec_decode_main_affix(obj_get(o, "main_affix"@)->0)->0,
                        sub_affixes: spec_decode_sub_affixes(jv_arr(obj_get(o, "sub_affix"@))->0)->0,
                        icon: jv_str(obj_get(o, "icon"@))->0,
                    },
                )
            } else {
                None
            }
        },
        _ => None,
    }
}

/// Decodes an equipped gear piece.
pub fn decode_relic(j: &Json) -> (r: Result<Relic, DecodeError>)
    ensures
        match r {
            Ok(rl) => spec_decode_relic(jval_of(*j)) == Some(rl.deep_view()),
            Err(e) => spec_decode_relic(jval_of(*j)) is None && e == DecodeError::Shape,
        },
{
    let o = match j {
        Json::Obj(v) => v,
        _ => { return Err(DecodeError::Shape) },
    };
    let id = match req_str(o, "id") {
        Ok(v) => v,
        Err(e) => { return Err(e) },
    };
    let name = match req_str(o, "name") {
        Ok(v) => v,
        Err(e) => { return Err(e) },
    };
    let set_id = match req_str(o, "set_id") {
        Ok(v) => v,
        Err(e) => { return Err(e) },
    };
    let set_name = match req_str(o, "set_name") {
        Ok(v) => v,
        Err(e) => { return Err(e) },
    };
    let rarity = match req_u8(o, "rarity") {
        Ok(v) => v,
        Err(e) => { return Err(e) },
    };
    let level = match req_u8(o, "level") {
        Ok(v) => v,
        Err(e) => { return Err(e) },
    };
    let ma_j = match req_field(o, "main_affix") {
        Ok(v) => v,
        Err(e) => { return Err(e) },
    };
    let main_affix = match decode_main_affix(ma_j) {
        Ok(v) => v,
        Err(e) => { return Err(e) },
    };
    let sa_j = match req_arr(o, "sub_affix") {
        Ok(v) => v,
        Err(e) => { return Err(e) },
    };
    let sub_affixes = match decode_sub_affixes(sa_j) {
        Ok(v) => v,
        Err(e) => { return Err(e) },
    };
    let icon = match req_str(o, "icon") {
        Ok(v) => v,
        Err(e) => { return Err(e) },
    };
    Ok(Relic { id, name, set_id, set_name, rarity, level, main_affix, sub_affixes, icon })
}

/// The decoding of an array of gear pieces.
pub open spec fn spec_decode_relics(s: Seq<JVal>) -> Option<Seq<RelicV>> {
    if forall|i: int| 0 <= i < s.len() ==> #[trigger] spec_decode_relic(s[i]) is Some {
        Some(Seq::new(s.len(), |i: int| spec_decode_relic(s[i])->0))
    } else {
        None
    }
}

/// Decodes an array of gear pieces.
fn decode_relics(v: &Vec<Json>) -> (r: Result<Vec<Relic>, DecodeError>)
    ensures
        match r {
            Ok(out) => spec_decode_relics(jarr_of(*v)) == Some(out.deep_view()),
            Err(e) => spec_decode_relics(jarr_of(*v)) is None && e == DecodeError::Shape,
        },
{
    let mut out: Vec<Relic> = Vec::new();
    let mut i: usize = 0;
    while i < v.len()
        invariant
            i <= v.len(),
            out.len() == i,
            forall|k: int| 0 <= k < i ==> #[trigger] spec_decode_relic(jarr_of(*v)[k]) is Some,
            forall|k: int|
                0 <= k < i ==> out.deep_view()[k] == spec_decode_relic(
                    #[trigger] jarr_of(*v)[k],
                )->0,
        decreases v.len() - i,
    {
        match decode_relic(&v[i]) {
            Ok(t) => { out.push(t) },
            Err(e) => {
                assert(spec_decode_relic(jarr_of(*v)[i as int]) is None);
                return Err(e);
            },
        }
        i += 1;
    }
    proof {
        assert(out.deep_view() =~= Seq::new(
            jarr_of(*v).len(),
            |k: int| spec_decode_relic(jarr_of(*v)[k])->0,
        ));
    }
    Ok(out)
}

/// The decoding of a set-bonus summary.
pub open spec fn spec_decode_relic_set(j: JVal) -> Option<RelicSetV> {
    match j {
        JVal::Obj(o) => {
            if jv_str(obj_get(o, "id"@)) is Some && jv_str(obj_get(o, "name"@)) is Some && jv_str(
                obj_get(o, "icon"@),
            ) is Some && jv_u8(obj_get(o, "num"@)) is Some && jv_str(
                obj_get(o, "desc"@),
            ) is Some && jv_arr(obj_get(o, "properties"@)) is Some && spec_decode_properties(
                jv_arr(obj_get(o, "properties"@))->0,
            ) is Some {
                Some(
                    RelicSetV {
                        id: jv_str(obj_get(o, "id"@))->0,
                        name: jv_str(obj_get(o, "name"@))->0,
                        icon: jv_str(obj_get(o, "icon"@))->0,
                        num: jv_u8(obj_get(o, "num"@))->0,
                        desc: jv_str(obj_get(o, "desc"@))->0,
                        properties: spec_decode_properties(jv_arr(obj_get(o, "properties"@))->0)->0,
                    },
                )
            } else {
                None
            }
        },
        _ => None,
    }
}

/// Decodes a set-bonus summary.
pub fn decode_relic_set(j: &Json) -> (r: Result<RelicSet, DecodeError>)
    ensures
        match r {
            Ok(rs) => spec_decode_relic_set(jval_of(*j)) == Some(rs.deep_view()),
            Err(e) => spec_decode_relic_set(jval_of(*j)) is None && e == DecodeError::Shape,
        },
{
    let o = match j {
        Json::Obj(v) => v,
        _ => { return Err(DecodeError::Shape) },
    };
    let id = match req_str(o, "id") {
        Ok(v) => v,
        Err(e) => { return Err(e) },
    };
    let name = match req_str(o, "name") {
        Ok(v) => v,
        Err(e) => { return Err(e) },
    };
    let icon = match req_str(o, "icon") {
        Ok(v) => v,
        Err(e) => { return Err(e) },
    };
    let num = match req_u8(o, "num") {
        Ok(v) => v,
        Err(e) => { return Err(e) },
    };
    let desc = match req_str(o, "desc") {
        Ok(v) => v,
        Err(e) => { return Err(e) },
    };
    let props_j = match req_arr(o, "properties") {
        Ok(v) => v,
        Err(e) => { return Err(e) },
    };
    let properties = match decode_properties(props_j) {
        Ok(v) => v,
        Err(e) => { return Err(e) },
    };
    Ok(RelicSet { id, name, icon, num, desc, properties })
}

/// The decoding of an array of set-bonus summaries.
pub open spec fn spec_decode_relic_sets(s: Seq<JVal>) -> Option<Seq<RelicSetV>> {
    if forall|i: int| 0 <= i < s.len() ==> #[trigger] spec_decode_relic_set(s[i]) is Some {
        Some(Seq::new(s.len(), |i: int| spec_decode_relic_set(s[i])->0))
    } else {
        None
    }
}

/// Decodes an array of set-bonus summaries.
fn decode_relic_sets(v: &Vec<Json>) -> (r: Result<Vec<RelicSet>, DecodeError>)
    ensures
        match r {
            Ok(out) => spec_decode_relic_sets(jarr_of(*v)) == Some(out.deep_view()),
            Err(e) => spec_decode_relic_sets(jarr_of(*v)) is None && e == DecodeError::Shape,
        },
{
    let mut out: Vec<RelicSet> = Vec::new();
    let mut i: usize = 0;
    while i < v.len()
        invariant
            i <= v.len(),
            out.len() == i,
            forall|k: int| 0 <= k < i ==> #[trigger] spec_decode_relic_set(jarr_of(*v)[k]) is Some,
            forall|k: int|
                0 <= k < i ==> out.deep_view()[k] == spec_decode_relic_set(
                    #[trigger] jarr_of(*v)[k],
                )->0,
        decreases v.len() - i,
    {
        match decode_relic_set(&v[i]) {
            Ok(t) => { out.push(t) },
            Err(e) => {
                assert(spec_decode_relic_set(jarr_of(*v)[i as int]) is None);
                return Err(e);
            },
        }
        i += 1;
    }
    proof {
        assert(out.deep_view() =~= Seq::new(
            jarr_of(*v).len(),
            |k: int| spec_decode_relic_set(jarr_of(*v)[k])->0,
        ));
    }
    Ok(out)
}

/// An optional equipped light cone: absent and null both mean "absent"; any
/// present value must decode as a light cone.
pub open spec fn jv_opt_light_cone(o: Option<JVal>) -> Option<Option<LightConeV>> {
    match o {
        None => Some(None),
        Some(JVal::Null) => Some(None),
        Some(v) => match spec_decode_light_cone(v) {
            Some(lc) => Some(Some(lc)),
            None => None,
        },
    }
}

/// The decoding of one playable character. The wire keys differ from the
/// semantic names: `promotion` is the ascension tier, `rank` the eidolon
/// rank, `rank_icons` the eidolon icons, `skills` the traces and
/// `skill_trees` the trace tree; the light cone may be absent or null.
pub open spec fn spec_decode_character(j: JVal) -> Option<CharacterV> {
    match j {
        JVal::Obj(o) => {
            if jv_str(obj_get(o, "id"@)) is Some && jv_str(obj_get(o, "name"@)) is Some && jv_u8(
                obj_get(o, "rarity"@),
            ) is Some && jv_u8(obj_get(o, "level"@)) is Some && jv_u8(
                obj_get(o, "promotion"@),
            ) is Some && jv_u8(obj_get(o, "rank"@)) is Some && jv_arr(
                obj_get(o, "rank_icons"@),
            ) is Some && spec_decode_strs(jv_arr(obj_get(o, "rank_icons"@))->0) is Some && jv_str(
                obj_get(o, "icon"@),
            ) is Some && jv_str(obj_get(o, "preview"@)) is Some && jv_str(
                obj_get(o, "portrait"@),
            ) is Some && obj_get(o, "path"@) is Some && spec_decode_path(
                obj_get(o, "path"@)->0,
            ) is Some && obj_get(o, "element"@) is Some && spec_decode_element(
                obj_get(o, "element"@)->0,
            ) is Some && jv_arr(obj_get(o, "skills"@)) is Some && spec_decode_traces(
                jv_arr(obj_get(o, "skills"@))->0,
            ) is Some && jv_arr(obj_get(o, "skill_trees"@)) is Some && spec_decode_trace_tree(
                jv_arr(obj_get(o, "skill_trees"@))->0,
            ) is Some && jv_opt_light_cone(obj_get(o, "light_cone"@)) is Some && jv_arr(
                obj_get(o, "relics"@),
            ) is Some && spec_decode_relics(jv_arr(obj_get(o, "relics"@))->0) is Some && jv_arr(
                obj_get(o, "relic_sets"@),
            ) is Some && spec_decode_relic_sets(jv_arr(obj_get(o, "relic_sets"@))->0) is Some
                && jv_arr(obj_get(o, "attributes"@)) is Some && spec_decode_attributes(
                jv_arr(obj_get(o, "attributes"@))->0,
            ) is Some && jv_arr(obj_get(o, "additions"@)) is Some && spec_decode_attributes(
                jv_arr(obj_get(o, "additions"@))->0,
            ) is Some && jv_arr(obj_get(o, "properties"@)) is Some && spec_decode_properties(
                jv_arr(obj_get(o, "properties"@))->0,
            ) is Some {
                Some(
                    CharacterV {
                        id: jv_str(obj_get(o, "id"@))->0,
                        name: jv_str(obj_get(o, "name"@))->0,
                        rarity: jv_u8(obj_get(o, "rarity"@))->0,
                        level: jv_u8(obj_get(o, "level"@))->0,
                        ascension: jv_u8(obj_get(o, "promotion"@))->0,
                        eidolon: jv_u8(obj_get(o, "rank"@))->0,
                        eidolon_icons: spec_decode_strs(jv_arr(obj_get(o, "rank_icons"@))->0)->0,
                        icon: jv_str(obj_get(o, "icon"@))->0,
                        preview: jv_str(obj_get(o, "preview"@))->0,
                        portrait: jv_str(obj_get(o, "portrait"@))->0,
                        path: spec_decode_path(obj_get(o, "path"@)->0)->0,
                        element: spec_decode_element(obj_get(o, "element"@)->0)->0,
                        traces: spec_decode_traces(jv_arr(obj_get(o, "skills"@))->0)->0,
                        trace_tree: spec_decode_trace_tree(jv_arr(obj_get(o, "skill_trees"@))->0)->0,
                        light_cone: jv_opt_light_cone(obj_get(o, "light_cone"@))->0,
                        relics: spec_decode_relics(jv_arr(obj_get(o, "relics"@))->0)->0,
                        relic_sets: spec_decode_relic_sets(jv_arr(obj_get(o, "relic_sets"@))->0)->0,
                        attributes: spec_decode_attributes(jv_arr(obj_get(o, "attributes"@))->0)->0,
                        additions: spec_decode_attributes(jv_arr(obj_get(o, "additions"@))->0)->0,
                        properties: spec_decode_properties(jv_arr(obj_get(o, "properties"@))->0)->0,
                    },
                )
            } else {
                None
            }
        },
        _ => None,
    }
}

/// Decodes one playable character.
pub fn decode_character(j: &Json) -> (r: Result<Character, DecodeError>)
    ensures
        match r {
            Ok(c) => spec_decode_character(jval_of(*j)) == Some(c.deep_view()),
            Err(e) => spec_decode_character(jval_of(*j)) is None && e == DecodeError::Shape,
        },
{
    let o = match j {
        Json::Obj(v) => v,
        _ => { return Err(DecodeError::Shape) },
    };
    let id = match req_str(o, "id") {
        Ok(v) => v,
        Err(e) => { return Err(e) },
    };
    let name = match req_str(o, "name") {
        Ok(v) => v,
        Err(e) => { return Err(e) },
    };
    let rarity = match req_u8(o, "rarity") {
        Ok(v) => v,
        Err(e) => { return Err(e) },
    };
    let level = match req_u8(o, "level") {
        Ok(v) => v,
        Err(e) => { return Err(e) },
    };
    let ascension = match req_u8(o, "promotion") {
        Ok(v) => v,
        Err(e) => { return Err(e) },
    };
    let eidolon = match req_u8(o, "rank") {
        Ok(v) => v,
        Err(e) => { return Err(e) },
    };
    let ri_j = match req_arr(o, "rank_icons") {
        Ok(v) => v,
        Err(e) => { return Err(e) },
    };
    let eidolon_icons = match decode_strs(ri_j) {
        Ok(v) => v,
        Err(e) => { return Err(e) },
    };
    let icon = match req_str(o, "icon") {
        Ok(v) => v,
        Err(e) => { return Err(e) },
    };
    let preview = match req_str(o, "preview") {
        Ok(v) => v,
        Err(e) => { return Err(e) },
    };
    let portrait = match req_str(o, "portrait") {
        Ok(v) => v,
        Err(e) => { return Err(e) },
    };
    let path_j = match req_field(o, "path") {
        Ok(v) => v,
        Err(e) => { return Err(e) },
    };
    let path = match decode_path(path_j) {
        Ok(v) => v,
        Err(e) => { return Err(e) },
    };
    let el_j = match req_field(o, "element") {
        Ok(v) => v,
        Err(e) => { return Err(e) },
    };
    let element = match decode_element(el_j) {
        Ok(v) => v,
        Err(e) => { return Err(e) },
    };
    let tr_j = match req_arr(o, "skills") {
        Ok(v) => v,
        Err(e) => { return Err(e) },
    };
    let traces = match decode_traces(tr_j) {
        Ok(v) => v,
        Err(e) => { return Err(e) },
    };
    let tt_j = match req_arr(o, "skill_trees") {
        Ok(v) => v,
        Err(e) => { return Err(e) },
    };
    let trace_tree = match decode_trace_tree(tt_j) {
        Ok(v) => v,
        Err(e) => { return Err(e) },
    };
    let ks = "light_cone".to_owned();
    let light_cone = match get_entry(o, &ks) {
        None => None,
        Some(Json::Null) => None,
        Some(lj) => match decode_light_cone(lj) {
            Ok(lc) => Some(lc),
            Err(e) => { return Err(e) },
        },
    };
    let re_j = match req_arr(o, "relics") {
        Ok(v) => v,
        Err(e) => { return Err(e) },
    };
    let relics = match decode_relics(re_j) {
        Ok(v) => v,
        Err(e) => { return Err(e) },
    };
    let rs_j = match req_arr(o, "relic_sets") {
        Ok(v) => v,
        Err(e) => { return Err(e) },
    };
    let relic_sets = match decode_relic_sets(rs_j) {
        Ok(v) => v,
        Err(e) => { return Err(e) },
    };
    let at_j = match req_arr(o, "attributes") {
        Ok(v) => v,
        Err(e) => { return Err(e) },
    };
    let attributes = match decode_attributes(at_j) {
        Ok(v) => v,
        Err(e) => { return Err(e) },
    };
    let ad_j = match req_arr(o, "additions") {
        Ok(v) => v,
        Err(e) => { return Err(e) },
    };
    let additions = match decode_attributes(ad_j) {
        Ok(v) => v,
        Err(e) => { return Err(e) },
    };
    let pr_j = match req_arr(o, "properties") {
        Ok(v) => v,
        Err(e) => { return Err(e) },
    };
    let properties = match decode_properties(pr_j) {
        Ok(v) => v,
        Err(e) => { return Err(e) },
    };
    Ok(
        Character {
            id,
            name,
            rarity,
            level,
            ascension,
            eidolon,
            eidolon_icons,
            icon,
            preview,
            portrait,
            path,
            element,
            traces,
            trace_tree,
            light_cone,
            relics,
            relic_sets,
            attributes,
            additions,
            properties,
        },
    )
}

/// The decoding of an array of playable characters.
pub open spec fn spec_decode_characters(s: Seq<JVal>) -> Option<Seq<CharacterV>> {
    if forall|i: int| 0 <= i < s.len() ==> #[trigger] spec_decode_character(s[i]) is Some {
        Some(Seq::new(s.len(), |i: int| spec_decode_character(s[i])->0))
    } else {
        None
    }
}

/// Decodes an array of playable characters.
fn decode_characters(v: &Vec<Json>) -> (r: Result<Vec<Character>, DecodeError>)
    ensures
        match r {
            Ok(out) => spec_decode_characters(jarr_of(*v)) == Some(out.deep_view()),
            Err(e) => spec_decode_characters(jarr_of(*v)) is None && e == DecodeError::Shape,
        },
{
    let mut out: Vec<Character> = Vec::new();
    let mut i: usize = 0;
    while i < v.len()
        invariant
            i <= v.len(),
            out.len() == i,
            forall|k: int| 0 <= k < i ==> #[trigger] spec_decode_character(jarr_of(*v)[k]) is Some,
            forall|k: int|
                0 <= k < i ==> out.deep_view()[k] == spec_decode_character(
                    #[trigger] jarr_of(*v)[k],
                )->0,
        decreases v.len() - i,
    {
        match decode_character(&v[i]) {
            Ok(t) => { out.push(t) },
            Err(e) => {
                assert(spec_decode_character(jarr_of(*v)[i as int]) is None);
                return Err(e);
            },
        }
        i += 1;
    }
    proof {
        assert(out.deep_view() =~= Seq::new(
            jarr_of(*v).len(),
            |k: int| spec_decode_character(jarr_of(*v)[k])->0,
        ));
    }
    Ok(out)
}

/// The decoding of a whole profile snapshot: the player's record and the
/// ordered characters.
pub open spec fn spec_decode_profile(j: JVal) -> Option<StarRailInfoParsedV> {
    match j {
        JVal::Obj(o) => {
            if obj_get(o, "player"@) is Some && spec_decode_player(obj_get(o, "player"@)->0) is Some
                && jv_arr(obj_get(o, "characters"@)) is Some && spec_decode_characters(
                jv_arr(obj_get(o, "characters"@))->0,
            ) is Some {
                Some(
                    StarRailInfoParsedV {
                        player: spec_decode_player(obj_get(o, "player"@)->0)->0,
                        characters: spec_decode_characters(
                            jv_arr(obj_get(o, "characters"@))->0,
                        )->0,
                    },
                )
            } else {
                None
            }
        },
        _ => None,
    }
}

/// Decodes a whole profile snapshot from a JSON value.
pub fn decode_profile(j: &Json) -> (r: Result<StarRailInfoParsed, DecodeError>)
    ensures
        match r {
            Ok(p) => spec_decode_profile(jval_of(*j)) == Some(p.deep_view()),
            Err(e) => spec_decode_profile(jval_of(*j)) is None && e == DecodeError::Shape,
        },
{
    let o = match j {
        Json::Obj(v) => v,
        _ => { return Err(DecodeError::Shape) },
    };
    let pl_j = match req_field(o, "player") {
        Ok(v) => v,
        Err(e) => { return Err(e) },
    };
    let player = match decode_player(pl_j) {
        Ok(v) => v,
        Err(e) => { return Err(e) },
    };
    let ch_j = match req_arr(o, "characters") {
        Ok(v) => v,
        Err(e) => { return Err(e) },
    };
    let characters = match decode_characters(ch_j) {
        Ok(v) => v,
        Err(e) => { return Err(e) },
    };
    Ok(StarRailInfoParsed { player, characters })
}

} // verus!
