//! The canonical JSON form of the typed profile model, and the round-trip
//! law: decoding the canonical form of any model value gives that value
//! back, so the typed model and its JSON form carry exactly the same
//! information, field for field.
//!
//! An absent optional field is encoded as an explicit null, which decodes
//! to "absent" again.

use vstd::prelude::*;
use vstd::arithmetic::div_mod::lemma_fundamental_div_mod;
use crate::decode::{all_digits, canon_nat, dec_val, dec_val_from, jv_str, jv_u16, jv_u8,
    spec_decode_attribute,
    spec_decode_attributes, spec_decode_avatar, spec_decode_character, spec_decode_characters,
    spec_decode_element, spec_decode_forgotten_hall, spec_decode_light_cone,
    spec_decode_main_affix, spec_decode_path, spec_decode_player, spec_decode_profile,
    spec_decode_properties, spec_decode_property, spec_decode_relic, spec_decode_relic_set,
    spec_decode_relic_sets, spec_decode_relics, spec_decode_space_info, spec_decode_strs,
    spec_decode_sub_affix, spec_decode_sub_affixes, spec_decode_trace, spec_decode_trace_tree,
    spec_decode_trace_tree_node, spec_decode_traces, spec_uint};
use crate::json::{JVal, obj_get, obj_get_from};
use crate::json::{Json, jarr_of, jobj_of, jval_of};
use crate::model::{Attribute, AttributeV, Avatar, AvatarV, Character, CharacterV, Element,
    ElementV, ForgottenHall, ForgottenHallV, LightCone, LightConeV, MainAffix, MainAffixV, Path,
    PathV, Player, PlayerV, Property, PropertyV, Relic, RelicSet, RelicSetV, RelicV, SpaceInfo,
    SpaceInfoV, StarRailInfoParsed, StarRailInfoParsedV, SubAffix, SubAffixV, TraceTreeNode, TraceTreeNodeV,
    Trace, TraceV};
use crate::strutil::{dec_digits, spec_dec_digits, spec_digit_char, string_from_chars};

verus! {

/// The canonical JSON value of an eight-bit number.
pub open spec fn enc_u8(n: u8) -> JVal {
    JVal::Num(spec_dec_digits(n as nat))
}

/// The canonical JSON value of a sixteen-bit number.
pub open spec fn enc_u16(n: u16) -> JVal {
    JVal::Num(spec_dec_digits(n as nat))
}

/// The canonical JSON value of an optional string: null when absent.
pub open spec fn enc_opt_str(s: Option<Seq<char>>) -> JVal {
    match s {
        None => JVal::Null,
        Some(t) => JVal::Str(t),
    }
}

/// Appending one digit multiplies the value of the digits read so far by
/// ten and adds the digit.
proof fn lemma_dec_val_push(s: Seq<char>, c: char, i: int, acc: int)
    requires
        0 <= i <= s.len(),
    ensures
        dec_val_from(s.push(c), i, acc) == dec_val_from(s, i, acc) * 10 + (c as u32 - 48),
    decreases s.len() - i,
{
    if i == s.len() {
        assert(s.push(c)[i] == c);
        assert(dec_val_from(s.push(c), i + 1, acc * 10 + (c as u32 - 48)) == acc * 10 + (c as u32
            - 48));
    } else {
        assert(s.push(c)[i] == s[i]);
        lemma_dec_val_push(s, c, i + 1, acc * 10 + (s[i] as u32 - 48));
    }
}

/// The decimal digits of a number read back as a number give that number,
/// in canonical form.
proof fn lemma_digits_value(n: nat)
    ensures
        spec_dec_digits(n).len() >= 1,
        all_digits(spec_dec_digits(n)),
        dec_val(spec_dec_digits(n)) == n,
        n > 0 ==> spec_dec_digits(n)[0] as u32 != 48,
        canon_nat(spec_dec_digits(n)),
    decreases n,
{
    if n < 10 {
        let s = spec_dec_digits(n);
        assert(s =~= seq![spec_digit_char(n)]);
        assert(48 <= s[0] as u32 <= 57);
        assert(dec_val_from(s, 1, s[0] as u32 - 48) == s[0] as u32 - 48);
        assert(dec_val(s) == n);
    } else {
        lemma_digits_value(n / 10);
        let p = spec_dec_digits(n / 10);
        let c = spec_digit_char(n % 10);
        let s = spec_dec_digits(n);
        assert(s == p.push(c));
        assert(48 <= c as u32 <= 57);
        assert forall|i: int| 0 <= i < s.len() implies 48 <= #[trigger] (s[i] as u32) <= 57 by {
            if i < p.len() {
                assert(s[i] == p[i]);
            } else {
                assert(s[i] == c);
            }
        }
        lemma_dec_val_push(p, c, 0, 0);
        lemma_fundamental_div_mod(n as int, 10);
        assert(dec_val(s) == (n / 10) * 10 + n % 10);
        assert(s[0] == p[0]);
    }
}

/// A canonical eight-bit number decodes to itself.
proof fn lemma_u8_round(n: u8)
    ensures
        jv_u8(Some(enc_u8(n))) == Some(n),
{
    lemma_digits_value(n as nat);
    assert(spec_uint(spec_dec_digits(n as nat), 255) == Some(n as u32));
}

/// A canonical sixteen-bit number decodes to itself.
proof fn lemma_u16_round(n: u16)
    ensures
        jv_u16(Some(enc_u16(n))) == Some(n),
{
    lemma_digits_value(n as nat);
    assert(spec_uint(spec_dec_digits(n as nat), 65535) == Some(n as u32));
}

/// The canonical JSON value of an optional element override: null when
/// absent.
pub open spec fn enc_opt_element(e: Option<ElementV>) -> JVal {
    match e {
        None => JVal::Null,
        Some(el) => spec_encode_element(el),
    }
}

/// The canonical JSON value of an optional equipped light cone: null when
/// absent.
pub open spec fn enc_opt_light_cone(lc: Option<LightConeV>) -> JVal {
    match lc {
        None => JVal::Null,
        Some(c) => spec_encode_light_cone(c),
    }
}

/// The canonical JSON form of a player's profile picture.
pub open spec fn spec_encode_avatar(v: AvatarV) -> JVal {
    JVal::Obj(
        seq![
            ("id"@, JVal::Str(v.id)),
            ("name"@, JVal::Str(v.name)),
            ("icon"@, JVal::Str(v.icon)),
        ],
    )
}

/// Decoding the canonical form of a player's profile picture gives it back.
pub proof fn lemma_avatar_round_trip(v: AvatarV)
    ensures
        spec_decode_avatar(spec_encode_avatar(v)) == Some(v),
{
    reveal_strlit("id");
    reveal_strlit("name");
    reveal_strlit("icon");
    let o = seq![
        ("id"@, JVal::Str(v.id)),
        ("name"@, JVal::Str(v.name)),
        ("icon"@, JVal::Str(v.icon)),
    ];
    assert(spec_encode_avatar(v) == JVal::Obj(o));
    assert(o[0] == ("id"@, JVal::Str(v.id)));
    assert(o[1] == ("name"@, JVal::Str(v.name)));
    assert(o[2] == ("icon"@, JVal::Str(v.icon)));
    assert(("id"@).len() == 2);
    assert(("name"@).len() == 4);
    assert("id"@ != "name"@);
    assert(("icon"@).len() == 4);
    assert("id"@ != "icon"@);
    assert(("name"@)[0] == 'n');
    assert(("icon"@)[0] == 'i');
    assert("name"@ != "icon"@);
    assert(obj_get_from(o, "id"@, 0) == Some(o[0].1));
    assert(obj_get(o, "id"@) == Some(JVal::Str(v.id)));
    assert(obj_get_from(o, "name"@, 1) == Some(o[1].1));
    assert(obj_get_from(o, "name"@, 0) == obj_get_from(o, "name"@, 1));
    assert(obj_get(o, "name"@) == Some(JVal::Str(v.name)));
    assert(obj_get_from(o, "icon"@, 2) == Some(o[2].1));
    assert(obj_get_from(o, "icon"@, 1) == obj_get_from(o, "icon"@, 2));
    assert(obj_get_from(o, "icon"@, 0) == obj_get_from(o, "icon"@, 1));
    assert(obj_get(o, "icon"@) == Some(JVal::Str(v.icon)));
    assert(spec_decode_avatar(spec_encode_avatar(v))->0 =~= v);
}

/// The canonical JSON form of a class or role descriptor.
pub open spec fn spec_encode_path(v: PathV) -> JVal {
    JVal::Obj(
        seq![
            ("id"@, JVal::Str(v.id)),
            ("name"@, JVal::Str(v.name)),
            ("icon"@, JVal::Str(v.icon)),
        ],
    )
}

/// Decoding the canonical form of a class or role descriptor gives it back.
pub proof fn lemma_path_round_trip(v: PathV)
    ensures
        spec_decode_path(spec_encode_path(v)) == Some(v),
{
    reveal_strlit("id");
    reveal_strlit("name");
    reveal_strlit("icon");
    let o = seq![
        ("id"@, JVal::Str(v.id)),
        ("name"@, JVal::Str(v.name)),
        ("icon"@, JVal::Str(v.icon)),
    ];
    assert(spec_encode_path(v) == JVal::Obj(o));
    assert(o[0] == ("id"@, JVal::Str(v.id)));
    assert(o[1] == ("name"@, JVal::Str(v.name)));
    assert(o[2] == ("icon"@, JVal::Str(v.icon)));
    assert(("id"@).len() == 2);
    assert(("name"@).len() == 4);
    assert("id"@ != "name"@);
    assert(("icon"@).len() == 4);
    assert("id"@ != "icon"@);
    assert(("name"@)[0] == 'n');
    assert(("icon"@)[0] == 'i');
    assert("name"@ != "icon"@);
    assert(obj_get_from(o, "id"@, 0) == Some(o[0].1));
    assert(obj_get(o, "id"@) == Some(JVal::Str(v.id)));
    assert(obj_get_from(o, "name"@, 1) == Some(o[1].1));
    assert(obj_get_from(o, "name"@, 0) == obj_get_from(o, "name"@, 1));
    assert(obj_get(o, "name"@) == Some(JVal::Str(v.name)));
    assert(obj_get_from(o, "icon"@, 2) == Some(o[2].1));
    assert(obj_get_from(o, "icon"@, 1) == obj_get_from(o, "icon"@, 2));
    assert(obj_get_from(o, "icon"@, 0) == obj_get_from(o, "icon"@, 1));
    assert(obj_get(o, "icon"@) == Some(JVal::Str(v.icon)));
    assert(spec_decode_path(spec_encode_path(v))->0 =~= v);
}

/// The canonical JSON form of a damage-type descriptor.
pub open spec fn spec_encode_element(v: ElementV) -> JVal {
    JVal::Obj(
        seq![
            ("id"@, JVal::Str(v.id)),
            ("name"@, JVal::Str(v.name)),
            ("color"@, JVal::Str(v.color)),
            ("icon"@, JVal::Str(v.icon)),
        ],
    )
}

/// Decoding the canonical form of a damage-type descriptor gives it back.
pub proof fn lemma_element_round_trip(v: ElementV)
    ensures
        spec_decode_element(spec_encode_element(v)) == Some(v),
{
    reveal_strlit("id");
    reveal_strlit("name");
    reveal_strlit("color");
    reveal_strlit("icon");
    let o = seq![
        ("id"@, JVal::Str(v.id)),
        ("name"@, JVal::Str(v.name)),
        ("color"@, JVal::Str(v.color)),
        ("icon"@, JVal::Str(v.icon)),
    ];
    assert(spec_encode_element(v) == JVal::Obj(o));
    assert(o[0] == ("id"@, JVal::Str(v.id)));
    assert(o[1] == ("name"@, JVal::Str(v.name)));
    assert(o[2] == ("color"@, JVal::Str(v.color)));
    assert(o[3] == ("icon"@, JVal::Str(v.icon)));
    assert(("id"@).len() == 2);
    assert(("name"@).len() == 4);
    assert("id"@ != "name"@);
    assert(("color"@).len() == 5);
    assert("id"@ != "color"@);
    assert("name"@ != "color"@);
    assert(("icon"@).len() == 4);
    assert("id"@ != "icon"@);
    assert(("name"@)[0] == 'n');
    assert(("icon"@)[0] == 'i');
    assert("name"@ != "icon"@);
    assert("color"@ != "icon"@);
    assert(obj_get_from(o, "id"@, 0) == Some(o[0].1));
    assert(obj_get(o, "id"@) == Some(JVal::Str(v.id)));
    assert(obj_get_from(o, "name"@, 1) == Some(o[1].1));
    assert(obj_get_from(o, "name"@, 0) == obj_get_from(o, "name"@, 1));
    assert(obj_get(o, "name"@) == Some(JVal::Str(v.name)));
    assert(obj_get_from(o, "color"@, 2) == Some(o[2].1));
    assert(obj_get_from(o, "color"@, 1) == obj_get_from(o, "color"@, 2));
    assert(obj_get_from(o, "color"@, 0) == obj_get_from(o, "color"@, 1));
    assert(obj_get(o, "color"@) == Some(JVal::Str(v.color)));
    assert(obj_get_from(o, "icon"@, 3) == Some(o[3].1));
    assert(obj_get_from(o, "icon"@, 2) == obj_get_from(o, "icon"@, 3));
    assert(obj_get_from(o, "icon"@, 1) == obj_get_from(o, "icon"@, 2));
    assert(obj_get_from(o, "icon"@, 0) == obj_get_from(o, "icon"@, 1));
    assert(obj_get(o, "icon"@) == Some(JVal::Str(v.icon)));
    assert(spec_decode_element(spec_encode_element(v))->0 =~= v);
}

/// The canonical JSON elements of an array of strings.
pub open spec fn spec_encode_strs_arr(s: Seq<Seq<char>>) -> Seq<JVal> {
    Seq::new(s.len(), |i: int| JVal::Str(s[i]))
}

/// Decoding the canonical elements of an array of strings gives the
/// array back.
pub proof fn lemma_strs_arr_round_trip(s: Seq<Seq<char>>)
    ensures
        spec_decode_strs(spec_encode_strs_arr(s)) == Some(s),
{
    let e = spec_encode_strs_arr(s);
    assert forall|i: int| 0 <= i < e.len() implies #[trigger] jv_str(Some(e[i])) == Some(s[i]) by {
    }
    assert(spec_decode_strs(e) is Some);
    assert(spec_decode_strs(e)->0 =~= s);
}

/// The canonical JSON form of a challenge-mode summary.
pub open spec fn spec_encode_forgotten_hall(v: ForgottenHallV) -> JVal {
    JVal::Obj(
        seq![
            ("level"@, enc_u8(v.level)),
            ("chaos_id"@, enc_opt_str(v.chaos_id)),
            ("chaos_level"@, enc_u8(v.chaos_level)),
            ("chaos_star_count"@, enc_u8(v.chaos_star_count)),
        ],
    )
}

/// Decoding the canonical form of a challenge-mode summary gives it back.
pub proof fn lemma_forgotten_hall_round_trip(v: ForgottenHallV)
    ensures
        spec_decode_forgotten_hall(spec_encode_forgotten_hall(v)) == Some(v),
{
    reveal_strlit("level");
    reveal_strlit("chaos_id");
    reveal_strlit("chaos_level");
    reveal_strlit("chaos_star_count");
    let o = seq![
        ("level"@, enc_u8(v.level)),
        ("chaos_id"@, enc_opt_str(v.chaos_id)),
        ("chaos_level"@, enc_u8(v.chaos_level)),
        ("chaos_star_count"@, enc_u8(v.chaos_star_count)),
    ];
    assert(spec_encode_forgotten_hall(v) == JVal::Obj(o));
    assert(o[0] == ("level"@, enc_u8(v.level)));
    assert(o[1] == ("chaos_id"@, enc_opt_str(v.chaos_id)));
    assert(o[2] == ("chaos_level"@, enc_u8(v.chaos_level)));
    assert(o[3] == ("chaos_star_count"@, enc_u8(v.chaos_star_count)));
    assert(("level"@).len() == 5);
    assert(("chaos_id"@).len() == 8);
    assert("level"@ != "chaos_id"@);
    assert(("chaos_level"@).len() == 11);
    assert("level"@ != "chaos_level"@);
    assert("chaos_id"@ != "chaos_level"@);
    assert(("chaos_star_count"@).len() == 16);
    assert("level"@ != "chaos_star_count"@);
    assert("chaos_id"@ != "chaos_star_count"@);
    assert("chaos_level"@ != "chaos_star_count"@);
    assert(obj_get_from(o, "level"@, 0) == Some(o[0].1));
    assert(obj_get(o, "level"@) == Some(enc_u8(v.level)));
    assert(obj_get_from(o, "chaos_id"@, 1) == Some(o[1].1));
    assert(obj_get_from(o, "chaos_id"@, 0) == obj_get_from(o, "chaos_id"@, 1));
    assert(obj_get(o, "chaos_id"@) == Some(enc_opt_str(v.chaos_id)));
    assert(obj_get_from(o, "chaos_level"@, 2) == Some(o[2].1));
    assert(obj_get_from(o, "chaos_level"@, 1) == obj_get_from(o, "chaos_level"@, 2));
    assert(obj_get_from(o, "chaos_level"@, 0) == obj_get_from(o, "chaos_level"@, 1));
    assert(obj_get(o, "chaos_level"@) == Some(enc_u8(v.chaos_level)));
    assert(obj_get_from(o, "chaos_star_count"@, 3) == Some(o[3].1));
    assert(obj_get_from(o, "chaos_star_count"@, 2) == obj_get_from(o, "chaos_star_count"@, 3));
    assert(obj_get_from(o, "chaos_star_count"@, 1) == obj_get_from(o, "chaos_star_count"@, 2));
    assert(obj_get_from(o, "chaos_star_count"@, 0) == obj_get_from(o, "chaos_star_count"@, 1));
    assert(obj_get(o, "chaos_star_count"@) == Some(enc_u8(v.chaos_star_count)));
    lemma_u8_round(v.level);
    lemma_u8_round(v.chaos_level);
    lemma_u8_round(v.chaos_star_count);
    assert(spec_decode_forgotten_hall(spec_encode_forgotten_hall(v))->0 =~= v);
}

/// The canonical JSON form of the account's progress counters.
pub open spec fn spec_encode_space_info(v: SpaceInfoV) -> JVal {
    JVal::Obj(
        seq![
            ("memory_data"@, spec_encode_forgotten_hall(v.memory_data)),
            ("universe_level"@, enc_u8(v.universe_level)),
            ("avatar_count"@, enc_u16(v.avatar_count)),
            ("light_cone_count"@, enc_u16(v.light_cone_count)),
            ("relic_count"@, enc_u16(v.relic_count)),
            ("achievement_count"@, enc_u16(v.achievement_count)),
            ("book_count"@, enc_u16(v.book_count)),
            ("music_count"@, enc_u16(v.music_count)),
        ],
    )
}

/// Decoding the canonical form of the account's progress counters gives it back.
pub proof fn lemma_space_info_round_trip(v: SpaceInfoV)
    ensures
        spec_decode_space_info(spec_encode_space_info(v)) == Some(v),
{
    reveal_strlit("memory_data");
    reveal_strlit("universe_level");
    reveal_strlit("avatar_count");
    reveal_strlit("light_cone_count");
    reveal_strlit("relic_count");
    reveal_strlit("achievement_count");
    reveal_strlit("book_count");
    reveal_strlit("music_count");
    let o = seq![
        ("memory_data"@, spec_encode_forgotten_hall(v.memory_data)),
        ("universe_level"@, enc_u8(v.universe_level)),
        ("avatar_count"@, enc_u16(v.avatar_count)),
        ("light_cone_count"@, enc_u16(v.light_cone_count)),
        ("relic_count"@, enc_u16(v.relic_count)),
        ("achievement_count"@, enc_u16(v.achievement_count)),
        ("book_count"@, enc_u16(v.book_count)),
        ("music_count"@, enc_u16(v.music_count)),
    ];
    assert(spec_encode_space_info(v) == JVal::Obj(o));
    assert(o[0] == ("memory_data"@, spec_encode_forgotten_hall(v.memory_data)));
    assert(o[1] == ("universe_level"@, enc_u8(v.universe_level)));
    assert(o[2] == ("avatar_count"@, enc_u16(v.avatar_count)));
    assert(o[3] == ("light_cone_count"@, enc_u16(v.light_cone_count)));
    assert(o[4] == ("relic_count"@, enc_u16(v.relic_count)));
    assert(o[5] == ("achievement_count"@, enc_u16(v.achievement_count)));
    assert(o[6] == ("book_count"@, enc_u16(v.book_count)));
    assert(o[7] == ("music_count"@, enc_u16(v.music_count)));
    assert(("memory_data"@).len() == 11);
    assert(("universe_level"@).len() == 14);
    assert("memory_data"@ != "universe_level"@);
    assert(("avatar_count"@).len() == 12);
    assert("memory_data"@ != "avatar_count"@);
    assert("universe_level"@ != "avatar_count"@);
    assert(("light_cone_count"@).len() == 16);
    assert("memory_data"@ != "light_cone_count"@);
    assert("universe_level"@ != "light_cone_count"@);
    assert("avatar_count"@ != "light_cone_count"@);
    assert(("memory_data"@)[0] == 'm');
    assert(("relic_count"@)[0] == 'r');
    assert("memory_data"@ != "relic_count"@);
    assert(("relic_count"@).len() == 11);
    assert("universe_level"@ != "relic_count"@);
    assert("avatar_count"@ != "relic_count"@);
    assert("light_cone_count"@ != "relic_count"@);
    assert(("achievement_count"@).len() == 17);
    assert("memory_data"@ != "achievement_count"@);
    assert("universe_level"@ != "achievement_count"@);
    assert("avatar_count"@ != "achievement_count"@);
    assert("light_cone_count"@ != "achievement_count"@);
    assert("relic_count"@ != "achievement_count"@);
    assert(("book_count"@).len() == 10);
    assert("memory_data"@ != "book_count"@);
    assert("universe_level"@ != "book_count"@);
    assert("avatar_count"@ != "book_count"@);
    assert("light_cone_count"@ != "book_count"@);
    assert("relic_count"@ != "book_count"@);
    assert("achievement_count"@ != "book_count"@);
    assert(("memory_data"@)[1] == 'e');
    assert(("music_count"@)[1] == 'u');
    assert("memory_data"@ != "music_count"@);
    assert(("music_count"@).len() == 11);
    assert("universe_level"@ != "music_count"@);
    assert("avatar_count"@ != "music_count"@);
    assert("light_cone_count"@ != "music_count"@);
    assert(("relic_count"@)[0] == 'r');
    assert(("music_count"@)[0] == 'm');
    assert("relic_count"@ != "music_count"@);
    assert("achievement_count"@ != "music_count"@);
    assert("book_count"@ != "music_count"@);
    assert(obj_get_from(o, "memory_data"@, 0) == Some(o[0].1));
    assert(obj_get(o, "memory_data"@) == Some(spec_encode_forgotten_hall(v.memory_data)));
    assert(obj_get_from(o, "universe_level"@, 1) == Some(o[1].1));
    assert(obj_get_from(o, "universe_level"@, 0) == obj_get_from(o, "universe_level"@, 1));
    assert(obj_get(o, "universe_level"@) == Some(enc_u8(v.universe_level)));
    assert(obj_get_from(o, "avatar_count"@, 2) == Some(o[2].1));
    assert(obj_get_from(o, "avatar_count"@, 1) == obj_get_from(o, "avatar_count"@, 2));
    assert(obj_get_from(o, "avatar_count"@, 0) == obj_get_from(o, "avatar_count"@, 1));
    assert(obj_get(o, "avatar_count"@) == Some(enc_u16(v.avatar_count)));
    assert(obj_get_from(o, "light_cone_count"@, 3) == Some(o[3].1));
    assert(obj_get_from(o, "light_cone_count"@, 2) == obj_get_from(o, "light_cone_count"@, 3));
    assert(obj_get_from(o, "light_cone_count"@, 1) == obj_get_from(o, "light_cone_count"@, 2));
    assert(obj_get_from(o, "light_cone_count"@, 0) == obj_get_from(o, "light_cone_count"@, 1));
    assert(obj_get(o, "light_cone_count"@) == Some(enc_u16(v.light_cone_count)));
    assert(obj_get_from(o, "relic_count"@, 4) == Some(o[4].1));
    assert(obj_get_from(o, "relic_count"@, 3) == obj_get_from(o, "relic_count"@, 4));
    assert(obj_get_from(o, "relic_count"@, 2) == obj_get_from(o, "relic_count"@, 3));
    assert(obj_get_from(o, "relic_count"@, 1) == obj_get_from(o, "relic_count"@, 2));
    assert(obj_get_from(o, "relic_count"@, 0) == obj_get_from(o, "relic_count"@, 1));
    assert(obj_get(o, "relic_count"@) == Some(enc_u16(v.relic_count)));
    assert(obj_get_from(o, "achievement_count"@, 5) == Some(o[5].1));
    assert(obj_get_from(o, "achievement_count"@, 4) == obj_get_from(o, "achievement_count"@, 5));
    assert(obj_get_from(o, "achievement_count"@, 3) == obj_get_from(o, "achievement_count"@, 4));
    assert(obj_get_from(o, "achievement_count"@, 2) == obj_get_from(o, "achievement_count"@, 3));
    assert(obj_get_from(o, "achievement_count"@, 1) == obj_get_from(o, "achievement_count"@, 2));
    assert(obj_get_from(o, "achievement_count"@, 0) == obj_get_from(o, "achievement_count"@, 1));
    assert(obj_get(o, "achievement_count"@) == Some(enc_u16(v.achievement_count)));
    assert(obj_get_from(o, "book_count"@, 6) == Some(o[6].1));
    assert(obj_get_from(o, "book_count"@, 5) == obj_get_from(o, "book_count"@, 6));
    assert(obj_get_from(o, "book_count"@, 4) == obj_get_from(o, "book_count"@, 5));
    assert(obj_get_from(o, "book_count"@, 3) == obj_get_from(o, "book_count"@, 4));
    assert(obj_get_from(o, "book_count"@, 2) == obj_get_from(o, "book_count"@, 3));
    assert(obj_get_from(o, "book_count"@, 1) == obj_get_from(o, "book_count"@, 2));
    assert(obj_get_from(o, "book_count"@, 0) == obj_get_from(o, "book_count"@, 1));
    assert(obj_get(o, "book_count"@) == Some(enc_u16(v.book_count)));
    assert(obj_get_from(o, "music_count"@, 7) == Some(o[7].1));
    assert(obj_get_from(o, "music_count"@, 6) == obj_get_from(o, "music_count"@, 7));
    assert(obj_get_from(o, "music_count"@, 5) == obj_get_from(o, "music_count"@, 6));
    assert(obj_get_from(o, "music_count"@, 4) == obj_get_from(o, "music_count"@, 5));
    assert(obj_get_from(o, "music_count"@, 3) == obj_get_from(o, "music_count"@, 4));
    assert(obj_get_from(o, "music_count"@, 2) == obj_get_from(o, "music_count"@, 3));
    assert(obj_get_from(o, "music_count"@, 1) == obj_get_from(o, "music_count"@, 2));
    assert(obj_get_from(o, "music_count"@, 0) == obj_get_from(o, "music_count"@, 1));
    assert(obj_get(o, "music_count"@) == Some(enc_u16(v.music_count)));
    lemma_forgotten_hall_round_trip(v.memory_data);
    lemma_u8_round(v.universe_level);
    lemma_u16_round(v.avatar_count);
    lemma_u16_round(v.light_cone_count);
    lemma_u16_round(v.relic_count);
    lemma_u16_round(v.achievement_count);
    lemma_u16_round(v.book_count);
    lemma_u16_round(v.music_count);
    assert(spec_decode_space_info(spec_encode_space_info(v))->0 =~= v);
}

/// The canonical JSON form of the player's record.
pub open spec fn spec_encode_player(v: PlayerV) -> JVal {
    JVal::Obj(
        seq![
            ("uid"@, JVal::Str(v.uid)),
            ("nickname"@, JVal::Str(v.name)),
            ("level"@, enc_u8(v.level)),
            ("world_level"@, enc_u8(v.world_level)),
            ("friend_count"@, enc_u8(v.friend_count)),
            ("avatar"@, spec_encode_avatar(v.avatar)),
            ("signature"@, JVal::Str(v.signature)),
            ("is_display"@, JVal::Bool(v.is_display)),
            ("space_info"@, spec_encode_space_info(v.space_info)),
        ],
    )
}

/// Decoding the canonical form of the player's record gives it back.
pub proof fn lemma_player_round_trip(v: PlayerV)
    ensures
        spec_decode_player(spec_encode_player(v)) == Some(v),
{
    reveal_strlit("uid");
    reveal_strlit("nickname");
    reveal_strlit("level");
    reveal_strlit("world_level");
    reveal_strlit("friend_count");
    reveal_strlit("avatar");
    reveal_strlit("signature");
    reveal_strlit("is_display");
    reveal_strlit("space_info");
    let o = seq![
        ("uid"@, JVal::Str(v.uid)),
        ("nickname"@, JVal::Str(v.name)),
        ("level"@, enc_u8(v.level)),
        ("world_level"@, enc_u8(v.world_level)),
        ("friend_count"@, enc_u8(v.friend_count)),
        ("avatar"@, spec_encode_avatar(v.avatar)),
        ("signature"@, JVal::Str(v.signature)),
        ("is_display"@, JVal::Bool(v.is_display)),
        ("space_info"@, spec_encode_space_info(v.space_info)),
    ];
    assert(spec_encode_player(v) == JVal::Obj(o));
    assert(o[0] == ("uid"@, JVal::Str(v.uid)));
    assert(o[1] == ("nickname"@, JVal::Str(v.name)));
    assert(o[2] == ("level"@, enc_u8(v.level)));
    assert(o[3] == ("world_level"@, enc_u8(v.world_level)));
    assert(o[4] == ("friend_count"@, enc_u8(v.friend_count)));
    assert(o[5] == ("avatar"@, spec_encode_avatar(v.avatar)));
    assert(o[6] == ("signature"@, JVal::Str(v.signature)));
    assert(o[7] == ("is_display"@, JVal::Bool(v.is_display)));
    assert(o[8] == ("space_info"@, spec_encode_space_info(v.space_info)));
    assert(("uid"@).len() == 3);
    assert(("nickname"@).len() == 8);
    assert("uid"@ != "nickname"@);
    assert(("level"@).len() == 5);
    assert("uid"@ != "level"@);
    assert("nickname"@ != "level"@);
    assert(("world_level"@).len() == 11);
    assert("uid"@ != "world_level"@);
    assert("nickname"@ != "world_level"@);
    assert("level"@ != "world_level"@);
    assert(("friend_count"@).len() == 12);
    assert("uid"@ != "friend_count"@);
    assert("nickname"@ != "friend_count"@);
    assert("level"@ != "friend_count"@);
    assert("world_level"@ != "friend_count"@);
    assert(("avatar"@).len() == 6);
    assert("uid"@ != "avatar"@);
    assert("nickname"@ != "avatar"@);
    assert("level"@ != "avatar"@);
    assert("world_level"@ != "avatar"@);
    assert("friend_count"@ != "avatar"@);
    assert(("signature"@).len() == 9);
    assert("uid"@ != "signature"@);
    assert("nickname"@ != "signature"@);
    assert("level"@ != "signature"@);
    assert("world_level"@ != "signature"@);
    assert("friend_count"@ != "signature"@);
    assert("avatar"@ != "signature"@);
    assert(("is_display"@).len() == 10);
    assert("uid"@ != "is_display"@);
    assert("nickname"@ != "is_display"@);
    assert("level"@ != "is_display"@);
    assert("world_level"@ != "is_display"@);
    assert("friend_count"@ != "is_display"@);
    assert("avatar"@ != "is_display"@);
    assert("signature"@ != "is_display"@);
    assert(("space_info"@).len() == 10);
    assert("uid"@ != "space_info"@);
    assert("nickname"@ != "space_info"@);
    assert("level"@ != "space_info"@);
    assert("world_level"@ != "space_info"@);
    assert("friend_count"@ != "space_info"@);
    assert("avatar"@ != "space_info"@);
    assert("signature"@ != "space_info"@);
    assert(("is_display"@)[0] == 'i');
    assert(("space_info"@)[0] == 's');
    assert("is_display"@ != "space_info"@);
    assert(obj_get_from(o, "uid"@, 0) == Some(o[0].1));
    assert(obj_get(o, "uid"@) == Some(JVal::Str(v.uid)));
    assert(obj_get_from(o, "nickname"@, 1) == Some(o[1].1));
    assert(obj_get_from(o, "nickname"@, 0) == obj_get_from(o, "nickname"@, 1));
    assert(obj_get(o, "nickname"@) == Some(JVal::Str(v.name)));
    assert(obj_get_from(o, "level"@, 2) == Some(o[2].1));
    assert(obj_get_from(o, "level"@, 1) == obj_get_from(o, "level"@, 2));
    assert(obj_get_from(o, "level"@, 0) == obj_get_from(o, "level"@, 1));
    assert(obj_get(o, "level"@) == Some(enc_u8(v.level)));
    assert(obj_get_from(o, "world_level"@, 3) == Some(o[3].1));
    assert(obj_get_from(o, "world_level"@, 2) == obj_get_from(o, "world_level"@, 3));
    assert(obj_get_from(o, "world_level"@, 1) == obj_get_from(o, "world_level"@, 2));
    assert(obj_get_from(o, "world_level"@, 0) == obj_get_from(o, "world_level"@, 1));
    assert(obj_get(o, "world_level"@) == Some(enc_u8(v.world_level)));
    assert(obj_get_from(o, "friend_count"@, 4) == Some(o[4].1));
    assert(obj_get_from(o, "friend_count"@, 3) == obj_get_from(o, "friend_count"@, 4));
    assert(obj_get_from(o, "friend_count"@, 2) == obj_get_from(o, "friend_count"@, 3));
    assert(obj_get_from(o, "friend_count"@, 1) == obj_get_from(o, "friend_count"@, 2));
    assert(obj_get_from(o, "friend_count"@, 0) == obj_get_from(o, "friend_count"@, 1));
    assert(obj_get(o, "friend_count"@) == Some(enc_u8(v.friend_count)));
    assert(obj_get_from(o, "avatar"@, 5) == Some(o[5].1));
    assert(obj_get_from(o, "avatar"@, 4) == obj_get_from(o, "avatar"@, 5));
    assert(obj_get_from(o, "avatar"@, 3) == obj_get_from(o, "avatar"@, 4));
    assert(obj_get_from(o, "avatar"@, 2) == obj_get_from(o, "avatar"@, 3));
    assert(obj_get_from(o, "avatar"@, 1) == obj_get_from(o, "avatar"@, 2));
    assert(obj_get_from(o, "avatar"@, 0) == obj_get_from(o, "avatar"@, 1));
    assert(obj_get(o, "avatar"@) == Some(spec_encode_avatar(v.avatar)));
    assert(obj_get_from(o, "signature"@, 6) == Some(o[6].1));
    assert(obj_get_from(o, "signature"@, 5) == obj_get_from(o, "signature"@, 6));
    assert(obj_get_from(o, "signature"@, 4) == obj_get_from(o, "signature"@, 5));
    assert(obj_get_from(o, "signature"@, 3) == obj_get_from(o, "signature"@, 4));
    assert(obj_get_from(o, "signature"@, 2) == obj_get_from(o, "signature"@, 3));
    assert(obj_get_from(o, "signature"@, 1) == obj_get_from(o, "signature"@, 2));
    assert(obj_get_from(o, "signature"@, 0) == obj_get_from(o, "signature"@, 1));
    assert(obj_get(o, "signature"@) == Some(JVal::Str(v.signature)));
    assert(obj_get_from(o, "is_display"@, 7) == Some(o[7].1));
    assert(obj_get_from(o, "is_display"@, 6) == obj_get_from(o, "is_display"@, 7));
    assert(obj_get_from(o, "is_display"@, 5) == obj_get_from(o, "is_display"@, 6));
    assert(obj_get_from(o, "is_display"@, 4) == obj_get_from(o, "is_display"@, 5));
    assert(obj_get_from(o, "is_display"@, 3) == obj_get_from(o, "is_display"@, 4));
    assert(obj_get_from(o, "is_display"@, 2) == obj_get_from(o, "is_display"@, 3));
    assert(obj_get_from(o, "is_display"@, 1) == obj_get_from(o, "is_display"@, 2));
    assert(obj_get_from(o, "is_display"@, 0) == obj_get_from(o, "is_display"@, 1));
    assert(obj_get(o, "is_display"@) == Some(JVal::Bool(v.is_display)));
    assert(obj_get_from(o, "space_info"@, 8) == Some(o[8].1));
    assert(obj_get_from(o, "space_info"@, 7) == obj_get_from(o, "space_info"@, 8));
    assert(obj_get_from(o, "space_info"@, 6) == obj_get_from(o, "space_info"@, 7));
    assert(obj_get_from(o, "space_info"@, 5) == obj_get_from(o, "space_info"@, 6));
    assert(obj_get_from(o, "space_info"@, 4) == obj_get_from(o, "space_info"@, 5));
    assert(obj_get_from(o, "space_info"@, 3) == obj_get_from(o, "space_info"@, 4));
    assert(obj_get_from(o, "space_info"@, 2) == obj_get_from(o, "space_info"@, 3));
    assert(obj_get_from(o, "space_info"@, 1) == obj_get_from(o, "space_info"@, 2));
    assert(obj_get_from(o, "space_info"@, 0) == obj_get_from(o, "space_info"@, 1));
    assert(obj_get(o, "space_info"@) == Some(spec_encode_space_info(v.space_info)));
    lemma_u8_round(v.level);
    lemma_u8_round(v.world_level);
    lemma_u8_round(v.friend_count);
    lemma_avatar_round_trip(v.avatar);
    lemma_space_info_round_trip(v.space_info);
    assert(spec_decode_player(spec_encode_player(v))->0 =~= v);
}

/// The canonical JSON form of a base stat entry.
pub open spec fn spec_encode_attribute(v: AttributeV) -> JVal {
    JVal::Obj(
        seq![
            ("field"@, JVal::Str(v.field)),
            ("name"@, JVal::Str(v.name)),
            ("icon"@, JVal::Str(v.icon)),
            ("value"@, JVal::Num(v.value)),
            ("display"@, JVal::Str(v.displayed_value)),
            ("percent"@, JVal::Bool(v.is_percent)),
        ],
    )
}

/// Decoding the canonical form of a base stat entry gives it back.
pub proof fn lemma_attribute_round_trip(v: AttributeV)
    ensures
        spec_decode_attribute(spec_encode_attribute(v)) == Some(v),
{
    reveal_strlit("field");
    reveal_strlit("name");
    reveal_strlit("icon");
    reveal_strlit("value");
    reveal_strlit("display");
    reveal_strlit("percent");
    let o = seq![
        ("field"@, JVal::Str(v.field)),
        ("name"@, JVal::Str(v.name)),
        ("icon"@, JVal::Str(v.icon)),
        ("value"@, JVal::Num(v.value)),
        ("display"@, JVal::Str(v.displayed_value)),
        ("percent"@, JVal::Bool(v.is_percent)),
    ];
    assert(spec_encode_attribute(v) == JVal::Obj(o));
    assert(o[0] == ("field"@, JVal::Str(v.field)));
    assert(o[1] == ("name"@, JVal::Str(v.name)));
    assert(o[2] == ("icon"@, JVal::Str(v.icon)));
    assert(o[3] == ("value"@, JVal::Num(v.value)));
    assert(o[4] == ("display"@, JVal::Str(v.displayed_value)));
    assert(o[5] == ("percent"@, JVal::Bool(v.is_percent)));
    assert(("field"@).len() == 5);
    assert(("name"@).len() == 4);
    assert("field"@ != "name"@);
    assert(("icon"@).len() == 4);
    assert("field"@ != "icon"@);
    assert(("name"@)[0] == 'n');
    assert(("icon"@)[0] == 'i');
    assert("name"@ != "icon"@);
    assert(("field"@)[0] == 'f');
    assert(("value"@)[0] == 'v');
    assert("field"@ != "value"@);
    assert(("value"@).len() == 5);
    assert("name"@ != "value"@);
    assert("icon"@ != "value"@);
    assert(("display"@).len() == 7);
    assert("field"@ != "display"@);
    assert("name"@ != "display"@);
    assert("icon"@ != "display"@);
    assert("value"@ != "display"@);
    assert(("percent"@).len() == 7);
    assert("field"@ != "percent"@);
    assert("name"@ != "percent"@);
    assert("icon"@ != "percent"@);
    assert("value"@ != "percent"@);
    assert(("display"@)[0] == 'd');
    assert(("percent"@)[0] == 'p');
    assert("display"@ != "percent"@);
    assert(obj_get_from(o, "field"@, 0) == Some(o[0].1));
    assert(obj_get(o, "field"@) == Some(JVal::Str(v.field)));
    assert(obj_get_from(o, "name"@, 1) == Some(o[1].1));
    assert(obj_get_from(o, "name"@, 0) == obj_get_from(o, "name"@, 1));
    assert(obj_get(o, "name"@) == Some(JVal::Str(v.name)));
    assert(obj_get_from(o, "icon"@, 2) == Some(o[2].1));
    assert(obj_get_from(o, "icon"@, 1) == obj_get_from(o, "icon"@, 2));
    assert(obj_get_from(o, "icon"@, 0) == obj_get_from(o, "icon"@, 1));
    assert(obj_get(o, "icon"@) == Some(JVal::Str(v.icon)));
    assert(obj_get_from(o, "value"@, 3) == Some(o[3].1));
    assert(obj_get_from(o, "value"@, 2) == obj_get_from(o, "value"@, 3));
    assert(obj_get_from(o, "value"@, 1) == obj_get_from(o, "value"@, 2));
    assert(obj_get_from(o, "value"@, 0) == obj_get_from(o, "value"@, 1));
    assert(obj_get(o, "value"@) == Some(JVal::Num(v.value)));
    assert(obj_get_from(o, "display"@, 4) == Some(o[4].1));
    assert(obj_get_from(o, "display"@, 3) == obj_get_from(o, "display"@, 4));
    assert(obj_get_from(o, "display"@, 2) == obj_get_from(o, "display"@, 3));
    assert(obj_get_from(o, "display"@, 1) == obj_get_from(o, "display"@, 2));
    assert(obj_get_from(o, "display"@, 0) == obj_get_from(o, "display"@, 1));
    assert(obj_get(o, "display"@) == Some(JVal::Str(v.displayed_value)));
    assert(obj_get_from(o, "percent"@, 5) == Some(o[5].1));
    assert(obj_get_from(o, "percent"@, 4) == obj_get_from(o, "percent"@, 5));
    assert(obj_get_from(o, "percent"@, 3) == obj_get_from(o, "percent"@, 4));
    assert(obj_get_from(o, "percent"@, 2) == obj_get_from(o, "percent"@, 3));
    assert(obj_get_from(o, "percent"@, 1) == obj_get_from(o, "percent"@, 2));
    assert(obj_get_from(o, "percent"@, 0) == obj_get_from(o, "percent"@, 1));
    assert(obj_get(o, "percent"@) == Some(JVal::Bool(v.is_percent)));
    assert(spec_decode_attribute(spec_encode_attribute(v))->0 =~= v);
}

/// The canonical JSON elements of an array of base stat entries.
pub open spec fn spec_encode_attribute_arr(s: Seq<AttributeV>) -> Seq<JVal> {
    Seq::new(s.len(), |i: int| spec_encode_attribute(s[i]))
}

/// Decoding the canonical elements of an array of base stat entries gives the
/// array back.
pub proof fn lemma_attribute_arr_round_trip(s: Seq<AttributeV>)
    ensures
        spec_decode_attributes(spec_encode_attribute_arr(s)) == Some(s),
{
    let e = spec_encode_attribute_arr(s);
    assert forall|i: int| 0 <= i < e.len() implies #[trigger] spec_decode_attribute(e[i]) == Some(s[i]) by {
        lemma_attribute_round_trip(s[i]);
    }
    assert(spec_decode_attributes(e) is Some);
    assert(spec_decode_attributes(e)->0 =~= s);
}

/// The canonical JSON form of a computed combat stat entry.
pub open spec fn spec_encode_property(v: PropertyV) -> JVal {
    JVal::Obj(
        seq![
            ("type"@, JVal::Str(v.property_type)),
            ("field"@, JVal::Str(v.field)),
            ("name"@, JVal::Str(v.name)),
            ("icon"@, JVal::Str(v.icon)),
            ("value"@, JVal::Num(v.value)),
            ("display"@, JVal::Str(v.displayed_value)),
            ("percent"@, JVal::Bool(v.is_percent)),
        ],
    )
}

/// Decoding the canonical form of a computed combat stat entry gives it back.
pub proof fn lemma_property_round_trip(v: PropertyV)
    ensures
        spec_decode_property(spec_encode_property(v)) == Some(v),
{
    reveal_strlit("type");
    reveal_strlit("field");
    reveal_strlit("name");
    reveal_strlit("icon");
    reveal_strlit("value");
    reveal_strlit("display");
    reveal_strlit("percent");
    let o = seq![
        ("type"@, JVal::Str(v.property_type)),
        ("field"@, JVal::Str(v.field)),
        ("name"@, JVal::Str(v.name)),
        ("icon"@, JVal::Str(v.icon)),
        ("value"@, JVal::Num(v.value)),
        ("display"@, JVal::Str(v.displayed_value)),
        ("percent"@, JVal::Bool(v.is_percent)),
    ];
    assert(spec_encode_property(v) == JVal::Obj(o));
    assert(o[0] == ("type"@, JVal::Str(v.property_type)));
    assert(o[1] == ("field"@, JVal::Str(v.field)));
    assert(o[2] == ("name"@, JVal::Str(v.name)));
    assert(o[3] == ("icon"@, JVal::Str(v.icon)));
    assert(o[4] == ("value"@, JVal::Num(v.value)));
    assert(o[5] == ("display"@, JVal::Str(v.displayed_value)));
    assert(o[6] == ("percent"@, JVal::Bool(v.is_percent)));
    assert(("type"@).len() == 4);
    assert(("field"@).len() == 5);
    assert("type"@ != "field"@);
    assert(("type"@)[0] == 't');
    assert(("name"@)[0] == 'n');
    assert("type"@ != "name"@);
    assert(("name"@).len() == 4);
    assert("field"@ != "name"@);
    assert(("type"@)[0] == 't');
    assert(("icon"@)[0] == 'i');
    assert("type"@ != "icon"@);
    assert(("icon"@).len() == 4);
    assert("field"@ != "icon"@);
    assert(("name"@)[0] == 'n');
    assert(("icon"@)[0] == 'i');
    assert("name"@ != "icon"@);
    assert(("value"@).len() == 5);
    assert("type"@ != "value"@);
    assert(("field"@)[0] == 'f');
    assert(("value"@)[0] == 'v');
    assert("field"@ != "value"@);
    assert("name"@ != "value"@);
    assert("icon"@ != "value"@);
    assert(("display"@).len() == 7);
    assert("type"@ != "display"@);
    assert("field"@ != "display"@);
    assert("name"@ != "display"@);
    assert("icon"@ != "display"@);
    assert("value"@ != "display"@);
    assert(("percent"@).len() == 7);
    assert("type"@ != "percent"@);
    assert("field"@ != "percent"@);
    assert("name"@ != "percent"@);
    assert("icon"@ != "percent"@);
    assert("value"@ != "percent"@);
    assert(("display"@)[0] == 'd');
    assert(("percent"@)[0] == 'p');
    assert("display"@ != "percent"@);
    assert(obj_get_from(o, "type"@, 0) == Some(o[0].1));
    assert(obj_get(o, "type"@) == Some(JVal::Str(v.property_type)));
    assert(obj_get_from(o, "field"@, 1) == Some(o[1].1));
    assert(obj_get_from(o, "field"@, 0) == obj_get_from(o, "field"@, 1));
    assert(obj_get(o, "field"@) == Some(JVal::Str(v.field)));
    assert(obj_get_from(o, "name"@, 2) == Some(o[2].1));
    assert(obj_get_from(o, "name"@, 1) == obj_get_from(o, "name"@, 2));
    assert(obj_get_from(o, "name"@, 0) == obj_get_from(o, "name"@, 1));
    assert(obj_get(o, "name"@) == Some(JVal::Str(v.name)));
    assert(obj_get_from(o, "icon"@, 3) == Some(o[3].1));
    assert(obj_get_from(o, "icon"@, 2) == obj_get_from(o, "icon"@, 3));
    assert(obj_get_from(o, "icon"@, 1) == obj_get_from(o, "icon"@, 2));
    assert(obj_get_from(o, "icon"@, 0) == obj_get_from(o, "icon"@, 1));
    assert(obj_get(o, "icon"@) == Some(JVal::Str(v.icon)));
    assert(obj_get_from(o, "value"@, 4) == Some(o[4].1));
    assert(obj_get_from(o, "value"@, 3) == obj_get_from(o, "value"@, 4));
    assert(obj_get_from(o, "value"@, 2) == obj_get_from(o, "value"@, 3));
    assert(obj_get_from(o, "value"@, 1) == obj_get_from(o, "value"@, 2));
    assert(obj_get_from(o, "value"@, 0) == obj_get_from(o, "value"@, 1));
    assert(obj_get(o, "value"@) == Some(JVal::Num(v.value)));
    assert(obj_get_from(o, "display"@, 5) == Some(o[5].1));
    assert(obj_get_from(o, "display"@, 4) == obj_get_from(o, "display"@, 5));
    assert(obj_get_from(o, "display"@, 3) == obj_get_from(o, "display"@, 4));
    assert(obj_get_from(o, "display"@, 2) == obj_get_from(o, "display"@, 3));
    assert(obj_get_from(o, "display"@, 1) == obj_get_from(o, "display"@, 2));
    assert(obj_get_from(o, "display"@, 0) == obj_get_from(o, "display"@, 1));
    assert(obj_get(o, "display"@) == Some(JVal::Str(v.displayed_value)));
    assert(obj_get_from(o, "percent"@, 6) == Some(o[6].1));
    assert(obj_get_from(o, "percent"@, 5) == obj_get_from(o, "percent"@, 6));
    assert(obj_get_from(o, "percent"@, 4) == obj_get_from(o, "percent"@, 5));
    assert(obj_get_from(o, "percent"@, 3) == obj_get_from(o, "percent"@, 4));
    assert(obj_get_from(o, "percent"@, 2) == obj_get_from(o, "percent"@, 3));
    assert(obj_get_from(o, "percent"@, 1) == obj_get_from(o, "percent"@, 2));
    assert(obj_get_from(o, "percent"@, 0) == obj_get_from(o, "percent"@, 1));
    assert(obj_get(o, "percent"@) == Some(JVal::Bool(v.is_percent)));
    assert(spec_decode_property(spec_encode_property(v))->0 =~= v);
}

/// The canonical JSON form of a primary stat roll: the stat fields stand
/// directly in the object.
pub open spec fn spec_encode_main_affix(m: MainAffixV) -> JVal {
    spec_encode_property(m.property)
}

/// Decoding the canonical form of a primary stat roll gives it back.
pub proof fn lemma_main_affix_round_trip(m: MainAffixV)
    ensures
        spec_decode_main_affix(spec_encode_main_affix(m)) == Some(m),
{
    lemma_property_round_trip(m.property);
    assert(spec_decode_main_affix(spec_encode_main_affix(m))->0 =~= m);
}

/// The canonical JSON elements of an array of computed combat stat entries.
pub open spec fn spec_encode_property_arr(s: Seq<PropertyV>) -> Seq<JVal> {
    Seq::new(s.len(), |i: int| spec_encode_property(s[i]))
}

/// Decoding the canonical elements of an array of computed combat stat entries gives the
/// array back.
pub proof fn lemma_property_arr_round_trip(s: Seq<PropertyV>)
    ensures
        spec_decode_properties(spec_encode_property_arr(s)) == Some(s),
{
    let e = spec_encode_property_arr(s);
    assert forall|i: int| 0 <= i < e.len() implies #[trigger] spec_decode_property(e[i]) == Some(s[i]) by {
        lemma_property_round_trip(s[i]);
    }
    assert(spec_decode_properties(e) is Some);
    assert(spec_decode_properties(e)->0 =~= s);
}

/// The canonical JSON form of a secondary stat roll.
pub open spec fn spec_encode_sub_affix(v: SubAffixV) -> JVal {
    JVal::Obj(
        seq![
            ("type"@, JVal::Str(v.property.property_type)),
            ("field"@, JVal::Str(v.property.field)),
            ("name"@, JVal::Str(v.property.name)),
            ("icon"@, JVal::Str(v.property.icon)),
            ("value"@, JVal::Num(v.property.value)),
            ("display"@, JVal::Str(v.property.displayed_value)),
            ("percent"@, JVal::Bool(v.property.is_percent)),
            ("count"@, enc_u8(v.count)),
            ("step"@, enc_u8(v.step)),
        ],
    )
}

/// Decoding the canonical form of a secondary stat roll gives it back.
pub proof fn lemma_sub_affix_round_trip(v: SubAffixV)
    ensures
        spec_decode_sub_affix(spec_encode_sub_affix(v)) == Some(v),
{
    reveal_strlit("type");
    reveal_strlit("field");
    reveal_strlit("name");
    reveal_strlit("icon");
    reveal_strlit("value");
    reveal_strlit("display");
    reveal_strlit("percent");
    reveal_strlit("count");
    reveal_strlit("step");
    let o = seq![
        ("type"@, JVal::Str(v.property.property_type)),
        ("field"@, JVal::Str(v.property.field)),
        ("name"@, JVal::Str(v.property.name)),
        ("icon"@, JVal::Str(v.property.icon)),
        ("value"@, JVal::Num(v.property.value)),
        ("display"@, JVal::Str(v.property.displayed_value)),
        ("percent"@, JVal::Bool(v.property.is_percent)),
        ("count"@, enc_u8(v.count)),
        ("step"@, enc_u8(v.step)),
    ];
    assert(spec_encode_sub_affix(v) == JVal::Obj(o));
    assert(o[0] == ("type"@, JVal::Str(v.property.property_type)));
    assert(o[1] == ("field"@, JVal::Str(v.property.field)));
    assert(o[2] == ("name"@, JVal::Str(v.property.name)));
    assert(o[3] == ("icon"@, JVal::Str(v.property.icon)));
    assert(o[4] == ("value"@, JVal::Num(v.property.value)));
    assert(o[5] == ("display"@, JVal::Str(v.property.displayed_value)));
    assert(o[6] == ("percent"@, JVal::Bool(v.property.is_percent)));
    assert(o[7] == ("count"@, enc_u8(v.count)));
    assert(o[8] == ("step"@, enc_u8(v.step)));
    assert(("type"@).len() == 4);
    assert(("field"@).len() == 5);
    assert("type"@ != "field"@);
    assert(("type"@)[0] == 't');
    assert(("name"@)[0] == 'n');
    assert("type"@ != "name"@);
    assert(("name"@).len() == 4);
    assert("field"@ != "name"@);
    assert(("type"@)[0] == 't');
    assert(("icon"@)[0] == 'i');
    assert("type"@ != "icon"@);
    assert(("icon"@).len() == 4);
    assert("field"@ != "icon"@);
    assert(("name"@)[0] == 'n');
    assert(("icon"@)[0] == 'i');
    assert("name"@ != "icon"@);
    assert(("value"@).len() == 5);
    assert("type"@ != "value"@);
    assert(("field"@)[0] == 'f');
    assert(("value"@)[0] == 'v');
    assert("field"@ != "value"@);
    assert("name"@ != "value"@);
    assert("icon"@ != "value"@);
    assert(("display"@).len() == 7);
    assert("type"@ != "display"@);
    assert("field"@ != "display"@);
    assert("name"@ != "display"@);
    assert("icon"@ != "display"@);
    assert("value"@ != "display"@);
    assert(("percent"@).len() == 7);
    assert("type"@ != "percent"@);
    assert("field"@ != "percent"@);
    assert("name"@ != "percent"@);
    assert("icon"@ != "percent"@);
    assert("value"@ != "percent"@);
    assert(("display"@)[0] == 'd');
    assert(("percent"@)[0] == 'p');
    assert("display"@ != "percent"@);
    assert(("count"@).len() == 5);
    assert("type"@ != "count"@);
    assert(("field"@)[0] == 'f');
    assert(("count"@)[0] == 'c');
    assert("field"@ != "count"@);
    assert("name"@ != "count"@);
    assert("icon"@ != "count"@);
    assert(("value"@)[0] == 'v');
    assert(("count"@)[0] == 'c');
    assert("value"@ != "count"@);
    assert("display"@ != "count"@);
    assert("percent"@ != "count"@);
    assert(("type"@)[0] == 't');
    assert(("step"@)[0] == 's');
    assert("type"@ != "step"@);
    assert(("step"@).len() == 4);
    assert("field"@ != "step"@);
    assert(("name"@)[0] == 'n');
    assert(("step"@)[0] == 's');
    assert("name"@ != "step"@);
    assert(("icon"@)[0] == 'i');
    assert(("step"@)[0] == 's');
    assert("icon"@ != "step"@);
    assert("value"@ != "step"@);
    assert("display"@ != "step"@);
    assert("percent"@ != "step"@);
    assert("count"@ != "step"@);
    assert(obj_get_from(o, "type"@, 0) == Some(o[0].1));
    assert(obj_get(o, "type"@) == Some(JVal::Str(v.property.property_type)));
    assert(obj_get_from(o, "field"@, 1) == Some(o[1].1));
    assert(obj_get_from(o, "field"@, 0) == obj_get_from(o, "field"@, 1));
    assert(obj_get(o, "field"@) == Some(JVal::Str(v.property.field)));
    assert(obj_get_from(o, "name"@, 2) == Some(o[2].1));
    assert(obj_get_from(o, "name"@, 1) == obj_get_from(o, "name"@, 2));
    assert(obj_get_from(o, "name"@, 0) == obj_get_from(o, "name"@, 1));
    assert(obj_get(o, "name"@) == Some(JVal::Str(v.property.name)));
    assert(obj_get_from(o, "icon"@, 3) == Some(o[3].1));
    assert(obj_get_from(o, "icon"@, 2) == obj_get_from(o, "icon"@, 3));
    assert(obj_get_from(o, "icon"@, 1) == obj_get_from(o, "icon"@, 2));
    assert(obj_get_from(o, "icon"@, 0) == obj_get_from(o, "icon"@, 1));
    assert(obj_get(o, "icon"@) == Some(JVal::Str(v.property.icon)));
    assert(obj_get_from(o, "value"@, 4) == Some(o[4].1));
    assert(obj_get_from(o, "value"@, 3) == obj_get_from(o, "value"@, 4));
    assert(obj_get_from(o, "value"@, 2) == obj_get_from(o, "value"@, 3));
    assert(obj_get_from(o, "value"@, 1) == obj_get_from(o, "value"@, 2));
    assert(obj_get_from(o, "value"@, 0) == obj_get_from(o, "value"@, 1));
    assert(obj_get(o, "value"@) == Some(JVal::Num(v.property.value)));
    assert(obj_get_from(o, "display"@, 5) == Some(o[5].1));
    assert(obj_get_from(o, "display"@, 4) == obj_get_from(o, "display"@, 5));
    assert(obj_get_from(o, "display"@, 3) == obj_get_from(o, "display"@, 4));
    assert(obj_get_from(o, "display"@, 2) == obj_get_from(o, "display"@, 3));
    assert(obj_get_from(o, "display"@, 1) == obj_get_from(o, "display"@, 2));
    assert(obj_get_from(o, "display"@, 0) == obj_get_from(o, "display"@, 1));
    assert(obj_get(o, "display"@) == Some(JVal::Str(v.property.displayed_value)));
    assert(obj_get_from(o, "percent"@, 6) == Some(o[6].1));
    assert(obj_get_from(o, "percent"@, 5) == obj_get_from(o, "percent"@, 6));
    assert(obj_get_from(o, "percent"@, 4) == obj_get_from(o, "percent"@, 5));
    assert(obj_get_from(o, "percent"@, 3) == obj_get_from(o, "percent"@, 4));
    assert(obj_get_from(o, "percent"@, 2) == obj_get_from(o, "percent"@, 3));
    assert(obj_get_from(o, "percent"@, 1) == obj_get_from(o, "percent"@, 2));
    assert(obj_get_from(o, "percent"@, 0) == obj_get_from(o, "percent"@, 1));
    assert(obj_get(o, "percent"@) == Some(JVal::Bool(v.property.is_percent)));
    assert(obj_get_from(o, "count"@, 7) == Some(o[7].1));
    assert(obj_get_from(o, "count"@, 6) == obj_get_from(o, "count"@, 7));
    assert(obj_get_from(o, "count"@, 5) == obj_get_from(o, "count"@, 6));
    assert(obj_get_from(o, "count"@, 4) == obj_get_from(o, "count"@, 5));
    assert(obj_get_from(o, "count"@, 3) == obj_get_from(o, "count"@, 4));
    assert(obj_get_from(o, "count"@, 2) == obj_get_from(o, "count"@, 3));
    assert(obj_get_from(o, "count"@, 1) == obj_get_from(o, "count"@, 2));
    assert(obj_get_from(o, "count"@, 0) == obj_get_from(o, "count"@, 1));
    assert(obj_get(o, "count"@) == Some(enc_u8(v.count)));
    assert(obj_get_from(o, "step"@, 8) == Some(o[8].1));
    assert(obj_get_from(o, "step"@, 7) == obj_get_from(o, "step"@, 8));
    assert(obj_get_from(o, "step"@, 6) == obj_get_from(o, "step"@, 7));
    assert(obj_get_from(o, "step"@, 5) == obj_get_from(o, "step"@, 6));
    assert(obj_get_from(o, "step"@, 4) == obj_get_from(o, "step"@, 5));
    assert(obj_get_from(o, "step"@, 3) == obj_get_from(o, "step"@, 4));
    assert(obj_get_from(o, "step"@, 2) == obj_get_from(o, "step"@, 3));
    assert(obj_get_from(o, "step"@, 1) == obj_get_from(o, "step"@, 2));
    assert(obj_get_from(o, "step"@, 0) == obj_get_from(o, "step"@, 1));
    assert(obj_get(o, "step"@) == Some(enc_u8(v.step)));
    lemma_u8_round(v.count);
    lemma_u8_round(v.step);
    assert(spec_decode_sub_affix(spec_encode_sub_affix(v))->0 =~= v);
}

/// The canonical JSON elements of an array of secondary stat rolls.
pub open spec fn spec_encode_sub_affix_arr(s: Seq<SubAffixV>) -> Seq<JVal> {
    Seq::new(s.len(), |i: int| spec_encode_sub_affix(s[i]))
}

/// Decoding the canonical elements of an array of secondary stat rolls gives the
/// array back.
pub proof fn lemma_sub_affix_arr_round_trip(s: Seq<SubAffixV>)
    ensures
        spec_decode_sub_affixes(spec_encode_sub_affix_arr(s)) == Some(s),
{
    let e = spec_encode_sub_affix_arr(s);
    assert forall|i: int| 0 <= i < e.len() implies #[trigger] spec_decode_sub_affix(e[i]) == Some(s[i]) by {
        lemma_sub_affix_round_trip(s[i]);
    }
    assert(spec_decode_sub_affixes(e) is Some);
    assert(spec_decode_sub_affixes(e)->0 =~= s);
}

/// The canonical JSON form of a skill-tree node.
pub open spec fn spec_encode_trace_tree_node(v: TraceTreeNodeV) -> JVal {
    JVal::Obj(
        seq![
            ("id"@, JVal::Str(v.id)),
            ("level"@, enc_u8(v.level)),
            ("max_level"@, enc_u8(v.max_level)),
            ("icon"@, JVal::Str(v.icon)),
            ("anchor"@, JVal::Str(v.anchor)),
            ("parent"@, enc_opt_str(v.parent)),
        ],
    )
}

/// Decoding the canonical form of a skill-tree node gives it back.
pub proof fn lemma_trace_tree_node_round_trip(v: TraceTreeNodeV)
    ensures
        spec_decode_trace_tree_node(spec_encode_trace_tree_node(v)) == Some(v),
{
    reveal_strlit("id");
    reveal_strlit("level");
    reveal_strlit("max_level");
    reveal_strlit("icon");
    reveal_strlit("anchor");
    reveal_strlit("parent");
    let o = seq![
        ("id"@, JVal::Str(v.id)),
        ("level"@, enc_u8(v.level)),
        ("max_level"@, enc_u8(v.max_level)),
        ("icon"@, JVal::Str(v.icon)),
        ("anchor"@, JVal::Str(v.anchor)),
        ("parent"@, enc_opt_str(v.parent)),
    ];
    assert(spec_encode_trace_tree_node(v) == JVal::Obj(o));
    assert(o[0] == ("id"@, JVal::Str(v.id)));
    assert(o[1] == ("level"@, enc_u8(v.level)));
    assert(o[2] == ("max_level"@, enc_u8(v.max_level)));
    assert(o[3] == ("icon"@, JVal::Str(v.icon)));
    assert(o[4] == ("anchor"@, JVal::Str(v.anchor)));
    assert(o[5] == ("parent"@, enc_opt_str(v.parent)));
    assert(("id"@).len() == 2);
    assert(("level"@).len() == 5);
    assert("id"@ != "level"@);
    assert(("max_level"@).len() == 9);
    assert("id"@ != "max_level"@);
    assert("level"@ != "max_level"@);
    assert(("icon"@).len() == 4);
    assert("id"@ != "icon"@);
    assert("level"@ != "icon"@);
    assert("max_level"@ != "icon"@);
    assert(("anchor"@).len() == 6);
    assert("id"@ != "anchor"@);
    assert("level"@ != "anchor"@);
    assert("max_level"@ != "anchor"@);
    assert("icon"@ != "anchor"@);
    assert(("parent"@).len() == 6);
    assert("id"@ != "parent"@);
    assert("level"@ != "parent"@);
    assert("max_level"@ != "parent"@);
    assert("icon"@ != "parent"@);
    assert(("anchor"@)[0] == 'a');
    assert(("parent"@)[0] == 'p');
    assert("anchor"@ != "parent"@);
    assert(obj_get_from(o, "id"@, 0) == Some(o[0].1));
    assert(obj_get(o, "id"@) == Some(JVal::Str(v.id)));
    assert(obj_get_from(o, "level"@, 1) == Some(o[1].1));
    assert(obj_get_from(o, "level"@, 0) == obj_get_from(o, "level"@, 1));
    assert(obj_get(o, "level"@) == Some(enc_u8(v.level)));
    assert(obj_get_from(o, "max_level"@, 2) == Some(o[2].1));
    assert(obj_get_from(o, "max_level"@, 1) == obj_get_from(o, "max_level"@, 2));
    assert(obj_get_from(o, "max_level"@, 0) == obj_get_from(o, "max_level"@, 1));
    assert(obj_get(o, "max_level"@) == Some(enc_u8(v.max_level)));
    assert(obj_get_from(o, "icon"@, 3) == Some(o[3].1));
    assert(obj_get_from(o, "icon"@, 2) == obj_get_from(o, "icon"@, 3));
    assert(obj_get_from(o, "icon"@, 1) == obj_get_from(o, "icon"@, 2));
    assert(obj_get_from(o, "icon"@, 0) == obj_get_from(o, "icon"@, 1));
    assert(obj_get(o, "icon"@) == Some(JVal::Str(v.icon)));
    assert(obj_get_from(o, "anchor"@, 4) == Some(o[4].1));
    assert(obj_get_from(o, "anchor"@, 3) == obj_get_from(o, "anchor"@, 4));
    assert(obj_get_from(o, "anchor"@, 2) == obj_get_from(o, "anchor"@, 3));
    assert(obj_get_from(o, "anchor"@, 1) == obj_get_from(o, "anchor"@, 2));
    assert(obj_get_from(o, "anchor"@, 0) == obj_get_from(o, "anchor"@, 1));
    assert(obj_get(o, "anchor"@) == Some(JVal::Str(v.anchor)));
    assert(obj_get_from(o, "parent"@, 5) == Some(o[5].1));
    assert(obj_get_from(o, "parent"@, 4) == obj_get_from(o, "parent"@, 5));
    assert(obj_get_from(o, "parent"@, 3) == obj_get_from(o, "parent"@, 4));
    assert(obj_get_from(o, "parent"@, 2) == obj_get_from(o, "parent"@, 3));
    assert(obj_get_from(o, "parent"@, 1) == obj_get_from(o, "parent"@, 2));
    assert(obj_get_from(o, "parent"@, 0) == obj_get_from(o, "parent"@, 1));
    assert(obj_get(o, "parent"@) == Some(enc_opt_str(v.parent)));
    lemma_u8_round(v.level);
    lemma_u8_round(v.max_level);
    assert(spec_decode_trace_tree_node(spec_encode_trace_tree_node(v))->0 =~= v);
}

/// The canonical JSON elements of an array of skill-tree nodes.
pub open spec fn spec_encode_trace_tree_node_arr(s: Seq<TraceTreeNodeV>) -> Seq<JVal> {
    Seq::new(s.len(), |i: int| spec_encode_trace_tree_node(s[i]))
}

/// Decoding the canonical elements of an array of skill-tree nodes gives the
/// array back.
pub proof fn lemma_trace_tree_node_arr_round_trip(s: Seq<TraceTreeNodeV>)
    ensures
        spec_decode_trace_tree(spec_encode_trace_tree_node_arr(s)) == Some(s),
{
    let e = spec_encode_trace_tree_node_arr(s);
    assert forall|i: int| 0 <= i < e.len() implies #[trigger] spec_decode_trace_tree_node(e[i]) == Some(s[i]) by {
        lemma_trace_tree_node_round_trip(s[i]);
    }
    assert(spec_decode_trace_tree(e) is Some);
    assert(spec_decode_trace_tree(e)->0 =~= s);
}

/// The canonical JSON form of a skill descriptor.
pub open spec fn spec_encode_trace(v: TraceV) -> JVal {
    JVal::Obj(
        seq![
            ("id"@, JVal::Str(v.id)),
            ("name"@, JVal::Str(v.name)),
            ("level"@, enc_u8(v.level)),
            ("max_level"@, enc_u8(v.max_level)),
            ("element"@, enc_opt_element(v.element)),
            ("type"@, JVal::Str(v.trace_type)),
            ("type_text"@, JVal::Str(v.type_text)),
            ("effect"@, JVal::Str(v.effect)),
            ("effect_text"@, JVal::Str(v.effect_text)),
            ("simple_desc"@, JVal::Str(v.simple_desc)),
            ("desc"@, JVal::Str(v.desc)),
            ("icon"@, JVal::Str(v.icon)),
        ],
    )
}

/// Decoding the canonical form of a skill descriptor gives it back.
pub proof fn lemma_trace_round_trip(v: TraceV)
    ensures
        spec_decode_trace(spec_encode_trace(v)) == Some(v),
{
    reveal_strlit("id");
    reveal_strlit("name");
    reveal_strlit("level");
    reveal_strlit("max_level");
    reveal_strlit("element");
    reveal_strlit("type");
    reveal_strlit("type_text");
    reveal_strlit("effect");
    reveal_strlit("effect_text");
    reveal_strlit("simple_desc");
    reveal_strlit("desc");
    reveal_strlit("icon");
    let o = seq![
        ("id"@, JVal::Str(v.id)),
        ("name"@, JVal::Str(v.name)),
        ("level"@, enc_u8(v.level)),
        ("max_level"@, enc_u8(v.max_level)),
        ("element"@, enc_opt_element(v.element)),
        ("type"@, JVal::Str(v.trace_type)),
        ("type_text"@, JVal::Str(v.type_text)),
        ("effect"@, JVal::Str(v.effect)),
        ("effect_text"@, JVal::Str(v.effect_text)),
        ("simple_desc"@, JVal::Str(v.simple_desc)),
        ("desc"@, JVal::Str(v.desc)),
        ("icon"@, JVal::Str(v.icon)),
    ];
    assert(spec_encode_trace(v) == JVal::Obj(o));
    assert(o[0] == ("id"@, JVal::Str(v.id)));
    assert(o[1] == ("name"@, JVal::Str(v.name)));
    assert(o[2] == ("level"@, enc_u8(v.level)));
    assert(o[3] == ("max_level"@, enc_u8(v.max_level)));
    assert(o[4] == ("element"@, enc_opt_element(v.element)));
    assert(o[5] == ("type"@, JVal::Str(v.trace_type)));
    assert(o[6] == ("type_text"@, JVal::Str(v.type_text)));
    assert(o[7] == ("effect"@, JVal::Str(v.effect)));
    assert(o[8] == ("effect_text"@, JVal::Str(v.effect_text)));
    assert(o[9] == ("simple_desc"@, JVal::Str(v.simple_desc)));
    assert(o[10] == ("desc"@, JVal::Str(v.desc)));
    assert(o[11] == ("icon"@, JVal::Str(v.icon)));
    assert(("id"@).len() == 2);
    assert(("name"@).len() == 4);
    assert("id"@ != "name"@);
    assert(("level"@).len() == 5);
    assert("id"@ != "level"@);
    assert("name"@ != "level"@);
    assert(("max_level"@).len() == 9);
    assert("id"@ != "max_level"@);
    assert("name"@ != "max_level"@);
    assert("level"@ != "max_level"@);
    assert(("element"@).len() == 7);
    assert("id"@ != "element"@);
    assert("name"@ != "element"@);
    assert("level"@ != "element"@);
    assert("max_level"@ != "element"@);
    assert(("type"@).len() == 4);
    assert("id"@ != "type"@);
    assert(("name"@)[0] == 'n');
    assert(("type"@)[0] == 't');
    assert("name"@ != "type"@);
    assert("level"@ != "type"@);
    assert("max_level"@ != "type"@);
    assert("element"@ != "type"@);
    assert(("type_text"@).len() == 9);
    assert("id"@ != "type_text"@);
    assert("name"@ != "type_text"@);
    assert("level"@ != "type_text"@);
    assert(("max_level"@)[0] == 'm');
    assert(("type_text"@)[0] == 't');
    assert("max_level"@ != "type_text"@);
    assert("element"@ != "type_text"@);
    assert("type"@ != "type_text"@);
    assert(("effect"@).len() == 6);
    assert("id"@ != "effect"@);
    assert("name"@ != "effect"@);
    assert("level"@ != "effect"@);
    assert("max_level"@ != "effect"@);
    assert("element"@ != "effect"@);
    assert("type"@ != "effect"@);
    assert("type_text"@ != "effect"@);
    assert(("effect_text"@).len() == 11);
    assert("id"@ != "effect_text"@);
    assert("name"@ != "effect_text"@);
    assert("level"@ != "effect_text"@);
    assert("max_level"@ != "effect_text"@);
    assert("element"@ != "effect_text"@);
    assert("type"@ != "effect_text"@);
    assert("type_text"@ != "effect_text"@);
    assert("effect"@ != "effect_text"@);
    assert(("simple_desc"@).len() == 11);
    assert("id"@ != "simple_desc"@);
    assert("name"@ != "simple_desc"@);
    assert("level"@ != "simple_desc"@);
    assert("max_level"@ != "simple_desc"@);
    assert("element"@ != "simple_desc"@);
    assert("type"@ != "simple_desc"@);
    assert("type_text"@ != "simple_desc"@);
    assert("effect"@ != "simple_desc"@);
    assert(("effect_text"@)[0] == 'e');
    assert(("simple_desc"@)[0] == 's');
    assert("effect_text"@ != "simple_desc"@);
    assert(("desc"@).len() == 4);
    assert("id"@ != "desc"@);
    assert(("name"@)[0] == 'n');
    assert(("desc"@)[0] == 'd');
    assert("name"@ != "desc"@);
    assert("level"@ != "desc"@);
    assert("max_level"@ != "desc"@);
    assert("element"@ != "desc"@);
    assert(("type"@)[0] == 't');
    assert(("desc"@)[0] == 'd');
    assert("type"@ != "desc"@);
    assert("type_text"@ != "desc"@);
    assert("effect"@ != "desc"@);
    assert("effect_text"@ != "desc"@);
    assert("simple_desc"@ != "desc"@);
    assert(("icon"@).len() == 4);
    assert("id"@ != "icon"@);
    assert(("name"@)[0] == 'n');
    assert(("icon"@)[0] == 'i');
    assert("name"@ != "icon"@);
    assert("level"@ != "icon"@);
    assert("max_level"@ != "icon"@);
    assert("element"@ != "icon"@);
    assert(("type"@)[0] == 't');
    assert(("icon"@)[0] == 'i');
    assert("type"@ != "icon"@);
    assert("type_text"@ != "icon"@);
    assert("effect"@ != "icon"@);
    assert("effect_text"@ != "icon"@);
    assert("simple_desc"@ != "icon"@);
    assert(("desc"@)[0] == 'd');
    assert(("icon"@)[0] == 'i');
    assert("desc"@ != "icon"@);
    assert(obj_get_from(o, "id"@, 0) == Some(o[0].1));
    assert(obj_get(o, "id"@) == Some(JVal::Str(v.id)));
    assert(obj_get_from(o, "name"@, 1) == Some(o[1].1));
    assert(obj_get_from(o, "name"@, 0) == obj_get_from(o, "name"@, 1));
    assert(obj_get(o, "name"@) == Some(JVal::Str(v.name)));
    assert(obj_get_from(o, "level"@, 2) == Some(o[2].1));
    assert(obj_get_from(o, "level"@, 1) == obj_get_from(o, "level"@, 2));
    assert(obj_get_from(o, "level"@, 0) == obj_get_from(o, "level"@, 1));
    assert(obj_get(o, "level"@) == Some(enc_u8(v.level)));
    assert(obj_get_from(o, "max_level"@, 3) == Some(o[3].1));
    assert(obj_get_from(o, "max_level"@, 2) == obj_get_from(o, "max_level"@, 3));
    assert(obj_get_from(o, "max_level"@, 1) == obj_get_from(o, "max_level"@, 2));
    assert(obj_get_from(o, "max_level"@, 0) == obj_get_from(o, "max_level"@, 1));
    assert(obj_get(o, "max_level"@) == Some(enc_u8(v.max_level)));
    assert(obj_get_from(o, "element"@, 4) == Some(o[4].1));
    assert(obj_get_from(o, "element"@, 3) == obj_get_from(o, "element"@, 4));
    assert(obj_get_from(o, "element"@, 2) == obj_get_from(o, "element"@, 3));
    assert(obj_get_from(o, "element"@, 1) == obj_get_from(o, "element"@, 2));
    assert(obj_get_from(o, "element"@, 0) == obj_get_from(o, "element"@, 1));
    assert(obj_get(o, "element"@) == Some(enc_opt_element(v.element)));
    assert(obj_get_from(o, "type"@, 5) == Some(o[5].1));
    assert(obj_get_from(o, "type"@, 4) == obj_get_from(o, "type"@, 5));
    assert(obj_get_from(o, "type"@, 3) == obj_get_from(o, "type"@, 4));
    assert(obj_get_from(o, "type"@, 2) == obj_get_from(o, "type"@, 3));
    assert(obj_get_from(o, "type"@, 1) == obj_get_from(o, "type"@, 2));
    assert(obj_get_from(o, "type"@, 0) == obj_get_from(o, "type"@, 1));
    assert(obj_get(o, "type"@) == Some(JVal::Str(v.trace_type)));
    assert(obj_get_from(o, "type_text"@, 6) == Some(o[6].1));
    assert(obj_get_from(o, "type_text"@, 5) == obj_get_from(o, "type_text"@, 6));
    assert(obj_get_from(o, "type_text"@, 4) == obj_get_from(o, "type_text"@, 5));
    assert(obj_get_from(o, "type_text"@, 3) == obj_get_from(o, "type_text"@, 4));
    assert(obj_get_from(o, "type_text"@, 2) == obj_get_from(o, "type_text"@, 3));
    assert(obj_get_from(o, "type_text"@, 1) == obj_get_from(o, "type_text"@, 2));
    assert(obj_get_from(o, "type_text"@, 0) == obj_get_from(o, "type_text"@, 1));
    assert(obj_get(o, "type_text"@) == Some(JVal::Str(v.type_text)));
    assert(obj_get_from(o, "effect"@, 7) == Some(o[7].1));
    assert(obj_get_from(o, "effect"@, 6) == obj_get_from(o, "effect"@, 7));
    assert(obj_get_from(o, "effect"@, 5) == obj_get_from(o, "effect"@, 6));
    assert(obj_get_from(o, "effect"@, 4) == obj_get_from(o, "effect"@, 5));
    assert(obj_get_from(o, "effect"@, 3) == obj_get_from(o, "effect"@, 4));
    assert(obj_get_from(o, "effect"@, 2) == obj_get_from(o, "effect"@, 3));
    assert(obj_get_from(o, "effect"@, 1) == obj_get_from(o, "effect"@, 2));
    assert(obj_get_from(o, "effect"@, 0) == obj_get_from(o, "effect"@, 1));
    assert(obj_get(o, "effect"@) == Some(JVal::Str(v.effect)));
    assert(obj_get_from(o, "effect_text"@, 8) == Some(o[8].1));
    assert(obj_get_from(o, "effect_text"@, 7) == obj_get_from(o, "effect_text"@, 8));
    assert(obj_get_from(o, "effect_text"@, 6) == obj_get_from(o, "effect_text"@, 7));
    assert(obj_get_from(o, "effect_text"@, 5) == obj_get_from(o, "effect_text"@, 6));
    assert(obj_get_from(o, "effect_text"@, 4) == obj_get_from(o, "effect_text"@, 5));
    assert(obj_get_from(o, "effect_text"@, 3) == obj_get_from(o, "effect_text"@, 4));
    assert(obj_get_from(o, "effect_text"@, 2) == obj_get_from(o, "effect_text"@, 3));
    assert(obj_get_from(o, "effect_text"@, 1) == obj_get_from(o, "effect_text"@, 2));
    assert(obj_get_from(o, "effect_text"@, 0) == obj_get_from(o, "effect_text"@, 1));
    assert(obj_get(o, "effect_text"@) == Some(JVal::Str(v.effect_text)));
    assert(obj_get_from(o, "simple_desc"@, 9) == Some(o[9].1));
    assert(obj_get_from(o, "simple_desc"@, 8) == obj_get_from(o, "simple_desc"@, 9));
    assert(obj_get_from(o, "simple_desc"@, 7) == obj_get_from(o, "simple_desc"@, 8));
    assert(obj_get_from(o, "simple_desc"@, 6) == obj_get_from(o, "simple_desc"@, 7));
    assert(obj_get_from(o, "simple_desc"@, 5) == obj_get_from(o, "simple_desc"@, 6));
    assert(obj_get_from(o, "simple_desc"@, 4) == obj_get_from(o, "simple_desc"@, 5));
    assert(obj_get_from(o, "simple_desc"@, 3) == obj_get_from(o, "simple_desc"@, 4));
    assert(obj_get_from(o, "simple_desc"@, 2) == obj_get_from(o, "simple_desc"@, 3));
    assert(obj_get_from(o, "simple_desc"@, 1) == obj_get_from(o, "simple_desc"@, 2));
    assert(obj_get_from(o, "simple_desc"@, 0) == obj_get_from(o, "simple_desc"@, 1));
    assert(obj_get(o, "simple_desc"@) == Some(JVal::Str(v.simple_desc)));
    assert(obj_get_from(o, "desc"@, 10) == Some(o[10].1));
    assert(obj_get_from(o, "desc"@, 9) == obj_get_from(o, "desc"@, 10));
    assert(obj_get_from(o, "desc"@, 8) == obj_get_from(o, "desc"@, 9));
    assert(obj_get_from(o, "desc"@, 7) == obj_get_from(o, "desc"@, 8));
    assert(obj_get_from(o, "desc"@, 6) == obj_get_from(o, "desc"@, 7));
    assert(obj_get_from(o, "desc"@, 5) == obj_get_from(o, "desc"@, 6));
    assert(obj_get_from(o, "desc"@, 4) == obj_get_from(o, "desc"@, 5));
    assert(obj_get_from(o, "desc"@, 3) == obj_get_from(o, "desc"@, 4));
    assert(obj_get_from(o, "desc"@, 2) == obj_get_from(o, "desc"@, 3));
    assert(obj_get_from(o, "desc"@, 1) == obj_get_from(o, "desc"@, 2));
    assert(obj_get_from(o, "desc"@, 0) == obj_get_from(o, "desc"@, 1));
    assert(obj_get(o, "desc"@) == Some(JVal::Str(v.desc)));
    assert(obj_get_from(o, "icon"@, 11) == Some(o[11].1));
    assert(obj_get_from(o, "icon"@, 10) == obj_get_from(o, "icon"@, 11));
    assert(obj_get_from(o, "icon"@, 9) == obj_get_from(o, "icon"@, 10));
    assert(obj_get_from(o, "icon"@, 8) == obj_get_from(o, "icon"@, 9));
    assert(obj_get_from(o, "icon"@, 7) == obj_get_from(o, "icon"@, 8));
    assert(obj_get_from(o, "icon"@, 6) == obj_get_from(o, "icon"@, 7));
    assert(obj_get_from(o, "icon"@, 5) == obj_get_from(o, "icon"@, 6));
    assert(obj_get_from(o, "icon"@, 4) == obj_get_from(o, "icon"@, 5));
    assert(obj_get_from(o, "icon"@, 3) == obj_get_from(o, "icon"@, 4));
    assert(obj_get_from(o, "icon"@, 2) == obj_get_from(o, "icon"@, 3));
    assert(obj_get_from(o, "icon"@, 1) == obj_get_from(o, "icon"@, 2));
    assert(obj_get_from(o, "icon"@, 0) == obj_get_from(o, "icon"@, 1));
    assert(obj_get(o, "icon"@) == Some(JVal::Str(v.icon)));
    lemma_u8_round(v.level);
    lemma_u8_round(v.max_level);
    match v.element {
        None => {},
        Some(inner) => { lemma_element_round_trip(inner) },
    }
    assert(spec_decode_trace(spec_encode_trace(v))->0 =~= v);
}

/// The canonical JSON elements of an array of skill descriptors.
pub open spec fn spec_encode_trace_arr(s: Seq<TraceV>) -> Seq<JVal> {
    Seq::new(s.len(), |i: int| spec_encode_trace(s[i]))
}

/// Decoding the canonical elements of an array of skill descriptors gives the
/// array back.
pub proof fn lemma_trace_arr_round_trip(s: Seq<TraceV>)
    ensures
        spec_decode_traces(spec_encode_trace_arr(s)) == Some(s),
{
    let e = spec_encode_trace_arr(s);
    assert forall|i: int| 0 <= i < e.len() implies #[trigger] spec_decode_trace(e[i]) == Some(s[i]) by {
        lemma_trace_round_trip(s[i]);
    }
    assert(spec_decode_traces(e) is Some);
    assert(spec_decode_traces(e)->0 =~= s);
}

/// The canonical JSON form of an equipped weapon-like item.
pub open spec fn spec_encode_light_cone(v: LightConeV) -> JVal {
    JVal::Obj(
        seq![
            ("id"@, JVal::Str(v.id)),
            ("name"@, JVal::Str(v.name)),
            ("rarity"@, enc_u8(v.rarity)),
            ("rank"@, enc_u8(v.superimpose)),
            ("level"@, enc_u8(v.level)),
            ("promotion"@, enc_u8(v.ascension)),
            ("icon"@, JVal::Str(v.icon)),
            ("preview"@, JVal::Str(v.preview)),
            ("portrait"@, JVal::Str(v.portrait)),
            ("path"@, spec_encode_path(v.path)),
            ("attributes"@, JVal::Arr(spec_encode_attribute_arr(v.attributes))),
            ("properties"@, JVal::Arr(spec_encode_property_arr(v.properties))),
        ],
    )
}

/// Decoding the canonical form of an equipped weapon-like item gives it back.
pub proof fn lemma_light_cone_round_trip(v: LightConeV)
    ensures
        spec_decode_light_cone(spec_encode_light_cone(v)) == Some(v),
{
    reveal_strlit("id");
    reveal_strlit("name");
    reveal_strlit("rarity");
    reveal_strlit("rank");
    reveal_strlit("level");
    reveal_strlit("promotion");
    reveal_strlit("icon");
    reveal_strlit("preview");
    reveal_strlit("portrait");
    reveal_strlit("path");
    reveal_strlit("attributes");
    reveal_strlit("properties");
    let o = seq![
        ("id"@, JVal::Str(v.id)),
        ("name"@, JVal::Str(v.name)),
        ("rarity"@, enc_u8(v.rarity)),
        ("rank"@, enc_u8(v.superimpose)),
        ("level"@, enc_u8(v.level)),
        ("promotion"@, enc_u8(v.ascension)),
        ("icon"@, JVal::Str(v.icon)),
        ("preview"@, JVal::Str(v.preview)),
        ("portrait"@, JVal::Str(v.portrait)),
        ("path"@, spec_encode_path(v.path)),
        ("attributes"@, JVal::Arr(spec_encode_attribute_arr(v.attributes))),
        ("properties"@, JVal::Arr(spec_encode_property_arr(v.properties))),
    ];
    assert(spec_encode_light_cone(v) == JVal::Obj(o));
    assert(o[0] == ("id"@, JVal::Str(v.id)));
    assert(o[1] == ("name"@, JVal::Str(v.name)));
    assert(o[2] == ("rarity"@, enc_u8(v.rarity)));
    assert(o[3] == ("rank"@, enc_u8(v.superimpose)));
    assert(o[4] == ("level"@, enc_u8(v.level)));
    assert(o[5] == ("promotion"@, enc_u8(v.ascension)));
    assert(o[6] == ("icon"@, JVal::Str(v.icon)));
    assert(o[7] == ("preview"@, JVal::Str(v.preview)));
    assert(o[8] == ("portrait"@, JVal::Str(v.portrait)));
    assert(o[9] == ("path"@, spec_encode_path(v.path)));
    assert(o[10] == ("attributes"@, JVal::Arr(spec_encode_attribute_arr(v.attributes))));
    assert(o[11] == ("properties"@, JVal::Arr(spec_encode_property_arr(v.properties))));
    assert(("id"@).len() == 2);
    assert(("name"@).len() == 4);
    assert("id"@ != "name"@);
    assert(("rarity"@).len() == 6);
    assert("id"@ != "rarity"@);
    assert("name"@ != "rarity"@);
    assert(("rank"@).len() == 4);
    assert("id"@ != "rank"@);
    assert(("name"@)[0] == 'n');
    assert(("rank"@)[0] == 'r');
    assert("name"@ != "rank"@);
    assert("rarity"@ != "rank"@);
    assert(("level"@).len() == 5);
    assert("id"@ != "level"@);
    assert("name"@ != "level"@);
    assert("rarity"@ != "level"@);
    assert("rank"@ != "level"@);
    assert(("promotion"@).len() == 9);
    assert("id"@ != "promotion"@);
    assert("name"@ != "promotion"@);
    assert("rarity"@ != "promotion"@);
    assert("rank"@ != "promotion"@);
    assert("level"@ != "promotion"@);
    assert(("icon"@).len() == 4);
    assert("id"@ != "icon"@);
    assert(("name"@)[0] == 'n');
    assert(("icon"@)[0] == 'i');
    assert("name"@ != "icon"@);
    assert("rarity"@ != "icon"@);
    assert(("rank"@)[0] == 'r');
    assert(("icon"@)[0] == 'i');
    assert("rank"@ != "icon"@);
    assert("level"@ != "icon"@);
    assert("promotion"@ != "icon"@);
    assert(("preview"@).len() == 7);
    assert("id"@ != "preview"@);
    assert("name"@ != "preview"@);
    assert("rarity"@ != "preview"@);
    assert("rank"@ != "preview"@);
    assert("level"@ != "preview"@);
    assert("promotion"@ != "preview"@);
    assert("icon"@ != "preview"@);
    assert(("portrait"@).len() == 8);
    assert("id"@ != "portrait"@);
    assert("name"@ != "portrait"@);
    assert("rarity"@ != "portrait"@);
    assert("rank"@ != "portrait"@);
    assert("level"@ != "portrait"@);
    assert("promotion"@ != "portrait"@);
    assert("icon"@ != "portrait"@);
    assert("preview"@ != "portrait"@);
    assert(("path"@).len() == 4);
    assert("id"@ != "path"@);
    assert(("name"@)[0] == 'n');
    assert(("path"@)[0] == 'p');
    assert("name"@ != "path"@);
    assert("rarity"@ != "path"@);
    assert(("rank"@)[0] == 'r');
    assert(("path"@)[0] == 'p');
    assert("rank"@ != "path"@);
    assert("level"@ != "path"@);
    assert("promotion"@ != "path"@);
    assert(("icon"@)[0] == 'i');
    assert(("path"@)[0] == 'p');
    assert("icon"@ != "path"@);
    assert("preview"@ != "path"@);
    assert("portrait"@ != "path"@);
    assert(("attributes"@).len() == 10);
    assert("id"@ != "attributes"@);
    assert("name"@ != "attributes"@);
    assert("rarity"@ != "attributes"@);
    assert("rank"@ != "attributes"@);
    assert("level"@ != "attributes"@);
    assert("promotion"@ != "attributes"@);
    assert("icon"@ != "attributes"@);
    assert("preview"@ != "attributes"@);
    assert("portrait"@ != "attributes"@);
    assert("path"@ != "attributes"@);
    assert(("properties"@).len() == 10);
    assert("id"@ != "properties"@);
    assert("name"@ != "properties"@);
    assert("rarity"@ != "properties"@);
    assert("rank"@ != "properties"@);
    assert("level"@ != "properties"@);
    assert("promotion"@ != "properties"@);
    assert("icon"@ != "properties"@);
    assert("preview"@ != "properties"@);
    assert("portrait"@ != "properties"@);
    assert("path"@ != "properties"@);
    assert(("attributes"@)[0] == 'a');
    assert(("properties"@)[0] == 'p');
    assert("attributes"@ != "properties"@);
    assert(obj_get_from(o, "id"@, 0) == Some(o[0].1));
    assert(obj_get(o, "id"@) == Some(JVal::Str(v.id)));
    assert(obj_get_from(o, "name"@, 1) == Some(o[1].1));
    assert(obj_get_from(o, "name"@, 0) == obj_get_from(o, "name"@, 1));
    assert(obj_get(o, "name"@) == Some(JVal::Str(v.name)));
    assert(obj_get_from(o, "rarity"@, 2) == Some(o[2].1));
    assert(obj_get_from(o, "rarity"@, 1) == obj_get_from(o, "rarity"@, 2));
    assert(obj_get_from(o, "rarity"@, 0) == obj_get_from(o, "rarity"@, 1));
    assert(obj_get(o, "rarity"@) == Some(enc_u8(v.rarity)));
    assert(obj_get_from(o, "rank"@, 3) == Some(o[3].1));
    assert(obj_get_from(o, "rank"@, 2) == obj_get_from(o, "rank"@, 3));
    assert(obj_get_from(o, "rank"@, 1) == obj_get_from(o, "rank"@, 2));
    assert(obj_get_from(o, "rank"@, 0) == obj_get_from(o, "rank"@, 1));
    assert(obj_get(o, "rank"@) == Some(enc_u8(v.superimpose)));
    assert(obj_get_from(o, "level"@, 4) == Some(o[4].1));
    assert(obj_get_from(o, "level"@, 3) == obj_get_from(o, "level"@, 4));
    assert(obj_get_from(o, "level"@, 2) == obj_get_from(o, "level"@, 3));
    assert(obj_get_from(o, "level"@, 1) == obj_get_from(o, "level"@, 2));
    assert(obj_get_from(o, "level"@, 0) == obj_get_from(o, "level"@, 1));
    assert(obj_get(o, "level"@) == Some(enc_u8(v.level)));
    assert(obj_get_from(o, "promotion"@, 5) == Some(o[5].1));
    assert(obj_get_from(o, "promotion"@, 4) == obj_get_from(o, "promotion"@, 5));
    assert(obj_get_from(o, "promotion"@, 3) == obj_get_from(o, "promotion"@, 4));
    assert(obj_get_from(o, "promotion"@, 2) == obj_get_from(o, "promotion"@, 3));
    assert(obj_get_from(o, "promotion"@, 1) == obj_get_from(o, "promotion"@, 2));
    assert(obj_get_from(o, "promotion"@, 0) == obj_get_from(o, "promotion"@, 1));
    assert(obj_get(o, "promotion"@) == Some(enc_u8(v.ascension)));
    assert(obj_get_from(o, "icon"@, 6) == Some(o[6].1));
    assert(obj_get_from(o, "icon"@, 5) == obj_get_from(o, "icon"@, 6));
    assert(obj_get_from(o, "icon"@, 4) == obj_get_from(o, "icon"@, 5));
    assert(obj_get_from(o, "icon"@, 3) == obj_get_from(o, "icon"@, 4));
    assert(obj_get_from(o, "icon"@, 2) == obj_get_from(o, "icon"@, 3));
    assert(obj_get_from(o, "icon"@, 1) == obj_get_from(o, "icon"@, 2));
    assert(obj_get_from(o, "icon"@, 0) == obj_get_from(o, "icon"@, 1));
    assert(obj_get(o, "icon"@) == Some(JVal::Str(v.icon)));
    assert(obj_get_from(o, "preview"@, 7) == Some(o[7].1));
    assert(obj_get_from(o, "preview"@, 6) == obj_get_from(o, "preview"@, 7));
    assert(obj_get_from(o, "preview"@, 5) == obj_get_from(o, "preview"@, 6));
    assert(obj_get_from(o, "preview"@, 4) == obj_get_from(o, "preview"@, 5));
    assert(obj_get_from(o, "preview"@, 3) == obj_get_from(o, "preview"@, 4));
    assert(obj_get_from(o, "preview"@, 2) == obj_get_from(o, "preview"@, 3));
    assert(obj_get_from(o, "preview"@, 1) == obj_get_from(o, "preview"@, 2));
    assert(obj_get_from(o, "preview"@, 0) == obj_get_from(o, "preview"@, 1));
    assert(obj_get(o, "preview"@) == Some(JVal::Str(v.preview)));
    assert(obj_get_from(o, "portrait"@, 8) == Some(o[8].1));
    assert(obj_get_from(o, "portrait"@, 7) == obj_get_from(o, "portrait"@, 8));
    assert(obj_get_from(o, "portrait"@, 6) == obj_get_from(o, "portrait"@, 7));
    assert(obj_get_from(o, "portrait"@, 5) == obj_get_from(o, "portrait"@, 6));
    assert(obj_get_from(o, "portrait"@, 4) == obj_get_from(o, "portrait"@, 5));
    assert(obj_get_from(o, "portrait"@, 3) == obj_get_from(o, "portrait"@, 4));
    assert(obj_get_from(o, "portrait"@, 2) == obj_get_from(o, "portrait"@, 3));
    assert(obj_get_from(o, "portrait"@, 1) == obj_get_from(o, "portrait"@, 2));
    assert(obj_get_from(o, "portrait"@, 0) == obj_get_from(o, "portrait"@, 1));
    assert(obj_get(o, "portrait"@) == Some(JVal::Str(v.portrait)));
    assert(obj_get_from(o, "path"@, 9) == Some(o[9].1));
    assert(obj_get_from(o, "path"@, 8) == obj_get_from(o, "path"@, 9));
    assert(obj_get_from(o, "path"@, 7) == obj_get_from(o, "path"@, 8));
    assert(obj_get_from(o, "path"@, 6) == obj_get_from(o, "path"@, 7));
    assert(obj_get_from(o, "path"@, 5) == obj_get_from(o, "path"@, 6));
    assert(obj_get_from(o, "path"@, 4) == obj_get_from(o, "path"@, 5));
    assert(obj_get_from(o, "path"@, 3) == obj_get_from(o, "path"@, 4));
    assert(obj_get_from(o, "path"@, 2) == obj_get_from(o, "path"@, 3));
    assert(obj_get_from(o, "path"@, 1) == obj_get_from(o, "path"@, 2));
    assert(obj_get_from(o, "path"@, 0) == obj_get_from(o, "path"@, 1));
    assert(obj_get(o, "path"@) == Some(spec_encode_path(v.path)));
    assert(obj_get_from(o, "attributes"@, 10) == Some(o[10].1));
    assert(obj_get_from(o, "attributes"@, 9) == obj_get_from(o, "attributes"@, 10));
    assert(obj_get_from(o, "attributes"@, 8) == obj_get_from(o, "attributes"@, 9));
    assert(obj_get_from(o, "attributes"@, 7) == obj_get_from(o, "attributes"@, 8));
    assert(obj_get_from(o, "attributes"@, 6) == obj_get_from(o, "attributes"@, 7));
    assert(obj_get_from(o, "attributes"@, 5) == obj_get_from(o, "attributes"@, 6));
    assert(obj_get_from(o, "attributes"@, 4) == obj_get_from(o, "attributes"@, 5));
    assert(obj_get_from(o, "attributes"@, 3) == obj_get_from(o, "attributes"@, 4));
    assert(obj_get_from(o, "attributes"@, 2) == obj_get_from(o, "attributes"@, 3));
    assert(obj_get_from(o, "attributes"@, 1) == obj_get_from(o, "attributes"@, 2));
    assert(obj_get_from(o, "attributes"@, 0) == obj_get_from(o, "attributes"@, 1));
    assert(obj_get(o, "attributes"@) == Some(JVal::Arr(spec_encode_attribute_arr(v.attributes))));
    assert(obj_get_from(o, "properties"@, 11) == Some(o[11].1));
    assert(obj_get_from(o, "properties"@, 10) == obj_get_from(o, "properties"@, 11));
    assert(obj_get_from(o, "properties"@, 9) == obj_get_from(o, "properties"@, 10));
    assert(obj_get_from(o, "properties"@, 8) == obj_get_from(o, "properties"@, 9));
    assert(obj_get_from(o, "properties"@, 7) == obj_get_from(o, "properties"@, 8));
    assert(obj_get_from(o, "properties"@, 6) == obj_get_from(o, "properties"@, 7));
    assert(obj_get_from(o, "properties"@, 5) == obj_get_from(o, "properties"@, 6));
    assert(obj_get_from(o, "properties"@, 4) == obj_get_from(o, "properties"@, 5));
    assert(obj_get_from(o, "properties"@, 3) == obj_get_from(o, "properties"@, 4));
    assert(obj_get_from(o, "properties"@, 2) == obj_get_from(o, "properties"@, 3));
    assert(obj_get_from(o, "properties"@, 1) == obj_get_from(o, "properties"@, 2));
    assert(obj_get_from(o, "properties"@, 0) == obj_get_from(o, "properties"@, 1));
    assert(obj_get(o, "properties"@) == Some(JVal::Arr(spec_encode_property_arr(v.properties))));
    lemma_u8_round(v.rarity);
    lemma_u8_round(v.superimpose);
    lemma_u8_round(v.level);
    lemma_u8_round(v.ascension);
    lemma_path_round_trip(v.path);
    lemma_attribute_arr_round_trip(v.attributes);
    lemma_property_arr_round_trip(v.properties);
    assert(spec_decode_light_cone(spec_encode_light_cone(v))->0 =~= v);
}

/// The canonical JSON form of an equipped gear piece.
pub open spec fn spec_encode_relic(v: RelicV) -> JVal {
    JVal::Obj(
        seq![
            ("id"@, JVal::Str(v.id)),
            ("name"@, JVal::Str(v.name)),
            ("set_id"@, JVal::Str(v.set_id)),
            ("set_name"@, JVal::Str(v.set_name)),
            ("rarity"@, enc_u8(v.rarity)),
            ("level"@, enc_u8(v.level)),
            ("main_affix"@, spec_encode_main_affix(v.main_affix)),
            ("sub_affix"@, JVal::Arr(spec_encode_sub_affix_arr(v.sub_affixes))),
            ("icon"@, JVal::Str(v.icon)),
        ],
    )
}

/// Decoding the canonical form of an equipped gear piece gives it back.
pub proof fn lemma_relic_round_trip(v: RelicV)
    ensures
        spec_decode_relic(spec_encode_relic(v)) == Some(v),
{
    reveal_strlit("id");
    reveal_strlit("name");
    reveal_strlit("set_id");
    reveal_strlit("set_name");
    reveal_strlit("rarity");
    reveal_strlit("level");
    reveal_strlit("main_affix");
    reveal_strlit("sub_affix");
    reveal_strlit("icon");
    let o = seq![
        ("id"@, JVal::Str(v.id)),
        ("name"@, JVal::Str(v.name)),
        ("set_id"@, JVal::Str(v.set_id)),
        ("set_name"@, JVal::Str(v.set_name)),
        ("rarity"@, enc_u8(v.rarity)),
        ("level"@, enc_u8(v.level)),
        ("main_affix"@, spec_encode_main_affix(v.main_affix)),
        ("sub_affix"@, JVal::Arr(spec_encode_sub_affix_arr(v.sub_affixes))),
        ("icon"@, JVal::Str(v.icon)),
    ];
    assert(spec_encode_relic(v) == JVal::Obj(o));
    assert(o[0] == ("id"@, JVal::Str(v.id)));
    assert(o[1] == ("name"@, JVal::Str(v.name)));
    assert(o[2] == ("set_id"@, JVal::Str(v.set_id)));
    assert(o[3] == ("set_name"@, JVal::Str(v.set_name)));
    assert(o[4] == ("rarity"@, enc_u8(v.rarity)));
    assert(o[5] == ("level"@, enc_u8(v.level)));
    assert(o[6] == ("main_affix"@, spec_encode_main_affix(v.main_affix)));
    assert(o[7] == ("sub_affix"@, JVal::Arr(spec_encode_sub_affix_arr(v.sub_affixes))));
    assert(o[8] == ("icon"@, JVal::Str(v.icon)));
    assert(("id"@).len() == 2);
    assert(("name"@).len() == 4);
    assert("id"@ != "name"@);
    assert(("set_id"@).len() == 6);
    assert("id"@ != "set_id"@);
    assert("name"@ != "set_id"@);
    assert(("set_name"@).len() == 8);
    assert("id"@ != "set_name"@);
    assert("name"@ != "set_name"@);
    assert("set_id"@ != "set_name"@);
    assert(("rarity"@).len() == 6);
    assert("id"@ != "rarity"@);
    assert("name"@ != "rarity"@);
    assert(("set_id"@)[0] == 's');
    assert(("rarity"@)[0] == 'r');
    assert("set_id"@ != "rarity"@);
    assert("set_name"@ != "rarity"@);
    assert(("level"@).len() == 5);
    assert("id"@ != "level"@);
    assert("name"@ != "level"@);
    assert("set_id"@ != "level"@);
    assert("set_name"@ != "level"@);
    assert("rarity"@ != "level"@);
    assert(("main_affix"@).len() == 10);
    assert("id"@ != "main_affix"@);
    assert("name"@ != "main_affix"@);
    assert("set_id"@ != "main_affix"@);
    assert("set_name"@ != "main_affix"@);
    assert("rarity"@ != "main_affix"@);
    assert("level"@ != "main_affix"@);
    assert(("sub_affix"@).len() == 9);
    assert("id"@ != "sub_affix"@);
    assert("name"@ != "sub_affix"@);
    assert("set_id"@ != "sub_affix"@);
    assert("set_name"@ != "sub_affix"@);
    assert("rarity"@ != "sub_affix"@);
    assert("level"@ != "sub_affix"@);
    assert("main_affix"@ != "sub_affix"@);
    assert(("icon"@).len() == 4);
    assert("id"@ != "icon"@);
    assert(("name"@)[0] == 'n');
    assert(("icon"@)[0] == 'i');
    assert("name"@ != "icon"@);
    assert("set_id"@ != "icon"@);
    assert("set_name"@ != "icon"@);
    assert("rarity"@ != "icon"@);
    assert("level"@ != "icon"@);
    assert("main_affix"@ != "icon"@);
    assert("sub_affix"@ != "icon"@);
    assert(obj_get_from(o, "id"@, 0) == Some(o[0].1));
    assert(obj_get(o, "id"@) == Some(JVal::Str(v.id)));
    assert(obj_get_from(o, "name"@, 1) == Some(o[1].1));
    assert(obj_get_from(o, "name"@, 0) == obj_get_from(o, "name"@, 1));
    assert(obj_get(o, "name"@) == Some(JVal::Str(v.name)));
    assert(obj_get_from(o, "set_id"@, 2) == Some(o[2].1));
    assert(obj_get_from(o, "set_id"@, 1) == obj_get_from(o, "set_id"@, 2));
    assert(obj_get_from(o, "set_id"@, 0) == obj_get_from(o, "set_id"@, 1));
    assert(obj_get(o, "set_id"@) == Some(JVal::Str(v.set_id)));
    assert(obj_get_from(o, "set_name"@, 3) == Some(o[3].1));
    assert(obj_get_from(o, "set_name"@, 2) == obj_get_from(o, "set_name"@, 3));
    assert(obj_get_from(o, "set_name"@, 1) == obj_get_from(o, "set_name"@, 2));
    assert(obj_get_from(o, "set_name"@, 0) == obj_get_from(o, "set_name"@, 1));
    assert(obj_get(o, "set_name"@) == Some(JVal::Str(v.set_name)));
    assert(obj_get_from(o, "rarity"@, 4) == Some(o[4].1));
    assert(obj_get_from(o, "rarity"@, 3) == obj_get_from(o, "rarity"@, 4));
    assert(obj_get_from(o, "rarity"@, 2) == obj_get_from(o, "rarity"@, 3));
    assert(obj_get_from(o, "rarity"@, 1) == obj_get_from(o, "rarity"@, 2));
    assert(obj_get_from(o, "rarity"@, 0) == obj_get_from(o, "rarity"@, 1));
    assert(obj_get(o, "rarity"@) == Some(enc_u8(v.rarity)));
    assert(obj_get_from(o, "level"@, 5) == Some(o[5].1));
    assert(obj_get_from(o, "level"@, 4) == obj_get_from(o, "level"@, 5));
    assert(obj_get_from(o, "level"@, 3) == obj_get_from(o, "level"@, 4));
    assert(obj_get_from(o, "level"@, 2) == obj_get_from(o, "level"@, 3));
    assert(obj_get_from(o, "level"@, 1) == obj_get_from(o, "level"@, 2));
    assert(obj_get_from(o, "level"@, 0) == obj_get_from(o, "level"@, 1));
    assert(obj_get(o, "level"@) == Some(enc_u8(v.level)));
    assert(obj_get_from(o, "main_affix"@, 6) == Some(o[6].1));
    assert(obj_get_from(o, "main_affix"@, 5) == obj_get_from(o, "main_affix"@, 6));
    assert(obj_get_from(o, "main_affix"@, 4) == obj_get_from(o, "main_affix"@, 5));
    assert(obj_get_from(o, "main_affix"@, 3) == obj_get_from(o, "main_affix"@, 4));
    assert(obj_get_from(o, "main_affix"@, 2) == obj_get_from(o, "main_affix"@, 3));
    assert(obj_get_from(o, "main_affix"@, 1) == obj_get_from(o, "main_affix"@, 2));
    assert(obj_get_from(o, "main_affix"@, 0) == obj_get_from(o, "main_affix"@, 1));
    assert(obj_get(o, "main_affix"@) == Some(spec_encode_main_affix(v.main_affix)));
    assert(obj_get_from(o, "sub_affix"@, 7) == Some(o[7].1));
    assert(obj_get_from(o, "sub_affix"@, 6) == obj_get_from(o, "sub_affix"@, 7));
    assert(obj_get_from(o, "sub_affix"@, 5) == obj_get_from(o, "sub_affix"@, 6));
    assert(obj_get_from(o, "sub_affix"@, 4) == obj_get_from(o, "sub_affix"@, 5));
    assert(obj_get_from(o, "sub_affix"@, 3) == obj_get_from(o, "sub_affix"@, 4));
    assert(obj_get_from(o, "sub_affix"@, 2) == obj_get_from(o, "sub_affix"@, 3));
    assert(obj_get_from(o, "sub_affix"@, 1) == obj_get_from(o, "sub_affix"@, 2));
    assert(obj_get_from(o, "sub_affix"@, 0) == obj_get_from(o, "sub_affix"@, 1));
    assert(obj_get(o, "sub_affix"@) == Some(JVal::Arr(spec_encode_sub_affix_arr(v.sub_affixes))));
    assert(obj_get_from(o, "icon"@, 8) == Some(o[8].1));
    assert(obj_get_from(o, "icon"@, 7) == obj_get_from(o, "icon"@, 8));
    assert(obj_get_from(o, "icon"@, 6) == obj_get_from(o, "icon"@, 7));
    assert(obj_get_from(o, "icon"@, 5) == obj_get_from(o, "icon"@, 6));
    assert(obj_get_from(o, "icon"@, 4) == obj_get_from(o, "icon"@, 5));
    assert(obj_get_from(o, "icon"@, 3) == obj_get_from(o, "icon"@, 4));
    assert(obj_get_from(o, "icon"@, 2) == obj_get_from(o, "icon"@, 3));
    assert(obj_get_from(o, "icon"@, 1) == obj_get_from(o, "icon"@, 2));
    assert(obj_get_from(o, "icon"@, 0) == obj_get_from(o, "icon"@, 1));
    assert(obj_get(o, "icon"@) == Some(JVal::Str(v.icon)));
    lemma_u8_round(v.rarity);
    lemma_u8_round(v.level);
    lemma_main_affix_round_trip(v.main_affix);
    lemma_sub_affix_arr_round_trip(v.sub_affixes);
    assert(spec_decode_relic(spec_encode_relic(v))->0 =~= v);
}

/// The canonical JSON elements of an array of gear pieces.
pub open spec fn spec_encode_relic_arr(s: Seq<RelicV>) -> Seq<JVal> {
    Seq::new(s.len(), |i: int| spec_encode_relic(s[i]))
}

/// Decoding the canonical elements of an array of gear pieces gives the
/// array back.
pub proof fn lemma_relic_arr_round_trip(s: Seq<RelicV>)
    ensures
        spec_decode_relics(spec_encode_relic_arr(s)) == Some(s),
{
    let e = spec_encode_relic_arr(s);
    assert forall|i: int| 0 <= i < e.len() implies #[trigger] spec_decode_relic(e[i]) == Some(s[i]) by {
        lemma_relic_round_trip(s[i]);
    }
    assert(spec_decode_relics(e) is Some);
    assert(spec_decode_relics(e)->0 =~= s);
}

/// The canonical JSON form of a set-bonus summary.
pub open spec fn spec_encode_relic_set(v: RelicSetV) -> JVal {
    JVal::Obj(
        seq![
            ("id"@, JVal::Str(v.id)),
            ("name"@, JVal::Str(v.name)),
            ("icon"@, JVal::Str(v.icon)),
            ("num"@, enc_u8(v.num)),
            ("desc"@, JVal::Str(v.desc)),
            ("properties"@, JVal::Arr(spec_encode_property_arr(v.properties))),
        ],
    )
}

/// Decoding the canonical form of a set-bonus summary gives it back.
pub proof fn lemma_relic_set_round_trip(v: RelicSetV)
    ensures
        spec_decode_relic_set(spec_encode_relic_set(v)) == Some(v),
{
    reveal_strlit("id");
    reveal_strlit("name");
    reveal_strlit("icon");
    reveal_strlit("num");
    reveal_strlit("desc");
    reveal_strlit("properties");
    let o = seq![
        ("id"@, JVal::Str(v.id)),
        ("name"@, JVal::Str(v.name)),
        ("icon"@, JVal::Str(v.icon)),
        ("num"@, enc_u8(v.num)),
        ("desc"@, JVal::Str(v.desc)),
        ("properties"@, JVal::Arr(spec_encode_property_arr(v.properties))),
    ];
    assert(spec_encode_relic_set(v) == JVal::Obj(o));
    assert(o[0] == ("id"@, JVal::Str(v.id)));
    assert(o[1] == ("name"@, JVal::Str(v.name)));
    assert(o[2] == ("icon"@, JVal::Str(v.icon)));
    assert(o[3] == ("num"@, enc_u8(v.num)));
    assert(o[4] == ("desc"@, JVal::Str(v.desc)));
    assert(o[5] == ("properties"@, JVal::Arr(spec_encode_property_arr(v.properties))));
    assert(("id"@).len() == 2);
    assert(("name"@).len() == 4);
    assert("id"@ != "name"@);
    assert(("icon"@).len() == 4);
    assert("id"@ != "icon"@);
    assert(("name"@)[0] == 'n');
    assert(("icon"@)[0] == 'i');
    assert("name"@ != "icon"@);
    assert(("num"@).len() == 3);
    assert("id"@ != "num"@);
    assert("name"@ != "num"@);
    assert("icon"@ != "num"@);
    assert(("desc"@).len() == 4);
    assert("id"@ != "desc"@);
    assert(("name"@)[0] == 'n');
    assert(("desc"@)[0] == 'd');
    assert("name"@ != "desc"@);
    assert(("icon"@)[0] == 'i');
    assert(("desc"@)[0] == 'd');
    assert("icon"@ != "desc"@);
    assert("num"@ != "desc"@);
    assert(("properties"@).len() == 10);
    assert("id"@ != "properties"@);
    assert("name"@ != "properties"@);
    assert("icon"@ != "properties"@);
    assert("num"@ != "properties"@);
    assert("desc"@ != "properties"@);
    assert(obj_get_from(o, "id"@, 0) == Some(o[0].1));
    assert(obj_get(o, "id"@) == Some(JVal::Str(v.id)));
    assert(obj_get_from(o, "name"@, 1) == Some(o[1].1));
    assert(obj_get_from(o, "name"@, 0) == obj_get_from(o, "name"@, 1));
    assert(obj_get(o, "name"@) == Some(JVal::Str(v.name)));
    assert(obj_get_from(o, "icon"@, 2) == Some(o[2].1));
    assert(obj_get_from(o, "icon"@, 1) == obj_get_from(o, "icon"@, 2));
    assert(obj_get_from(o, "icon"@, 0) == obj_get_from(o, "icon"@, 1));
    assert(obj_get(o, "icon"@) == Some(JVal::Str(v.icon)));
    assert(obj_get_from(o, "num"@, 3) == Some(o[3].1));
    assert(obj_get_from(o, "num"@, 2) == obj_get_from(o, "num"@, 3));
    assert(obj_get_from(o, "num"@, 1) == obj_get_from(o, "num"@, 2));
    assert(obj_get_from(o, "num"@, 0) == obj_get_from(o, "num"@, 1));
    assert(obj_get(o, "num"@) == Some(enc_u8(v.num)));
    assert(obj_get_from(o, "desc"@, 4) == Some(o[4].1));
    assert(obj_get_from(o, "desc"@, 3) == obj_get_from(o, "desc"@, 4));
    assert(obj_get_from(o, "desc"@, 2) == obj_get_from(o, "desc"@, 3));
    assert(obj_get_from(o, "desc"@, 1) == obj_get_from(o, "desc"@, 2));
    assert(obj_get_from(o, "desc"@, 0) == obj_get_from(o, "desc"@, 1));
    assert(obj_get(o, "desc"@) == Some(JVal::Str(v.desc)));
    assert(obj_get_from(o, "properties"@, 5) == Some(o[5].1));
    assert(obj_get_from(o, "properties"@, 4) == obj_get_from(o, "properties"@, 5));
    assert(obj_get_from(o, "properties"@, 3) == obj_get_from(o, "properties"@, 4));
    assert(obj_get_from(o, "properties"@, 2) == obj_get_from(o, "properties"@, 3));
    assert(obj_get_from(o, "properties"@, 1) == obj_get_from(o, "properties"@, 2));
    assert(obj_get_from(o, "properties"@, 0) == obj_get_from(o, "properties"@, 1));
    assert(obj_get(o, "properties"@) == Some(JVal::Arr(spec_encode_property_arr(v.properties))));
    lemma_u8_round(v.num);
    lemma_property_arr_round_trip(v.properties);
    assert(spec_decode_relic_set(spec_encode_relic_set(v))->0 =~= v);
}

/// The canonical JSON elements of an array of set-bonus summaries.
pub open spec fn spec_encode_relic_set_arr(s: Seq<RelicSetV>) -> Seq<JVal> {
    Seq::new(s.len(), |i: int| spec_encode_relic_set(s[i]))
}

/// Decoding the canonical elements of an array of set-bonus summaries gives the
/// array back.
pub proof fn lemma_relic_set_arr_round_trip(s: Seq<RelicSetV>)
    ensures
        spec_decode_relic_sets(spec_encode_relic_set_arr(s)) == Some(s),
{
    let e = spec_encode_relic_set_arr(s);
    assert forall|i: int| 0 <= i < e.len() implies #[trigger] spec_decode_relic_set(e[i]) == Some(s[i]) by {
        lemma_relic_set_round_trip(s[i]);
    }
    assert(spec_decode_relic_sets(e) is Some);
    assert(spec_decode_relic_sets(e)->0 =~= s);
}

/// The canonical JSON form of one playable character.
pub open spec fn spec_encode_character(v: CharacterV) -> JVal {
    JVal::Obj(
        seq![
            ("id"@, JVal::Str(v.id)),
            ("name"@, JVal::Str(v.name)),
            ("rarity"@, enc_u8(v.rarity)),
            ("level"@, enc_u8(v.level)),
            ("promotion"@, enc_u8(v.ascension)),
            ("rank"@, enc_u8(v.eidolon)),
            ("rank_icons"@, JVal::Arr(spec_encode_strs_arr(v.eidolon_icons))),
            ("icon"@, JVal::Str(v.icon)),
            ("preview"@, JVal::Str(v.preview)),
            ("portrait"@, JVal::Str(v.portrait)),
            ("path"@, spec_encode_path(v.path)),
            ("element"@, spec_encode_element(v.element)),
            ("skills"@, JVal::Arr(spec_encode_trace_arr(v.traces))),
            ("skill_trees"@, JVal::Arr(spec_encode_trace_tree_node_arr(v.trace_tree))),
            ("light_cone"@, enc_opt_light_cone(v.light_cone)),
            ("relics"@, JVal::Arr(spec_encode_relic_arr(v.relics))),
            ("relic_sets"@, JVal::Arr(spec_encode_relic_set_arr(v.relic_sets))),
            ("attributes"@, JVal::Arr(spec_encode_attribute_arr(v.attributes))),
            ("additions"@, JVal::Arr(spec_encode_attribute_arr(v.additions))),
            ("properties"@, JVal::Arr(spec_encode_property_arr(v.properties))),
        ],
    )
}

/// Decoding the canonical form of one playable character gives it back.
pub proof fn lemma_character_round_trip(v: CharacterV)
    ensures
        spec_decode_character(spec_encode_character(v)) == Some(v),
{
    reveal_strlit("id");
    reveal_strlit("name");
    reveal_strlit("rarity");
    reveal_strlit("level");
    reveal_strlit("promotion");
    reveal_strlit("rank");
    reveal_strlit("rank_icons");
    reveal_strlit("icon");
    reveal_strlit("preview");
    reveal_strlit("portrait");
    reveal_strlit("path");
    reveal_strlit("element");
    reveal_strlit("skills");
    reveal_strlit("skill_trees");
    reveal_strlit("light_cone");
    reveal_strlit("relics");
    reveal_strlit("relic_sets");
    reveal_strlit("attributes");
    reveal_strlit("additions");
    reveal_strlit("properties");
    let o = seq![
        ("id"@, JVal::Str(v.id)),
        ("name"@, JVal::Str(v.name)),
        ("rarity"@, enc_u8(v.rarity)),
        ("level"@, enc_u8(v.level)),
        ("promotion"@, enc_u8(v.ascension)),
        ("rank"@, enc_u8(v.eidolon)),
        ("rank_icons"@, JVal::Arr(spec_encode_strs_arr(v.eidolon_icons))),
        ("icon"@, JVal::Str(v.icon)),
        ("preview"@, JVal::Str(v.preview)),
        ("portrait"@, JVal::Str(v.portrait)),
        ("path"@, spec_encode_path(v.path)),
        ("element"@, spec_encode_element(v.element)),
        ("skills"@, JVal::Arr(spec_encode_trace_arr(v.traces))),
        ("skill_trees"@, JVal::Arr(spec_encode_trace_tree_node_arr(v.trace_tree))),
        ("light_cone"@, enc_opt_light_cone(v.light_cone)),
        ("relics"@, JVal::Arr(spec_encode_relic_arr(v.relics))),
        ("relic_sets"@, JVal::Arr(spec_encode_relic_set_arr(v.relic_sets))),
        ("attributes"@, JVal::Arr(spec_encode_attribute_arr(v.attributes))),
        ("additions"@, JVal::Arr(spec_encode_attribute_arr(v.additions))),
        ("properties"@, JVal::Arr(spec_encode_property_arr(v.properties))),
    ];
    assert(spec_encode_character(v) == JVal::Obj(o));
    assert(o[0] == ("id"@, JVal::Str(v.id)));
    assert(o[1] == ("name"@, JVal::Str(v.name)));
    assert(o[2] == ("rarity"@, enc_u8(v.rarity)));
    assert(o[3] == ("level"@, enc_u8(v.level)));
    assert(o[4] == ("promotion"@, enc_u8(v.ascension)));
    assert(o[5] == ("rank"@, enc_u8(v.eidolon)));
    assert(o[6] == ("rank_icons"@, JVal::Arr(spec_encode_strs_arr(v.eidolon_icons))));
    assert(o[7] == ("icon"@, JVal::Str(v.icon)));
    assert(o[8] == ("preview"@, JVal::Str(v.preview)));
    assert(o[9] == ("portrait"@, JVal::Str(v.portrait)));
    assert(o[10] == ("path"@, spec_encode_path(v.path)));
    assert(o[11] == ("element"@, spec_encode_element(v.element)));
    assert(o[12] == ("skills"@, JVal::Arr(spec_encode_trace_arr(v.traces))));
    assert(o[13] == ("skill_trees"@, JVal::Arr(spec_encode_trace_tree_node_arr(v.trace_tree))));
    assert(o[14] == ("light_cone"@, enc_opt_light_cone(v.light_cone)));
    assert(o[15] == ("relics"@, JVal::Arr(spec_encode_relic_arr(v.relics))));
    assert(o[16] == ("relic_sets"@, JVal::Arr(spec_encode_relic_set_arr(v.relic_sets))));
    assert(o[17] == ("attributes"@, JVal::Arr(spec_encode_attribute_arr(v.attributes))));
    assert(o[18] == ("additions"@, JVal::Arr(spec_encode_attribute_arr(v.additions))));
    assert(o[19] == ("properties"@, JVal::Arr(spec_encode_property_arr(v.properties))));
    assert(("id"@).len() == 2);
    assert(("name"@).len() == 4);
    assert("id"@ != "name"@);
    assert(("rarity"@).len() == 6);
    assert("id"@ != "rarity"@);
    assert("name"@ != "rarity"@);
    assert(("level"@).len() == 5);
    assert("id"@ != "level"@);
    assert("name"@ != "level"@);
    assert("rarity"@ != "level"@);
    assert(("promotion"@).len() == 9);
    assert("id"@ != "promotion"@);
    assert("name"@ != "promotion"@);
    assert("rarity"@ != "promotion"@);
    assert("level"@ != "promotion"@);
    assert(("rank"@).len() == 4);
    assert("id"@ != "rank"@);
    assert(("name"@)[0] == 'n');
    assert(("rank"@)[0] == 'r');
    assert("name"@ != "rank"@);
    assert("rarity"@ != "rank"@);
    assert("level"@ != "rank"@);
    assert("promotion"@ != "rank"@);
    assert(("rank_icons"@).len() == 10);
    assert("id"@ != "rank_icons"@);
    assert("name"@ != "rank_icons"@);
    assert("rarity"@ != "rank_icons"@);
    assert("level"@ != "rank_icons"@);
    assert("promotion"@ != "rank_icons"@);
    assert("rank"@ != "rank_icons"@);
    assert(("icon"@).len() == 4);
    assert("id"@ != "icon"@);
    assert(("name"@)[0] == 'n');
    assert(("icon"@)[0] == 'i');
    assert("name"@ != "icon"@);
    assert("rarity"@ != "icon"@);
    assert("level"@ != "icon"@);
    assert("promotion"@ != "icon"@);
    assert(("rank"@)[0] == 'r');
    assert(("icon"@)[0] == 'i');
    assert("rank"@ != "icon"@);
    assert("rank_icons"@ != "icon"@);
    assert(("preview"@).len() == 7);
    assert("id"@ != "preview"@);
    assert("name"@ != "preview"@);
    assert("rarity"@ != "preview"@);
    assert("level"@ != "preview"@);
    assert("promotion"@ != "preview"@);
    assert("rank"@ != "preview"@);
    assert("rank_icons"@ != "preview"@);
    assert("icon"@ != "preview"@);
    assert(("portrait"@).len() == 8);
    assert("id"@ != "portrait"@);
    assert("name"@ != "portrait"@);
    assert("rarity"@ != "portrait"@);
    assert("level"@ != "portrait"@);
    assert("promotion"@ != "portrait"@);
    assert("rank"@ != "portrait"@);
    assert("rank_icons"@ != "portrait"@);
    assert("icon"@ != "portrait"@);
    assert("preview"@ != "portrait"@);
    assert(("path"@).len() == 4);
    assert("id"@ != "path"@);
    assert(("name"@)[0] == 'n');
    assert(("path"@)[0] == 'p');
    assert("name"@ != "path"@);
    assert("rarity"@ != "path"@);
    assert("level"@ != "path"@);
    assert("promotion"@ != "path"@);
    assert(("rank"@)[0] == 'r');
    assert(("path"@)[0] == 'p');
    assert("rank"@ != "path"@);
    assert("rank_icons"@ != "path"@);
    assert(("icon"@)[0] == 'i');
    assert(("path"@)[0] == 'p');
    assert("icon"@ != "path"@);
    assert("preview"@ != "path"@);
    assert("portrait"@ != "path"@);
    assert(("element"@).len() == 7);
    assert("id"@ != "element"@);
    assert("name"@ != "element"@);
    assert("rarity"@ != "element"@);
    assert("level"@ != "element"@);
    assert("promotion"@ != "element"@);
    assert("rank"@ != "element"@);
    assert("rank_icons"@ != "element"@);
    assert("icon"@ != "element"@);
    assert(("preview"@)[0] == 'p');
    assert(("element"@)[0] == 'e');
    assert("preview"@ != "element"@);
    assert("portrait"@ != "element"@);
    assert("path"@ != "element"@);
    assert(("skills"@).len() == 6);
    assert("id"@ != "skills"@);
    assert("name"@ != "skills"@);
    assert(("rarity"@)[0] == 'r');
    assert(("skills"@)[0] == 's');
    assert("rarity"@ != "skills"@);
    assert("level"@ != "skills"@);
    assert("promotion"@ != "skills"@);
    assert("rank"@ != "skills"@);
    assert("rank_icons"@ != "skills"@);
    assert("icon"@ != "skills"@);
    assert("preview"@ != "skills"@);
    assert("portrait"@ != "skills"@);
    assert("path"@ != "skills"@);
    assert("element"@ != "skills"@);
    assert(("skill_trees"@).len() == 11);
    assert("id"@ != "skill_trees"@);
    assert("name"@ != "skill_trees"@);
    assert("rarity"@ != "skill_trees"@);
    assert("level"@ != "skill_trees"@);
    assert("promotion"@ != "skill_trees"@);
    assert("rank"@ != "skill_trees"@);
    assert("rank_icons"@ != "skill_trees"@);
    assert("icon"@ != "skill_trees"@);
    assert("preview"@ != "skill_trees"@);
    assert("portrait"@ != "skill_trees"@);
    assert("path"@ != "skill_trees"@);
    assert("element"@ != "skill_trees"@);
    assert("skills"@ != "skill_trees"@);
    assert(("light_cone"@).len() == 10);
    assert("id"@ != "light_cone"@);
    assert("name"@ != "light_cone"@);
    assert("rarity"@ != "light_cone"@);
    assert("level"@ != "light_cone"@);
    assert("promotion"@ != "light_cone"@);
    assert("rank"@ != "light_cone"@);
    assert(("rank_icons"@)[0] == 'r');
    assert(("light_cone"@)[0] == 'l');
    assert("rank_icons"@ != "light_cone"@);
    assert("icon"@ != "light_cone"@);
    assert("preview"@ != "light_cone"@);
    assert("portrait"@ != "light_cone"@);
    assert("path"@ != "light_cone"@);
    assert("element"@ != "light_cone"@);
    assert("skills"@ != "light_cone"@);
    assert("skill_trees"@ != "light_cone"@);
    assert(("relics"@).len() == 6);
    assert("id"@ != "relics"@);
    assert("name"@ != "relics"@);
    assert(("rarity"@)[1] == 'a');
    assert(("relics"@)[1] == 'e');
    assert("rarity"@ != "relics"@);
    assert("level"@ != "relics"@);
    assert("promotion"@ != "relics"@);
    assert("rank"@ != "relics"@);
    assert("rank_icons"@ != "relics"@);
    assert("icon"@ != "relics"@);
    assert("preview"@ != "relics"@);
    assert("portrait"@ != "relics"@);
    assert("path"@ != "relics"@);
    assert("element"@ != "relics"@);
    assert(("skills"@)[0] == 's');
    assert(("relics"@)[0] == 'r');
    assert("skills"@ != "relics"@);
    assert("skill_trees"@ != "relics"@);
    assert("light_cone"@ != "relics"@);
    assert(("relic_sets"@).len() == 10);
    assert("id"@ != "relic_sets"@);
    assert("name"@ != "relic_sets"@);
    assert("rarity"@ != "relic_sets"@);
    assert("level"@ != "relic_sets"@);
    assert("promotion"@ != "relic_sets"@);
    assert("rank"@ != "relic_sets"@);
    assert(("rank_icons"@)[1] == 'a');
    assert(("relic_sets"@)[1] == 'e');
    assert("rank_icons"@ != "relic_sets"@);
    assert("icon"@ != "relic_sets"@);
    assert("preview"@ != "relic_sets"@);
    assert("portrait"@ != "relic_sets"@);
    assert("path"@ != "relic_sets"@);
    assert("element"@ != "relic_sets"@);
    assert("skills"@ != "relic_sets"@);
    assert("skill_trees"@ != "relic_sets"@);
    assert(("light_cone"@)[0] == 'l');
    assert(("relic_sets"@)[0] == 'r');
    assert("light_cone"@ != "relic_sets"@);
    assert("relics"@ != "relic_sets"@);
    assert(("attributes"@).len() == 10);
    assert("id"@ != "attributes"@);
    assert("name"@ != "attributes"@);
    assert("rarity"@ != "attributes"@);
    assert("level"@ != "attributes"@);
    assert("promotion"@ != "attributes"@);
    assert("rank"@ != "attributes"@);
    assert(("rank_icons"@)[0] == 'r');
    assert(("attributes"@)[0] == 'a');
    assert("rank_icons"@ != "attributes"@);
    assert("icon"@ != "attributes"@);
    assert("preview"@ != "attributes"@);
    assert("portrait"@ != "attributes"@);
    assert("path"@ != "attributes"@);
    assert("element"@ != "attributes"@);
    assert("skills"@ != "attributes"@);
    assert("skill_trees"@ != "attributes"@);
    assert(("light_cone"@)[0] == 'l');
    assert(("attributes"@)[0] == 'a');
    assert("light_cone"@ != "attributes"@);
    assert("relics"@ != "attributes"@);
    assert(("relic_sets"@)[0] == 'r');
    assert(("attributes"@)[0] == 'a');
    assert("relic_sets"@ != "attributes"@);
    assert(("additions"@).len() == 9);
    assert("id"@ != "additions"@);
    assert("name"@ != "additions"@);
    assert("rarity"@ != "additions"@);
    assert("level"@ != "additions"@);
    assert(("promotion"@)[0] == 'p');
    assert(("additions"@)[0] == 'a');
    assert("promotion"@ != "additions"@);
    assert("rank"@ != "additions"@);
    assert("rank_icons"@ != "additions"@);
    assert("icon"@ != "additions"@);
    assert("preview"@ != "additions"@);
    assert("portrait"@ != "additions"@);
    assert("path"@ != "additions"@);
    assert("element"@ != "additions"@);
    assert("skills"@ != "additions"@);
    assert("skill_trees"@ != "additions"@);
    assert("light_cone"@ != "additions"@);
    assert("relics"@ != "additions"@);
    assert("relic_sets"@ != "additions"@);
    assert("attributes"@ != "additions"@);
    assert(("properties"@).len() == 10);
    assert("id"@ != "properties"@);
    assert("name"@ != "properties"@);
    assert("rarity"@ != "properties"@);
    assert("level"@ != "properties"@);
    assert("promotion"@ != "properties"@);
    assert("rank"@ != "properties"@);
    assert(("rank_icons"@)[0] == 'r');
    assert(("properties"@)[0] == 'p');
    assert("rank_icons"@ != "properties"@);
    assert("icon"@ != "properties"@);
    assert("preview"@ != "properties"@);
    assert("portrait"@ != "properties"@);
    assert("path"@ != "properties"@);
    assert("element"@ != "properties"@);
    assert("skills"@ != "properties"@);
    assert("skill_trees"@ != "properties"@);
    assert(("light_cone"@)[0] == 'l');
    assert(("properties"@)[0] == 'p');
    assert("light_cone"@ != "properties"@);
    assert("relics"@ != "properties"@);
    assert(("relic_sets"@)[0] == 'r');
    assert(("properties"@)[0] == 'p');
    assert("relic_sets"@ != "properties"@);
    assert(("attributes"@)[0] == 'a');
    assert(("properties"@)[0] == 'p');
    assert("attributes"@ != "properties"@);
    assert("additions"@ != "properties"@);
    assert(obj_get_from(o, "id"@, 0) == Some(o[0].1));
    assert(obj_get(o, "id"@) == Some(JVal::Str(v.id)));
    assert(obj_get_from(o, "name"@, 1) == Some(o[1].1));
    assert(obj_get_from(o, "name"@, 0) == obj_get_from(o, "name"@, 1));
    assert(obj_get(o, "name"@) == Some(JVal::Str(v.name)));
    assert(obj_get_from(o, "rarity"@, 2) == Some(o[2].1));
    assert(obj_get_from(o, "rarity"@, 1) == obj_get_from(o, "rarity"@, 2));
    assert(obj_get_from(o, "rarity"@, 0) == obj_get_from(o, "rarity"@, 1));
    assert(obj_get(o, "rarity"@) == Some(enc_u8(v.rarity)));
    assert(obj_get_from(o, "level"@, 3) == Some(o[3].1));
    assert(obj_get_from(o, "level"@, 2) == obj_get_from(o, "level"@, 3));
    assert(obj_get_from(o, "level"@, 1) == obj_get_from(o, "level"@, 2));
    assert(obj_get_from(o, "level"@, 0) == obj_get_from(o, "level"@, 1));
    assert(obj_get(o, "level"@) == Some(enc_u8(v.level)));
    assert(obj_get_from(o, "promotion"@, 4) == Some(o[4].1));
    assert(obj_get_from(o, "promotion"@, 3) == obj_get_from(o, "promotion"@, 4));
    assert(obj_get_from(o, "promotion"@, 2) == obj_get_from(o, "promotion"@, 3));
    assert(obj_get_from(o, "promotion"@, 1) == obj_get_from(o, "promotion"@, 2));
    assert(obj_get_from(o, "promotion"@, 0) == obj_get_from(o, "promotion"@, 1));
    assert(obj_get(o, "promotion"@) == Some(enc_u8(v.ascension)));
    assert(obj_get_from(o, "rank"@, 5) == Some(o[5].1));
    assert(obj_get_from(o, "rank"@, 4) == obj_get_from(o, "rank"@, 5));
    assert(obj_get_from(o, "rank"@, 3) == obj_get_from(o, "rank"@, 4));
    assert(obj_get_from(o, "rank"@, 2) == obj_get_from(o, "rank"@, 3));
    assert(obj_get_from(o, "rank"@, 1) == obj_get_from(o, "rank"@, 2));
    assert(obj_get_from(o, "rank"@, 0) == obj_get_from(o, "rank"@, 1));
    assert(obj_get(o, "rank"@) == Some(enc_u8(v.eidolon)));
    assert(obj_get_from(o, "rank_icons"@, 6) == Some(o[6].1));
    assert(obj_get_from(o, "rank_icons"@, 5) == obj_get_from(o, "rank_icons"@, 6));
    assert(obj_get_from(o, "rank_icons"@, 4) == obj_get_from(o, "rank_icons"@, 5));
    assert(obj_get_from(o, "rank_icons"@, 3) == obj_get_from(o, "rank_icons"@, 4));
    assert(obj_get_from(o, "rank_icons"@, 2) == obj_get_from(o, "rank_icons"@, 3));
    assert(obj_get_from(o, "rank_icons"@, 1) == obj_get_from(o, "rank_icons"@, 2));
    assert(obj_get_from(o, "rank_icons"@, 0) == obj_get_from(o, "rank_icons"@, 1));
    assert(obj_get(o, "rank_icons"@) == Some(JVal::Arr(spec_encode_strs_arr(v.eidolon_icons))));
    assert(obj_get_from(o, "icon"@, 7) == Some(o[7].1));
    assert(obj_get_from(o, "icon"@, 6) == obj_get_from(o, "icon"@, 7));
    assert(obj_get_from(o, "icon"@, 5) == obj_get_from(o, "icon"@, 6));
    assert(obj_get_from(o, "icon"@, 4) == obj_get_from(o, "icon"@, 5));
    assert(obj_get_from(o, "icon"@, 3) == obj_get_from(o, "icon"@, 4));
    assert(obj_get_from(o, "icon"@, 2) == obj_get_from(o, "icon"@, 3));
    assert(obj_get_from(o, "icon"@, 1) == obj_get_from(o, "icon"@, 2));
    assert(obj_get_from(o, "icon"@, 0) == obj_get_from(o, "icon"@, 1));
    assert(obj_get(o, "icon"@) == Some(JVal::Str(v.icon)));
    assert(obj_get_from(o, "preview"@, 8) == Some(o[8].1));
    assert(obj_get_from(o, "preview"@, 7) == obj_get_from(o, "preview"@, 8));
    assert(obj_get_from(o, "preview"@, 6) == obj_get_from(o, "preview"@, 7));
    assert(obj_get_from(o, "preview"@, 5) == obj_get_from(o, "preview"@, 6));
    assert(obj_get_from(o, "preview"@, 4) == obj_get_from(o, "preview"@, 5));
    assert(obj_get_from(o, "preview"@, 3) == obj_get_from(o, "preview"@, 4));
    assert(obj_get_from(o, "preview"@, 2) == obj_get_from(o, "preview"@, 3));
    assert(obj_get_from(o, "preview"@, 1) == obj_get_from(o, "preview"@, 2));
    assert(obj_get_from(o, "preview"@, 0) == obj_get_from(o, "preview"@, 1));
    assert(obj_get(o, "preview"@) == Some(JVal::Str(v.preview)));
    assert(obj_get_from(o, "portrait"@, 9) == Some(o[9].1));
    assert(obj_get_from(o, "portrait"@, 8) == obj_get_from(o, "portrait"@, 9));
    assert(obj_get_from(o, "portrait"@, 7) == obj_get_from(o, "portrait"@, 8));
    assert(obj_get_from(o, "portrait"@, 6) == obj_get_from(o, "portrait"@, 7));
    assert(obj_get_from(o, "portrait"@, 5) == obj_get_from(o, "portrait"@, 6));
    assert(obj_get_from(o, "portrait"@, 4) == obj_get_from(o, "portrait"@, 5));
    assert(obj_get_from(o, "portrait"@, 3) == obj_get_from(o, "portrait"@, 4));
    assert(obj_get_from(o, "portrait"@, 2) == obj_get_from(o, "portrait"@, 3));
    assert(obj_get_from(o, "portrait"@, 1) == obj_get_from(o, "portrait"@, 2));
    assert(obj_get_from(o, "portrait"@, 0) == obj_get_from(o, "portrait"@, 1));
    assert(obj_get(o, "portrait"@) == Some(JVal::Str(v.portrait)));
    assert(obj_get_from(o, "path"@, 10) == Some(o[10].1));
    assert(obj_get_from(o, "path"@, 9) == obj_get_from(o, "path"@, 10));
    assert(obj_get_from(o, "path"@, 8) == obj_get_from(o, "path"@, 9));
    assert(obj_get_from(o, "path"@, 7) == obj_get_from(o, "path"@, 8));
    assert(obj_get_from(o, "path"@, 6) == obj_get_from(o, "path"@, 7));
    assert(obj_get_from(o, "path"@, 5) == obj_get_from(o, "path"@, 6));
    assert(obj_get_from(o, "path"@, 4) == obj_get_from(o, "path"@, 5));
    assert(obj_get_from(o, "path"@, 3) == obj_get_from(o, "path"@, 4));
    assert(obj_get_from(o, "path"@, 2) == obj_get_from(o, "path"@, 3));
    assert(obj_get_from(o, "path"@, 1) == obj_get_from(o, "path"@, 2));
    assert(obj_get_from(o, "path"@, 0) == obj_get_from(o, "path"@, 1));
    assert(obj_get(o, "path"@) == Some(spec_encode_path(v.path)));
    assert(obj_get_from(o, "element"@, 11) == Some(o[11].1));
    assert(obj_get_from(o, "element"@, 10) == obj_get_from(o, "element"@, 11));
    assert(obj_get_from(o, "element"@, 9) == obj_get_from(o, "element"@, 10));
    assert(obj_get_from(o, "element"@, 8) == obj_get_from(o, "element"@, 9));
    assert(obj_get_from(o, "element"@, 7) == obj_get_from(o, "element"@, 8));
    assert(obj_get_from(o, "element"@, 6) == obj_get_from(o, "element"@, 7));
    assert(obj_get_from(o, "element"@, 5) == obj_get_from(o, "element"@, 6));
    assert(obj_get_from(o, "element"@, 4) == obj_get_from(o, "element"@, 5));
    assert(obj_get_from(o, "element"@, 3) == obj_get_from(o, "element"@, 4));
    assert(obj_get_from(o, "element"@, 2) == obj_get_from(o, "element"@, 3));
    assert(obj_get_from(o, "element"@, 1) == obj_get_from(o, "element"@, 2));
    assert(obj_get_from(o, "element"@, 0) == obj_get_from(o, "element"@, 1));
    assert(obj_get(o, "element"@) == Some(spec_encode_element(v.element)));
    assert(obj_get_from(o, "skills"@, 12) == Some(o[12].1));
    assert(obj_get_from(o, "skills"@, 11) == obj_get_from(o, "skills"@, 12));
    assert(obj_get_from(o, "skills"@, 10) == obj_get_from(o, "skills"@, 11));
    assert(obj_get_from(o, "skills"@, 9) == obj_get_from(o, "skills"@, 10));
    assert(obj_get_from(o, "skills"@, 8) == obj_get_from(o, "skills"@, 9));
    assert(obj_get_from(o, "skills"@, 7) == obj_get_from(o, "skills"@, 8));
    assert(obj_get_from(o, "skills"@, 6) == obj_get_from(o, "skills"@, 7));
    assert(obj_get_from(o, "skills"@, 5) == obj_get_from(o, "skills"@, 6));
    assert(obj_get_from(o, "skills"@, 4) == obj_get_from(o, "skills"@, 5));
    assert(obj_get_from(o, "skills"@, 3) == obj_get_from(o, "skills"@, 4));
    assert(obj_get_from(o, "skills"@, 2) == obj_get_from(o, "skills"@, 3));
    assert(obj_get_from(o, "skills"@, 1) == obj_get_from(o, "skills"@, 2));
    assert(obj_get_from(o, "skills"@, 0) == obj_get_from(o, "skills"@, 1));
    assert(obj_get(o, "skills"@) == Some(JVal::Arr(spec_encode_trace_arr(v.traces))));
    assert(obj_get_from(o, "skill_trees"@, 13) == Some(o[13].1));
    assert(obj_get_from(o, "skill_trees"@, 12) == obj_get_from(o, "skill_trees"@, 13));
    assert(obj_get_from(o, "skill_trees"@, 11) == obj_get_from(o, "skill_trees"@, 12));
    assert(obj_get_from(o, "skill_trees"@, 10) == obj_get_from(o, "skill_trees"@, 11));
    assert(obj_get_from(o, "skill_trees"@, 9) == obj_get_from(o, "skill_trees"@, 10));
    assert(obj_get_from(o, "skill_trees"@, 8) == obj_get_from(o, "skill_trees"@, 9));
    assert(obj_get_from(o, "skill_trees"@, 7) == obj_get_from(o, "skill_trees"@, 8));
    assert(obj_get_from(o, "skill_trees"@, 6) == obj_get_from(o, "skill_trees"@, 7));
    assert(obj_get_from(o, "skill_trees"@, 5) == obj_get_from(o, "skill_trees"@, 6));
    assert(obj_get_from(o, "skill_trees"@, 4) == obj_get_from(o, "skill_trees"@, 5));
    assert(obj_get_from(o, "skill_trees"@, 3) == obj_get_from(o, "skill_trees"@, 4));
    assert(obj_get_from(o, "skill_trees"@, 2) == obj_get_from(o, "skill_trees"@, 3));
    assert(obj_get_from(o, "skill_trees"@, 1) == obj_get_from(o, "skill_trees"@, 2));
    assert(obj_get_from(o, "skill_trees"@, 0) == obj_get_from(o, "skill_trees"@, 1));
    assert(obj_get(o, "skill_trees"@) == Some(JVal::Arr(spec_encode_trace_tree_node_arr(v.trace_tree))));
    assert(obj_get_from(o, "light_cone"@, 14) == Some(o[14].1));
    assert(obj_get_from(o, "light_cone"@, 13) == obj_get_from(o, "light_cone"@, 14));
    assert(obj_get_from(o, "light_cone"@, 12) == obj_get_from(o, "light_cone"@, 13));
    assert(obj_get_from(o, "light_cone"@, 11) == obj_get_from(o, "light_cone"@, 12));
    assert(obj_get_from(o, "light_cone"@, 10) == obj_get_from(o, "light_cone"@, 11));
    assert(obj_get_from(o, "light_cone"@, 9) == obj_get_from(o, "light_cone"@, 10));
    assert(obj_get_from(o, "light_cone"@, 8) == obj_get_from(o, "light_cone"@, 9));
    assert(obj_get_from(o, "light_cone"@, 7) == obj_get_from(o, "light_cone"@, 8));
    assert(obj_get_from(o, "light_cone"@, 6) == obj_get_from(o, "light_cone"@, 7));
    assert(obj_get_from(o, "light_cone"@, 5) == obj_get_from(o, "light_cone"@, 6));
    assert(obj_get_from(o, "light_cone"@, 4) == obj_get_from(o, "light_cone"@, 5));
    assert(obj_get_from(o, "light_cone"@, 3) == obj_get_from(o, "light_cone"@, 4));
    assert(obj_get_from(o, "light_cone"@, 2) == obj_get_from(o, "light_cone"@, 3));
    assert(obj_get_from(o, "light_cone"@, 1) == obj_get_from(o, "light_cone"@, 2));
    assert(obj_get_from(o, "light_cone"@, 0) == obj_get_from(o, "light_cone"@, 1));
    assert(obj_get(o, "light_cone"@) == Some(enc_opt_light_cone(v.light_cone)));
    assert(obj_get_from(o, "relics"@, 15) == Some(o[15].1));
    assert(obj_get_from(o, "relics"@, 14) == obj_get_from(o, "relics"@, 15));
    assert(obj_get_from(o, "relics"@, 13) == obj_get_from(o, "relics"@, 14));
    assert(obj_get_from(o, "relics"@, 12) == obj_get_from(o, "relics"@, 13));
    assert(obj_get_from(o, "relics"@, 11) == obj_get_from(o, "relics"@, 12));
    assert(obj_get_from(o, "relics"@, 10) == obj_get_from(o, "relics"@, 11));
    assert(obj_get_from(o, "relics"@, 9) == obj_get_from(o, "relics"@, 10));
    assert(obj_get_from(o, "relics"@, 8) == obj_get_from(o, "relics"@, 9));
    assert(obj_get_from(o, "relics"@, 7) == obj_get_from(o, "relics"@, 8));
    assert(obj_get_from(o, "relics"@, 6) == obj_get_from(o, "relics"@, 7));
    assert(obj_get_from(o, "relics"@, 5) == obj_get_from(o, "relics"@, 6));
    assert(obj_get_from(o, "relics"@, 4) == obj_get_from(o, "relics"@, 5));
    assert(obj_get_from(o, "relics"@, 3) == obj_get_from(o, "relics"@, 4));
    assert(obj_get_from(o, "relics"@, 2) == obj_get_from(o, "relics"@, 3));
    assert(obj_get_from(o, "relics"@, 1) == obj_get_from(o, "relics"@, 2));
    assert(obj_get_from(o, "relics"@, 0) == obj_get_from(o, "relics"@, 1));
    assert(obj_get(o, "relics"@) == Some(JVal::Arr(spec_encode_relic_arr(v.relics))));
    assert(obj_get_from(o, "relic_sets"@, 16) == Some(o[16].1));
    assert(obj_get_from(o, "relic_sets"@, 15) == obj_get_from(o, "relic_sets"@, 16));
    assert(obj_get_from(o, "relic_sets"@, 14) == obj_get_from(o, "relic_sets"@, 15));
    assert(obj_get_from(o, "relic_sets"@, 13) == obj_get_from(o, "relic_sets"@, 14));
    assert(obj_get_from(o, "relic_sets"@, 12) == obj_get_from(o, "relic_sets"@, 13));
    assert(obj_get_from(o, "relic_sets"@, 11) == obj_get_from(o, "relic_sets"@, 12));
    assert(obj_get_from(o, "relic_sets"@, 10) == obj_get_from(o, "relic_sets"@, 11));
    assert(obj_get_from(o, "relic_sets"@, 9) == obj_get_from(o, "relic_sets"@, 10));
    assert(obj_get_from(o, "relic_sets"@, 8) == obj_get_from(o, "relic_sets"@, 9));
    assert(obj_get_from(o, "relic_sets"@, 7) == obj_get_from(o, "relic_sets"@, 8));
    assert(obj_get_from(o, "relic_sets"@, 6) == obj_get_from(o, "relic_sets"@, 7));
    assert(obj_get_from(o, "relic_sets"@, 5) == obj_get_from(o, "relic_sets"@, 6));
    assert(obj_get_from(o, "relic_sets"@, 4) == obj_get_from(o, "relic_sets"@, 5));
    assert(obj_get_from(o, "relic_sets"@, 3) == obj_get_from(o, "relic_sets"@, 4));
    assert(obj_get_from(o, "relic_sets"@, 2) == obj_get_from(o, "relic_sets"@, 3));
    assert(obj_get_from(o, "relic_sets"@, 1) == obj_get_from(o, "relic_sets"@, 2));
    assert(obj_get_from(o, "relic_sets"@, 0) == obj_get_from(o, "relic_sets"@, 1));
    assert(obj_get(o, "relic_sets"@) == Some(JVal::Arr(spec_encode_relic_set_arr(v.relic_sets))));
    assert(obj_get_from(o, "attributes"@, 17) == Some(o[17].1));
    assert(obj_get_from(o, "attributes"@, 16) == obj_get_from(o, "attributes"@, 17));
    assert(obj_get_from(o, "attributes"@, 15) == obj_get_from(o, "attributes"@, 16));
    assert(obj_get_from(o, "attributes"@, 14) == obj_get_from(o, "attributes"@, 15));
    assert(obj_get_from(o, "attributes"@, 13) == obj_get_from(o, "attributes"@, 14));
    assert(obj_get_from(o, "attributes"@, 12) == obj_get_from(o, "attributes"@, 13));
    assert(obj_get_from(o, "attributes"@, 11) == obj_get_from(o, "attributes"@, 12));
    assert(obj_get_from(o, "attributes"@, 10) == obj_get_from(o, "attributes"@, 11));
    assert(obj_get_from(o, "attributes"@, 9) == obj_get_from(o, "attributes"@, 10));
    assert(obj_get_from(o, "attributes"@, 8) == obj_get_from(o, "attributes"@, 9));
    assert(obj_get_from(o, "attributes"@, 7) == obj_get_from(o, "attributes"@, 8));
    assert(obj_get_from(o, "attributes"@, 6) == obj_get_from(o, "attributes"@, 7));
    assert(obj_get_from(o, "attributes"@, 5) == obj_get_from(o, "attributes"@, 6));
    assert(obj_get_from(o, "attributes"@, 4) == obj_get_from(o, "attributes"@, 5));
    assert(obj_get_from(o, "attributes"@, 3) == obj_get_from(o, "attributes"@, 4));
    assert(obj_get_from(o, "attributes"@, 2) == obj_get_from(o, "attributes"@, 3));
    assert(obj_get_from(o, "attributes"@, 1) == obj_get_from(o, "attributes"@, 2));
    assert(obj_get_from(o, "attributes"@, 0) == obj_get_from(o, "attributes"@, 1));
    assert(obj_get(o, "attributes"@) == Some(JVal::Arr(spec_encode_attribute_arr(v.attributes))));
    assert(obj_get_from(o, "additions"@, 18) == Some(o[18].1));
    assert(obj_get_from(o, "additions"@, 17) == obj_get_from(o, "additions"@, 18));
    assert(obj_get_from(o, "additions"@, 16) == obj_get_from(o, "additions"@, 17));
    assert(obj_get_from(o, "additions"@, 15) == obj_get_from(o, "additions"@, 16));
    assert(obj_get_from(o, "additions"@, 14) == obj_get_from(o, "additions"@, 15));
    assert(obj_get_from(o, "additions"@, 13) == obj_get_from(o, "additions"@, 14));
    assert(obj_get_from(o, "additions"@, 12) == obj_get_from(o, "additions"@, 13));
    assert(obj_get_from(o, "additions"@, 11) == obj_get_from(o, "additions"@, 12));
    assert(obj_get_from(o, "additions"@, 10) == obj_get_from(o, "additions"@, 11));
    assert(obj_get_from(o, "additions"@, 9) == obj_get_from(o, "additions"@, 10));
    assert(obj_get_from(o, "additions"@, 8) == obj_get_from(o, "additions"@, 9));
    assert(obj_get_from(o, "additions"@, 7) == obj_get_from(o, "additions"@, 8));
    assert(obj_get_from(o, "additions"@, 6) == obj_get_from(o, "additions"@, 7));
    assert(obj_get_from(o, "additions"@, 5) == obj_get_from(o, "additions"@, 6));
    assert(obj_get_from(o, "additions"@, 4) == obj_get_from(o, "additions"@, 5));
    assert(obj_get_from(o, "additions"@, 3) == obj_get_from(o, "additions"@, 4));
    assert(obj_get_from(o, "additions"@, 2) == obj_get_from(o, "additions"@, 3));
    assert(obj_get_from(o, "additions"@, 1) == obj_get_from(o, "additions"@, 2));
    assert(obj_get_from(o, "additions"@, 0) == obj_get_from(o, "additions"@, 1));
    assert(obj_get(o, "additions"@) == Some(JVal::Arr(spec_encode_attribute_arr(v.additions))));
    assert(obj_get_from(o, "properties"@, 19) == Some(o[19].1));
    assert(obj_get_from(o, "properties"@, 18) == obj_get_from(o, "properties"@, 19));
    assert(obj_get_from(o, "properties"@, 17) == obj_get_from(o, "properties"@, 18));
    assert(obj_get_from(o, "properties"@, 16) == obj_get_from(o, "properties"@, 17));
    assert(obj_get_from(o, "properties"@, 15) == obj_get_from(o, "properties"@, 16));
    assert(obj_get_from(o, "properties"@, 14) == obj_get_from(o, "properties"@, 15));
    assert(obj_get_from(o, "properties"@, 13) == obj_get_from(o, "properties"@, 14));
    assert(obj_get_from(o, "properties"@, 12) == obj_get_from(o, "properties"@, 13));
    assert(obj_get_from(o, "properties"@, 11) == obj_get_from(o, "properties"@, 12));
    assert(obj_get_from(o, "properties"@, 10) == obj_get_from(o, "properties"@, 11));
    assert(obj_get_from(o, "properties"@, 9) == obj_get_from(o, "properties"@, 10));
    assert(obj_get_from(o, "properties"@, 8) == obj_get_from(o, "properties"@, 9));
    assert(obj_get_from(o, "properties"@, 7) == obj_get_from(o, "properties"@, 8));
    assert(obj_get_from(o, "properties"@, 6) == obj_get_from(o, "properties"@, 7));
    assert(obj_get_from(o, "properties"@, 5) == obj_get_from(o, "properties"@, 6));
    assert(obj_get_from(o, "properties"@, 4) == obj_get_from(o, "properties"@, 5));
    assert(obj_get_from(o, "properties"@, 3) == obj_get_from(o, "properties"@, 4));
    assert(obj_get_from(o, "properties"@, 2) == obj_get_from(o, "properties"@, 3));
    assert(obj_get_from(o, "properties"@, 1) == obj_get_from(o, "properties"@, 2));
    assert(obj_get_from(o, "properties"@, 0) == obj_get_from(o, "properties"@, 1));
    assert(obj_get(o, "properties"@) == Some(JVal::Arr(spec_encode_property_arr(v.properties))));
    lemma_u8_round(v.rarity);
    lemma_u8_round(v.level);
    lemma_u8_round(v.ascension);
    lemma_u8_round(v.eidolon);
    lemma_strs_arr_round_trip(v.eidolon_icons);
    lemma_path_round_trip(v.path);
    lemma_element_round_trip(v.element);
    lemma_trace_arr_round_trip(v.traces);
    lemma_trace_tree_node_arr_round_trip(v.trace_tree);
    match v.light_cone {
        None => {},
        Some(inner) => { lemma_light_cone_round_trip(inner) },
    }
    lemma_relic_arr_round_trip(v.relics);
    lemma_relic_set_arr_round_trip(v.relic_sets);
    lemma_attribute_arr_round_trip(v.attributes);
    lemma_attribute_arr_round_trip(v.additions);
    lemma_property_arr_round_trip(v.properties);
    assert(spec_decode_character(spec_encode_character(v))->0 =~= v);
}

/// The canonical JSON elements of an array of playable characters.
pub open spec fn spec_encode_character_arr(s: Seq<CharacterV>) -> Seq<JVal> {
    Seq::new(s.len(), |i: int| spec_encode_character(s[i]))
}

/// Decoding the canonical elements of an array of playable characters gives the
/// array back.
pub proof fn lemma_character_arr_round_trip(s: Seq<CharacterV>)
    ensures
        spec_decode_characters(spec_encode_character_arr(s)) == Some(s),
{
    let e = spec_encode_character_arr(s);
    assert forall|i: int| 0 <= i < e.len() implies #[trigger] spec_decode_character(e[i]) == Some(s[i]) by {
        lemma_character_round_trip(s[i]);
    }
    assert(spec_decode_characters(e) is Some);
    assert(spec_decode_characters(e)->0 =~= s);
}

/// The canonical JSON form of a whole profile snapshot.
pub open spec fn spec_encode_profile(v: StarRailInfoParsedV) -> JVal {
    JVal::Obj(
        seq![
            ("player"@, spec_encode_player(v.player)),
            ("characters"@, JVal::Arr(spec_encode_character_arr(v.characters))),
        ],
    )
}

/// Decoding the canonical form of a whole profile snapshot gives it back.
pub proof fn lemma_profile_round_trip(v: StarRailInfoParsedV)
    ensures
        spec_decode_profile(spec_encode_profile(v)) == Some(v),
{
    reveal_strlit("player");
    reveal_strlit("characters");
    let o = seq![
        ("player"@, spec_encode_player(v.player)),
        ("characters"@, JVal::Arr(spec_encode_character_arr(v.characters))),
    ];
    assert(spec_encode_profile(v) == JVal::Obj(o));
    assert(o[0] == ("player"@, spec_encode_player(v.player)));
    assert(o[1] == ("characters"@, JVal::Arr(spec_encode_character_arr(v.characters))));
    assert(("player"@).len() == 6);
    assert(("characters"@).len() == 10);
    assert("player"@ != "characters"@);
    assert(obj_get_from(o, "player"@, 0) == Some(o[0].1));
    assert(obj_get(o, "player"@) == Some(spec_encode_player(v.player)));
    assert(obj_get_from(o, "characters"@, 1) == Some(o[1].1));
    assert(obj_get_from(o, "characters"@, 0) == obj_get_from(o, "characters"@, 1));
    assert(obj_get(o, "characters"@) == Some(JVal::Arr(spec_encode_character_arr(v.characters))));
    lemma_player_round_trip(v.player);
    lemma_character_arr_round_trip(v.characters);
    assert(spec_decode_profile(spec_encode_profile(v))->0 =~= v);
}


/// The canonical JSON value of an eight-bit number, executable form.
fn num_u8(n: u8) -> (r: Json)
    ensures
        jval_of(r) == enc_u8(n),
{
    let digits = dec_digits(n as u32);
    Json::Num(string_from_chars(&digits))
}

/// The canonical JSON value of a sixteen-bit number, executable form.
fn num_u16(n: u16) -> (r: Json)
    ensures
        jval_of(r) == enc_u16(n),
{
    let digits = dec_digits(n as u32);
    Json::Num(string_from_chars(&digits))
}

/// The canonical JSON value of an optional string, executable form.
fn opt_str_json(s: &Option<String>) -> (r: Json)
    ensures
        jval_of(r) == enc_opt_str(s.deep_view()),
{
    match s {
        None => Json::Null,
        Some(t) => Json::Str(t.clone()),
    }
}

/// Encodes a player's profile picture into its canonical JSON value.
pub fn encode_avatar(v: &Avatar) -> (r: Json)
    ensures
        jval_of(r) == spec_encode_avatar(v.deep_view()),
{
    let mut o: Vec<(String, Json)> = Vec::new();
    o.push(("id".to_owned(), Json::Str(v.id.clone())));
    o.push(("name".to_owned(), Json::Str(v.name.clone())));
    o.push(("icon".to_owned(), Json::Str(v.icon.clone())));
    proof {
        assert(jobj_of(o) =~= spec_encode_avatar(v.deep_view())->Obj_0);
    }
    Json::Obj(o)
}

/// Encodes a class or role descriptor into its canonical JSON value.
pub fn encode_path(v: &Path) -> (r: Json)
    ensures
        jval_of(r) == spec_encode_path(v.deep_view()),
{
    let mut o: Vec<(String, Json)> = Vec::new();
    o.push(("id".to_owned(), Json::Str(v.id.clone())));
    o.push(("name".to_owned(), Json::Str(v.name.clone())));
    o.push(("icon".to_owned(), Json::Str(v.icon.clone())));
    proof {
        assert(jobj_of(o) =~= spec_encode_path(v.deep_view())->Obj_0);
    }
    Json::Obj(o)
}

/// Encodes a damage-type descriptor into its canonical JSON value.
pub fn encode_element(v: &Element) -> (r: Json)
    ensures
        jval_of(r) == spec_encode_element(v.deep_view()),
{
    let mut o: Vec<(String, Json)> = Vec::new();
    o.push(("id".to_owned(), Json::Str(v.id.clone())));
    o.push(("name".to_owned(), Json::Str(v.name.clone())));
    o.push(("color".to_owned(), Json::Str(v.color.clone())));
    o.push(("icon".to_owned(), Json::Str(v.icon.clone())));
    proof {
        assert(jobj_of(o) =~= spec_encode_element(v.deep_view())->Obj_0);
    }
    Json::Obj(o)
}

/// The canonical JSON value of an optional element override, executable
/// form.
fn opt_element_json(e: &Option<Element>) -> (r: Json)
    ensures
        jval_of(r) == enc_opt_element(e.deep_view()),
{
    match e {
        None => Json::Null,
        Some(el) => encode_element(el),
    }
}

/// Encodes an array of strings into canonical JSON values.
fn encode_strs_arr(v: &Vec<String>) -> (r: Vec<Json>)
    ensures
        jarr_of(r) == spec_encode_strs_arr(v.deep_view()),
{
    let mut out: Vec<Json> = Vec::new();
    let mut i: usize = 0;
    while i < v.len()
        invariant
            i <= v.len(),
            out.len() == i,
            forall|k: int|
                0 <= k < i ==> jval_of(#[trigger] out@[k]) == JVal::Str(v.deep_view()[k]),
        decreases v.len() - i,
    {
        out.push(Json::Str(v[i].clone()));
        i += 1;
    }
    proof {
        assert(jarr_of(out) =~= spec_encode_strs_arr(v.deep_view()));
    }
    out
}

/// Encodes a challenge-mode summary into its canonical JSON value.
pub fn encode_forgotten_hall(v: &ForgottenHall) -> (r: Json)
    ensures
        jval_of(r) == spec_encode_forgotten_hall(v.deep_view()),
{
    let mut o: Vec<(String, Json)> = Vec::new();
    o.push(("level".to_owned(), num_u8(v.level)));
    o.push(("chaos_id".to_owned(), opt_str_json(&v.chaos_id)));
    o.push(("chaos_level".to_owned(), num_u8(v.chaos_level)));
    o.push(("chaos_star_count".to_owned(), num_u8(v.chaos_star_count)));
    proof {
        assert(jobj_of(o) =~= spec_encode_forgotten_hall(v.deep_view())->Obj_0);
    }
    Json::Obj(o)
}

/// Encodes the account's progress counters into its canonical JSON value.
pub fn encode_space_info(v: &SpaceInfo) -> (r: Json)
    ensures
        jval_of(r) == spec_encode_space_info(v.deep_view()),
{
    let mut o: Vec<(String, Json)> = Vec::new();
    o.push(("memory_data".to_owned(), encode_forgotten_hall(&v.memory_data)));
    o.push(("universe_level".to_owned(), num_u8(v.universe_level)));
    o.push(("avatar_count".to_owned(), num_u16(v.avatar_count)));
    o.push(("light_cone_count".to_owned(), num_u16(v.light_cone_count)));
    o.push(("relic_count".to_owned(), num_u16(v.relic_count)));
    o.push(("achievement_count".to_owned(), num_u16(v.achievement_count)));
    o.push(("book_count".to_owned(), num_u16(v.book_count)));
    o.push(("music_count".to_owned(), num_u16(v.music_count)));
    proof {
        assert(jobj_of(o) =~= spec_encode_space_info(v.deep_view())->Obj_0);
    }
    Json::Obj(o)
}

/// Encodes the player's record into its canonical JSON value.
pub fn encode_player(v: &Player) -> (r: Json)
    ensures
        jval_of(r) == spec_encode_player(v.deep_view()),
{
    let mut o: Vec<(String, Json)> = Vec::new();
    o.push(("uid".to_owned(), Json::Str(v.uid.clone())));
    o.push(("nickname".to_owned(), Json::Str(v.name.clone())));
    o.push(("level".to_owned(), num_u8(v.level)));
    o.push(("world_level".to_owned(), num_u8(v.world_level)));
    o.push(("friend_count".to_owned(), num_u8(v.friend_count)));
    o.push(("avatar".to_owned(), encode_avatar(&v.avatar)));
    o.push(("signature".to_owned(), Json::Str(v.signature.clone())));
    o.push(("is_display".to_owned(), Json::Bool(v.is_display)));
    o.push(("space_info".to_owned(), encode_space_info(&v.space_info)));
    proof {
        assert(jobj_of(o) =~= spec_encode_player(v.deep_view())->Obj_0);
    }
    Json::Obj(o)
}

/// Encodes a base stat entry into its canonical JSON value.
pub fn encode_attribute(v: &Attribute) -> (r: Json)
    ensures
        jval_of(r) == spec_encode_attribute(v.deep_view()),
{
    let mut o: Vec<(String, Json)> = Vec::new();
    o.push(("field".to_owned(), Json::Str(v.field.clone())));
    o.push(("name".to_owned(), Json::Str(v.name.clone())));
    o.push(("icon".to_owned(), Json::Str(v.icon.clone())));
    o.push(("value".to_owned(), Json::Num(v.value.clone())));
    o.push(("display".to_owned(), Json::Str(v.displayed_value.clone())));
    o.push(("percent".to_owned(), Json::Bool(v.is_percent)));
    proof {
        assert(jobj_of(o) =~= spec_encode_attribute(v.deep_view())->Obj_0);
    }
    Json::Obj(o)
}

/// Encodes an array of base stat entries into canonical JSON values.
fn encode_attribute_arr(v: &Vec<Attribute>) -> (r: Vec<Json>)
    ensures
        jarr_of(r) == spec_encode_attribute_arr(v.deep_view()),
{
    let mut out: Vec<Json> = Vec::new();
    let mut i: usize = 0;
    while i < v.len()
        invariant
            i <= v.len(),
            out.len() == i,
            forall|k: int|
                0 <= k < i ==> jval_of(#[trigger] out@[k]) == spec_encode_attribute(
                    v.deep_view()[k],
                ),
        decreases v.len() - i,
    {
        let e = encode_attribute(&v[i]);
        out.push(e);
        i += 1;
    }
    proof {
        assert(jarr_of(out) =~= spec_encode_attribute_arr(v.deep_view()));
    }
    out
}

/// Encodes a computed combat stat entry into its canonical JSON value.
pub fn encode_property(v: &Property) -> (r: Json)
    ensures
        jval_of(r) == spec_encode_property(v.deep_view()),
{
    let mut o: Vec<(String, Json)> = Vec::new();
    o.push(("type".to_owned(), Json::Str(v.property_type.clone())));
    o.push(("field".to_owned(), Json::Str(v.field.clone())));
    o.push(("name".to_owned(), Json::Str(v.name.clone())));
    o.push(("icon".to_owned(), Json::Str(v.icon.clone())));
    o.push(("value".to_owned(), Json::Num(v.value.clone())));
    o.push(("display".to_owned(), Json::Str(v.displayed_value.clone())));
    o.push(("percent".to_owned(), Json::Bool(v.is_percent)));
    proof {
        assert(jobj_of(o) =~= spec_encode_property(v.deep_view())->Obj_0);
    }
    Json::Obj(o)
}

/// Encodes a primary stat roll into its canonical JSON value.
pub fn encode_main_affix(v: &MainAffix) -> (r: Json)
    ensures
        jval_of(r) == spec_encode_main_affix(v.deep_view()),
{
    encode_property(&v.property)
}

/// Encodes an array of computed combat stat entries into canonical JSON values.
fn encode_property_arr(v: &Vec<Property>) -> (r: Vec<Json>)
    ensures
        jarr_of(r) == spec_encode_property_arr(v.deep_view()),
{
    let mut out: Vec<Json> = Vec::new();
    let mut i: usize = 0;
    while i < v.len()
        invariant
            i <= v.len(),
            out.len() == i,
            forall|k: int|
                0 <= k < i ==> jval_of(#[trigger] out@[k]) == spec_encode_property(
                    v.deep_view()[k],
                ),
        decreases v.len() - i,
    {
        let e = encode_property(&v[i]);
        out.push(e);
        i += 1;
    }
    proof {
        assert(jarr_of(out) =~= spec_encode_property_arr(v.deep_view()));
    }
    out
}

/// Encodes a secondary stat roll into its canonical JSON value.
pub fn encode_sub_affix(v: &SubAffix) -> (r: Json)
    ensures
        jval_of(r) == spec_encode_sub_affix(v.deep_view()),
{
    let mut o: Vec<(String, Json)> = Vec::new();
    o.push(("type".to_owned(), Json::Str(v.property.property_type.clone())));
    o.push(("field".to_owned(), Json::Str(v.property.field.clone())));
    o.push(("name".to_owned(), Json::Str(v.property.name.clone())));
    o.push(("icon".to_owned(), Json::Str(v.property.icon.clone())));
    o.push(("value".to_owned(), Json::Num(v.property.value.clone())));
    o.push(("display".to_owned(), Json::Str(v.property.displayed_value.clone())));
    o.push(("percent".to_owned(), Json::Bool(v.property.is_percent)));
    o.push(("count".to_owned(), num_u8(v.count)));
    o.push(("step".to_owned(), num_u8(v.step)));
    proof {
        assert(jobj_of(o) =~= spec_encode_sub_affix(v.deep_view())->Obj_0);
    }
    Json::Obj(o)
}

/// Encodes an array of secondary stat rolls into canonical JSON values.
fn encode_sub_affix_arr(v: &Vec<SubAffix>) -> (r: Vec<Json>)
    ensures
        jarr_of(r) == spec_encode_sub_affix_arr(v.deep_view()),
{
    let mut out: Vec<Json> = Vec::new();
    let mut i: usize = 0;
    while i < v.len()
        invariant
            i <= v.len(),
            out.len() == i,
            forall|k: int|
                0 <= k < i ==> jval_of(#[trigger] out@[k]) == spec_encode_sub_affix(
                    v.deep_view()[k],
                ),
        decreases v.len() - i,
    {
        let e = encode_sub_affix(&v[i]);
        out.push(e);
        i += 1;
    }
    proof {
        assert(jarr_of(out) =~= spec_encode_sub_affix_arr(v.deep_view()));
    }
    out
}

/// Encodes a skill-tree node into its canonical JSON value.
pub fn encode_trace_tree_node(v: &TraceTreeNode) -> (r: Json)
    ensures
        jval_of(r) == spec_encode_trace_tree_node(v.deep_view()),
{
    let mut o: Vec<(String, Json)> = Vec::new();
    o.push(("id".to_owned(), Json::Str(v.id.clone())));
    o.push(("level".to_owned(), num_u8(v.level)));
    o.push(("max_level".to_owned(), num_u8(v.max_level)));
    o.push(("icon".to_owned(), Json::Str(v.icon.clone())));
    o.push(("anchor".to_owned(), Json::Str(v.anchor.clone())));
    o.push(("parent".to_owned(), opt_str_json(&v.parent)));
    proof {
        assert(jobj_of(o) =~= spec_encode_trace_tree_node(v.deep_view())->Obj_0);
    }
    Json::Obj(o)
}

/// Encodes an array of skill-tree nodes into canonical JSON values.
fn encode_trace_tree_node_arr(v: &Vec<TraceTreeNode>) -> (r: Vec<Json>)
    ensures
        jarr_of(r) == spec_encode_trace_tree_node_arr(v.deep_view()),
{
    let mut out: Vec<Json> = Vec::new();
    let mut i: usize = 0;
    while i < v.len()
        invariant
            i <= v.len(),
            out.len() == i,
            forall|k: int|
                0 <= k < i ==> jval_of(#[trigger] out@[k]) == spec_encode_trace_tree_node(
                    v.deep_view()[k],
                ),
        decreases v.len() - i,
    {
        let e = encode_trace_tree_node(&v[i]);
        out.push(e);
        i += 1;
    }
    proof {
        assert(jarr_of(out) =~= spec_encode_trace_tree_node_arr(v.deep_view()));
    }
    out
}

/// Encodes a skill descriptor into its canonical JSON value.
pub fn encode_trace(v: &Trace) -> (r: Json)
    ensures
        jval_of(r) == spec_encode_trace(v.deep_view()),
{
    let mut o: Vec<(String, Json)> = Vec::new();
    o.push(("id".to_owned(), Json::Str(v.id.clone())));
    o.push(("name".to_owned(), Json::Str(v.name.clone())));
    o.push(("level".to_owned(), num_u8(v.level)));
    o.push(("max_level".to_owned(), num_u8(v.max_level)));
    o.push(("element".to_owned(), opt_element_json(&v.element)));
    o.push(("type".to_owned(), Json::Str(v.trace_type.clone())));
    o.push(("type_text".to_owned(), Json::Str(v.type_text.clone())));
    o.push(("effect".to_owned(), Json::Str(v.effect.clone())));
    o.push(("effect_text".to_owned(), Json::Str(v.effect_text.clone())));
    o.push(("simple_desc".to_owned(), Json::Str(v.simple_desc.clone())));
    o.push(("desc".to_owned(), Json::Str(v.desc.clone())));
    o.push(("icon".to_owned(), Json::Str(v.icon.clone())));
    proof {
        assert(jobj_of(o) =~= spec_encode_trace(v.deep_view())->Obj_0);
    }
    Json::Obj(o)
}

/// Encodes an array of skill descriptors into canonical JSON values.
fn encode_trace_arr(v: &Vec<Trace>) -> (r: Vec<Json>)
    ensures
        jarr_of(r) == spec_encode_trace_arr(v.deep_view()),
{
    let mut out: Vec<Json> = Vec::new();
    let mut i: usize = 0;
    while i < v.len()
        invariant
            i <= v.len(),
            out.len() == i,
            forall|k: int|
                0 <= k < i ==> jval_of(#[trigger] out@[k]) == spec_encode_trace(
                    v.deep_view()[k],
                ),
        decreases v.len() - i,
    {
        let e = encode_trace(&v[i]);
        out.push(e);
        i += 1;
    }
    proof {
        assert(jarr_of(out) =~= spec_encode_trace_arr(v.deep_view()));
    }
    out
}

/// Encodes an equipped weapon-like item into its canonical JSON value.
pub fn encode_light_cone(v: &LightCone) -> (r: Json)
    ensures
        jval_of(r) == spec_encode_light_cone(v.deep_view()),
{
    let mut o: Vec<(String, Json)> = Vec::new();
    o.push(("id".to_owned(), Json::Str(v.id.clone())));
    o.push(("name".to_owned(), Json::Str(v.name.clone())));
    o.push(("rarity".to_owned(), num_u8(v.rarity)));
    o.push(("rank".to_owned(), num_u8(v.superimpose)));
    o.push(("level".to_owned(), num_u8(v.level)));
    o.push(("promotion".to_owned(), num_u8(v.ascension)));
    o.push(("icon".to_owned(), Json::Str(v.icon.clone())));
    o.push(("preview".to_owned(), Json::Str(v.preview.clone())));
    o.push(("portrait".to_owned(), Json::Str(v.portrait.clone())));
    o.push(("path".to_owned(), encode_path(&v.path)));
    o.push(("attributes".to_owned(), Json::Arr(encode_attribute_arr(&v.attributes))));
    o.push(("properties".to_owned(), Json::Arr(encode_property_arr(&v.properties))));
    proof {
        assert(jobj_of(o) =~= spec_encode_light_cone(v.deep_view())->Obj_0);
    }
    Json::Obj(o)
}

/// The canonical JSON value of an optional equipped light cone, executable
/// form.
fn opt_light_cone_json(lc: &Option<LightCone>) -> (r: Json)
    ensures
        jval_of(r) == enc_opt_light_cone(lc.deep_view()),
{
    match lc {
        None => Json::Null,
        Some(c) => encode_light_cone(c),
    }
}

/// Encodes an equipped gear piece into its canonical JSON value.
pub fn encode_relic(v: &Relic) -> (r: Json)
    ensures
        jval_of(r) == spec_encode_relic(v.deep_view()),
{
    let mut o: Vec<(String, Json)> = Vec::new();
    o.push(("id".to_owned(), Json::Str(v.id.clone())));
    o.push(("name".to_owned(), Json::Str(v.name.clone())));
    o.push(("set_id".to_owned(), Json::Str(v.set_id.clone())));
    o.push(("set_name".to_owned(), Json::Str(v.set_name.clone())));
    o.push(("rarity".to_owned(), num_u8(v.rarity)));
    o.push(("level".to_owned(), num_u8(v.level)));
    o.push(("main_affix".to_owned(), encode_main_affix(&v.main_affix)));
    o.push(("sub_affix".to_owned(), Json::Arr(encode_sub_affix_arr(&v.sub_affixes))));
    o.push(("icon".to_owned(), Json::Str(v.icon.clone())));
    proof {
        assert(jobj_of(o) =~= spec_encode_relic(v.deep_view())->Obj_0);
    }
    Json::Obj(o)
}

/// Encodes an array of gear pieces into canonical JSON values.
fn encode_relic_arr(v: &Vec<Relic>) -> (r: Vec<Json>)
    ensures
        jarr_of(r) == spec_encode_relic_arr(v.deep_view()),
{
    let mut out: Vec<Json> = Vec::new();
    let mut i: usize = 0;
    while i < v.len()
        invariant
            i <= v.len(),
            out.len() == i,
            forall|k: int|
                0 <= k < i ==> jval_of(#[trigger] out@[k]) == spec_encode_relic(
                    v.deep_view()[k],
                ),
        decreases v.len() - i,
    {
        let e = encode_relic(&v[i]);
        out.push(e);
        i += 1;
    }
    proof {
        assert(jarr_of(out) =~= spec_encode_relic_arr(v.deep_view()));
    }
    out
}

/// Encodes a set-bonus summary into its canonical JSON value.
pub fn encode_relic_set(v: &RelicSet) -> (r: Json)
    ensures
        jval_of(r) == spec_encode_relic_set(v.deep_view()),
{
    let mut o: Vec<(String, Json)> = Vec::new();
    o.push(("id".to_owned(), Json::Str(v.id.clone())));
    o.push(("name".to_owned(), Json::Str(v.name.clone())));
    o.push(("icon".to_owned(), Json::Str(v.icon.clone())));
    o.push(("num".to_owned(), num_u8(v.num)));
    o.push(("desc".to_owned(), Json::Str(v.desc.clone())));
    o.push(("properties".to_owned(), Json::Arr(encode_property_arr(&v.properties))));
    proof {
        assert(jobj_of(o) =~= spec_encode_relic_set(v.deep_view())->Obj_0);
    }
    Json::Obj(o)
}

/// Encodes an array of set-bonus summaries into canonical JSON values.
fn encode_relic_set_arr(v: &Vec<RelicSet>) -> (r: Vec<Json>)
    ensures
        jarr_of(r) == spec_encode_relic_set_arr(v.deep_view()),
{
    let mut out: Vec<Json> = Vec::new();
    let mut i: usize = 0;
    while i < v.len()
        invariant
            i <= v.len(),
            out.len() == i,
            forall|k: int|
                0 <= k < i ==> jval_of(#[trigger] out@[k]) == spec_encode_relic_set(
                    v.deep_view()[k],
                ),
        decreases v.len() - i,
    {
        let e = encode_relic_set(&v[i]);
        out.push(e);
        i += 1;
    }
    proof {
        assert(jarr_of(out) =~= spec_encode_relic_set_arr(v.deep_view()));
    }
    out
}

/// Encodes one playable character into its canonical JSON value.
pub fn encode_character(v: &Character) -> (r: Json)
    ensures
        jval_of(r) == spec_encode_character(v.deep_view()),
{
    let mut o: Vec<(String, Json)> = Vec::new();
    o.push(("id".to_owned(), Json::Str(v.id.clone())));
    o.push(("name".to_owned(), Json::Str(v.name.clone())));
    o.push(("rarity".to_owned(), num_u8(v.rarity)));
    o.push(("level".to_owned(), num_u8(v.level)));
    o.push(("promotion".to_owned(), num_u8(v.ascension)));
    o.push(("rank".to_owned(), num_u8(v.eidolon)));
    o.push(("rank_icons".to_owned(), Json::Arr(encode_strs_arr(&v.eidolon_icons))));
    o.push(("icon".to_owned(), Json::Str(v.icon.clone())));
    o.push(("preview".to_owned(), Json::Str(v.preview.clone())));
    o.push(("portrait".to_owned(), Json::Str(v.portrait.clone())));
    o.push(("path".to_owned(), encode_path(&v.path)));
    o.push(("element".to_owned(), encode_element(&v.element)));
    o.push(("skills".to_owned(), Json::Arr(encode_trace_arr(&v.traces))));
    o.push(("skill_trees".to_owned(), Json::Arr(encode_trace_tree_node_arr(&v.trace_tree))));
    o.push(("light_cone".to_owned(), opt_light_cone_json(&v.light_cone)));
    o.push(("relics".to_owned(), Json::Arr(encode_relic_arr(&v.relics))));
    o.push(("relic_sets".to_owned(), Json::Arr(encode_relic_set_arr(&v.relic_sets))));
    o.push(("attributes".to_owned(), Json::Arr(encode_attribute_arr(&v.attributes))));
    o.push(("additions".to_owned(), Json::Arr(encode_attribute_arr(&v.additions))));
    o.push(("properties".to_owned(), Json::Arr(encode_property_arr(&v.properties))));
    proof {
        assert(jobj_of(o) =~= spec_encode_character(v.deep_view())->Obj_0);
    }
    Json::Obj(o)
}

/// Encodes an array of playable characters into canonical JSON values.
fn encode_character_arr(v: &Vec<Character>) -> (r: Vec<Json>)
    ensures
        jarr_of(r) == spec_encode_character_arr(v.deep_view()),
{
    let mut out: Vec<Json> = Vec::new();
    let mut i: usize = 0;
    while i < v.len()
        invariant
            i <= v.len(),
            out.len() == i,
            forall|k: int|
                0 <= k < i ==> jval_of(#[trigger] out@[k]) == spec_encode_character(
                    v.deep_view()[k],
                ),
        decreases v.len() - i,
    {
        let e = encode_character(&v[i]);
        out.push(e);
        i += 1;
    }
    proof {
        assert(jarr_of(out) =~= spec_encode_character_arr(v.deep_view()));
    }
    out
}

/// Encodes a whole profile snapshot into its canonical JSON value.
pub fn encode_profile(v: &StarRailInfoParsed) -> (r: Json)
    ensures
        jval_of(r) == spec_encode_profile(v.deep_view()),
{
    let mut o: Vec<(String, Json)> = Vec::new();
    o.push(("player".to_owned(), encode_player(&v.player)));
    o.push(("characters".to_owned(), Json::Arr(encode_character_arr(&v.characters))));
    proof {
        assert(jobj_of(o) =~= spec_encode_profile(v.deep_view())->Obj_0);
    }
    Json::Obj(o)
}

} // verus!
