//! End-to-end tests of parsing, decoding and re-serialization.

use mihomo::{parse_json, parse_profile, to_json_text, DecodeError, Json};

/// A minimal, canonically formatted profile document: no whitespace,
/// canonical numbers, one character with ascension 2 and no light cone.
const SAMPLE: &str = "{\"player\":{\"uid\":\"800000001\",\"nickname\":\"Trailblazer\",\"level\":60,\"world_level\":6,\"friend_count\":10,\"avatar\":{\"id\":\"200001\",\"name\":\"Pom\",\"icon\":\"icon/avatar/200001.png\"},\"signature\":\"hello\",\"is_display\":true,\"space_info\":{\"memory_data\":{\"level\":10,\"chaos_id\":null,\"chaos_level\":5,\"chaos_star_count\":20},\"universe_level\":6,\"avatar_count\":30,\"light_cone_count\":40,\"relic_count\":200,\"achievement_count\":300,\"book_count\":50,\"music_count\":60}},\"characters\":[{\"id\":\"1001\",\"name\":\"March 7th\",\"rarity\":4,\"level\":40,\"promotion\":2,\"rank\":0,\"rank_icons\":[],\"icon\":\"i.png\",\"preview\":\"p.png\",\"portrait\":\"pt.png\",\"path\":{\"id\":\"Knight\",\"name\":\"Preservation\",\"icon\":\"path.png\"},\"element\":{\"id\":\"Ice\",\"name\":\"Ice\",\"color\":\"#47C7FD\",\"icon\":\"ice.png\"},\"skills\":[],\"skill_trees\":[],\"relics\":[],\"relic_sets\":[],\"attributes\":[],\"additions\":[],\"properties\":[]}]}";

#[test]
fn sample_parses() {
    let snap = parse_profile(SAMPLE).unwrap();
    assert_eq!(snap.player.uid, "800000001");
    assert_eq!(snap.player.name, "Trailblazer");
    assert_eq!(snap.player.level, 60);
    assert_eq!(snap.player.world_level, 6);
    assert_eq!(snap.player.friend_count, 10);
    assert_eq!(snap.player.avatar.id, "200001");
    assert_eq!(snap.player.signature, "hello");
    assert!(snap.player.is_display);
    assert_eq!(snap.player.space_info.memory_data.level, 10);
    assert_eq!(snap.player.space_info.memory_data.chaos_level, 5);
    assert_eq!(snap.player.space_info.memory_data.chaos_star_count, 20);
    assert_eq!(snap.player.space_info.universe_level, 6);
    assert_eq!(snap.player.space_info.relic_count, 200);
    assert_eq!(snap.characters.len(), 1);
    let c = &snap.characters[0];
    assert_eq!(c.id, "1001");
    assert_eq!(c.name, "March 7th");
    assert_eq!(c.rarity, 4);
    assert_eq!(c.level, 40);
    assert_eq!(c.ascension, 2);
    assert_eq!(c.eidolon, 0);
    assert!(c.eidolon_icons.is_empty());
    assert_eq!(c.path.name, "Preservation");
    assert_eq!(c.element.color, "#47C7FD");
    assert!(c.traces.is_empty());
    assert!(c.trace_tree.is_empty());
    assert!(c.relics.is_empty());
    assert!(c.relic_sets.is_empty());
}

#[test]
fn minimal_character_max_level_and_no_light_cone() {
    let snap = parse_profile(SAMPLE).unwrap();
    let c = &snap.characters[0];
    assert!(c.light_cone.is_none());
    assert_eq!(c.max_level(), 40);
}

#[test]
fn round_trip_preserves_canonical_text() {
    let j = parse_json(SAMPLE).unwrap();
    let text = to_json_text(&j);
    assert_eq!(text, SAMPLE);
}

#[test]
fn round_trip_agrees_with_reference_parser() {
    let j = parse_json(SAMPLE).unwrap();
    let text = to_json_text(&j);
    let a: serde_json::Value = serde_json::from_str(SAMPLE).unwrap();
    let b: serde_json::Value = serde_json::from_str(&text).unwrap();
    assert_eq!(a, b);
}

#[test]
fn chaos_id_absent_and_null_both_decode_absent() {
    let with_null = SAMPLE;
    let snap = parse_profile(with_null).unwrap();
    assert!(snap.player.space_info.memory_data.chaos_id.is_none());
    let absent = SAMPLE.replace("\"chaos_id\":null,", "");
    let snap2 = parse_profile(&absent).unwrap();
    assert!(snap2.player.space_info.memory_data.chaos_id.is_none());
}

#[test]
fn chaos_id_present_decodes_present() {
    let present = SAMPLE.replace("\"chaos_id\":null", "\"chaos_id\":\"ch1\"");
    let snap = parse_profile(&present).unwrap();
    assert_eq!(snap.player.space_info.memory_data.chaos_id.as_deref(), Some("ch1"));
}

#[test]
fn light_cone_null_decodes_absent() {
    let with_null = SAMPLE.replace("\"rank_icons\":[]", "\"light_cone\":null,\"rank_icons\":[]");
    let snap = parse_profile(&with_null).unwrap();
    assert!(snap.characters[0].light_cone.is_none());
}

#[test]
fn missing_required_field_fails() {
    let broken = SAMPLE.replace("\"uid\":\"800000001\",", "");
    assert!(matches!(parse_profile(&broken), Err(DecodeError::Shape)));
}

#[test]
fn wrong_shape_field_fails() {
    let broken = SAMPLE.replace("\"uid\":\"800000001\"", "\"uid\":800000001");
    assert!(matches!(parse_profile(&broken), Err(DecodeError::Shape)));
    let broken2 = SAMPLE.replace("\"level\":60", "\"level\":\"60\"");
    assert!(matches!(parse_profile(&broken2), Err(DecodeError::Shape)));
}

#[test]
fn out_of_range_number_fails() {
    let broken = SAMPLE.replace("\"level\":60", "\"level\":300");
    assert!(matches!(parse_profile(&broken), Err(DecodeError::Shape)));
}

#[test]
fn malformed_json_fails_with_syntax() {
    assert!(matches!(parse_profile(""), Err(DecodeError::Syntax)));
    assert!(matches!(parse_profile("{"), Err(DecodeError::Syntax)));
    assert!(matches!(parse_profile("not json"), Err(DecodeError::Syntax)));
    assert!(matches!(parse_profile("{\"player\":}"), Err(DecodeError::Syntax)));
    assert!(matches!(parse_profile("[1,]"), Err(DecodeError::Syntax)));
    assert!(matches!(parse_profile("{} trailing"), Err(DecodeError::Syntax)));
}

#[test]
fn json_that_is_not_an_object_fails_with_shape() {
    assert!(matches!(parse_profile("[]"), Err(DecodeError::Shape)));
    assert!(matches!(parse_profile("null"), Err(DecodeError::Shape)));
    assert!(matches!(parse_profile("42"), Err(DecodeError::Shape)));
}

#[test]
fn parse_json_reads_scalars() {
    assert!(matches!(parse_json("null"), Ok(Json::Null)));
    assert!(matches!(parse_json("true"), Ok(Json::Bool(true))));
    assert!(matches!(parse_json("false"), Ok(Json::Bool(false))));
    match parse_json("-12.5e3").unwrap() {
        Json::Num(s) => assert_eq!(s, "-12.5e3"),
        _ => panic!("expected a number"),
    }
    match parse_json("  \"a b\"  ").unwrap() {
        Json::Str(s) => assert_eq!(s, "a b"),
        _ => panic!("expected a string"),
    }
}

#[test]
fn parse_json_rejects_bad_numbers() {
    assert!(parse_json("01").is_err());
    assert!(parse_json("1.").is_err());
    assert!(parse_json("+1").is_err());
    assert!(parse_json("1e").is_err());
    assert!(parse_json("-").is_err());
}

#[test]
fn parse_json_reads_escapes() {
    match parse_json("\"a\\n\\t\\\\\\\"\\u0041\"").unwrap() {
        Json::Str(s) => assert_eq!(s, "a\n\t\\\"A"),
        _ => panic!("expected a string"),
    }
    match parse_json("\"\\ud83d\\ude00\"").unwrap() {
        Json::Str(s) => assert_eq!(s, "\u{1F600}"),
        _ => panic!("expected a string"),
    }
    assert!(parse_json("\"\\ud83d\"").is_err());
    assert!(parse_json("\"\\x\"").is_err());
}

#[test]
fn serializer_escapes_controls_and_quotes() {
    let j = parse_json("\"a\\n\\\"b\\\\\"").unwrap();
    let text = to_json_text(&j);
    assert_eq!(text, "\"a\\u000a\\\"b\\\\\"");
    let back = parse_json(&text).unwrap();
    match back {
        Json::Str(s) => assert_eq!(s, "a\n\"b\\"),
        _ => panic!("expected a string"),
    }
}

#[test]
fn duplicate_keys_take_first() {
    let doc = SAMPLE.replace(
        "\"signature\":\"hello\"",
        "\"signature\":\"hello\",\"signature\":\"later\"",
    );
    let snap = parse_profile(&doc).unwrap();
    assert_eq!(snap.player.signature, "hello");
}

#[test]
fn unknown_fields_are_ignored() {
    let doc = SAMPLE.replace(
        "\"signature\":\"hello\"",
        "\"something_else\":[1,2,3],\"signature\":\"hello\"",
    );
    let snap = parse_profile(&doc).unwrap();
    assert_eq!(snap.player.signature, "hello");
}

#[test]
fn deep_nesting_is_rejected() {
    let mut doc = String::new();
    for _ in 0..200 {
        doc.push('[');
    }
    for _ in 0..200 {
        doc.push(']');
    }
    assert!(matches!(parse_json(&doc), Err(DecodeError::Syntax)));
    let mut ok_doc = String::new();
    for _ in 0..50 {
        ok_doc.push('[');
    }
    for _ in 0..50 {
        ok_doc.push(']');
    }
    assert!(parse_json(&ok_doc).is_ok());
}

#[test]
fn model_reencodes_to_canonical_text() {
    let doc = SAMPLE.replace("\"relics\":[]", "\"light_cone\":null,\"relics\":[]");
    let snap = parse_profile(&doc).unwrap();
    let reencoded = mihomo::encode_profile(&snap);
    assert_eq!(to_json_text(&reencoded), doc);
}

/// A canonically formatted document that exercises every record of the
/// schema: traces with an element, tree nodes with and without a parent, an
/// equipped light cone, relics with both affix kinds, and set bonuses.
const RICH: &str = "{\"player\":{\"uid\":\"800000001\",\"nickname\":\"Trailblazer\",\"level\":60,\"world_level\":6,\"friend_count\":10,\"avatar\":{\"id\":\"200001\",\"name\":\"Pom\",\"icon\":\"icon/avatar/200001.png\"},\"signature\":\"hello\",\"is_display\":true,\"space_info\":{\"memory_data\":{\"level\":10,\"chaos_id\":\"ch100\",\"chaos_level\":5,\"chaos_star_count\":20},\"universe_level\":6,\"avatar_count\":30,\"light_cone_count\":40,\"relic_count\":200,\"achievement_count\":300,\"book_count\":50,\"music_count\":60}},\"characters\":[{\"id\":\"1001\",\"name\":\"March 7th\",\"rarity\":4,\"level\":80,\"promotion\":6,\"rank\":3,\"rank_icons\":[\"e1.png\",\"e2.png\"],\"icon\":\"i.png\",\"preview\":\"p.png\",\"portrait\":\"pt.png\",\"path\":{\"id\":\"Knight\",\"name\":\"Preservation\",\"icon\":\"path.png\"},\"element\":{\"id\":\"Ice\",\"name\":\"Ice\",\"color\":\"#47C7FD\",\"icon\":\"ice.png\"},\"skills\":[{\"id\":\"t1\",\"name\":\"Frigid Cold Arrow\",\"level\":1,\"max_level\":6,\"element\":{\"id\":\"Ice\",\"name\":\"Ice\",\"color\":\"#47C7FD\",\"icon\":\"ice.png\"},\"type\":\"Normal\",\"type_text\":\"Basic ATK\",\"effect\":\"SingleAttack\",\"effect_text\":\"Single Target\",\"simple_desc\":\"Deals minor damage.\",\"desc\":\"Deals Ice DMG.\",\"icon\":\"t.png\"}],\"skill_trees\":[{\"id\":\"n0\",\"level\":1,\"max_level\":1,\"icon\":\"n0.png\",\"anchor\":\"Point01\",\"parent\":null},{\"id\":\"n1\",\"level\":5,\"max_level\":10,\"icon\":\"n1.png\",\"anchor\":\"Point06\",\"parent\":\"n0\"}],\"light_cone\":{\"id\":\"21000\",\"name\":\"Amber\",\"rarity\":3,\"rank\":2,\"level\":60,\"promotion\":6,\"icon\":\"lc.png\",\"preview\":\"lcp.png\",\"portrait\":\"lcpt.png\",\"path\":{\"id\":\"Knight\",\"name\":\"Preservation\",\"icon\":\"path.png\"},\"attributes\":[{\"field\":\"hp\",\"name\":\"HP\",\"icon\":\"a.png\",\"value\":1474.2,\"display\":\"1474\",\"percent\":false}],\"properties\":[{\"type\":\"CriticalChanceBase\",\"field\":\"crit_rate\",\"name\":\"CRIT Rate\",\"icon\":\"c.png\",\"value\":0.05,\"display\":\"5.0%\",\"percent\":true}]},\"relics\":[{\"id\":\"61011\",\"name\":\"Helm\",\"set_id\":\"101\",\"set_name\":\"Band\",\"rarity\":5,\"level\":15,\"main_affix\":{\"type\":\"CriticalChanceBase\",\"field\":\"crit_rate\",\"name\":\"CRIT Rate\",\"icon\":\"c.png\",\"value\":0.05,\"display\":\"5.0%\",\"percent\":true},\"sub_affix\":[{\"type\":\"HPDelta\",\"field\":\"hp\",\"name\":\"HP\",\"icon\":\"a.png\",\"value\":114.0,\"display\":\"114\",\"percent\":false,\"count\":2,\"step\":1}],\"icon\":\"r.png\"}],\"relic_sets\":[{\"id\":\"101\",\"name\":\"Band\",\"icon\":\"rs.png\",\"num\":2,\"desc\":\"Raises ATK.\",\"properties\":[{\"type\":\"CriticalChanceBase\",\"field\":\"crit_rate\",\"name\":\"CRIT Rate\",\"icon\":\"c.png\",\"value\":0.05,\"display\":\"5.0%\",\"percent\":true}]}],\"attributes\":[{\"field\":\"hp\",\"name\":\"HP\",\"icon\":\"a.png\",\"value\":1474.2,\"display\":\"1474\",\"percent\":false}],\"additions\":[{\"field\":\"hp\",\"name\":\"HP\",\"icon\":\"a.png\",\"value\":1474.2,\"display\":\"1474\",\"percent\":false}],\"properties\":[{\"type\":\"CriticalChanceBase\",\"field\":\"crit_rate\",\"name\":\"CRIT Rate\",\"icon\":\"c.png\",\"value\":0.05,\"display\":\"5.0%\",\"percent\":true}]}]}";

#[test]
fn rich_document_decodes_fully() {
    let snap = parse_profile(RICH).unwrap();
    assert_eq!(snap.player.space_info.memory_data.chaos_id.as_deref(), Some("ch100"));
    let c = &snap.characters[0];
    assert_eq!(c.eidolon, 3);
    assert_eq!(c.eidolon_icons, vec!["e1.png".to_string(), "e2.png".to_string()]);
    let t = &c.traces[0];
    assert_eq!(t.trace_type, "Normal");
    assert_eq!(t.element.as_ref().unwrap().id, "Ice");
    assert!(c.trace_tree[0].parent.is_none());
    assert_eq!(c.trace_tree[1].parent.as_deref(), Some("n0"));
    let lc = c.light_cone.as_ref().unwrap();
    assert_eq!(lc.superimpose, 2);
    assert_eq!(lc.ascension, 6);
    assert_eq!(lc.max_level(), 80);
    assert_eq!(lc.attributes[0].value, "1474.2");
    assert_eq!(lc.attributes[0].displayed_value, "1474");
    assert!(!lc.attributes[0].is_percent);
    let r = &c.relics[0];
    assert_eq!(r.main_affix.property.property_type, "CriticalChanceBase");
    assert_eq!(r.main_affix.property.value, "0.05");
    assert!(r.main_affix.property.is_percent);
    assert_eq!(r.sub_affixes[0].count, 2);
    assert_eq!(r.sub_affixes[0].step, 1);
    assert_eq!(c.relic_sets[0].num, 2);
    assert_eq!(c.relic_sets[0].properties[0].field, "crit_rate");
    assert_eq!(c.max_level(), 80);
}

#[test]
fn rich_document_round_trips_through_the_model() {
    let snap = parse_profile(RICH).unwrap();
    let reencoded = mihomo::encode_profile(&snap);
    assert_eq!(to_json_text(&reencoded), RICH);
}

#[test]
fn trace_element_absent_and_null_decode_absent() {
    let without = "{\"id\":\"t1\",\"name\":\"Arrow\",\"level\":1,\"max_level\":6,\"type\":\"Normal\",\"type_text\":\"Basic ATK\",\"effect\":\"SingleAttack\",\"effect_text\":\"Single Target\",\"simple_desc\":\"s\",\"desc\":\"d\",\"icon\":\"t.png\"}";
    let j = parse_json(without).unwrap();
    let t = mihomo::decode::decode_trace(&j).unwrap();
    assert!(t.element.is_none());
    let with_null = without.replace("\"type\":\"Normal\"", "\"element\":null,\"type\":\"Normal\"");
    let j2 = parse_json(&with_null).unwrap();
    let t2 = mihomo::decode::decode_trace(&j2).unwrap();
    assert!(t2.element.is_none());
}

#[test]
fn tree_node_parent_absent_decodes_absent() {
    let without = "{\"id\":\"n1\",\"level\":1,\"max_level\":5,\"icon\":\"n.png\",\"anchor\":\"Point01\"}";
    let j = parse_json(without).unwrap();
    let n = mihomo::decode::decode_trace_tree_node(&j).unwrap();
    assert!(n.parent.is_none());
}
