//! Tests of the derived computations: maximum levels, language wire codes
//! and the request URL.

use mihomo::{build_url, Language, LightCone, Path};

fn sample_light_cone(ascension: u8) -> LightCone {
    LightCone {
        id: "20000".to_string(),
        name: "Cornucopia".to_string(),
        rarity: 3,
        superimpose: 1,
        level: 20,
        ascension,
        icon: "lc.png".to_string(),
        preview: "lcp.png".to_string(),
        portrait: "lcpt.png".to_string(),
        path: Path {
            id: "Priest".to_string(),
            name: "Abundance".to_string(),
            icon: "path.png".to_string(),
        },
        attributes: Vec::new(),
        properties: Vec::new(),
    }
}

#[test]
fn light_cone_max_level_follows_ascension() {
    for a in 0u8..=6 {
        let lc = sample_light_cone(a);
        assert_eq!(lc.max_level(), 20 + 10 * a);
    }
    assert_eq!(sample_light_cone(0).max_level(), 20);
    assert_eq!(sample_light_cone(6).max_level(), 80);
}

#[test]
fn character_max_level_follows_ascension() {
    let base = "{\"id\":\"1001\",\"name\":\"March 7th\",\"rarity\":4,\"level\":40,\"promotion\":2,\"rank\":0,\"rank_icons\":[],\"icon\":\"i.png\",\"preview\":\"p.png\",\"portrait\":\"pt.png\",\"path\":{\"id\":\"Knight\",\"name\":\"Preservation\",\"icon\":\"path.png\"},\"element\":{\"id\":\"Ice\",\"name\":\"Ice\",\"color\":\"#47C7FD\",\"icon\":\"ice.png\"},\"skills\":[],\"skill_trees\":[],\"relics\":[],\"relic_sets\":[],\"attributes\":[],\"additions\":[],\"properties\":[]}";
    for a in 0u8..=6 {
        let doc = base.replace("\"promotion\":2", &format!("\"promotion\":{}", a));
        let j = mihomo::parse_json(&doc).unwrap();
        let c = mihomo::decode::decode_character(&j).unwrap();
        assert_eq!(c.ascension, a);
        assert_eq!(c.max_level(), 20 + 10 * a);
    }
}

#[test]
fn language_wire_codes() {
    assert_eq!(Language::CHT.value(), "cht");
    assert_eq!(Language::CHS.value(), "cn");
    assert_eq!(Language::DE.value(), "de");
    assert_eq!(Language::EN.value(), "en");
    assert_eq!(Language::ES.value(), "es");
    assert_eq!(Language::FR.value(), "fr");
    assert_eq!(Language::ID.value(), "id");
    assert_eq!(Language::JP.value(), "jp");
    assert_eq!(Language::KR.value(), "kr");
    assert_eq!(Language::PT.value(), "pt");
    assert_eq!(Language::RU.value(), "ru");
    assert_eq!(Language::TH.value(), "th");
    assert_eq!(Language::VI.value(), "vi");
}

#[test]
fn url_for_english_uid() {
    assert_eq!(
        build_url(800000001, Language::EN),
        "https://api.mihomo.me/sr_info_parsed/800000001?lang=en"
    );
}

#[test]
fn url_for_other_languages_and_uids() {
    assert_eq!(build_url(0, Language::JP), "https://api.mihomo.me/sr_info_parsed/0?lang=jp");
    assert_eq!(
        build_url(4294967295, Language::CHS),
        "https://api.mihomo.me/sr_info_parsed/4294967295?lang=cn"
    );
}
