//! The typed profile model: the root snapshot, the player, the characters and
//! everything they carry. Each executable struct has a mathematical mirror
//! (its deep view) that the decoding and encoding contracts speak of.
//!
//! A stat's numeric value is carried as its decimal lexeme (the exact
//! characters from the document), beside the pre-formatted display string.

use vstd::prelude::*;

verus! {

/// The root of a profile snapshot: the player and the playable characters.
pub struct StarRailInfoParsed {
    pub player: Player,
    pub characters: Vec<Character>,
}

/// Mathematical mirror of [`StarRailInfoParsed`].
pub struct StarRailInfoParsedV {
    pub player: PlayerV,
    pub characters: Seq<CharacterV>,
}

impl DeepView for StarRailInfoParsed {
    type V = StarRailInfoParsedV;

    open spec fn deep_view(&self) -> StarRailInfoParsedV {
        StarRailInfoParsedV {
            player: self.player.deep_view(),
            characters: self.characters.deep_view(),
        }
    }
}

/// The player's own record.
pub struct Player {
    pub uid: String,
    pub name: String,
    pub level: u8,
    pub world_level: u8,
    pub friend_count: u8,
    pub avatar: Avatar,
    pub signature: String,
    pub is_display: bool,
    pub space_info: SpaceInfo,
}

/// Mathematical mirror of [`Player`].
pub struct PlayerV {
    pub uid: Seq<char>,
    pub name: Seq<char>,
    pub level: u8,
    pub world_level: u8,
    pub friend_count: u8,
    pub avatar: AvatarV,
    pub signature: Seq<char>,
    pub is_display: bool,
    pub space_info: SpaceInfoV,
}

impl DeepView for Player {
    type V = PlayerV;

    open spec fn deep_view(&self) -> PlayerV {
        PlayerV {
            uid: self.uid.deep_view(),
            name: self.name.deep_view(),
            level: self.level,
            world_level: self.world_level,
            friend_count: self.friend_count,
            avatar: self.avatar.deep_view(),
            signature: self.signature.deep_view(),
            is_display: self.is_display,
            space_info: self.space_info.deep_view(),
        }
    }
}

/// The player's profile picture.
pub struct Avatar {
    pub id: String,
    pub name: String,
    pub icon: String,
}

/// Mathematical mirror of [`Avatar`].
pub struct AvatarV {
    pub id: Seq<char>,
    pub name: Seq<char>,
    pub icon: Seq<char>,
}

impl DeepView for Avatar {
    type V = AvatarV;

    open spec fn deep_view(&self) -> AvatarV {
        AvatarV {
            id: self.id.deep_view(),
            name: self.name.deep_view(),
            icon: self.icon.deep_view(),
        }
    }
}

/// Aggregate progress counters of the player's account.
pub struct SpaceInfo {
    pub memory_data: ForgottenHall,
    pub universe_level: u8,
    pub avatar_count: u16,
    pub light_cone_count: u16,
    pub relic_count: u16,
    pub achievement_count: u16,
    pub book_count: u16,
    pub music_count: u16,
}

/// Mathematical mirror of [`SpaceInfo`].
pub struct SpaceInfoV {
    pub memory_data: ForgottenHallV,
    pub universe_level: u8,
    pub avatar_count: u16,
    pub light_cone_count: u16,
    pub relic_count: u16,
    pub achievement_count: u16,
    pub book_count: u16,
    pub music_count: u16,
}

impl DeepView for SpaceInfo {
    type V = SpaceInfoV;

    open spec fn deep_view(&self) -> SpaceInfoV {
        SpaceInfoV {
            memory_data: self.memory_data.deep_view(),
            universe_level: self.universe_level,
            avatar_count: self.avatar_count,
            light_cone_count: self.light_cone_count,
            relic_count: self.relic_count,
            achievement_count: self.achievement_count,
            book_count: self.book_count,
            music_count: self.music_count,
        }
    }
}

/// A challenge-mode progress summary. The secondary-mode identifier may be
/// absent.
pub struct ForgottenHall {
    pub level: u8,
    pub chaos_id: Option<String>,
    pub chaos_level: u8,
    pub chaos_star_count: u8,
}

/// Mathematical mirror of [`ForgottenHall`].
pub struct ForgottenHallV {
    pub level: u8,
    pub chaos_id: Option<Seq<char>>,
    pub chaos_level: u8,
    pub chaos_star_count: u8,
}

impl DeepView for ForgottenHall {
    type V = ForgottenHallV;

    open spec fn deep_view(&self) -> ForgottenHallV {
        ForgottenHallV {
            level: self.level,
            chaos_id: self.chaos_id.deep_view(),
            chaos_level: self.chaos_level,
            chaos_star_count: self.chaos_star_count,
        }
    }
}

/// One playable character, with everything equipped on it. The equipped
/// light cone may be absent.
pub struct Character {
    pub id: String,
    pub name: String,
    pub rarity: u8,
    pub level: u8,
    pub ascension: u8,
    pub eidolon: u8,
    pub eidolon_icons: Vec<String>,
    pub icon: String,
    pub preview: String,
    pub portrait: String,
    pub path: Path,
    pub element: Element,
    pub traces: Vec<Trace>,
    pub trace_tree: Vec<TraceTreeNode>,
    pub light_cone: Option<LightCone>,
    pub relics: Vec<Relic>,
    pub relic_sets: Vec<RelicSet>,
    pub attributes: Vec<Attribute>,
    pub additions: Vec<Attribute>,
    pub properties: Vec<Property>,
}

/// Mathematical mirror of [`Character`].
pub struct CharacterV {
    pub id: Seq<char>,
    pub name: Seq<char>,
    pub rarity: u8,
    pub level: u8,
    pub ascension: u8,
    pub eidolon: u8,
    pub eidolon_icons: Seq<Seq<char>>,
    pub icon: Seq<char>,
    pub preview: Seq<char>,
    pub portrait: Seq<char>,
    pub path: PathV,
    pub element: ElementV,
    pub traces: Seq<TraceV>,
    pub trace_tree: Seq<TraceTreeNodeV>,
    pub light_cone: Option<LightConeV>,
    pub relics: Seq<RelicV>,
    pub relic_sets: Seq<RelicSetV>,
    pub attributes: Seq<AttributeV>,
    pub additions: Seq<AttributeV>,
    pub properties: Seq<PropertyV>,
}

impl DeepView for Character {
    type V = CharacterV;

    open spec fn deep_view(&self) -> CharacterV {
        CharacterV {
            id: self.id.deep_view(),
            name: self.name.deep_view(),
            rarity: self.rarity,
            level: self.level,
            ascension: self.ascension,
            eidolon: self.eidolon,
            eidolon_icons: self.eidolon_icons.deep_view(),
            icon: self.icon.deep_view(),
            preview: self.preview.deep_view(),
            portrait: self.portrait.deep_view(),
            path: self.path.deep_view(),
            element: self.element.deep_view(),
            traces: self.traces.deep_view(),
            trace_tree: self.trace_tree.deep_view(),
            light_cone: self.light_cone.deep_view(),
            relics: self.relics.deep_view(),
            relic_sets: self.relic_sets.deep_view(),
            attributes: self.attributes.deep_view(),
            additions: self.additions.deep_view(),
            properties: self.properties.deep_view(),
        }
    }
}

impl Character {
    /// The maximum level this character can reach at its ascension tier:
    /// twenty, plus ten for each tier.
    pub fn max_level(&self) -> (r: u8)
        requires
            self.ascension <= 23,
        ensures
            r == 20 + 10 * (self.ascension as int),
    {
        20 + 10 * self.ascension
    }
}

/// A class or role descriptor.
pub struct Path {
    pub id: String,
    pub name: String,
    pub icon: String,
}

/// Mathematical mirror of [`Path`].
pub struct PathV {
    pub id: Seq<char>,
    pub name: Seq<char>,
    pub icon: Seq<char>,
}

impl DeepView for Path {
    type V = PathV;

    open spec fn deep_view(&self) -> PathV {
        PathV {
            id: self.id.deep_view(),
            name: self.name.deep_view(),
            icon: self.icon.deep_view(),
        }
    }
}

/// A damage-type descriptor.
pub struct Element {
    pub id: String,
    pub name: String,
    pub color: String,
    pub icon: String,
}

/// Mathematical mirror of [`Element`].
pub struct ElementV {
    pub id: Seq<char>,
    pub name: Seq<char>,
    pub color: Seq<char>,
    pub icon: Seq<char>,
}

impl DeepView for Element {
    type V = ElementV;

    open spec fn deep_view(&self) -> ElementV {
        ElementV {
            id: self.id.deep_view(),
            name: self.name.deep_view(),
            color: self.color.deep_view(),
            icon: self.icon.deep_view(),
        }
    }
}

/// An active or passive skill descriptor. The element override may be
/// absent.
pub struct Trace {
    pub id: String,
    pub name: String,
    pub level: u8,
    pub max_level: u8,
    pub element: Option<Element>,
    pub trace_type: String,
    pub type_text: String,
    pub effect: String,
    pub effect_text: String,
    pub simple_desc: String,
    pub desc: String,
    pub icon: String,
}

/// Mathematical mirror of [`Trace`].
pub struct TraceV {
    pub id: Seq<char>,
    pub name: Seq<char>,
    pub level: u8,
    pub max_level: u8,
    pub element: Option<ElementV>,
    pub trace_type: Seq<char>,
    pub type_text: Seq<char>,
    pub effect: Seq<char>,
    pub effect_text: Seq<char>,
    pub simple_desc: Seq<char>,
    pub desc: Seq<char>,
    pub icon: Seq<char>,
}

impl DeepView for Trace {
    type V = TraceV;

    open spec fn deep_view(&self) -> TraceV {
        TraceV {
            id: self.id.deep_view(),
            name: self.name.deep_view(),
            level: self.level,
            max_level: self.max_level,
            element: self.element.deep_view(),
            trace_type: self.trace_type.deep_view(),
            type_text: self.type_text.deep_view(),
            effect: self.effect.deep_view(),
            effect_text: self.effect_text.deep_view(),
            simple_desc: self.simple_desc.deep_view(),
            desc: self.desc.deep_view(),
            icon: self.icon.deep_view(),
        }
    }
}

/// A skill-tree upgrade node. The parent link may be absent (a root node).
pub struct TraceTreeNode {
    pub id: String,
    pub level: u8,
    pub max_level: u8,
    pub icon: String,
    pub anchor: String,
    pub parent: Option<String>,
}

/// Mathematical mirror of [`TraceTreeNode`].
pub struct TraceTreeNodeV {
    pub id: Seq<char>,
    pub level: u8,
    pub max_level: u8,
    pub icon: Seq<char>,
    pub anchor: Seq<char>,
    pub parent: Option<Seq<char>>,
}

impl DeepView for TraceTreeNode {
    type V = TraceTreeNodeV;

    open spec fn deep_view(&self) -> TraceTreeNodeV {
        TraceTreeNodeV {
            id: self.id.deep_view(),
            level: self.level,
            max_level: self.max_level,
            icon: self.icon.deep_view(),
            anchor: self.anchor.deep_view(),
            parent: self.parent.deep_view(),
        }
    }
}

/// An equipped weapon-like item.
pub struct LightCone {
    pub id: String,
    pub name: String,
    pub rarity: u8,
    pub superimpose: u8,
    pub level: u8,
    pub ascension: u8,
    pub icon: String,
    pub preview: String,
    pub portrait: String,
    pub path: Path,
    pub attributes: Vec<Attribute>,
    pub properties: Vec<Property>,
}

/// Mathematical mirror of [`LightCone`].
pub struct LightConeV {
    pub id: Seq<char>,
    pub name: Seq<char>,
    pub rarity: u8,
    pub superimpose: u8,
    pub level: u8,
    pub ascension: u8,
    pub icon: Seq<char>,
    pub preview: Seq<char>,
    pub portrait: Seq<char>,
    pub path: PathV,
    pub attributes: Seq<AttributeV>,
    pub properties: Seq<PropertyV>,
}

impl DeepView for LightCone {
    type V = LightConeV;

    open spec fn deep_view(&self) -> LightConeV {
        LightConeV {
            id: self.id.deep_view(),
            name: self.name.deep_view(),
            rarity: self.rarity,
            superimpose: self.superimpose,
            level: self.level,
            ascension: self.ascension,
            icon: self.icon.deep_view(),
            preview: self.preview.deep_view(),
            portrait: self.portrait.deep_view(),
            path: self.path.deep_view(),
            attributes: self.attributes.deep_view(),
            properties: self.properties.deep_view(),
        }
    }
}

impl LightCone {
    /// The maximum level this light cone can reach at its ascension tier:
    /// twenty, plus ten for each tier.
    pub fn max_level(&self) -> (r: u8)
        requires
            self.ascension <= 23,
        ensures
            r == 20 + 10 * (self.ascension as int),
    {
        20 + 10 * self.ascension
    }
}

/// An equipped gear piece.
pub struct Relic {
    pub id: String,
    pub name: String,
    pub set_id: String,
    pub set_name: String,
    pub rarity: u8,
    pub level: u8,
    pub main_affix: MainAffix,
    pub sub_affixes: Vec<SubAffix>,
    pub icon: String,
}

/// Mathematical mirror of [`Relic`].
pub struct RelicV {
    pub id: Seq<char>,
    pub name: Seq<char>,
    pub set_id: Seq<char>,
    pub set_name: Seq<char>,
    pub rarity: u8,
    pub level: u8,
    pub main_affix: MainAffixV,
    pub sub_affixes: Seq<SubAffixV>,
    pub icon: Seq<char>,
}

impl DeepView for Relic {
    type V = RelicV;

    open spec fn deep_view(&self) -> RelicV {
        RelicV {
            id: self.id.deep_view(),
            name: self.name.deep_view(),
            set_id: self.set_id.deep_view(),
            set_name: self.set_name.deep_view(),
            rarity: self.rarity,
            level: self.level,
            main_affix: self.main_affix.deep_view(),
            sub_affixes: self.sub_affixes.deep_view(),
            icon: self.icon.deep_view(),
        }
    }
}

/// A set-bonus summary for the equipped gear of one set.
pub struct RelicSet {
    pub id: String,
    pub name: String,
    pub icon: String,
    pub num: u8,
    pub desc: String,
    pub properties: Vec<Property>,
}

/// Mathematical mirror of [`RelicSet`].
pub struct RelicSetV {
    pub id: Seq<char>,
    pub name: Seq<char>,
    pub icon: Seq<char>,
    pub num: u8,
    pub desc: Seq<char>,
    pub properties: Seq<PropertyV>,
}

impl DeepView for RelicSet {
    type V = RelicSetV;

    open spec fn deep_view(&self) -> RelicSetV {
        RelicSetV {
            id: self.id.deep_view(),
            name: self.name.deep_view(),
            icon: self.icon.deep_view(),
            num: self.num,
            desc: self.desc.deep_view(),
            properties: self.properties.deep_view(),
        }
    }
}

/// A base stat entry. The numeric value is carried as its decimal lexeme.
pub struct Attribute {
    pub field: String,
    pub name: String,
    pub icon: String,
    pub value: String,
    pub displayed_value: String,
    pub is_percent: bool,
}

/// Mathematical mirror of [`Attribute`].
pub struct AttributeV {
    pub field: Seq<char>,
    pub name: Seq<char>,
    pub icon: Seq<char>,
    pub value: Seq<char>,
    pub displayed_value: Seq<char>,
    pub is_percent: bool,
}

impl DeepView for Attribute {
    type V = AttributeV;

    open spec fn deep_view(&self) -> AttributeV {
        AttributeV {
            field: self.field.deep_view(),
            name: self.name.deep_view(),
            icon: self.icon.deep_view(),
            value: self.value.deep_view(),
            displayed_value: self.displayed_value.deep_view(),
            is_percent: self.is_percent,
        }
    }
}

/// A computed combat stat entry: an [`Attribute`] shape plus a property-type
/// classifier. The numeric value is carried as its decimal lexeme.
pub struct Property {
    pub property_type: String,
    pub field: String,
    pub name: String,
    pub icon: String,
    pub value: String,
    pub displayed_value: String,
    pub is_percent: bool,
}

/// Mathematical mirror of [`Property`].
pub struct PropertyV {
    pub property_type: Seq<char>,
    pub field: Seq<char>,
    pub name: Seq<char>,
    pub icon: Seq<char>,
    pub value: Seq<char>,
    pub displayed_value: Seq<char>,
    pub is_percent: bool,
}

impl DeepView for Property {
    type V = PropertyV;

    open spec fn deep_view(&self) -> PropertyV {
        PropertyV {
            property_type: self.property_type.deep_view(),
            field: self.field.deep_view(),
            name: self.name.deep_view(),
            icon: self.icon.deep_view(),
            value: self.value.deep_view(),
            displayed_value: self.displayed_value.deep_view(),
            is_percent: self.is_percent,
        }
    }
}

/// A relic's primary stat roll: a stat entry whose fields stand directly in
/// the relic's object on the wire.
pub struct MainAffix {
    pub property: Property,
}

/// Mathematical mirror of [`MainAffix`].
pub struct MainAffixV {
    pub property: PropertyV,
}

impl DeepView for MainAffix {
    type V = MainAffixV;

    open spec fn deep_view(&self) -> MainAffixV {
        MainAffixV { property: self.property.deep_view() }
    }
}

/// A relic's secondary stat roll: a stat entry plus the roll count and roll
/// step.
pub struct SubAffix {
    pub property: Property,
    pub count: u8,
    pub step: u8,
}

/// Mathematical mirror of [`SubAffix`].
pub struct SubAffixV {
    pub property: PropertyV,
    pub count: u8,
    pub step: u8,
}

impl DeepView for SubAffix {
    type V = SubAffixV;

    open spec fn deep_view(&self) -> SubAffixV {
        SubAffixV { property: self.property.deep_view(), count: self.count, step: self.step }
    }
}

} // verus!
