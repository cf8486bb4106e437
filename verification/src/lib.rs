//! A verified client library for a game-profile API: it composes the request
//! URL for a player's profile snapshot, parses the JSON document the API
//! returns into a fixed typed model, and offers the derived level
//! computations, with every step specified and proved.

pub mod decode;
pub mod encode;
pub mod json;
pub mod lang;
pub mod model;
pub mod parse;
pub mod ser;
pub mod strutil;
pub mod url;

pub use decode::{DecodeError, decode_profile};
pub use encode::encode_profile;
pub use json::Json;
pub use lang::Language;
pub use model::{Attribute, Avatar, Character, Element, ForgottenHall, LightCone, MainAffix, Path,
    Player, Property, Relic, RelicSet, SpaceInfo, StarRailInfoParsed, SubAffix, Trace,
    TraceTreeNode};
pub use parse::{parse_json, parse_profile};
pub use ser::to_json_text;
pub use url::build_url;
