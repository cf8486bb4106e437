//! Construction of the request URL for a player's profile snapshot from the
//! player identifier and the language selector.

use vstd::prelude::*;
use crate::lang::{Language, spec_lang_code};
use crate::strutil::{dec_digits, spec_dec_digits, string_from_chars};

verus! {

/// The request URL for a player's profile: the fixed endpoint, the decimal
/// player identifier, and the language's wire code.
pub open spec fn spec_url(uid: u32, l: Language) -> Seq<char> {
    "https://api.mihomo.me/sr_info_parsed/"@ + spec_dec_digits(uid as nat) + "?lang="@
        + spec_lang_code(l)
}

/// Builds the request URL for the given player identifier and language.
pub fn build_url(uid: u32, lang: Language) -> (r: String)
    ensures
        r@ == spec_url(uid, lang),
{
    let mut s = String::new();
    s.append("https://api.mihomo.me/sr_info_parsed/");
    let digits = dec_digits(uid);
    let ds = string_from_chars(&digits);
    s.append(ds.as_str());
    s.append("?lang=");
    s.append(lang.value());
    assert(s@ =~= spec_url(uid, lang));
    s
}

} // verus!
