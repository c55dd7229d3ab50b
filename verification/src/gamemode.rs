//! Gamemode overlay codes.
//!
//! The overlay drawn onto the status image shows a short code for the
//! server's gamemode. The table below is the fixed lookup the renderer uses;
//! the "GunGameTeam)" key is kept verbatim, trailing parenthesis included,
//! rather than corrected by guesswork against the upstream identifiers.

use vstd::prelude::*;
use vstd::string::*;
use crate::text::str_eq;

verus! {

/// The short overlay code for a gamemode identifier. Identifiers outside the
/// table give the empty code, so the lookup is total: every input yields a
/// string, never a failure.
pub open spec fn gamemode_abbr_spec(g: Seq<char>) -> Seq<char> {
    if g == "CONQ"@ {
        "CQ"@
    } else if g == "FRONTLINE"@ {
        "FL"@
    } else if g == "RUSH"@ {
        "RS"@
    } else if g == "DOMI"@ {
        "DM"@
    } else if g == "TDM"@ {
        "TDM"@
    } else if g == "INFCONQ"@ {
        "IQ"@
    } else if g == "GunGameFFA"@ {
        "GGF"@
    } else if g == "FFA"@ {
        "FFA"@
    } else if g == "GunGameTeam)"@ {
        "GGT"@
    } else if g == "ELI"@ {
        "ELI"@
    } else {
        Seq::<char>::empty()
    }
}

/// Looks up the overlay code for a gamemode identifier.
pub fn gamemode_abbr(g: &str) -> (r: String)
    ensures
        r@ == gamemode_abbr_spec(g@),
{
    if str_eq(g, "CONQ") {
        "CQ".to_owned()
    } else if str_eq(g, "FRONTLINE") {
        "FL".to_owned()
    } else if str_eq(g, "RUSH") {
        "RS".to_owned()
    } else if str_eq(g, "DOMI") {
        "DM".to_owned()
    } else if str_eq(g, "TDM") {
        "TDM".to_owned()
    } else if str_eq(g, "INFCONQ") {
        "IQ".to_owned()
    } else if str_eq(g, "GunGameFFA") {
        "GGF".to_owned()
    } else if str_eq(g, "FFA") {
        "FFA".to_owned()
    } else if str_eq(g, "GunGameTeam)") {
        "GGT".to_owned()
    } else if str_eq(g, "ELI") {
        "ELI".to_owned()
    } else {
        String::new()
    }
}

} // verus!
