//! One poll tick: match the tracked server, plan the render and the
//! presence update.

use vstd::prelude::*;
use vstd::string::*;
use crate::directory::FetchError;
use crate::gamemode::{gamemode_abbr, gamemode_abbr_spec};
use crate::mapname::{canonical_map_id, strip_variant_prefix};
use crate::records::BattlebitServer;
use crate::text::{dec_int, i64_to_dec, str_eq};

verus! {

/// The index of the first record whose name equals `name`, in list order.
pub open spec fn first_match(records: Seq<BattlebitServer>, name: Seq<char>) -> Option<int>
    decreases records.len(),
{
    if records.len() == 0 {
        None
    } else if records[0].name@ == name {
        Some(0int)
    } else {
        match first_match(records.drop_first(), name) {
            Some(i) => Some(i + 1),
            None => None,
        }
    }
}

/// `first_match` names a matching record preceded only by non-matches, and
/// is `None` exactly when no record matches.
pub proof fn lemma_first_match_is_first(records: Seq<BattlebitServer>, name: Seq<char>)
    ensures
        match first_match(records, name) {
            Some(i) => 0 <= i < records.len() && records[i].name@ == name && (forall|k: int|
                0 <= k < i ==> records[k].name@ != name),
            None => forall|k: int| 0 <= k < records.len() ==> records[k].name@ != name,
        },
    decreases records.len(),
{
    if records.len() == 0 {
    } else if records[0].name@ == name {
    } else {
        let tail = records.drop_first();
        lemma_first_match_is_first(tail, name);
        match first_match(tail, name) {
            Some(i) => {
                assert(records[i + 1] == tail[i]);
                assert forall|k: int| 0 <= k < i + 1 implies records[k].name@ != name by {
                    if k >= 1 {
                        assert(records[k] == tail[k - 1]);
                    }
                }
            },
            None => {
                assert forall|k: int| 0 <= k < records.len() implies records[k].name@ != name by {
                    if k >= 1 {
                        assert(records[k] == tail[k - 1]);
                    }
                }
            },
        }
    }
}

/// A name that occurs exactly once is found at its one occurrence.
pub proof fn lemma_unique_match_found(records: Seq<BattlebitServer>, name: Seq<char>, j: int)
    requires
        0 <= j < records.len(),
        records[j].name@ == name,
        forall|k: int| 0 <= k < records.len() && k != j ==> records[k].name@ != name,
    ensures
        first_match(records, name) == Some(j),
{
    lemma_first_match_is_first(records, name);
}

/// Scans the list for the tracked server's name; the first exact
/// (case-sensitive) match in list order wins.
pub fn find_server(records: &Vec<BattlebitServer>, name: &str) -> (r: Option<usize>)
    ensures
        match r {
            Some(i) => first_match(records@, name@) == Some(i as int),
            None => first_match(records@, name@) is None,
        },
{
    let mut i: usize = 0;
    while i < records.len()
        invariant
            i <= records@.len(),
            forall|k: int| 0 <= k < i ==> records@[k].name@ != name@,
        decreases records@.len() - i,
    {
        if str_eq(records[i].name.as_str(), name) {
            proof {
                lemma_first_match_is_first(records@, name@);
            }
            return Some(i);
        }
        i += 1;
    }
    proof {
        lemma_first_match_is_first(records@, name@);
    }
    None
}

/// The presence text for a matched record:
/// `"<players>/<max_players> - <canonical map>"`.
pub open spec fn status_text_spec(players: int, max_players: int, map: Seq<char>) -> Seq<char> {
    dec_int(players) + "/"@ + dec_int(max_players) + " - "@ + canonical_map_id(map)
}

/// Builds the presence text from a record's player counts and map name.
pub fn status_text(players: i64, max_players: i64, map: &str) -> (r: String)
    ensures
        r@ == status_text_spec(players as int, max_players as int, map@),
{
    let mut s = i64_to_dec(players);
    s.append("/");
    let max_text = i64_to_dec(max_players);
    s.append(max_text.as_str());
    s.append(" - ");
    let map_id = strip_variant_prefix(map);
    s.append(map_id.as_str());
    proof {
        assert(s@ =~= status_text_spec(players as int, max_players as int, map@));
    }
    s
}

/// The CDN address of the base image for a canonical map identifier.
pub open spec fn asset_url_spec(map_id: Seq<char>) -> Seq<char> {
    "https://cdn.gametools.network/maps/battlebit/"@ + map_id + ".jpg"@
}

/// Builds the CDN address of a canonical map identifier's base image.
pub fn map_asset_url(map_id: &str) -> (r: String)
    ensures
        r@ == asset_url_spec(map_id@),
{
    let mut s = "https://cdn.gametools.network/maps/battlebit/".to_owned();
    s.append(map_id);
    s.append(".jpg");
    proof {
        assert(s@ =~= asset_url_spec(map_id@));
    }
    s
}

/// The fixed presence text published when the tracked server cannot be
/// found, whether the fetch failed or no record matched.
pub open spec fn placeholder_text_spec() -> Seq<char> {
    "\u{af}\\_(\u{30c4})_/\u{af} server not found"@
}

/// The placeholder presence text for a failed tick.
pub fn placeholder_text() -> (r: String)
    ensures
        r@ == placeholder_text_spec(),
{
    "\u{af}\\_(\u{30c4})_/\u{af} server not found".to_owned()
}

/// What the renderer needs for a matched record: the canonical map
/// identifier, where to fetch its base image, and the overlay code to draw.
pub struct RenderPlan {
    pub map_id: String,
    pub asset_url: String,
    pub overlay_text: String,
}

/// The action one poll tick settles on.
pub enum TickPlan {
    /// Publish the built presence text and render the planned image.
    Publish { activity: String, render: RenderPlan },
    /// Set the placeholder presence text; render nothing and leave the
    /// avatar and banner untouched.
    Placeholder { activity: String },
}

/// Decides one tick from the fetch outcome: a matched record plans a publish
/// with its presence text and render inputs; a fetch failure or an unmatched
/// list plans the placeholder.
pub fn plan_tick(fetch: &Result<Vec<BattlebitServer>, FetchError>, server_name: &str) -> (r:
    TickPlan)
    ensures
        match fetch {
            Ok(records) => match first_match(records@, server_name@) {
                Some(i) => r matches TickPlan::Publish { activity, render }
                    && activity@ == status_text_spec(
                    records@[i].players as int,
                    records@[i].max_players as int,
                    records@[i].map@,
                ) && render.map_id@ == canonical_map_id(records@[i].map@)
                    && render.asset_url@ == asset_url_spec(canonical_map_id(records@[i].map@))
                    && render.overlay_text@ == gamemode_abbr_spec(records@[i].gamemode@),
                None => r matches TickPlan::Placeholder { activity } && activity@
                    == placeholder_text_spec(),
            },
            Err(_) => r matches TickPlan::Placeholder { activity } && activity@
                == placeholder_text_spec(),
        },
{
    match fetch {
        Ok(records) => match find_server(records, server_name) {
            Some(i) => {
                proof {
                    lemma_first_match_is_first(records@, server_name@);
                }
                let rec = &records[i];
                let activity = status_text(rec.players, rec.max_players, rec.map.as_str());
                let map_id = strip_variant_prefix(rec.map.as_str());
                let url = map_asset_url(map_id.as_str());
                let overlay = gamemode_abbr(rec.gamemode.as_str());
                TickPlan::Publish {
                    activity,
                    render: RenderPlan { map_id, asset_url: url, overlay_text: overlay },
                }
            },
            None => TickPlan::Placeholder { activity: placeholder_text() },
        },
        Err(_) => TickPlan::Placeholder { activity: placeholder_text() },
    }
}

} // verus!
