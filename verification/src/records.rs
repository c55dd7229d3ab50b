//! The directory's server records.

use vstd::prelude::*;

verus! {

/// One entry of the remote server directory, with the fields the wire
/// document carries. Records are built per poll from decoded directory
/// responses and discarded after the tick that used them.
#[derive(Clone, Debug, PartialEq)]
pub struct BattlebitServer {
    pub name: String,
    pub map: String,
    pub map_size: String,
    pub gamemode: String,
    pub region: String,
    pub players: i64,
    pub queue_players: i64,
    pub max_players: i64,
    pub hz: i64,
    pub day_night: String,
    pub is_official: bool,
    pub has_password: bool,
    pub anti_cheat: String,
    pub build: String,
}

} // verus!
