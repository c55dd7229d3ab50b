//! The resolved process configuration the core consumes.

use vstd::prelude::*;

verus! {

/// The tracked-server configuration: the bot token, the exact name the
/// matcher looks for, and whether the banner image is published alongside
/// the avatar. Loading and merging with environment overrides happens in the
/// surrounding application; the core only reads a resolved value.
#[derive(Clone, Debug)]
pub struct Static {
    pub token: String,
    pub server_name: String,
    pub set_banner_image: bool,
}

impl Default for Static {
    /// Empty token and server name; banner publishing enabled.
    fn default() -> (r: Self)
        ensures
            r.token@ == Seq::<char>::empty(),
            r.server_name@ == Seq::<char>::empty(),
            r.set_banner_image == true,
    {
        Static { token: String::new(), server_name: String::new(), set_banner_image: true }
    }
}

} // verus!
