//! Canonical map identifiers.
//!
//! The directory reports historical map variants under a prefixed name
//! ("Old_Cobalt" for the variant of "Cobalt"). Status texts and the asset CDN
//! are keyed by the canonical identifier, with every leading variant prefix
//! removed.

use vstd::prelude::*;
use vstd::string::*;

verus! {

/// The historical-variant prefix the directory puts before a map name.
pub open spec fn variant_prefix() -> Seq<char> {
    seq!['O', 'l', 'd', '_']
}

/// Whether `s` begins with the variant prefix.
pub open spec fn has_variant_prefix(s: Seq<char>) -> bool {
    s.len() >= 4 && s.subrange(0, 4) == variant_prefix()
}

/// The canonical map identifier: `s` with every leading variant prefix
/// removed.
pub open spec fn canonical_map_id(s: Seq<char>) -> Seq<char>
    decreases s.len(),
{
    if has_variant_prefix(s) {
        canonical_map_id(s.subrange(4, s.len() as int))
    } else {
        s
    }
}

/// A canonical identifier never starts with the variant prefix.
pub proof fn lemma_canonical_has_no_prefix(s: Seq<char>)
    ensures
        !has_variant_prefix(canonical_map_id(s)),
    decreases s.len(),
{
    if has_variant_prefix(s) {
        lemma_canonical_has_no_prefix(s.subrange(4, s.len() as int));
    }
}

/// Canonicalization is idempotent: stripping the variant prefix from an
/// already-stripped name is a no-op.
pub proof fn lemma_canonical_map_id_idempotent(s: Seq<char>)
    ensures
        canonical_map_id(canonical_map_id(s)) == canonical_map_id(s),
{
    lemma_canonical_has_no_prefix(s);
}

/// Strips every leading variant prefix from a map name.
pub fn strip_variant_prefix(map: &str) -> (r: String)
    ensures
        r@ == canonical_map_id(map@),
{
    let mut cur: &str = map;
    loop
        invariant
            canonical_map_id(cur@) == canonical_map_id(map@),
        decreases cur@.len(),
    {
        let n = cur.unicode_len();
        if n >= 4 && cur.get_char(0) == 'O' && cur.get_char(1) == 'l' && cur.get_char(2) == 'd'
            && cur.get_char(3) == '_' {
            proof {
                assert(cur@.subrange(0, 4) =~= variant_prefix());
            }
            cur = cur.substring_char(4, n);
        } else {
            proof {
                if cur@.len() >= 4 && cur@.subrange(0, 4) == variant_prefix() {
                    assert(cur@[0] == 'O' && cur@[1] == 'l' && cur@[2] == 'd' && cur@[3] == '_');
                }
            }
            return cur.to_owned();
        }
    }
}

} // verus!
