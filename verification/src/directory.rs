//! Directory responses.
//!
//! The remote directory answers with a JSON list of server records. The
//! surrounding application performs the request and the decoding; the core
//! removes the one known encoding artifact — a stray byte-order mark the
//! upstream encoder puts before the document — so the body decodes cleanly,
//! and names the two ways a fetch can fail.

use vstd::prelude::*;
use vstd::string::*;

verus! {

/// Why a directory poll yielded no record list.
#[derive(Clone, Copy, Debug, PartialEq, Eq, Structural)]
pub enum FetchError {
    /// The request could not be sent, or timed out.
    Network,
    /// The body was not a well-formed list of the expected shape.
    Decode,
}

/// `s` with a single leading byte-order mark removed, if one is there.
pub open spec fn without_leading_bom(s: Seq<char>) -> Seq<char> {
    if s.len() > 0 && s[0] == '\u{feff}' {
        s.subrange(1, s.len() as int)
    } else {
        s
    }
}

/// Strips the upstream encoder's stray byte-order mark from a raw directory
/// body, leaving any other body unchanged.
pub fn strip_leading_bom(body: &str) -> (r: String)
    ensures
        r@ == without_leading_bom(body@),
{
    let n = body.unicode_len();
    if n > 0 && body.get_char(0) == '\u{feff}' {
        body.substring_char(1, n).to_owned()
    } else {
        body.to_owned()
    }
}

} // verus!
