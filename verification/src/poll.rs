//! The poll side of a cycle: the tagged outcome of one fetch of the remote
//! server list, and the removal of the transport artifact (a UTF-8 byte
//! order mark) that the endpoint sometimes prepends to the body.

use crate::model::MarneServerList;
use vstd::prelude::*;

verus! {

/// The lead byte of the three-byte UTF-8 encoding of the byte order mark.
pub const BOM_LEAD_BYTE: u8 = 239;

/// One poll's tagged result, decided during parsing: the decoded server
/// list, a body that did not decode into the list's shape, or a transport
/// failure before any body arrived.
pub enum PollOutcome {
    Parsed(MarneServerList),
    Malformed(String),
    TransportFailed,
}

/// The poll body with the transport artifact removed: when the first byte
/// is 239, the lead of the three-byte mark, those three bytes are dropped;
/// any other body is kept as it is.
pub open spec fn spec_strip_bom(s: Seq<u8>) -> Seq<u8> {
    if s.len() >= 3 && s[0] == 239 {
        s.skip(3)
    } else {
        s
    }
}

/// Strips the byte order mark off a poll body before it is parsed.
pub fn strip_bom(body: Vec<u8>) -> (r: Vec<u8>)
    ensures
        r@ == spec_strip_bom(body@),
{
    let mut v: Vec<u8> = body;
    if v.len() >= 3 && v[0] == 239 {
        let ghost orig = v@;
        v.remove(0);
        v.remove(0);
        v.remove(0);
        proof {
            assert(v@ =~= orig.skip(3));
        }
    }
    v
}

/// Law: stripping triggers only on the mark's lead byte. A body whose first
/// byte is not 239 — the empty body included — is kept unchanged.
pub proof fn lemma_strip_bom_clean_noop(s: Seq<u8>)
    requires
        s.len() == 0 || s[0] != 239,
    ensures
        spec_strip_bom(s) == s,
{
}

/// Law: stripping is idempotent — applying it a second time changes
/// nothing — provided the body does not carry two marks back to back
/// (a lead byte again right after the stripped mark).
pub proof fn lemma_strip_bom_idempotent(s: Seq<u8>)
    requires
        !(s.len() >= 6 && s[0] == 239 && s[3] == 239),
    ensures
        spec_strip_bom(spec_strip_bom(s)) == spec_strip_bom(s),
{
    if s.len() >= 3 && s[0] == 239 {
        let t = s.skip(3);
        assert(t.len() == s.len() - 3);
        if t.len() >= 3 {
            assert(t[0] == s[3]);
        }
    }
}

} // verus!
