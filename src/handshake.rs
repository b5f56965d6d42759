//! Version negotiation: the first exchange on every connection.

use vstd::prelude::*;
use crate::wire::Version;

verus! {

/// The version codes this side speaks.
pub open spec fn is_supported_code(c: u32) -> bool {
    c == 0x01 || c == 0x02 || c == 0x2a
}

/// Picks the connection's version: the first code in the proxy's offer, in
/// the proxy's order, that this side also speaks. `None` means that the
/// offer and this side have no version in common, and the connection closes.
pub fn negotiate(offered: &Vec<u32>) -> (r: Option<Version>)
    ensures
        r matches Some(v) ==> exists|i: int|
            0 <= i < offered@.len() && offered@[i] == v.spec_code() && forall|j: int|
                0 <= j < i ==> !is_supported_code(#[trigger] offered@[j]),
        r is None <==> forall|i: int| 0 <= i < offered@.len() ==> !is_supported_code(#[trigger] offered@[i]),
{
    let mut i: usize = 0;
    while i < offered.len()
        invariant
            0 <= i <= offered@.len(),
            forall|j: int| 0 <= j < i ==> !is_supported_code(#[trigger] offered@[j]),
        decreases offered@.len() - i,
    {
        let c = offered[i];
        match Version::from_code(c) {
            Some(v) => {
                return Some(v);
            },
            None => {},
        }
        i = i + 1;
    }
    None
}

/// The versions that the reply to the proxy's handshake lists: the chosen
/// one alone.
pub fn handshake_reply(chosen: Version) -> (r: Vec<u32>)
    ensures
        r@ == seq![chosen.spec_code()],
{
    let mut r: Vec<u32> = Vec::new();
    r.push(chosen.code());
    assert(r@ =~= seq![chosen.spec_code()]);
    r
}

/// The first thing a new connection yields.
pub enum Opening {
    /// The proxy's handshake with the versions it offers.
    Handshake { supported_versions: Vec<u32> },
    /// Any other message, or one that did not decode.
    Other,
    /// The stream ended.
    Ended,
}

/// Opens a connection: on a handshake that shares a version, the chosen
/// version and the versions to reply with (the chosen one alone). Anything
/// else closes the connection without a reply and without serving requests.
pub fn open_connection(first: Opening) -> (r: Option<(Version, Vec<u32>)>)
    ensures
        !(first is Handshake) ==> r is None,
        first matches Opening::Handshake { supported_versions: offered } ==> {
            &&& (forall|i: int| 0 <= i < offered@.len() ==> !is_supported_code(#[trigger] offered@[i])) <==> r is None
            &&& r matches Some((v, reply)) ==> reply@ == seq![v.spec_code()] && exists|i: int|
                0 <= i < offered@.len() && offered@[i] == v.spec_code() && forall|j: int|
                    0 <= j < i ==> !is_supported_code(#[trigger] offered@[j])
        },
{
    match first {
        Opening::Handshake { supported_versions } => match negotiate(&supported_versions) {
            Some(v) => Some((v, handshake_reply(v))),
            None => None,
        },
        _ => None,
    }
}

} // verus!
