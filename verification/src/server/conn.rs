//! The server side of a connection.

use vstd::prelude::*;

use crate::{
    tls::{spec_version_to_wire, Version},
    wire::{
        vec::{spec_iter_items, Iter},
        ProtocolVersion,
    },
};

verus! {

/// This side supports the wire version `pv`.
pub open spec fn spec_supports(supported: Seq<Version>, pv: ProtocolVersion) -> bool {
    exists|i: int| 0 <= i < supported.len() && spec_version_to_wire(#[trigger] supported[i]) == pv
}

/// The first of the peer's versions, in the peer's order of preference,
/// that this side supports.
pub open spec fn spec_mutual_version(peer: Seq<ProtocolVersion>, supported: Seq<Version>) -> Option<
    ProtocolVersion,
>
    decreases peer.len(),
{
    if peer.len() == 0 {
        None
    } else if spec_supports(supported, peer[0]) {
        Some(peer[0])
    } else {
        spec_mutual_version(peer.drop_first(), supported)
    }
}

/// Reports whether `supported` holds the version whose wire form is
/// `pv`.
fn supports(supported: &[Version], pv: ProtocolVersion) -> (r: bool)
    ensures
        r == spec_supports(supported@, pv),
{
    let mut i: usize = 0;
    while i < supported.len()
        invariant
            i <= supported@.len(),
            forall|j: int| 0 <= j < i ==> spec_version_to_wire(#[trigger] supported@[j]) != pv,
        decreases supported@.len() - i,
    {
        if pv == supported[i].to_wire() {
            assert(spec_version_to_wire(supported@[i as int]) == pv);
            return true;
        }
        i += 1;
    }
    false
}

/// Returns the mutually supported TLS version: the first version the
/// peer offers that `supported` holds.
///
/// Iteration over the peer's versions stops at the end or at the first
/// version that does not parse.
pub fn mutual_version(peer: Iter<'_, ProtocolVersion>, supported: &[Version]) -> (r: Option<
    ProtocolVersion,
>)
    ensures
        r == spec_mutual_version(spec_iter_items::<ProtocolVersion>(peer@), supported@),
{
    let mut it = peer;
    loop
        invariant
            spec_mutual_version(spec_iter_items::<ProtocolVersion>(it@), supported@)
                == spec_mutual_version(spec_iter_items::<ProtocolVersion>(peer@), supported@),
        decreases spec_iter_items::<ProtocolVersion>(it@).len(),
    {
        let ghost items = spec_iter_items::<ProtocolVersion>(it@);
        let pv = match it.next() {
            Some(pv) => pv,
            None => return None,
        };
        proof {
            assert(items.len() > 0);
            assert(items[0] == pv);
        }
        if supports(supported, pv) {
            return Some(pv);
        }
    }
}

} // verus!
