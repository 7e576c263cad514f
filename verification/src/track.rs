//! Track identifiers.

use vstd::prelude::*;

verus! {

/// The identifier of one track of the streaming service: 128 bits that mean
/// nothing to this library, which only keeps them in order and hands them on.
#[derive(Clone, Copy, Debug, PartialEq, Eq, Hash, Structural)]
pub struct TrackId {
    pub id: u128,
}

impl TrackId {
    /// The identifier made of these 128 bits.
    pub fn new(id: u128) -> (t: Self)
        ensures
            t.id == id,
    {
        TrackId { id }
    }
}

} // verus!
