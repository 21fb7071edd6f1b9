//! Connection identifiers: 128-bit values, one minted for each accepted
//! socket, that tie a request to the responses it later gets.

use vstd::prelude::*;

verus! {

/// The identifier of one connection.
#[derive(Debug, Clone, Copy, PartialEq, Eq, Hash, Structural)]
pub struct ConnectionId {
    pub value: u128,
}

/// The 128-bit value whose upper half is `hi` and whose lower half is `lo`.
pub open spec fn spec_join_halves(hi: u64, lo: u64) -> u128 {
    (hi as int * 0x1_0000_0000_0000_0000 + lo as int) as u128
}

/// Whether `value` has the form of a random identifier: the four bits of its
/// version say 4, and the two bits of its variant say 2.
pub open spec fn spec_is_random_form(value: u128) -> bool {
    &&& (value / 0x1000_0000_0000_0000_0000) % 16 == 4
    &&& (value / 0x4000_0000_0000_0000) % 4 == 2
}

/// Draws a random 128-bit value.
///
/// Calls `uuid::Uuid::new_v4` and hands out the identifier's value by
/// `Uuid::as_u128`. The contract claims only what holds of every identifier
/// drawn this way: its version and variant bits. The other bits are random.
#[verifier::external_body]
fn random_uuid_value() -> (value: u128)
    ensures
        spec_is_random_form(value),
{
    uuid::Uuid::new_v4().as_u128()
}

impl ConnectionId {
    /// Mints an identifier for a newly accepted connection. The identifier
    /// is drawn at random.
    pub fn mint() -> (id: ConnectionId)
        ensures
            spec_is_random_form(id.value),
    {
        ConnectionId { value: random_uuid_value() }
    }

    /// The identifier made of an upper and a lower half of 64 bits each.
    pub fn from_u64_pair(hi: u64, lo: u64) -> (id: ConnectionId)
        ensures
            id.value == spec_join_halves(hi, lo),
            id.value / 0x1_0000_0000_0000_0000 == hi,
            id.value % 0x1_0000_0000_0000_0000 == lo,
    {
        ConnectionId { value: hi as u128 * 0x1_0000_0000_0000_0000 + lo as u128 }
    }

    /// The upper and the lower half of the identifier.
    pub fn as_u64_pair(&self) -> (halves: (u64, u64))
        ensures
            halves.0 == self.value / 0x1_0000_0000_0000_0000,
            halves.1 == self.value % 0x1_0000_0000_0000_0000,
            spec_join_halves(halves.0, halves.1) == self.value,
    {
        (
            (self.value / 0x1_0000_0000_0000_0000) as u64,
            (self.value % 0x1_0000_0000_0000_0000) as u64,
        )
    }
}

} // verus!
