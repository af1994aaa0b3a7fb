//! Who takes part in an exchange, and what it is about.
use freenet_stdlib::prelude::ContractKey;
use vstd::prelude::*;

verus! {

/// The key of a contract. It is only ever carried from one place to another.
#[verifier::external_type_specification]
#[verifier::external_body]
pub struct ExContractKey(freenet_stdlib::prelude::ContractKey);

/// `ContractKey::clone`, which `freenet_stdlib` derives over two `Copy` byte
/// arrays: the clone is the same key.
pub assume_specification [<freenet_stdlib::prelude::ContractKey as Clone>::clone](
    key: &ContractKey,
) -> (res: ContractKey)
    ensures
        res == *key,
;

/// Identifies one operation across all the peers that take part in it.
#[derive(Clone, Copy, Debug, PartialEq, Eq, Hash)]
pub struct Transaction {
    pub id: u128,
}

/// Identifies a peer.
#[derive(Clone, Copy, Debug, PartialEq, Eq, Hash)]
pub struct PeerKey {
    pub bytes: [u8; 32],
}

/// A position on the ring, as the bits of its floating-point coordinate.
#[derive(Clone, Copy, Debug, PartialEq, Eq, Hash)]
pub struct Location {
    pub bits: u64,
}

/// A peer and its position on the ring, if it has been given one.
#[derive(Clone, Copy, Debug, PartialEq, Eq, Hash)]
pub struct PeerKeyLocation {
    pub peer: PeerKey,
    pub location: Option<Location>,
}

/// Identifies the client of this node on whose behalf an operation runs.
#[derive(Clone, Copy, Debug, PartialEq, Eq, Hash)]
pub struct ClientId {
    pub id: usize,
}

/// A second list of the same peers.
pub(crate) fn copy_peers(peers: &Vec<PeerKey>) -> (res: Vec<PeerKey>)
    ensures
        res@ == peers@,
{
    let res = peers.clone();
    assert(res@ =~= peers@);
    res
}

} // verus!
