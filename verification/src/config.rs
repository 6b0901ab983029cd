use vstd::prelude::*;

verus! {

/// How to reach a remote network endpoint.
///
/// A configuration is fixed once it is made: there is no way to change the
/// network identifier or the peer address afterwards.
#[derive(Debug)]
pub struct NetworkConfig {
    network_id: String,
    peer_address: String,
}

impl NetworkConfig {
    /// The identifier of the network, as a sequence of characters.
    pub closed spec fn network_id_spec(&self) -> Seq<char> {
        self.network_id@
    }

    /// The address of the peer, as a sequence of characters.
    pub closed spec fn peer_address_spec(&self) -> Seq<char> {
        self.peer_address@
    }

    /// Makes a configuration for the network `network_id`, reached at `peer_address`.
    pub fn new(network_id: String, peer_address: String) -> (r: Self)
        ensures
            r.network_id_spec() == network_id@,
            r.peer_address_spec() == peer_address@,
    {
        NetworkConfig { network_id, peer_address }
    }

    /// The identifier of the network.
    pub fn network_id(&self) -> (r: &str)
        ensures
            r@ == self.network_id_spec(),
    {
        self.network_id.as_str()
    }

    /// The address of the peer.
    pub fn peer_address(&self) -> (r: &str)
        ensures
            r@ == self.peer_address_spec(),
    {
        self.peer_address.as_str()
    }

    /// An independent copy, equal to this configuration.
    pub fn duplicate(&self) -> (r: Self)
        ensures
            r == *self,
    {
        NetworkConfig { network_id: self.network_id.clone(), peer_address: self.peer_address.clone() }
    }
}

} // verus!
