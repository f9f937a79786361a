//! Client addresses, as plain integers, and the order in which the sources of
//! a request's address are consulted.

use vstd::prelude::*;

verus! {

/// An IPv4 or IPv6 address, held as its integer value.
#[derive(Clone, Copy, Debug, PartialEq, Eq, Structural, Hash)]
pub enum ClientAddr {
    V4(u32),
    V6(u128),
}

/// The key under which an address is stored in the ban list: the address
/// family (4 or 6) and the address bits.
pub type AddrKey = (u8, u128);

impl ClientAddr {
    pub open spec fn key_spec(self) -> AddrKey {
        match self {
            ClientAddr::V4(a) => (4u8, a as u128),
            ClientAddr::V6(a) => (6u8, a),
        }
    }

    /// Whether `k` is the key of some address.
    pub open spec fn is_key(k: AddrKey) -> bool {
        (k.0 == 4 && k.1 <= u32::MAX) || k.0 == 6
    }

    pub open spec fn from_key_spec(k: AddrKey) -> ClientAddr {
        if k.0 == 4 {
            ClientAddr::V4(k.1 as u32)
        } else {
            ClientAddr::V6(k.1)
        }
    }

    /// The ban-list key of this address.
    pub fn key(&self) -> (r: AddrKey)
        ensures
            r == self.key_spec(),
            ClientAddr::is_key(r),
            ClientAddr::from_key_spec(r) == *self,
    {
        match self {
            ClientAddr::V4(a) => (4u8, *a as u128),
            ClientAddr::V6(a) => (6u8, *a),
        }
    }

    /// The address that a ban-list key stands for.
    pub fn from_key(k: AddrKey) -> (r: ClientAddr)
        requires
            ClientAddr::is_key(k),
        ensures
            r == ClientAddr::from_key_spec(k),
            r.key_spec() == k,
    {
        if k.0 == 4 {
            ClientAddr::V4(k.1 as u32)
        } else {
            ClientAddr::V6(k.1)
        }
    }
}

/// Two addresses are equal exactly when their keys are.
pub proof fn lemma_key_injective(a: ClientAddr, b: ClientAddr)
    ensures
        a.key_spec() == b.key_spec() <==> a == b,
{
}

/// The first of the three sources that names an address: a proxy header,
/// then an address attached by an earlier stage, then the transport peer.
pub open spec fn first_address(
    header: Option<ClientAddr>,
    attached: Option<ClientAddr>,
    peer: Option<ClientAddr>,
) -> Option<ClientAddr> {
    if header is Some {
        header
    } else if attached is Some {
        attached
    } else {
        peer
    }
}

/// Picks the client address of a request from its three possible sources,
/// in order of priority; `None` when no source names one.
pub fn pick_address(
    header: Option<ClientAddr>,
    attached: Option<ClientAddr>,
    peer: Option<ClientAddr>,
) -> (r: Option<ClientAddr>)
    ensures
        r == first_address(header, attached, peer),
{
    match header {
        Some(a) => Some(a),
        None => match attached {
            Some(a) => Some(a),
            None => peer,
        },
    }
}

} // verus!
