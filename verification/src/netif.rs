//! The readiness probe on the default network interface.
//!
//! The stack offers no query for "the interface is configured". The probe
//! therefore takes an assigned address for a usable interface: a coarse gate
//! before socket operations, which fail cleanly by themselves where the
//! interface is not ready after all. It answers "no" for a configuration that
//! really uses the all-zero address, and may answer "yes" while the interface
//! is still settling.
//!
//! The descriptor belongs to the stack. The probe is handed a reference to
//! what the runtime read of it and keeps nothing.

use vstd::prelude::*;

verus! {

/// An address as the interface descriptor holds it.
#[derive(Clone, Copy, Debug, PartialEq, Eq, Structural)]
pub struct IpAddr {
    pub addr: u32,
}

/// What the probe reads of the descriptor of the default interface.
#[derive(Clone, Copy, Debug, PartialEq, Eq, Structural)]
pub struct Netif {
    /// The address assigned to the interface; all zero while none is.
    pub ip_addr: IpAddr,
}

impl Netif {
    /// An address has been assigned to the interface.
    pub open spec fn assigned(self) -> bool {
        self.ip_addr.addr != 0
    }
}

/// Reports whether the interface has been assigned an address.
///
/// The answer depends on the descriptor alone and the probe changes nothing:
/// asked again about the same descriptor, it answers the same.
pub fn is_netif_initialised(netif: &Netif) -> (ready: bool)
    ensures
        ready == netif.assigned(),
{
    netif.ip_addr.addr != 0
}

} // verus!
