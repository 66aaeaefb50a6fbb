//! The choices that are made once, when the layer is set up.
//!
//! Two points of the layer's behaviour are open, and neither is guessed here:
//! whether addressed send and receive look at the socket's category first, and
//! whether socket creation hands the caller's protocol on. A `Config` fixes
//! both. It is made from the two choices and offers no way to change them, so
//! a layer that holds one never mixes two policies from call to call.

use vstd::prelude::*;

verus! {

/// How addressed send and receive treat the socket's category.
#[derive(Clone, Copy, Debug, PartialEq, Eq, Structural)]
pub enum AddressedIo {
    /// Ask the stack for the socket's category first. Fail the call if the
    /// query fails or the socket is a stream socket; forward it otherwise.
    Strict,
    /// Forward the call whatever the socket is, and let the stack reject what
    /// it does not support.
    Permissive,
}

/// What becomes of the protocol argument of socket creation.
#[derive(Clone, Copy, Debug, PartialEq, Eq, Structural)]
pub enum ProtocolRule {
    /// The caller's protocol is handed to the stack as it is.
    PassThrough,
    /// Every socket is created with this protocol, whatever the caller asks.
    Force(i32),
}

/// The configuration of one layer.
#[derive(Clone, Copy, Debug, PartialEq, Eq, Structural)]
pub struct Config {
    addressed_io: AddressedIo,
    protocol: ProtocolRule,
}

impl Config {
    /// The policy for addressed send and receive.
    pub closed spec fn policy(self) -> AddressedIo {
        self.addressed_io
    }

    /// The rule for the protocol of new sockets.
    pub closed spec fn rule(self) -> ProtocolRule {
        self.protocol
    }

    /// The protocol that the stack is asked for when the caller asks for
    /// `requested`.
    pub open spec fn protocol_for(self, requested: i32) -> i32 {
        match self.rule() {
            ProtocolRule::PassThrough => requested,
            ProtocolRule::Force(protocol) => protocol,
        }
    }

    /// A configuration with the two choices given.
    pub fn new(addressed_io: AddressedIo, protocol: ProtocolRule) -> (config: Config)
        ensures
            config.policy() == addressed_io,
            config.rule() == protocol,
    {
        Config { addressed_io, protocol }
    }

    /// The policy for addressed send and receive.
    pub fn addressed_io(&self) -> (policy: AddressedIo)
        ensures
            policy == self.policy(),
    {
        self.addressed_io
    }

    /// The rule for the protocol of new sockets.
    pub fn protocol(&self) -> (rule: ProtocolRule)
        ensures
            rule == self.rule(),
    {
        self.protocol
    }

    /// The protocol to create a socket with when the caller asks for
    /// `requested`.
    pub fn effective_protocol(&self, requested: i32) -> (protocol: i32)
        ensures
            protocol == self.protocol_for(requested),
    {
        match self.protocol {
            ProtocolRule::PassThrough => requested,
            ProtocolRule::Force(protocol) => protocol,
        }
    }
}

} // verus!
