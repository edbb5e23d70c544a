//! Where to connect: the endpoints that a configuration names.

use vstd::prelude::*;

verus! {

/// The protocol that an endpoint speaks.
#[derive(Clone, Copy, Debug, PartialEq, Eq, Structural)]
pub enum ConnectionProtocol {
    /// The Instrument Neutral Distributed Interface, written `indi`.
    InstrumentNeutralDistributedInterface,
}

/// One endpoint.
#[derive(Debug)]
pub struct ConnectionSpec {
    pub name: String,
    pub protocol: ConnectionProtocol,
    pub host: String,
    pub port: usize,
}

/// The endpoints of a configuration.
#[derive(Debug)]
pub struct ConfigFile {
    pub connections: Vec<ConnectionSpec>,
}

} // verus!
