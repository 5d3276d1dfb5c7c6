use vstd::prelude::*;

verus! {

/// The channel-open-try message, reduced to the fields this core reads: the
/// port the new channel is opened on, and the connections it is built upon.
/// The handshake payload (version, counterparty, proofs) is left to the store.
#[derive(Clone, Debug)]
pub struct HandshakeMessage {
    pub port_id: String,
    pub connection_hops: Vec<String>,
}

impl HandshakeMessage {
    pub fn new(port_id: String, connection_hops: Vec<String>) -> (r: HandshakeMessage)
        ensures
            r.port_id == port_id,
            r.connection_hops == connection_hops,
    {
        HandshakeMessage { port_id, connection_hops }
    }

    /// Number of connection hops, as a mathematical integer.
    pub open spec fn hop_count(&self) -> nat {
        self.connection_hops@.len()
    }
}

} // verus!
