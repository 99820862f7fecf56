//! Decision logic of the datagram receive loop.
//!
//! The loop itself blocks on a socket and runs until process exit; that part
//! belongs to the embedding program. Each datagram it pulls off the socket is
//! handed to [`receive_step`], which classifies the payload once at the wire
//! codec boundary and updates the shared cache only on a successful decode.
//! A malformed datagram is dropped and the cache keeps its prior value, so a
//! bad packet can never terminate the loop or poison the cache.

use vstd::prelude::*;
use crate::cache::SharedWorldCache;
use crate::codec::{decode_world_snapshot, parsed_entities, valid_snapshot_msg, COMMAND_MSG_TAG};
use crate::types::DecodeError;

verus! {

/// Whether datagrams from a source other than the known server address are
/// accepted. Source filtering is a policy choice, fixed at startup.
#[derive(Clone, Copy, PartialEq, Eq, Structural, Debug)]
pub enum SourcePolicy {
    /// Decode every datagram, wherever it came from.
    AcceptAny,
    /// Silently discard datagrams whose source is not the server.
    ServerOnly,
}

/// Whether a datagram passes the source filter.
pub open spec fn source_accepted(policy: SourcePolicy, from_server: bool) -> bool {
    policy == SourcePolicy::AcceptAny || from_server
}

/// What one receive-loop step did with a datagram.
#[derive(Clone, Copy, PartialEq, Eq, Structural, Debug)]
pub enum ReceiveOutcome {
    /// The payload decoded; the cache now holds its snapshot.
    Replaced,
    /// The source failed the policy filter; the payload was never decoded.
    Ignored,
    /// The payload failed to decode and was dropped.
    Dropped(DecodeError),
}

/// One step of the receive loop: filter the source, decode the payload, and
/// on success replace the cache contents. `from_server` says whether the
/// datagram's source address equals the known server address.
pub fn receive_step(
    cache: &mut SharedWorldCache,
    policy: SourcePolicy,
    from_server: bool,
    payload: &[u8],
) -> (r: ReceiveOutcome)
    ensures
        match r {
            ReceiveOutcome::Replaced => {
                &&& source_accepted(policy, from_server)
                &&& valid_snapshot_msg(payload@)
                &&& final(cache)@ == parsed_entities(payload@)
                &&& final(cache).wf()
            },
            ReceiveOutcome::Ignored => {
                &&& !source_accepted(policy, from_server)
                &&& final(cache)@ == old(cache)@
                &&& *final(cache) == *old(cache)
            },
            ReceiveOutcome::Dropped(e) => {
                &&& source_accepted(policy, from_server)
                &&& !valid_snapshot_msg(payload@)
                &&& final(cache)@ == old(cache)@
                &&& *final(cache) == *old(cache)
                &&& (e == DecodeError::SchemaMismatch <==> (payload@.len() >= 1 && payload@[0]
                    == COMMAND_MSG_TAG))
            },
        },
{
    let accepted = match policy {
        SourcePolicy::AcceptAny => true,
        SourcePolicy::ServerOnly => from_server,
    };
    if !accepted {
        return ReceiveOutcome::Ignored;
    }
    match decode_world_snapshot(payload) {
        Ok(snapshot) => {
            cache.replace(snapshot);
            ReceiveOutcome::Replaced
        },
        Err(e) => ReceiveOutcome::Dropped(e),
    }
}

} // verus!
