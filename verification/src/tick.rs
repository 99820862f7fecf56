//! Command batcher / send path: the once-per-tick decision logic.
//!
//! Each tick the embedding program samples the input collaborator, builds the
//! tick's batch with [`collect_commands`], and asks [`tick_payload`] for the
//! datagram to transmit. An empty batch yields no datagram at all; a batch
//! too large for one datagram is dropped whole, never partially sent. The
//! batch is discarded at the end of the tick either way — intent is never
//! queued across ticks.

use vstd::prelude::*;
use crate::codec::{encode_command_batch, encoded_commands, MAX_BATCH_COMMANDS};
use crate::types::{CommandBatch, EncodeError, LocalCommand, MAX_DATAGRAM};

verus! {

/// The commands one tick produces from its intent signals, in the fixed
/// sampling order: move-right, then move-left, then jump.
pub open spec fn intent_commands(right: bool, left: bool, jump: bool) -> Seq<LocalCommand> {
    (if right {
        seq![LocalCommand::MoveRight]
    } else {
        Seq::<LocalCommand>::empty()
    }) + (if left {
        seq![LocalCommand::MoveLeft]
    } else {
        Seq::<LocalCommand>::empty()
    }) + (if jump {
        seq![LocalCommand::Jump]
    } else {
        Seq::<LocalCommand>::empty()
    })
}

/// Builds the tick's batch from the currently-active intent signals, one
/// command per active intent, in the fixed sampling order.
pub fn collect_commands(right: bool, left: bool, jump: bool) -> (b: CommandBatch)
    ensures
        b@ == intent_commands(right, left, jump),
{
    let mut b = CommandBatch::new();
    if right {
        b.push(LocalCommand::MoveRight);
    }
    if left {
        b.push(LocalCommand::MoveLeft);
    }
    if jump {
        b.push(LocalCommand::Jump);
    }
    proof {
        assert(b@ =~= intent_commands(right, left, jump));
    }
    b
}

/// The per-tick send decision: `Ok(None)` exactly when the batch is empty
/// (no datagram is transmitted that tick), `Ok(Some(bytes))` with the encoded
/// command message otherwise, and `EncodeOverflow` when the non-empty batch
/// would not fit in one datagram (that tick's batch is dropped whole).
pub fn tick_payload(batch: &CommandBatch) -> (r: Result<Option<Vec<u8>>, EncodeError>)
    ensures
        match r {
            Ok(None) => batch@.len() == 0,
            Ok(Some(bytes)) => {
                &&& 1 <= batch@.len() <= MAX_BATCH_COMMANDS
                &&& bytes@ == encoded_commands(batch@)
                &&& bytes@.len() <= MAX_DATAGRAM
            },
            Err(e) => {
                &&& e == EncodeError::EncodeOverflow
                &&& batch@.len() > MAX_BATCH_COMMANDS
            },
        },
{
    if batch.is_empty() {
        Ok(None)
    } else {
        match encode_command_batch(batch) {
            Ok(bytes) => Ok(Some(bytes)),
            Err(e) => Err(e),
        }
    }
}

} // verus!
