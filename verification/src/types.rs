//! Data model: commands, entities, snapshots, and the error taxonomy of the
//! wire codec.
//!
//! Entity coordinates travel on the wire as IEEE-754 single-precision values;
//! the engine never does arithmetic on them, so it stores and transports them
//! as their raw 32-bit patterns (`x_bits`, `y_bits`). The presentation layer
//! reinterprets the bits when it draws.

use vstd::prelude::*;

verus! {

/// Largest number of remote entities one snapshot may carry; a decoded
/// snapshot beyond this bound is a protocol violation.
pub const MAX_PLAYERS: usize = 10;

/// Largest datagram payload, in bytes, that the transport is trusted to
/// carry whole; an encoded message may never exceed it.
pub const MAX_DATAGRAM: usize = 2048;

/// One discrete unit of user intent in a tick.
#[derive(Clone, Copy, PartialEq, Eq, Structural, Debug)]
pub enum LocalCommand {
    MoveRight,
    MoveLeft,
    Jump,
}

/// Identity/color tag of a remote entity, a small closed palette.
#[derive(Clone, Copy, PartialEq, Eq, Structural, Debug)]
pub enum ColorTag {
    Red,
    Blue,
    Green,
    Purple,
    Orange,
    Beige,
    Pink,
}

/// One other participant's state as last reported by the server. The two
/// coordinates are raw IEEE-754 single-precision bit patterns.
#[derive(Clone, Copy, PartialEq, Eq, Structural, Debug)]
pub struct RemoteEntity {
    pub x_bits: u32,
    pub y_bits: u32,
    pub color: ColorTag,
}

/// The ordered sequence of remote entities decoded from one server message.
/// Always replaced whole, never patched.
#[derive(Clone, PartialEq, Eq, Debug)]
pub struct WorldSnapshot {
    pub entities: Vec<RemoteEntity>,
}

impl View for WorldSnapshot {
    type V = Seq<RemoteEntity>;

    open spec fn view(&self) -> Seq<RemoteEntity> {
        self.entities@
    }
}

impl WorldSnapshot {
    /// A snapshot is well formed when it respects the participant cap.
    pub open spec fn wf(&self) -> bool {
        self@.len() <= MAX_PLAYERS
    }

    /// The empty snapshot: what the client knows before the first decode.
    pub fn empty() -> (s: WorldSnapshot)
        ensures
            s@ == Seq::<RemoteEntity>::empty(),
            s.wf(),
    {
        WorldSnapshot { entities: Vec::new() }
    }
}

/// The ordered sequence of commands collected during one tick.
#[derive(Clone, PartialEq, Eq, Debug)]
pub struct CommandBatch {
    pub commands: Vec<LocalCommand>,
}

impl View for CommandBatch {
    type V = Seq<LocalCommand>;

    open spec fn view(&self) -> Seq<LocalCommand> {
        self.commands@
    }
}

impl CommandBatch {
    /// A fresh, empty batch for the start of a tick.
    pub fn new() -> (b: CommandBatch)
        ensures
            b@ == Seq::<LocalCommand>::empty(),
    {
        CommandBatch { commands: Vec::new() }
    }

    /// Appends one command; duplicates within a tick are permitted and kept.
    pub fn push(&mut self, c: LocalCommand)
        ensures
            final(self)@ == old(self)@.push(c),
    {
        self.commands.push(c);
    }

    pub fn is_empty(&self) -> (r: bool)
        ensures
            r <==> self@.len() == 0,
    {
        self.commands.len() == 0
    }
}

/// Why an inbound datagram was rejected by the wire codec.
#[derive(Clone, Copy, PartialEq, Eq, Structural, Debug)]
pub enum DecodeError {
    /// The payload fails the structural parse of its message framing.
    MalformedPacket,
    /// The payload parses as a message of the schema family, but not as the
    /// message type the caller expected.
    SchemaMismatch,
}

/// Why an outgoing batch could not be encoded.
#[derive(Clone, Copy, PartialEq, Eq, Structural, Debug)]
pub enum EncodeError {
    /// The encoded message would exceed the maximum datagram payload.
    EncodeOverflow,
}

} // verus!
