//! Wire codec: the binary encode/decode contract between client and server.
//!
//! Both message kinds share one self-describing framing: the first byte is a
//! message tag, a length prefix follows, and then the repeated field. A
//! command message is `[COMMAND_MSG_TAG, count-lo, count-hi, code*]` with one
//! byte per command; a snapshot message is `[SNAPSHOT_MSG_TAG, count,
//! record*]` with nine bytes per entity record (two little-endian 32-bit
//! coordinates and one color code). Decoding a payload whose tag is the
//! other known tag reports `SchemaMismatch`; any other failure of the
//! framing is `MalformedPacket`.

use vstd::prelude::*;
use vstd::bytes::{
    lemma_auto_spec_u16_to_from_le_bytes, lemma_auto_spec_u32_to_from_le_bytes,
    spec_u16_from_le_bytes, spec_u16_to_le_bytes, spec_u32_from_le_bytes, spec_u32_to_le_bytes,
    u16_from_le_bytes, u16_to_le_bytes, u32_from_le_bytes, u32_to_le_bytes,
};
use vstd::slice::{slice_index_get, slice_subrange};
use vstd::assert_seqs_equal;
use crate::types::{
    ColorTag, CommandBatch, DecodeError, EncodeError, LocalCommand, RemoteEntity, WorldSnapshot,
    MAX_DATAGRAM, MAX_PLAYERS,
};

verus! {

/// First byte of every command message.
pub const COMMAND_MSG_TAG: u8 = 1;

/// First byte of every snapshot message.
pub const SNAPSHOT_MSG_TAG: u8 = 2;

/// Bytes of one entity record on the wire.
pub const ENTITY_WIRE_SIZE: usize = 9;

/// Most commands one datagram can carry: tag and length prefix take 3 bytes.
pub const MAX_BATCH_COMMANDS: usize = MAX_DATAGRAM - 3;

// ---------------------------------------------------------------------------
// Command codes
// ---------------------------------------------------------------------------

pub open spec fn command_code(c: LocalCommand) -> u8 {
    match c {
        LocalCommand::MoveRight => 0u8,
        LocalCommand::MoveLeft => 1u8,
        LocalCommand::Jump => 2u8,
    }
}

pub open spec fn valid_command_code(b: u8) -> bool {
    b < 3
}

pub open spec fn command_of_code(b: u8) -> LocalCommand
    recommends
        valid_command_code(b),
{
    if b == 0 {
        LocalCommand::MoveRight
    } else if b == 1 {
        LocalCommand::MoveLeft
    } else {
        LocalCommand::Jump
    }
}

pub fn command_to_code(c: LocalCommand) -> (r: u8)
    ensures
        r == command_code(c),
{
    match c {
        LocalCommand::MoveRight => 0u8,
        LocalCommand::MoveLeft => 1u8,
        LocalCommand::Jump => 2u8,
    }
}

// ---------------------------------------------------------------------------
// Color codes
// ---------------------------------------------------------------------------

pub open spec fn color_code(c: ColorTag) -> u8 {
    match c {
        ColorTag::Red => 0u8,
        ColorTag::Blue => 1u8,
        ColorTag::Green => 2u8,
        ColorTag::Purple => 3u8,
        ColorTag::Orange => 4u8,
        ColorTag::Beige => 5u8,
        ColorTag::Pink => 6u8,
    }
}

pub open spec fn valid_color_code(b: u8) -> bool {
    b < 7
}

pub open spec fn color_of_code(b: u8) -> ColorTag
    recommends
        valid_color_code(b),
{
    if b == 0 {
        ColorTag::Red
    } else if b == 1 {
        ColorTag::Blue
    } else if b == 2 {
        ColorTag::Green
    } else if b == 3 {
        ColorTag::Purple
    } else if b == 4 {
        ColorTag::Orange
    } else if b == 5 {
        ColorTag::Beige
    } else {
        ColorTag::Pink
    }
}

pub fn color_to_code(c: ColorTag) -> (r: u8)
    ensures
        r == color_code(c),
{
    match c {
        ColorTag::Red => 0u8,
        ColorTag::Blue => 1u8,
        ColorTag::Green => 2u8,
        ColorTag::Purple => 3u8,
        ColorTag::Orange => 4u8,
        ColorTag::Beige => 5u8,
        ColorTag::Pink => 6u8,
    }
}

// ---------------------------------------------------------------------------
// Command message: spec
// ---------------------------------------------------------------------------

/// The exact bytes of the command message carrying the sequence `s`.
pub open spec fn encoded_commands(s: Seq<LocalCommand>) -> Seq<u8> {
    seq![COMMAND_MSG_TAG] + spec_u16_to_le_bytes(s.len() as u16)
        + Seq::new(s.len(), |i: int| command_code(s[i]))
}

/// The command count a well-formed command message declares.
pub open spec fn command_count(b: Seq<u8>) -> nat
    recommends
        b.len() >= 3,
{
    spec_u16_from_le_bytes(b.subrange(1, 3)) as nat
}

/// Structural well-formedness of a command message.
pub open spec fn valid_command_msg(b: Seq<u8>) -> bool {
    &&& b.len() >= 3
    &&& b[0] == COMMAND_MSG_TAG
    &&& b.len() == 3 + command_count(b)
    &&& forall|i: int| 0 <= i < command_count(b) ==> valid_command_code(#[trigger] b[3 + i])
}

/// The command sequence a well-formed command message carries.
pub open spec fn parsed_commands(b: Seq<u8>) -> Seq<LocalCommand>
    recommends
        valid_command_msg(b),
{
    Seq::new(command_count(b), |i: int| command_of_code(b[3 + i]))
}

// ---------------------------------------------------------------------------
// Command message: exec
// ---------------------------------------------------------------------------

/// Encodes a non-empty batch into one command message, or reports
/// `EncodeOverflow` when the message would not fit in one datagram.
pub fn encode_command_batch(batch: &CommandBatch) -> (r: Result<Vec<u8>, EncodeError>)
    requires
        batch@.len() >= 1,
    ensures
        match r {
            Ok(bytes) => {
                &&& batch@.len() <= MAX_BATCH_COMMANDS
                &&& bytes@ == encoded_commands(batch@)
                &&& bytes@.len() <= MAX_DATAGRAM
            },
            Err(e) => {
                &&& e == EncodeError::EncodeOverflow
                &&& batch@.len() > MAX_BATCH_COMMANDS
            },
        },
{
    let n = batch.commands.len();
    if n > MAX_BATCH_COMMANDS {
        return Err(EncodeError::EncodeOverflow);
    }
    proof {
        lemma_auto_spec_u16_to_from_le_bytes();
    }
    let mut out: Vec<u8> = Vec::new();
    out.push(COMMAND_MSG_TAG);
    let mut len_bytes = u16_to_le_bytes(n as u16);
    out.append(&mut len_bytes);
    assert(out@ == seq![COMMAND_MSG_TAG] + spec_u16_to_le_bytes(n as u16)) by {
        assert_seqs_equal!(out@ == seq![COMMAND_MSG_TAG] + spec_u16_to_le_bytes(n as u16));
    }
    for i in 0..n
        invariant
            n == batch@.len() <= MAX_BATCH_COMMANDS,
            out@ == seq![COMMAND_MSG_TAG] + spec_u16_to_le_bytes(n as u16)
                + Seq::new(i as nat, |j: int| command_code(batch@[j])),
    {
        let c = batch.commands[i];
        out.push(command_to_code(c));
        proof {
            assert_seqs_equal!(out@ == seq![COMMAND_MSG_TAG] + spec_u16_to_le_bytes(n as u16)
                + Seq::new((i + 1) as nat, |j: int| command_code(batch@[j])));
        }
    }
    proof {
        assert_seqs_equal!(out@ == encoded_commands(batch@));
    }
    Ok(out)
}

/// Decodes one command message; mirrors the server-side parser.
pub fn decode_command_batch(bytes: &[u8]) -> (r: Result<CommandBatch, DecodeError>)
    ensures
        match r {
            Ok(batch) => {
                &&& valid_command_msg(bytes@)
                &&& batch@ == parsed_commands(bytes@)
            },
            Err(e) => {
                &&& !valid_command_msg(bytes@)
                &&& (e == DecodeError::SchemaMismatch <==> (bytes@.len() >= 1 && bytes@[0]
                    == SNAPSHOT_MSG_TAG))
            },
        },
{
    if bytes.len() >= 1 && *slice_index_get(bytes, 0) == SNAPSHOT_MSG_TAG {
        return Err(DecodeError::SchemaMismatch);
    }
    if bytes.len() < 3 {
        return Err(DecodeError::MalformedPacket);
    }
    if *slice_index_get(bytes, 0) != COMMAND_MSG_TAG {
        return Err(DecodeError::MalformedPacket);
    }
    let count = u16_from_le_bytes(slice_subrange(bytes, 1, 3)) as usize;
    assert(count == command_count(bytes@));
    if bytes.len() != 3 + count {
        return Err(DecodeError::MalformedPacket);
    }
    let mut commands: Vec<LocalCommand> = Vec::new();
    for i in 0..count
        invariant
            bytes@.len() == 3 + count,
            bytes@[0] == COMMAND_MSG_TAG,
            count == command_count(bytes@),
            commands@.len() == i,
            forall|j: int| 0 <= j < i ==> valid_command_code(#[trigger] bytes@[3 + j]),
            forall|j: int| 0 <= j < i ==> commands@[j] == command_of_code(#[trigger] bytes@[3 + j]),
    {
        let code = *slice_index_get(bytes, 3 + i);
        let c = if code == 0 {
            LocalCommand::MoveRight
        } else if code == 1 {
            LocalCommand::MoveLeft
        } else if code == 2 {
            LocalCommand::Jump
        } else {
            return Err(DecodeError::MalformedPacket);
        };
        commands.push(c);
    }
    proof {
        assert_seqs_equal!(commands@ == parsed_commands(bytes@));
    }
    Ok(CommandBatch { commands })
}

// ---------------------------------------------------------------------------
// Snapshot message: spec
// ---------------------------------------------------------------------------

/// The nine wire bytes of one entity record.
pub open spec fn entity_bytes(e: RemoteEntity) -> Seq<u8> {
    spec_u32_to_le_bytes(e.x_bits) + spec_u32_to_le_bytes(e.y_bits) + seq![color_code(e.color)]
}

/// The concatenated entity records of a snapshot, in server order.
pub open spec fn entities_bytes(s: Seq<RemoteEntity>) -> Seq<u8>
    decreases s.len(),
{
    if s.len() == 0 {
        Seq::<u8>::empty()
    } else {
        entities_bytes(s.drop_last()) + entity_bytes(s.last())
    }
}

/// The exact bytes of the snapshot message carrying the sequence `s`.
pub open spec fn encoded_snapshot(s: Seq<RemoteEntity>) -> Seq<u8> {
    seq![SNAPSHOT_MSG_TAG, s.len() as u8] + entities_bytes(s)
}

/// The entity count a snapshot message declares.
pub open spec fn snapshot_count(b: Seq<u8>) -> nat
    recommends
        b.len() >= 2,
{
    b[1] as nat
}

/// The entity record that starts at byte `2 + 9 * k` of a snapshot message.
pub open spec fn entity_at(b: Seq<u8>, k: int) -> RemoteEntity {
    RemoteEntity {
        x_bits: spec_u32_from_le_bytes(b.subrange(2 + 9 * k, 2 + 9 * k + 4)),
        y_bits: spec_u32_from_le_bytes(b.subrange(2 + 9 * k + 4, 2 + 9 * k + 8)),
        color: color_of_code(b[2 + 9 * k + 8]),
    }
}

/// Structural well-formedness of a snapshot message, including the
/// participant cap.
pub open spec fn valid_snapshot_msg(b: Seq<u8>) -> bool {
    &&& b.len() >= 2
    &&& b[0] == SNAPSHOT_MSG_TAG
    &&& snapshot_count(b) <= MAX_PLAYERS
    &&& b.len() == 2 + 9 * snapshot_count(b)
    &&& forall|k: int| 0 <= k < snapshot_count(b) ==> valid_color_code(#[trigger] b[2 + 9 * k + 8])
}

/// The entity sequence a well-formed snapshot message carries.
pub open spec fn parsed_entities(b: Seq<u8>) -> Seq<RemoteEntity>
    recommends
        valid_snapshot_msg(b),
{
    Seq::new(snapshot_count(b), |k: int| entity_at(b, k))
}

proof fn lemma_entity_bytes_len(e: RemoteEntity)
    ensures
        entity_bytes(e).len() == 9,
{
    lemma_auto_spec_u32_to_from_le_bytes();
}

proof fn lemma_entities_bytes_len(s: Seq<RemoteEntity>)
    ensures
        entities_bytes(s).len() == 9 * s.len(),
    decreases s.len(),
{
    if s.len() > 0 {
        lemma_entities_bytes_len(s.drop_last());
        lemma_entity_bytes_len(s.last());
    }
}

// ---------------------------------------------------------------------------
// Snapshot message: exec
// ---------------------------------------------------------------------------

/// Encodes a snapshot into one message; mirrors the server-side encoder.
/// With the participant cap the message always fits in one datagram.
pub fn encode_world_snapshot(snapshot: &WorldSnapshot) -> (r: Vec<u8>)
    requires
        snapshot.wf(),
    ensures
        r@ == encoded_snapshot(snapshot@),
        r@.len() <= MAX_DATAGRAM,
{
    let n = snapshot.entities.len();
    let mut out: Vec<u8> = Vec::new();
    out.push(SNAPSHOT_MSG_TAG);
    out.push(n as u8);
    proof {
        assert(snapshot@.take(0) =~= Seq::<RemoteEntity>::empty());
        assert_seqs_equal!(out@ == seq![SNAPSHOT_MSG_TAG, n as u8]
            + entities_bytes(snapshot@.take(0)));
    }
    for k in 0..n
        invariant
            n == snapshot@.len() <= MAX_PLAYERS,
            out@ == seq![SNAPSHOT_MSG_TAG, n as u8] + entities_bytes(snapshot@.take(k as int)),
    {
        let e = snapshot.entities[k];
        let mut xb = u32_to_le_bytes(e.x_bits);
        out.append(&mut xb);
        let mut yb = u32_to_le_bytes(e.y_bits);
        out.append(&mut yb);
        out.push(color_to_code(e.color));
        proof {
            lemma_auto_spec_u32_to_from_le_bytes();
            let prefix = snapshot@.take(k as int);
            let grown = snapshot@.take(k as int + 1);
            assert(grown.drop_last() =~= prefix);
            assert(grown.last() == snapshot@[k as int]);
            assert_seqs_equal!(out@ == seq![SNAPSHOT_MSG_TAG, n as u8] + entities_bytes(grown));
        }
    }
    proof {
        assert(snapshot@.take(n as int) =~= snapshot@);
        lemma_entities_bytes_len(snapshot@);
    }
    out
}

fn code_to_color(b: u8) -> (r: Option<ColorTag>)
    ensures
        match r {
            Some(c) => valid_color_code(b) && c == color_of_code(b),
            None => !valid_color_code(b),
        },
{
    if b == 0 {
        Some(ColorTag::Red)
    } else if b == 1 {
        Some(ColorTag::Blue)
    } else if b == 2 {
        Some(ColorTag::Green)
    } else if b == 3 {
        Some(ColorTag::Purple)
    } else if b == 4 {
        Some(ColorTag::Orange)
    } else if b == 5 {
        Some(ColorTag::Beige)
    } else if b == 6 {
        Some(ColorTag::Pink)
    } else {
        None
    }
}

/// Decodes one snapshot message from a raw datagram payload. Coordinates and
/// color tags are taken as the server sent them; only the framing and the
/// participant cap are checked.
pub fn decode_world_snapshot(bytes: &[u8]) -> (r: Result<WorldSnapshot, DecodeError>)
    ensures
        match r {
            Ok(s) => {
                &&& valid_snapshot_msg(bytes@)
                &&& s@ == parsed_entities(bytes@)
                &&& s.wf()
            },
            Err(e) => {
                &&& !valid_snapshot_msg(bytes@)
                &&& (e == DecodeError::SchemaMismatch <==> (bytes@.len() >= 1 && bytes@[0]
                    == COMMAND_MSG_TAG))
            },
        },
{
    if bytes.len() >= 1 && *slice_index_get(bytes, 0) == COMMAND_MSG_TAG {
        return Err(DecodeError::SchemaMismatch);
    }
    if bytes.len() < 2 {
        return Err(DecodeError::MalformedPacket);
    }
    if *slice_index_get(bytes, 0) != SNAPSHOT_MSG_TAG {
        return Err(DecodeError::MalformedPacket);
    }
    let count = *slice_index_get(bytes, 1) as usize;
    if count > MAX_PLAYERS {
        return Err(DecodeError::MalformedPacket);
    }
    if bytes.len() != 2 + ENTITY_WIRE_SIZE * count {
        return Err(DecodeError::MalformedPacket);
    }
    let mut entities: Vec<RemoteEntity> = Vec::new();
    for k in 0..count
        invariant
            bytes@.len() == 2 + 9 * count,
            count == snapshot_count(bytes@),
            count <= MAX_PLAYERS,
            bytes@[0] == SNAPSHOT_MSG_TAG,
            entities@.len() == k,
            forall|j: int| 0 <= j < k ==> valid_color_code(#[trigger] bytes@[2 + 9 * j + 8]),
            forall|j: int| 0 <= j < k ==> entities@[j] == entity_at(bytes@, j),
    {
        let off = 2 + ENTITY_WIRE_SIZE * k;
        let x_bits = u32_from_le_bytes(slice_subrange(bytes, off, off + 4));
        let y_bits = u32_from_le_bytes(slice_subrange(bytes, off + 4, off + 8));
        let code = *slice_index_get(bytes, off + 8);
        let color = match code_to_color(code) {
            Some(c) => c,
            None => {
                return Err(DecodeError::MalformedPacket);
            },
        };
        entities.push(RemoteEntity { x_bits, y_bits, color });
    }
    proof {
        assert_seqs_equal!(entities@ == parsed_entities(bytes@));
    }
    Ok(WorldSnapshot { entities })
}

// ---------------------------------------------------------------------------
// Round-trip laws
// ---------------------------------------------------------------------------

/// Law: any batch of one to three commands survives the wire unchanged —
/// the encoding is a well-formed command message, and parsing it back yields
/// the identical ordered command sequence.
pub proof fn lemma_command_round_trip(s: Seq<LocalCommand>)
    requires
        1 <= s.len() <= 3,
    ensures
        valid_command_msg(encoded_commands(s)),
        parsed_commands(encoded_commands(s)) == s,
{
    lemma_auto_spec_u16_to_from_le_bytes();
    let b = encoded_commands(s);
    assert(b.subrange(1, 3) =~= spec_u16_to_le_bytes(s.len() as u16));
    assert(command_count(b) == s.len());
    assert(forall|i: int| 0 <= i < s.len() ==> #[trigger] b[3 + i] == command_code(s[i]));
    assert(valid_command_msg(b));
    assert(parsed_commands(b) =~= s);
}

proof fn lemma_entities_bytes_index(s: Seq<RemoteEntity>, k: int)
    requires
        0 <= k < s.len(),
    ensures
        entities_bytes(s).subrange(9 * k, 9 * k + 9) == entity_bytes(s[k]),
    decreases s.len(),
{
    lemma_entities_bytes_len(s);
    let pre = s.drop_last();
    lemma_entities_bytes_len(pre);
    lemma_entity_bytes_len(s.last());
    if k == s.len() - 1 {
        assert_seqs_equal!(entities_bytes(s).subrange(9 * k, 9 * k + 9) == entity_bytes(s[k]));
    } else {
        lemma_entities_bytes_index(pre, k);
        assert(s[k] == pre[k]);
        assert_seqs_equal!(entities_bytes(s).subrange(9 * k, 9 * k + 9)
            == entities_bytes(pre).subrange(9 * k, 9 * k + 9));
    }
}

/// Law: any snapshot of at most `MAX_PLAYERS` entities survives the wire
/// unchanged — the encoding is a well-formed snapshot message, and parsing
/// it back preserves count, order, coordinates, and color tags exactly.
pub proof fn lemma_snapshot_round_trip(s: Seq<RemoteEntity>)
    requires
        s.len() <= MAX_PLAYERS,
    ensures
        valid_snapshot_msg(encoded_snapshot(s)),
        parsed_entities(encoded_snapshot(s)) == s,
{
    lemma_auto_spec_u32_to_from_le_bytes();
    lemma_entities_bytes_len(s);
    let b = encoded_snapshot(s);
    assert(b.len() == 2 + 9 * s.len());
    assert(snapshot_count(b) == s.len());
    assert forall|k: int| 0 <= k < s.len() implies valid_color_code(#[trigger] b[2 + 9 * k + 8])
        && entity_at(b, k) == s[k] by {
        lemma_entities_bytes_index(s, k);
        lemma_entity_bytes_len(s[k]);
        let eb = entity_bytes(s[k]);
        let sub = entities_bytes(s).subrange(9 * k, 9 * k + 9);
        assert_seqs_equal!(b.subrange(2 + 9 * k, 2 + 9 * k + 4)
            == spec_u32_to_le_bytes(s[k].x_bits), i => {
            assert(sub[i] == eb[i]);
            assert(b[2 + 9 * k + i] == entities_bytes(s)[9 * k + i]);
            assert(eb[i] == spec_u32_to_le_bytes(s[k].x_bits)[i]);
        });
        assert_seqs_equal!(b.subrange(2 + 9 * k + 4, 2 + 9 * k + 8)
            == spec_u32_to_le_bytes(s[k].y_bits), i => {
            assert(sub[4 + i] == eb[4 + i]);
            assert(b[2 + 9 * k + 4 + i] == entities_bytes(s)[9 * k + 4 + i]);
            assert(eb[4 + i] == spec_u32_to_le_bytes(s[k].y_bits)[i]);
        });
        assert(sub[8] == eb[8]);
        assert(b[2 + 9 * k + 8] == entities_bytes(s)[9 * k + 8]);
        assert(eb[8] == color_code(s[k].color));
        assert(b[2 + 9 * k + 8] == color_code(s[k].color));
    }
    assert(valid_snapshot_msg(b));
    assert(parsed_entities(b) =~= s);
}

} // verus!
