use sync_client::codec::{
    decode_command_batch, decode_world_snapshot, encode_command_batch, encode_world_snapshot,
    MAX_BATCH_COMMANDS,
};
use sync_client::types::{
    ColorTag, CommandBatch, DecodeError, EncodeError, LocalCommand, RemoteEntity, WorldSnapshot,
};

fn entity(x: f32, y: f32, color: ColorTag) -> RemoteEntity {
    RemoteEntity { x_bits: x.to_bits(), y_bits: y.to_bits(), color }
}

#[test]
fn command_round_trip_one_to_three() {
    let batches = vec![
        vec![LocalCommand::Jump],
        vec![LocalCommand::MoveRight, LocalCommand::MoveLeft],
        vec![LocalCommand::MoveLeft, LocalCommand::MoveLeft, LocalCommand::Jump],
    ];
    for commands in batches {
        let batch = CommandBatch { commands: commands.clone() };
        let bytes = encode_command_batch(&batch).unwrap();
        let decoded = decode_command_batch(&bytes).unwrap();
        assert_eq!(decoded.commands, commands);
    }
}

#[test]
fn command_encoding_exact_bytes() {
    let batch = CommandBatch { commands: vec![LocalCommand::MoveRight, LocalCommand::Jump] };
    let bytes = encode_command_batch(&batch).unwrap();
    assert_eq!(bytes, vec![1u8, 2, 0, 0, 2]);
}

#[test]
fn command_batch_too_large_overflows() {
    let batch = CommandBatch { commands: vec![LocalCommand::Jump; MAX_BATCH_COMMANDS + 1] };
    assert_eq!(encode_command_batch(&batch), Err(EncodeError::EncodeOverflow));
    let largest = CommandBatch { commands: vec![LocalCommand::Jump; MAX_BATCH_COMMANDS] };
    let bytes = encode_command_batch(&largest).unwrap();
    assert_eq!(bytes.len(), 2048);
}

#[test]
fn command_decode_rejects_bad_code() {
    assert_eq!(decode_command_batch(&[1, 1, 0, 3]), Err(DecodeError::MalformedPacket));
}

#[test]
fn command_decode_rejects_length_mismatch() {
    assert_eq!(decode_command_batch(&[1, 2, 0, 1]), Err(DecodeError::MalformedPacket));
    assert_eq!(decode_command_batch(&[1, 1]), Err(DecodeError::MalformedPacket));
    assert_eq!(decode_command_batch(&[]), Err(DecodeError::MalformedPacket));
}

#[test]
fn command_decode_rejects_snapshot_message() {
    let snapshot = WorldSnapshot { entities: vec![entity(1.0, 2.0, ColorTag::Green)] };
    let bytes = encode_world_snapshot(&snapshot);
    assert_eq!(decode_command_batch(&bytes), Err(DecodeError::SchemaMismatch));
}

#[test]
fn snapshot_round_trip_zero_to_ten() {
    for n in 0..=10usize {
        let entities: Vec<RemoteEntity> = (0..n)
            .map(|i| entity(i as f32 * 1.5, -(i as f32), ColorTag::Pink))
            .collect();
        let snapshot = WorldSnapshot { entities: entities.clone() };
        let bytes = encode_world_snapshot(&snapshot);
        let decoded = decode_world_snapshot(&bytes).unwrap();
        assert_eq!(decoded.entities, entities);
    }
}

#[test]
fn snapshot_encoding_exact_bytes() {
    let snapshot = WorldSnapshot { entities: vec![entity(10.0, 20.0, ColorTag::Red)] };
    let bytes = encode_world_snapshot(&snapshot);
    let mut expected = vec![2u8, 1];
    expected.extend_from_slice(&10.0f32.to_bits().to_le_bytes());
    expected.extend_from_slice(&20.0f32.to_bits().to_le_bytes());
    expected.push(0);
    assert_eq!(bytes, expected);
}

#[test]
fn snapshot_decode_rejects_truncated_payload() {
    let snapshot = WorldSnapshot { entities: vec![entity(10.0, 20.0, ColorTag::Red)] };
    let bytes = encode_world_snapshot(&snapshot);
    assert_eq!(decode_world_snapshot(&bytes[..3]), Err(DecodeError::MalformedPacket));
    assert_eq!(decode_world_snapshot(&[]), Err(DecodeError::MalformedPacket));
    assert_eq!(decode_world_snapshot(&[2]), Err(DecodeError::MalformedPacket));
}

#[test]
fn snapshot_decode_rejects_unknown_tag() {
    assert_eq!(decode_world_snapshot(&[9, 0]), Err(DecodeError::MalformedPacket));
}

#[test]
fn snapshot_decode_rejects_command_message() {
    let batch = CommandBatch { commands: vec![LocalCommand::MoveLeft] };
    let bytes = encode_command_batch(&batch).unwrap();
    assert_eq!(decode_world_snapshot(&bytes), Err(DecodeError::SchemaMismatch));
}

#[test]
fn snapshot_decode_rejects_too_many_entities() {
    // Eleven records: one over the participant cap, with a consistent length.
    let mut bytes = vec![2u8, 11];
    for _ in 0..11 {
        bytes.extend_from_slice(&[0u8; 9]);
    }
    assert_eq!(decode_world_snapshot(&bytes), Err(DecodeError::MalformedPacket));
}

#[test]
fn snapshot_decode_rejects_bad_color_code() {
    let mut bytes = vec![2u8, 1];
    bytes.extend_from_slice(&[0u8; 8]);
    bytes.push(7);
    assert_eq!(decode_world_snapshot(&bytes), Err(DecodeError::MalformedPacket));
}

#[test]
fn snapshot_preserves_exact_float_bits() {
    let odd = f32::from_bits(0x7fc0_1234); // a NaN payload survives as bits
    let snapshot = WorldSnapshot { entities: vec![entity(odd, f32::MIN_POSITIVE, ColorTag::Beige)] };
    let bytes = encode_world_snapshot(&snapshot);
    let decoded = decode_world_snapshot(&bytes).unwrap();
    assert_eq!(decoded.entities[0].x_bits, 0x7fc0_1234);
    assert_eq!(f32::from_bits(decoded.entities[0].y_bits), f32::MIN_POSITIVE);
}
