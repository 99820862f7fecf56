use sync_client::cache::SharedWorldCache;
use sync_client::codec::{decode_command_batch, encode_world_snapshot};
use sync_client::receive::{receive_step, ReceiveOutcome, SourcePolicy};
use sync_client::tick::{collect_commands, tick_payload};
use sync_client::types::{ColorTag, DecodeError, LocalCommand, RemoteEntity, WorldSnapshot};

fn entity(x: f32, y: f32, color: ColorTag) -> RemoteEntity {
    RemoteEntity { x_bits: x.to_bits(), y_bits: y.to_bits(), color }
}

#[test]
fn cache_starts_empty() {
    let cache = SharedWorldCache::new();
    assert!(cache.snapshot_view().entities.is_empty());
}

#[test]
fn replace_then_view_returns_replaced_sequence() {
    let mut cache = SharedWorldCache::new();
    let first = WorldSnapshot { entities: vec![entity(1.0, 2.0, ColorTag::Green)] };
    let second = WorldSnapshot {
        entities: vec![entity(3.0, 4.0, ColorTag::Orange), entity(5.0, 6.0, ColorTag::Purple)],
    };
    cache.replace(first.clone());
    assert_eq!(*cache.snapshot_view(), first);
    cache.replace(second.clone());
    assert_eq!(*cache.snapshot_view(), second);
}

#[test]
fn empty_batch_sends_nothing() {
    let batch = collect_commands(false, false, false);
    assert!(batch.commands.is_empty());
    assert_eq!(tick_payload(&batch), Ok(None));
}

#[test]
fn malformed_datagram_leaves_cache_unchanged() {
    let mut cache = SharedWorldCache::new();
    let prior = WorldSnapshot { entities: vec![entity(7.0, 8.0, ColorTag::Blue)] };
    let bytes = encode_world_snapshot(&prior);
    assert_eq!(
        receive_step(&mut cache, SourcePolicy::AcceptAny, true, &bytes),
        ReceiveOutcome::Replaced
    );
    // A datagram truncated to 3 bytes is dropped; the prior snapshot stays.
    let outcome = receive_step(&mut cache, SourcePolicy::AcceptAny, true, &bytes[..3]);
    assert_eq!(outcome, ReceiveOutcome::Dropped(DecodeError::MalformedPacket));
    assert_eq!(*cache.snapshot_view(), prior);
}

#[test]
fn received_snapshot_is_visible_exactly() {
    let sent = vec![entity(10.0, 20.0, ColorTag::Red), entity(30.0, 5.0, ColorTag::Blue)];
    let bytes = encode_world_snapshot(&WorldSnapshot { entities: sent.clone() });
    let mut cache = SharedWorldCache::new();
    let outcome = receive_step(&mut cache, SourcePolicy::ServerOnly, true, &bytes);
    assert_eq!(outcome, ReceiveOutcome::Replaced);
    let view = cache.snapshot_view();
    assert_eq!(view.entities, sent);
    assert_eq!(f32::from_bits(view.entities[0].x_bits), 10.0);
    assert_eq!(f32::from_bits(view.entities[0].y_bits), 20.0);
    assert_eq!(view.entities[0].color, ColorTag::Red);
    assert_eq!(f32::from_bits(view.entities[1].x_bits), 30.0);
    assert_eq!(f32::from_bits(view.entities[1].y_bits), 5.0);
    assert_eq!(view.entities[1].color, ColorTag::Blue);
}

#[test]
fn foreign_source_is_ignored_under_server_only_policy() {
    let mut cache = SharedWorldCache::new();
    let bytes = encode_world_snapshot(&WorldSnapshot {
        entities: vec![entity(1.0, 1.0, ColorTag::Pink)],
    });
    let outcome = receive_step(&mut cache, SourcePolicy::ServerOnly, false, &bytes);
    assert_eq!(outcome, ReceiveOutcome::Ignored);
    assert!(cache.snapshot_view().entities.is_empty());
    // The same datagram is decoded when every source is accepted.
    let outcome = receive_step(&mut cache, SourcePolicy::AcceptAny, false, &bytes);
    assert_eq!(outcome, ReceiveOutcome::Replaced);
}

#[test]
fn move_right_and_jump_batch_in_order() {
    let batch = collect_commands(true, false, true);
    assert_eq!(batch.commands, vec![LocalCommand::MoveRight, LocalCommand::Jump]);
    let bytes = tick_payload(&batch).unwrap().unwrap();
    let decoded = decode_command_batch(&bytes).unwrap();
    assert_eq!(decoded.commands, vec![LocalCommand::MoveRight, LocalCommand::Jump]);
}

#[test]
fn all_intents_batch_in_sampling_order() {
    let batch = collect_commands(true, true, true);
    assert_eq!(
        batch.commands,
        vec![LocalCommand::MoveRight, LocalCommand::MoveLeft, LocalCommand::Jump]
    );
}
