use roze::{PackedMatrix, PackedVector, Sprite, SpriteBuilder};

fn command(texture_id: u32) -> Sprite {
    let v = PackedVector { x: 0, y: 0, z: 0, w: 0 };
    Sprite { mvp: PackedMatrix { c0: v, c1: v, c2: v, c3: v }, color: v, texture_id }
}

#[test]
fn flush_empties_batch_and_next_add_starts_fresh() {
    let mut batch = SpriteBuilder::new(1, 2, 3, 4, 5);
    batch.add_sprite(command(10));
    batch.add_sprite(command(11));
    batch.add_sprite(command(12));
    assert_eq!(batch.pending_count(), 3);
    let commands = batch.draw_sprites();
    assert_eq!(commands.len(), 3);
    assert_eq!(batch.pending_count(), 0);
    batch.add_sprite(command(13));
    assert_eq!(batch.pending_count(), 1);
}

#[test]
fn flush_hands_commands_out_in_order() {
    let mut batch = SpriteBuilder::new(0, 0, 0, 0, 0);
    batch.add_sprite(command(7));
    batch.add_sprite(command(8));
    let commands = batch.draw_sprites();
    assert_eq!(commands[0].texture_id, 7);
    assert_eq!(commands[1].texture_id, 8);
}

#[test]
fn new_batch_is_empty() {
    let batch = SpriteBuilder::new(9, -1, -2, 3, 4);
    assert_eq!(batch.pending_count(), 0);
    assert_eq!(batch.shader_id, 9);
    assert_eq!(batch.matrix_id, -1);
    assert_eq!(batch.color_id, -2);
    assert_eq!(batch.vertex_id, 3);
    assert_eq!(batch.uv_id, 4);
}

#[test]
fn second_frame_batches_independently() {
    let mut batch = SpriteBuilder::new(1, 1, 1, 1, 1);
    batch.add_sprite(command(1));
    let first = batch.draw_sprites();
    batch.add_sprite(command(2));
    batch.add_sprite(command(3));
    let second = batch.draw_sprites();
    assert_eq!(first.len(), 1);
    assert_eq!(second.len(), 2);
    assert_eq!(second[0].texture_id, 2);
    assert_eq!(batch.pending_count(), 0);
}
