use rust_game_engine::game::Pos;
use rust_game_engine::render::animation::AnimationFrame;
use rust_game_engine::render::display::{
    DisplayElement, DisplayElementFixedSprite, FrameBuilder, SpriteRenderer,
};
use rust_game_engine::render::renderer::build_sprite_batches;
use rust_game_engine::render::sprite::{
    Rect, SpriteMetadata, SpriteRef, Spritesheet, Spritesheets,
};
use rust_game_engine::render::vert::{Ratio, VertexSprite};

fn meta(frame: [u32; 4], original_position: [u32; 2]) -> SpriteMetadata {
    SpriteMetadata {
        frame,
        rotated: false,
        trimmed: true,
        original_position,
        original_size: [frame[2] + original_position[0], frame[3] + original_position[1]],
    }
}

fn sheet() -> Spritesheet {
    let metadata = vec![
        ("grass".to_string(), meta([16, 32, 8, 4], [0, 0])),
        ("rock".to_string(), meta([0, 0, 10, 20], [3, 5])),
        ("tree".to_string(), meta([100, 40, 28, 24], [1, 2])),
    ];
    Spritesheet::create([128, 64], metadata).0
}

fn frame(sprite_index: usize, offset: [i32; 2]) -> AnimationFrame {
    AnimationFrame { sprite: SpriteRef { spritesheet_index: 0, sprite_index }, offset }
}

fn corner(v: &VertexSprite) -> ([i64; 3], [(u64, u32); 2]) {
    (v.position, [(v.uv[0].numer, v.uv[0].denom), (v.uv[1].numer, v.uv[1].denom)])
}

#[test]
fn spritesheet_create_keeps_names_and_order() {
    let metadata = vec![
        ("grass".to_string(), meta([16, 32, 8, 4], [0, 0])),
        ("rock".to_string(), meta([0, 0, 10, 20], [3, 5])),
    ];
    let (sheet, indices) = Spritesheet::create([128, 64], metadata);
    assert_eq!(indices, vec![("grass".to_string(), 0), ("rock".to_string(), 1)]);
    assert_eq!(sheet.size(), [128, 64]);
    assert_eq!(sheet.get_sprite_metadata(0).unwrap().frame, [16, 32, 8, 4]);
    assert_eq!(sheet.get_sprite_metadata(1).unwrap().frame, [0, 0, 10, 20]);
    assert_eq!(sheet.get_sprite_metadata(1).unwrap().original_position, [3, 5]);
    assert!(sheet.get_sprite_metadata(2).is_none());
    assert!(sheet.get_sprite_metadata(usize::MAX).is_none());
}

#[test]
fn spritesheet_without_sprites_knows_none() {
    let (sheet, indices) = Spritesheet::create([1, 1], Vec::new());
    assert!(indices.is_empty());
    assert!(sheet.get_sprite_metadata(0).is_none());
}

#[test]
fn spritesheets_init_numbers_atlases_in_order() {
    let first = Spritesheet::create(
        [128, 64],
        vec![
            ("grass".to_string(), meta([16, 32, 8, 4], [0, 0])),
            ("rock".to_string(), meta([0, 0, 10, 20], [3, 5])),
        ],
    );
    let second = Spritesheet::create([32, 32], vec![("hero".to_string(), meta([0, 0, 8, 8], [0, 0]))]);
    let all = Spritesheets::init(vec![first, second]);
    let map = all.get_sprite_map();
    assert_eq!(
        map,
        &vec![
            ("grass".to_string(), SpriteRef { spritesheet_index: 0, sprite_index: 0 }),
            ("rock".to_string(), SpriteRef { spritesheet_index: 0, sprite_index: 1 }),
            ("hero".to_string(), SpriteRef { spritesheet_index: 1, sprite_index: 0 }),
        ]
    );
    assert_eq!(all.get(0).unwrap().size(), [128, 64]);
    assert_eq!(all.get(1).unwrap().size(), [32, 32]);
    assert_eq!(all.get(1).unwrap().get_sprite_metadata(0).unwrap().frame, [0, 0, 8, 8]);
    assert!(all.get(2).is_none());
}

#[test]
fn animation_frame_offset_adds_componentwise() {
    let f = frame(2, [10, -20]).offset([5, 7]);
    assert_eq!(f.offset, [15, -13]);
    assert_eq!(f.sprite, SpriteRef { spritesheet_index: 0, sprite_index: 2 });
}

#[test]
fn new_collector_has_an_empty_list_per_atlas() {
    let r = SpriteRenderer::new(3);
    assert_eq!(r.atlas_count(), 3);
    assert_eq!(r.sprite_count(0), 0);
    assert_eq!(r.sprite_count(1), 0);
    assert_eq!(r.sprite_count(2), 0);
}

#[test]
fn draw_sprite_appends_to_the_atlas_of_the_sprite() {
    let mut r = SpriteRenderer::new(2);
    r.draw_sprite(AnimationFrame {
        sprite: SpriteRef { spritesheet_index: 1, sprite_index: 0 },
        offset: [0, 0],
    });
    r.draw_sprite(AnimationFrame {
        sprite: SpriteRef { spritesheet_index: 1, sprite_index: 1 },
        offset: [0, 0],
    });
    assert_eq!(r.sprite_count(0), 0);
    assert_eq!(r.sprite_count(1), 2);
}

#[test]
fn get_buffers_is_none_without_draws() {
    let r = SpriteRenderer::new(1);
    assert!(r.get_buffers(0, &sheet()).is_none());
}

#[test]
fn get_buffers_gives_four_vertices_and_six_indices_per_sprite() {
    let mut r = SpriteRenderer::new(1);
    r.draw_sprite(frame(0, [0, 0]));
    r.draw_sprite(frame(1, [10, 10]));
    r.draw_sprite(frame(2, [20, 20]));
    let (vertices, indices) = r.get_buffers(0, &sheet()).unwrap();
    assert_eq!(vertices.len(), 12);
    assert_eq!(indices.len(), 18);
    assert!(indices.iter().all(|&i| (i as usize) < vertices.len()));
}

#[test]
fn get_buffers_winds_every_quad_the_same_way() {
    let mut r = SpriteRenderer::new(1);
    r.draw_sprite(frame(0, [0, 0]));
    r.draw_sprite(frame(1, [10, 10]));
    r.draw_sprite(frame(2, [20, 20]));
    let (_, indices) = r.get_buffers(0, &sheet()).unwrap();
    assert_eq!(indices, vec![0, 1, 2, 2, 1, 3, 4, 5, 6, 6, 5, 7, 8, 9, 10, 10, 9, 11]);

    let mut other_order = SpriteRenderer::new(1);
    other_order.draw_sprite(frame(2, [20, 20]));
    other_order.draw_sprite(frame(0, [0, 0]));
    other_order.draw_sprite(frame(1, [10, 10]));
    let (_, reordered) = other_order.get_buffers(0, &sheet()).unwrap();
    assert_eq!(reordered, indices);
}

#[test]
fn get_buffers_maps_the_frame_to_uv_corners() {
    // frame = [16, 32, 8, 4] in an atlas of 128 by 64.
    let mut r = SpriteRenderer::new(1);
    r.draw_sprite(frame(0, [100, 50]));
    let (vertices, _) = r.get_buffers(0, &sheet()).unwrap();
    assert_eq!(corner(&vertices[0]), ([100, 50, 0], [(16, 128), (36, 64)]));
    assert_eq!(corner(&vertices[1]), ([108, 50, 0], [(24, 128), (36, 64)]));
    assert_eq!(corner(&vertices[2]), ([100, 54, 0], [(16, 128), (32, 64)]));
    assert_eq!(corner(&vertices[3]), ([108, 54, 0], [(24, 128), (32, 64)]));
    let uv = |r: Ratio| r.numer as f32 / r.denom as f32;
    assert_eq!(uv(vertices[0].uv[0]), 16.0 / 128.0);
    assert_eq!(uv(vertices[0].uv[1]), (32.0 + 4.0) / 64.0);
    assert_eq!(uv(vertices[3].uv[0]), (16.0 + 8.0) / 128.0);
    assert_eq!(uv(vertices[3].uv[1]), 32.0 / 64.0);
}

#[test]
fn get_buffers_places_trimmed_sprites_by_their_original_position() {
    // "rock": frame [0, 0, 10, 20], trimmed by (3, 5).
    let mut r = SpriteRenderer::new(1);
    r.draw_sprite(frame(1, [-7, 40]));
    let (vertices, _) = r.get_buffers(0, &sheet()).unwrap();
    assert_eq!(vertices[0].position, [-4, 45, 0]);
    assert_eq!(vertices[1].position, [6, 45, 0]);
    assert_eq!(vertices[2].position, [-4, 65, 0]);
    assert_eq!(vertices[3].position, [6, 65, 0]);
}

#[test]
fn get_buffers_does_not_overflow_at_the_edges() {
    let metadata = vec![(
        "huge".to_string(),
        SpriteMetadata {
            frame: [u32::MAX, u32::MAX, u32::MAX, u32::MAX],
            rotated: false,
            trimmed: false,
            original_position: [u32::MAX, u32::MAX],
            original_size: [u32::MAX, u32::MAX],
        },
    )];
    let (sheet, _) = Spritesheet::create([0, 0], metadata);
    let mut r = SpriteRenderer::new(1);
    r.draw_sprite(frame(0, [i32::MAX, i32::MIN]));
    let (vertices, indices) = r.get_buffers(0, &sheet).unwrap();
    let max = u32::MAX as i64;
    assert_eq!(vertices[3].position, [i32::MAX as i64 + 2 * max, i32::MIN as i64 + 2 * max, 0]);
    assert_eq!(vertices[1].uv[0], Ratio { numer: 2 * u32::MAX as u64, denom: 0 });
    assert_eq!(indices, vec![0, 1, 2, 2, 1, 3]);
}

#[test]
fn get_buffers_drops_a_draw_with_an_unknown_sprite() {
    let mut r = SpriteRenderer::new(1);
    r.draw_sprite(frame(0, [0, 0]));
    r.draw_sprite(frame(99, [5, 5]));
    r.draw_sprite(frame(2, [20, 20]));
    let (vertices, indices) = r.get_buffers(0, &sheet()).unwrap();

    let mut clean = SpriteRenderer::new(1);
    clean.draw_sprite(frame(0, [0, 0]));
    clean.draw_sprite(frame(2, [20, 20]));
    let (expected_vertices, expected_indices) = clean.get_buffers(0, &sheet()).unwrap();

    assert_eq!(vertices.len(), 8);
    assert_eq!(indices, vec![0, 1, 2, 2, 1, 3, 4, 5, 6, 6, 5, 7]);
    assert_eq!(indices, expected_indices);
    let corners: Vec<_> = vertices.iter().map(corner).collect();
    let expected: Vec<_> = expected_vertices.iter().map(corner).collect();
    assert_eq!(corners, expected);
}

#[test]
fn get_buffers_with_only_unknown_sprites_is_empty_but_there() {
    let mut r = SpriteRenderer::new(1);
    r.draw_sprite(frame(3, [0, 0]));
    let (vertices, indices) = r.get_buffers(0, &sheet()).unwrap();
    assert!(vertices.is_empty());
    assert!(indices.is_empty());
}

#[test]
fn fixed_sprite_draws_itself_at_the_position() {
    let element = DisplayElementFixedSprite { sprite: frame(0, [1, 2]) };
    let mut r = SpriteRenderer::new(1);
    element.draw(&mut r, &Pos { x: 30, y: 40 });
    assert_eq!(r.sprite_count(0), 1);
    let (vertices, _) = r.get_buffers(0, &sheet()).unwrap();
    assert_eq!(vertices[0].position, [31, 42, 0]);
}

#[test]
fn frame_builder_carries_time_and_sprites() {
    let time = 1.5f32.to_bits();
    let mut frame_builder = FrameBuilder::new(time, 2);
    assert_eq!(frame_builder.get_time(), time);
    assert_eq!(f32::from_bits(frame_builder.get_time()), 1.5);
    frame_builder.get_sprite_renderer().draw_sprite(frame(0, [0, 0]));
    assert_eq!(frame_builder.sprite_renderer().atlas_count(), 2);
    assert_eq!(frame_builder.sprite_renderer().sprite_count(0), 1);
    assert_eq!(frame_builder.sprite_renderer().sprite_count(1), 0);
    assert_eq!(frame_builder.get_time(), time);
}

#[test]
fn sprite_batches_skip_atlases_without_draws() {
    let first = Spritesheet::create([128, 64], vec![("a".to_string(), meta([16, 32, 8, 4], [0, 0]))]);
    let second = Spritesheet::create([32, 32], vec![("b".to_string(), meta([0, 0, 8, 8], [0, 0]))]);
    let third = Spritesheet::create([64, 64], vec![("c".to_string(), meta([8, 8, 8, 8], [0, 0]))]);
    let all = Spritesheets::init(vec![first, second, third]);

    let mut frame_builder = FrameBuilder::new(0, 3);
    let collector = frame_builder.get_sprite_renderer();
    collector.draw_sprite(AnimationFrame {
        sprite: SpriteRef { spritesheet_index: 2, sprite_index: 0 },
        offset: [1, 1],
    });
    collector.draw_sprite(AnimationFrame {
        sprite: SpriteRef { spritesheet_index: 0, sprite_index: 0 },
        offset: [2, 2],
    });
    collector.draw_sprite(AnimationFrame {
        sprite: SpriteRef { spritesheet_index: 2, sprite_index: 0 },
        offset: [3, 3],
    });

    let batches = build_sprite_batches(&frame_builder, &all);
    assert_eq!(batches.len(), 2);
    assert_eq!(batches[0].atlas, 0);
    assert_eq!(batches[0].vertices.len(), 4);
    assert_eq!(batches[0].indices, vec![0, 1, 2, 2, 1, 3]);
    assert_eq!(batches[0].vertices[0].uv[0], Ratio { numer: 16, denom: 128 });
    assert_eq!(batches[1].atlas, 2);
    assert_eq!(batches[1].vertices.len(), 8);
    assert_eq!(batches[1].indices.len(), 12);
    assert_eq!(batches[1].vertices[0].position, [1, 1, 0]);
    assert_eq!(batches[1].vertices[4].position, [3, 3, 0]);
    assert_eq!(batches[1].vertices[0].uv[0], Ratio { numer: 8, denom: 64 });
}

#[test]
fn sprite_batches_of_an_empty_frame_are_none() {
    let first = Spritesheet::create([128, 64], vec![("a".to_string(), meta([16, 32, 8, 4], [0, 0]))]);
    let all = Spritesheets::init(vec![first]);
    let frame_builder = FrameBuilder::new(0, 1);
    assert!(build_sprite_batches(&frame_builder, &all).is_empty());
}

#[test]
fn sprite_batches_ignore_draws_into_an_atlas_that_is_not_there() {
    let first = Spritesheet::create([128, 64], vec![("a".to_string(), meta([16, 32, 8, 4], [0, 0]))]);
    let all = Spritesheets::init(vec![first]);
    let mut frame_builder = FrameBuilder::new(0, 2);
    frame_builder.get_sprite_renderer().draw_sprite(AnimationFrame {
        sprite: SpriteRef { spritesheet_index: 1, sprite_index: 0 },
        offset: [0, 0],
    });
    assert!(build_sprite_batches(&frame_builder, &all).is_empty());
}

#[test]
fn sprite_names_resolve_to_their_last_entry() {
    let first = Spritesheet::create(
        [128, 64],
        vec![
            ("grass".to_string(), meta([16, 32, 8, 4], [0, 0])),
            ("rock".to_string(), meta([0, 0, 10, 20], [3, 5])),
        ],
    );
    let second = Spritesheet::create(
        [32, 32],
        vec![
            ("hero".to_string(), meta([0, 0, 8, 8], [0, 0])),
            ("grass".to_string(), meta([8, 8, 8, 8], [0, 0])),
        ],
    );
    let all = Spritesheets::init(vec![first, second]);
    assert_eq!(
        all.find(&"rock".to_string()),
        Some(SpriteRef { spritesheet_index: 0, sprite_index: 1 })
    );
    assert_eq!(
        all.find(&"hero".to_string()),
        Some(SpriteRef { spritesheet_index: 1, sprite_index: 0 })
    );
    assert_eq!(
        all.find(&"grass".to_string()),
        Some(SpriteRef { spritesheet_index: 1, sprite_index: 1 })
    );
    assert_eq!(all.find(&"water".to_string()), None);
    assert_eq!(all.find(&String::new()), None);
}

#[test]
fn packed_sprite_metadata_keeps_frame_and_source() {
    let packed = SpriteMetadata::from_packed(
        Rect { x: 1, y: 2, w: 3, h: 4 },
        false,
        true,
        Rect { x: 5, y: 6, w: 7, h: 8 },
    );
    assert_eq!(packed.frame, [1, 2, 3, 4]);
    assert!(!packed.rotated);
    assert!(packed.trimmed);
    assert_eq!(packed.original_position, [5, 6]);
    assert_eq!(packed.original_size, [7, 8]);
}

#[test]
fn get_buffers_moves_each_quad_with_its_draw() {
    let mut r = SpriteRenderer::new(1);
    r.draw_sprite(frame(0, [0, 0]));
    r.draw_sprite(frame(1, [10, 10]));
    r.draw_sprite(frame(2, [20, 20]));
    let (vertices, indices) = r.get_buffers(0, &sheet()).unwrap();

    let mut other_order = SpriteRenderer::new(1);
    other_order.draw_sprite(frame(2, [20, 20]));
    other_order.draw_sprite(frame(0, [0, 0]));
    other_order.draw_sprite(frame(1, [10, 10]));
    let (moved, same_indices) = other_order.get_buffers(0, &sheet()).unwrap();

    assert_eq!(indices, same_indices);
    let quad = |v: &Vec<VertexSprite>, k: usize| -> Vec<_> {
        v[4 * k..4 * k + 4].iter().map(corner).collect()
    };
    assert_eq!(quad(&moved, 0), quad(&vertices, 2));
    assert_eq!(quad(&moved, 1), quad(&vertices, 0));
    assert_eq!(quad(&moved, 2), quad(&vertices, 1));
}

#[test]
fn get_buffers_drops_every_draw_with_an_unknown_sprite() {
    let mut r = SpriteRenderer::new(1);
    r.draw_sprite(frame(7, [1, 1]));
    r.draw_sprite(frame(0, [0, 0]));
    r.draw_sprite(frame(99, [5, 5]));
    r.draw_sprite(frame(usize::MAX, [6, 6]));
    r.draw_sprite(frame(2, [20, 20]));
    r.draw_sprite(frame(3, [9, 9]));
    let (vertices, indices) = r.get_buffers(0, &sheet()).unwrap();

    let mut clean = SpriteRenderer::new(1);
    clean.draw_sprite(frame(0, [0, 0]));
    clean.draw_sprite(frame(2, [20, 20]));
    let (expected_vertices, expected_indices) = clean.get_buffers(0, &sheet()).unwrap();

    assert_eq!(vertices.len(), 4 * (6 - 4));
    assert_eq!(indices.len(), 6 * (6 - 4));
    assert_eq!(indices, expected_indices);
    let corners: Vec<_> = vertices.iter().map(corner).collect();
    let expected: Vec<_> = expected_vertices.iter().map(corner).collect();
    assert_eq!(corners, expected);
}
