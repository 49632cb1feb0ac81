use mpl_wgpu::instance::{Instance, Word2, Word3, Word4, INSTANCE_SIZE};
use mpl_wgpu::partition::{sort_faces_first, split_index};
use mpl_wgpu::primitives::{
    DrawCall, Mat4, PassCommand, Pipeline, PrimitiveRenderer, Uniforms, Upload,
    INITIAL_CAPACITY, INITIAL_CAPACITY_BYTES, QUAD_VERTEX_COUNT, UNIFORM_SIZE, WORD_ONE,
};
use mpl_wgpu::text::{parse_font, FontError, QueuedText, TextRenderer};

/// The word that holds a single-precision number.
fn w(x: f32) -> u32 {
    x.to_bits()
}

fn w2(x: f32, y: f32) -> Word2 {
    Word2::new(w(x), w(y))
}

fn w3(x: f32, y: f32, z: f32) -> Word3 {
    Word3::new(w(x), w(y), w(z))
}

fn w4(x: f32, y: f32, z: f32, a: f32) -> Word4 {
    Word4::new(w(x), w(y), w(z), w(a))
}

const ZERO: Word4 = Word4 { x: 0, y: 0, z: 0, w: 0 };

fn red() -> Word4 {
    w4(1.0, 0.0, 0.0, 1.0)
}

fn blue() -> Word4 {
    w4(0.0, 0.0, 1.0, 1.0)
}

/// A record that is told apart by its tag and by one word.
fn tagged(primitive_type: u32, mark: u32) -> Instance {
    Instance {
        anchor_a: Word4::new(mark, 0, 0, 0),
        anchor_b: ZERO,
        color: ZERO,
        primitive_type,
        dash_length: 0,
        gap_length: 0,
        dash_offset: 0,
        anchor_c: ZERO,
    }
}

fn marks(batch: &[Instance]) -> Vec<u32> {
    batch.iter().map(|i| i.anchor_a.x).collect()
}

fn depth(first: u32, end: u32) -> DrawCall {
    DrawCall {
        pipeline: Pipeline::DepthWrite,
        vertex_count: 6,
        first_instance: first,
        end_instance: end,
    }
}

fn lines(first: u32, end: u32) -> DrawCall {
    DrawCall {
        pipeline: Pipeline::Lines,
        vertex_count: 6,
        first_instance: first,
        end_instance: end,
    }
}

fn draw(first: u32, end: u32) -> PassCommand {
    PassCommand::Draw { vertex_count: 6, first_instance: first, end_instance: end }
}

#[test]
fn layout_constants() {
    assert_eq!(INSTANCE_SIZE, 80);
    assert_eq!(INITIAL_CAPACITY, 1024);
    assert_eq!(INITIAL_CAPACITY_BYTES, 1024 * 80);
    assert_eq!(QUAD_VERTEX_COUNT, 6);
    assert_eq!(UNIFORM_SIZE, 64 + 16 + 16);
    assert_eq!(WORD_ONE, w(1.0));
    assert_eq!(w(0.0), 0);
}

#[test]
fn a_new_renderer_is_empty() {
    let mut r = PrimitiveRenderer::new(800, 600);
    assert!(r.is_empty());
    assert_eq!(r.len(), 0);
    assert_eq!(r.capacity(), 81920);
    assert!(r.instances().is_empty());
    assert!(r.render().is_empty());
    assert!(r.draw_calls().is_empty());
    assert_eq!(r.prepare(), None);
    assert!(r.render().is_empty());
    assert!(r.draw_calls().is_empty());
    assert_eq!(r.capacity(), 81920);
}

#[test]
fn draw_rect_appends_its_record() {
    let mut r = PrimitiveRenderer::new(800, 600);
    r.draw_rect(w2(100.0, 50.0), w2(30.0, 20.0), red(), w(4.0), w(1.5));
    assert_eq!(
        r.instances(),
        &[Instance {
            anchor_a: w4(100.0, 50.0, 0.0, 4.0),
            anchor_b: w4(30.0, 20.0, 0.0, 1.5),
            color: red(),
            primitive_type: 0,
            dash_length: 0,
            gap_length: 0,
            dash_offset: 0,
            anchor_c: ZERO,
        }]
    );
}

#[test]
fn draw_circle_appends_its_record() {
    let mut r = PrimitiveRenderer::new(800, 600);
    r.draw_circle(w3(1.0, 2.0, 3.0), w(5.0), blue(), w(0.5), 1);
    r.draw_circle(w3(1.0, 2.0, 3.0), w(5.0), blue(), w(0.5), 13);
    let circle = Instance {
        anchor_a: w4(1.0, 2.0, 3.0, 5.0),
        anchor_b: w4(0.0, 0.0, 0.0, 0.5),
        color: blue(),
        primitive_type: 1,
        dash_length: 0,
        gap_length: 0,
        dash_offset: 0,
        anchor_c: ZERO,
    };
    assert_eq!(r.instances(), &[circle, Instance { primitive_type: 13, ..circle }]);
}

#[test]
fn draw_oval_appends_its_record() {
    let mut r = PrimitiveRenderer::new(800, 600);
    r.draw_oval(w2(10.0, 20.0), w2(3.0, 7.0), red(), w(2.0));
    assert_eq!(
        r.instances(),
        &[Instance {
            anchor_a: w4(10.0, 20.0, 0.0, 3.0),
            anchor_b: w4(7.0, 0.0, 0.0, 2.0),
            color: red(),
            primitive_type: 1,
            dash_length: 0,
            gap_length: 0,
            dash_offset: 0,
            anchor_c: ZERO,
        }]
    );
}

#[test]
fn draw_marker_tags_ten_plus_the_marker() {
    let mut r = PrimitiveRenderer::new(800, 600);
    r.draw_marker(w2(10.0, 20.0), w2(3.0, 7.0), 0, red(), w(2.0));
    r.draw_marker(w2(10.0, 20.0), w2(3.0, 7.0), 3, red(), w(2.0));
    r.draw_marker(w2(10.0, 20.0), w2(3.0, 7.0), u32::MAX - 10, red(), w(2.0));
    let plus = Instance {
        anchor_a: w4(10.0, 20.0, 0.0, 3.0),
        anchor_b: w4(7.0, 0.0, 0.0, 2.0),
        color: red(),
        primitive_type: 10,
        dash_length: 0,
        gap_length: 0,
        dash_offset: 0,
        anchor_c: ZERO,
    };
    assert_eq!(
        r.instances(),
        &[
            plus,
            Instance { primitive_type: 13, ..plus },
            Instance { primitive_type: u32::MAX, ..plus },
        ]
    );
}

#[test]
fn draw_line_appends_its_record() {
    let mut r = PrimitiveRenderer::new(800, 600);
    r.draw_line(
        w3(0.0, 0.0, 0.5),
        w3(200.0, 100.0, 0.25),
        w(1.0),
        blue(),
        w(8.0),
        w(4.0),
        w(2.0),
    );
    assert_eq!(
        r.instances(),
        &[Instance {
            anchor_a: w4(0.0, 0.0, 0.5, 1.0),
            anchor_b: w4(200.0, 100.0, 0.25, 0.0),
            color: blue(),
            primitive_type: 2,
            dash_length: w(8.0),
            gap_length: w(4.0),
            dash_offset: w(2.0),
            anchor_c: ZERO,
        }]
    );
}

#[test]
fn draw_triangle_appends_its_record() {
    let mut r = PrimitiveRenderer::new(800, 600);
    r.draw_triangle(w3(1.0, 2.0, 3.0), w3(4.0, 5.0, 6.0), w3(7.0, 8.0, 9.0), red());
    r.draw_triangle_unlit(w3(1.0, 2.0, 3.0), w3(4.0, 5.0, 6.0), w3(7.0, 8.0, 9.0), red());
    let lit = Instance {
        anchor_a: w4(1.0, 2.0, 3.0, 0.0),
        anchor_b: w4(4.0, 5.0, 6.0, 0.0),
        color: red(),
        primitive_type: 30,
        dash_length: 0,
        gap_length: 0,
        dash_offset: 0,
        anchor_c: w4(7.0, 8.0, 9.0, 0.0),
    };
    assert_eq!(r.instances(), &[lit, Instance { primitive_type: 31, ..lit }]);
    assert!(lit.is_face());
    assert!(r.instances()[1].is_face());
}

#[test]
fn only_tags_thirty_and_thirty_one_are_faces() {
    for primitive_type in [0u32, 1, 2, 10, 11, 13, 29, 32, u32::MAX] {
        assert!(!tagged(primitive_type, 0).is_face(), "tag {primitive_type}");
    }
    assert!(tagged(30, 0).is_face());
    assert!(tagged(31, 0).is_face());
}

#[test]
fn sorting_moves_faces_to_the_front_and_is_stable() {
    let mut batch = vec![
        tagged(2, 1),
        tagged(30, 2),
        tagged(0, 3),
        tagged(31, 4),
        tagged(1, 5),
        tagged(30, 6),
        tagged(2, 7),
    ];
    let before = batch.clone();
    sort_faces_first(&mut batch);
    // Faces 2, 4, 6 in insertion order, then the rest in insertion order.
    assert_eq!(marks(&batch), vec![2, 4, 6, 1, 3, 5, 7]);
    assert_eq!(batch[0], before[1]);
    assert_eq!(batch[3], before[0]);
    assert_eq!(split_index(&batch), 3);
}

#[test]
fn sorting_keeps_two_equal_tags_in_insertion_order() {
    // A then B among the faces, and C then D among the rest.
    let mut batch = vec![tagged(2, 30), tagged(31, 10), tagged(2, 40), tagged(31, 20)];
    sort_faces_first(&mut batch);
    assert_eq!(marks(&batch), vec![10, 20, 30, 40]);
}

#[test]
fn sorting_a_sorted_batch_changes_nothing() {
    let mut batch = vec![tagged(31, 1), tagged(30, 2), tagged(0, 3), tagged(2, 4)];
    let before = batch.clone();
    sort_faces_first(&mut batch);
    assert_eq!(batch, before);
    sort_faces_first(&mut batch);
    assert_eq!(batch, before);
    let mut empty: Vec<Instance> = Vec::new();
    sort_faces_first(&mut empty);
    assert!(empty.is_empty());
}

#[test]
fn split_index_counts_the_leading_faces() {
    assert_eq!(split_index(&[]), 0);
    assert_eq!(split_index(&[tagged(2, 0)]), 0);
    assert_eq!(split_index(&[tagged(30, 0)]), 1);
    assert_eq!(split_index(&[tagged(30, 0), tagged(31, 0), tagged(1, 0)]), 2);
    // A face behind another instance is not a leading face.
    assert_eq!(split_index(&[tagged(30, 0), tagged(1, 0), tagged(31, 0)]), 1);
    assert_eq!(split_index(&[tagged(1, 0), tagged(31, 0)]), 0);
}

#[test]
fn prepare_orders_the_batch_and_render_splits_it() {
    let mut r = PrimitiveRenderer::new(800, 600);
    r.draw_line(w3(0.0, 0.0, 0.0), w3(1.0, 1.0, 0.0), w(1.0), blue(), 0, 0, 0);
    r.draw_triangle(w3(0.0, 0.0, 0.0), w3(1.0, 0.0, 0.0), w3(0.0, 1.0, 0.0), red());
    r.draw_rect(w2(5.0, 5.0), w2(1.0, 1.0), red(), 0, 0);
    r.draw_triangle_unlit(w3(0.0, 0.0, 0.0), w3(1.0, 0.0, 0.0), w3(0.0, 1.0, 0.0), blue());
    r.draw_circle(w3(0.0, 0.0, 0.0), w(1.0), red(), 0, 1);
    let plan = r.prepare();
    assert_eq!(plan, Some(Upload { byte_len: 5 * 80, grow_to: None }));
    let primitive_types: Vec<u32> = r.instances().iter().map(|i| i.primitive_type).collect();
    assert_eq!(primitive_types, vec![30, 31, 2, 0, 1]);
    assert_eq!(r.instances()[0].color, red());
    assert_eq!(r.instances()[1].color, blue());
    assert_eq!(r.draw_calls(), vec![depth(0, 2), lines(2, 5)]);
    assert_eq!(
        r.render(),
        vec![
            PassCommand::SetBindGroup,
            PassCommand::SetVertexBuffer,
            PassCommand::SetPipeline(Pipeline::DepthWrite),
            draw(0, 2),
            PassCommand::SetPipeline(Pipeline::Lines),
            draw(2, 5),
        ]
    );
}

#[test]
fn render_leaves_out_an_empty_range() {
    let mut faces = PrimitiveRenderer::new(800, 600);
    faces.draw_triangle(w3(0.0, 0.0, 0.0), w3(1.0, 0.0, 0.0), w3(0.0, 1.0, 0.0), red());
    faces.draw_triangle_unlit(w3(0.0, 0.0, 0.0), w3(1.0, 0.0, 0.0), w3(0.0, 1.0, 0.0), red());
    faces.prepare();
    assert_eq!(faces.draw_calls(), vec![depth(0, 2)]);
    assert_eq!(
        faces.render(),
        vec![
            PassCommand::SetBindGroup,
            PassCommand::SetVertexBuffer,
            PassCommand::SetPipeline(Pipeline::DepthWrite),
            draw(0, 2),
        ]
    );

    let mut strokes = PrimitiveRenderer::new(800, 600);
    strokes.draw_rect(w2(5.0, 5.0), w2(1.0, 1.0), red(), 0, 0);
    strokes.draw_oval(w2(5.0, 5.0), w2(1.0, 1.0), red(), 0);
    strokes.draw_marker(w2(5.0, 5.0), w2(1.0, 1.0), 1, red(), 0);
    strokes.prepare();
    assert_eq!(strokes.draw_calls(), vec![lines(0, 3)]);
    assert_eq!(
        strokes.render(),
        vec![
            PassCommand::SetBindGroup,
            PassCommand::SetVertexBuffer,
            PassCommand::SetPipeline(Pipeline::Lines),
            draw(0, 3),
        ]
    );
}

#[test]
fn render_ranges_cover_every_instance_once() {
    let mut r = PrimitiveRenderer::new(800, 600);
    for n in 0..40u32 {
        if n % 3 == 0 {
            r.draw_triangle(w3(0.0, 0.0, 0.0), w3(1.0, 0.0, 0.0), w3(0.0, 1.0, 0.0), red());
        } else {
            r.draw_rect(w2(5.0, 5.0), w2(1.0, 1.0), red(), 0, 0);
        }
    }
    r.prepare();
    let calls = r.draw_calls();
    for i in 0..40u32 {
        let drawn_by: Vec<&DrawCall> =
            calls.iter().filter(|c| c.first_instance <= i && i < c.end_instance).collect();
        assert_eq!(drawn_by.len(), 1);
        let face = r.instances()[i as usize].is_face();
        assert_eq!(drawn_by[0].pipeline == Pipeline::DepthWrite, face);
    }
    assert!(calls.iter().all(|c| c.end_instance <= 40 && c.vertex_count == 6));
}

#[test]
fn render_of_an_unprepared_batch_splits_behind_the_leading_faces() {
    let mut r = PrimitiveRenderer::new(800, 600);
    r.draw_triangle(w3(0.0, 0.0, 0.0), w3(1.0, 0.0, 0.0), w3(0.0, 1.0, 0.0), red());
    r.draw_rect(w2(5.0, 5.0), w2(1.0, 1.0), red(), 0, 0);
    r.draw_triangle(w3(0.0, 0.0, 0.0), w3(1.0, 0.0, 0.0), w3(0.0, 1.0, 0.0), red());
    assert_eq!(r.draw_calls(), vec![depth(0, 1), lines(1, 3)]);
}

#[test]
fn a_circle_tagged_as_a_face_is_drawn_with_the_faces() {
    let mut r = PrimitiveRenderer::new(800, 600);
    r.draw_rect(w2(5.0, 5.0), w2(1.0, 1.0), red(), 0, 0);
    r.draw_circle(w3(0.0, 0.0, 0.0), w(1.0), red(), 0, 30);
    r.prepare();
    assert_eq!(r.instances()[0].primitive_type, 30);
    assert_eq!(r.draw_calls(), vec![depth(0, 1), lines(1, 2)]);
}

#[test]
fn the_buffer_grows_to_the_batch_and_never_shrinks() {
    let mut r = PrimitiveRenderer::new(800, 600);
    for _ in 0..1024 {
        r.draw_rect(w2(5.0, 5.0), w2(1.0, 1.0), red(), 0, 0);
    }
    // A batch that fits exactly does not grow the buffer.
    assert_eq!(r.prepare(), Some(Upload { byte_len: 81920, grow_to: None }));
    assert_eq!(r.capacity(), 81920);

    r.draw_rect(w2(5.0, 5.0), w2(1.0, 1.0), red(), 0, 0);
    assert_eq!(r.prepare(), Some(Upload { byte_len: 82000, grow_to: Some(82000) }));
    assert_eq!(r.capacity(), 82000);

    // A smaller batch keeps the larger buffer.
    r.clear();
    assert_eq!(r.capacity(), 82000);
    for _ in 0..10 {
        r.draw_rect(w2(5.0, 5.0), w2(1.0, 1.0), red(), 0, 0);
    }
    assert_eq!(r.prepare(), Some(Upload { byte_len: 800, grow_to: None }));
    assert_eq!(r.capacity(), 82000);

    // An empty batch asks nothing and keeps it too.
    r.clear();
    assert_eq!(r.prepare(), None);
    assert_eq!(r.capacity(), 82000);
}

#[test]
fn preparing_twice_is_preparing_once() {
    let mut r = PrimitiveRenderer::new(800, 600);
    r.draw_rect(w2(5.0, 5.0), w2(1.0, 1.0), red(), 0, 0);
    r.draw_triangle(w3(0.0, 0.0, 0.0), w3(1.0, 0.0, 0.0), w3(0.0, 1.0, 0.0), red());
    r.draw_line(w3(0.0, 0.0, 0.0), w3(1.0, 1.0, 0.0), w(1.0), blue(), 0, 0, 0);
    let first = r.prepare();
    let batch: Vec<Instance> = r.instances().to_vec();
    let calls = r.render();
    let second = r.prepare();
    assert_eq!(first, second);
    assert_eq!(r.instances(), &batch[..]);
    assert_eq!(r.render(), calls);
}

#[test]
fn clear_empties_the_batch() {
    let mut r = PrimitiveRenderer::new(800, 600);
    r.draw_rect(w2(5.0, 5.0), w2(1.0, 1.0), red(), 0, 0);
    r.draw_rect(w2(5.0, 5.0), w2(1.0, 1.0), red(), 0, 0);
    assert_eq!(r.len(), 2);
    r.clear();
    assert!(r.is_empty());
    assert!(r.render().is_empty());
    // Without a clear the batch of the last frame stays.
    r.draw_rect(w2(5.0, 5.0), w2(1.0, 1.0), red(), 0, 0);
    r.prepare();
    r.draw_rect(w2(5.0, 5.0), w2(1.0, 1.0), red(), 0, 0);
    assert_eq!(r.len(), 2);
}

#[test]
fn the_uniform_block_follows_the_view_state() {
    let mut r = PrimitiveRenderer::new(800, 600);
    let origin = Word3::new(0, 0, 0);
    let block = r.set_camera_pos(w3(1.0, 2.0, 3.0));
    assert_eq!(
        block,
        Uniforms {
            view_proj: Mat4::identity(),
            screen_width: 800,
            screen_height: 600,
            camera_pos: w3(1.0, 2.0, 3.0),
        }
    );
    assert_eq!(Mat4::identity().x_axis, w4(1.0, 0.0, 0.0, 0.0));
    assert_eq!(Mat4::identity().y_axis, w4(0.0, 1.0, 0.0, 0.0));
    assert_eq!(Mat4::identity().z_axis, w4(0.0, 0.0, 1.0, 0.0));
    assert_eq!(Mat4::identity().w_axis, w4(0.0, 0.0, 0.0, 1.0));

    let resized = r.resize(1024, 768);
    assert_eq!(
        resized,
        Uniforms {
            view_proj: Mat4::identity(),
            screen_width: 1024,
            screen_height: 768,
            camera_pos: origin,
        }
    );

    let m = Mat4 {
        x_axis: w4(2.0, 0.0, 0.0, 0.0),
        y_axis: w4(0.0, 3.0, 0.0, 0.0),
        z_axis: w4(0.0, 0.0, 4.0, 0.0),
        w_axis: w4(5.0, 6.0, 7.0, 1.0),
    };
    let projected = r.set_view_projection(m);
    assert_eq!(
        projected,
        Uniforms { view_proj: m, screen_width: 1024, screen_height: 768, camera_pos: origin }
    );
    assert_eq!(r.set_camera_pos(w3(9.0, 9.0, 9.0)).view_proj, m);
}

#[test]
fn the_text_queue_keeps_the_order_of_drawing() {
    let mut t = TextRenderer::new(800, 600);
    assert!(t.prepare().is_empty());
    t.draw_text("title", w2(10.0, 20.0), w(32.0), red());
    t.draw_text("x", w2(30.0, 40.0), w(12.0), blue());
    let sections = t.prepare();
    assert_eq!(
        sections,
        vec![
            QueuedText {
                text: "title".to_string(),
                pos: w2(10.0, 20.0),
                size: w(32.0),
                color: red(),
            },
            QueuedText { text: "x".to_string(), pos: w2(30.0, 40.0), size: w(12.0), color: blue() },
        ]
    );
    // The labels stay queued: they are returned again, and a label
    // drawn later follows them.
    assert_eq!(t.prepare(), sections);
    t.draw_text("y", w2(50.0, 60.0), w(12.0), red());
    let more = t.prepare();
    assert_eq!(more.len(), 3);
    assert_eq!(more[..2], sections[..]);
    assert_eq!(more[2].text, "y");
    // Only clearing empties the queue.
    t.clear();
    assert!(t.prepare().is_empty());
}

#[test]
fn clearing_the_text_queue_drops_the_labels() {
    let mut t = TextRenderer::new(800, 600);
    t.draw_text("gone", w2(10.0, 20.0), w(32.0), red());
    t.clear();
    t.resize(10, 10);
    t.draw_text("kept", w2(1.0, 2.0), w(8.0), blue());
    let sections = t.prepare();
    assert_eq!(sections.len(), 1);
    assert_eq!(sections[0].text, "kept");
}

/// The smallest file that is a font: the three tables that every font
/// must have, with no glyph data.
fn minimal_font() -> Vec<u8> {
    let mut font = Vec::new();
    // Offset table: TrueType outlines, three tables.
    font.extend_from_slice(&0x0001_0000u32.to_be_bytes());
    font.extend_from_slice(&3u16.to_be_bytes());
    font.extend_from_slice(&[0; 6]);
    // Table records: tag, checksum, offset, length.
    for (tag, offset, length) in [(b"head", 60u32, 54u32), (b"hhea", 114, 36), (b"maxp", 150, 6)] {
        font.extend_from_slice(tag);
        font.extend_from_slice(&0u32.to_be_bytes());
        font.extend_from_slice(&offset.to_be_bytes());
        font.extend_from_slice(&length.to_be_bytes());
    }
    // head: 1000 units per em, short offsets.
    let mut head = [0u8; 54];
    head[18..20].copy_from_slice(&1000u16.to_be_bytes());
    font.extend_from_slice(&head);
    // hhea: no metrics.
    font.extend_from_slice(&[0; 36]);
    // maxp: version 0.5, one glyph.
    font.extend_from_slice(&0x0000_5000u32.to_be_bytes());
    font.extend_from_slice(&1u16.to_be_bytes());
    assert_eq!(font.len(), 156);
    font
}

#[test]
fn a_font_file_is_parsed() {
    assert!(parse_font(&minimal_font()).is_ok());
}

#[test]
fn data_that_is_no_font_is_refused() {
    assert_eq!(parse_font(&[]).err(), Some(FontError::InvalidFont));
    assert_eq!(parse_font(b"not a font at all").err(), Some(FontError::InvalidFont));
    // A font without its glyph count is none.
    let mut truncated = minimal_font();
    truncated.truncate(150);
    assert_eq!(parse_font(&truncated).err(), Some(FontError::InvalidFont));
    // Nor is one whose units per em are out of range.
    let mut scaled = minimal_font();
    scaled[60 + 18] = 0;
    scaled[60 + 19] = 1;
    assert_eq!(parse_font(&scaled).err(), Some(FontError::InvalidFont));
}

#[test]
fn parsing_the_same_bytes_twice_agrees() {
    let font = minimal_font();
    assert_eq!(parse_font(&font).is_ok(), parse_font(&font).is_ok());
    let junk = vec![0xFFu8; 64];
    assert_eq!(parse_font(&junk).is_ok(), parse_font(&junk).is_ok());
}
