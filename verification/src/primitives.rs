//! The primitive renderer: the batch of a frame, the capacity of the
//! device buffer that receives it, and the plan of a frame's upload and
//! draw calls.
//!
//! The renderer owns no device resource. `prepare` and `render` return
//! what is to be done on the device as plain values; whoever owns the
//! device buffer and the pipelines carries it out.

use vstd::prelude::*;
use crate::instance::{
    Instance, Word2, Word3, Word4, INSTANCE_SIZE, TYPE_CIRCLE, TYPE_LINE, TYPE_MARKER_BASE,
    TYPE_RECTANGLE, TYPE_TRIANGLE, TYPE_TRIANGLE_UNLIT,
};
use crate::partition::{
    faces, faces_first, is_partitioned, leading_faces, lemma_classes_split,
    lemma_faces_first_idempotent, lemma_faces_first_partitioned, lemma_leading_faces,
    sort_faces_first, split_index,
};

verus! {

/// Number of instances that the device buffer holds when a renderer is
/// created.
pub const INITIAL_CAPACITY: usize = 1024;

/// Size in bytes of the device buffer when a renderer is created.
pub const INITIAL_CAPACITY_BYTES: u64 = 81920;

/// Number of vertices of the quad that stands in for every instance.
pub const QUAD_VERTEX_COUNT: u32 = 6;

/// Size of the uniform block on the device, in bytes: a 4x4 matrix, the
/// screen size and the camera position, each padded to 16 bytes.
pub const UNIFORM_SIZE: u64 = 96;

/// The word that the shading stage reads as the number one.
pub const WORD_ONE: u32 = 0x3F80_0000;

/// One of the two pipelines over the shared instance layout.
#[derive(Clone, Copy, Debug, PartialEq, Eq, Structural)]
pub enum Pipeline {
    /// Opaque faces, which write depth.
    DepthWrite,
    /// Lines, markers and every other blended primitive.
    Lines,
}

/// One instanced draw of the quad over the instances
/// `first_instance..end_instance` of the instance buffer.
#[derive(Clone, Copy, Debug, PartialEq, Eq, Structural)]
pub struct DrawCall {
    pub pipeline: Pipeline,
    pub vertex_count: u32,
    pub first_instance: u32,
    pub end_instance: u32,
}

/// One command recorded into a render pass.
#[derive(Clone, Copy, Debug, PartialEq, Eq, Structural)]
pub enum PassCommand {
    /// Bind the shared uniform block as bind group 0.
    SetBindGroup,
    /// Bind the whole instance buffer as vertex buffer 0.
    SetVertexBuffer,
    /// Switch to one of the two pipelines.
    SetPipeline(Pipeline),
    /// Draw `vertex_count` vertices for each of the instances
    /// `first_instance..end_instance`.
    Draw { vertex_count: u32, first_instance: u32, end_instance: u32 },
}

/// What `prepare` asks of the device: to write `byte_len` bytes of
/// instance data at the start of the instance buffer, after replacing
/// the buffer by one of `grow_to` bytes where that is set.
#[derive(Clone, Copy, Debug, PartialEq, Eq, Structural)]
pub struct Upload {
    pub byte_len: u64,
    pub grow_to: Option<u64>,
}

/// A 4x4 matrix of words, column by column.
#[derive(Clone, Copy, Debug, PartialEq, Eq, Structural)]
pub struct Mat4 {
    pub x_axis: Word4,
    pub y_axis: Word4,
    pub z_axis: Word4,
    pub w_axis: Word4,
}

/// The per-frame uniform block that both pipelines read.
#[derive(Clone, Copy, Debug, PartialEq, Eq, Structural)]
pub struct Uniforms {
    pub view_proj: Mat4,
    pub screen_width: u32,
    pub screen_height: u32,
    pub camera_pos: Word3,
}

impl Mat4 {
    /// The identity matrix.
    pub open spec fn spec_identity() -> Mat4 {
        Mat4 {
            x_axis: Word4 { x: WORD_ONE, y: 0, z: 0, w: 0 },
            y_axis: Word4 { x: 0, y: WORD_ONE, z: 0, w: 0 },
            z_axis: Word4 { x: 0, y: 0, z: WORD_ONE, w: 0 },
            w_axis: Word4 { x: 0, y: 0, z: 0, w: WORD_ONE },
        }
    }

    /// The identity matrix.
    #[verifier::when_used_as_spec(spec_identity)]
    pub fn identity() -> (m: Mat4)
        ensures
            m == Mat4::spec_identity(),
    {
        Mat4 {
            x_axis: Word4 { x: WORD_ONE, y: 0, z: 0, w: 0 },
            y_axis: Word4 { x: 0, y: WORD_ONE, z: 0, w: 0 },
            z_axis: Word4 { x: 0, y: 0, z: WORD_ONE, w: 0 },
            w_axis: Word4 { x: 0, y: 0, z: 0, w: WORD_ONE },
        }
    }
}

/// The record of a rectangle.
pub open spec fn rect_instance(
    pos: Word2,
    size: Word2,
    color: Word4,
    radius: u32,
    stroke_width: u32,
) -> Instance {
    Instance {
        anchor_a: Word4 { x: pos.x, y: pos.y, z: 0, w: radius },
        anchor_b: Word4 { x: size.x, y: size.y, z: 0, w: stroke_width },
        color,
        primitive_type: TYPE_RECTANGLE,
        dash_length: 0,
        gap_length: 0,
        dash_offset: 0,
        anchor_c: Word4::zero(),
    }
}

/// The record of a circle, or of whatever `marker_type` tags.
pub open spec fn circle_instance(
    center: Word3,
    radius: u32,
    color: Word4,
    stroke_width: u32,
    marker_type: u32,
) -> Instance {
    Instance {
        anchor_a: Word4 { x: center.x, y: center.y, z: center.z, w: radius },
        anchor_b: Word4 { x: 0, y: 0, z: 0, w: stroke_width },
        color,
        primitive_type: marker_type,
        dash_length: 0,
        gap_length: 0,
        dash_offset: 0,
        anchor_c: Word4::zero(),
    }
}

/// The record of an oval, or of a marker where `primitive_type` tags one.
pub open spec fn oval_instance(
    center: Word2,
    radii: Word2,
    color: Word4,
    stroke_width: u32,
    primitive_type: u32,
) -> Instance {
    Instance {
        anchor_a: Word4 { x: center.x, y: center.y, z: 0, w: radii.x },
        anchor_b: Word4 { x: radii.y, y: 0, z: 0, w: stroke_width },
        color,
        primitive_type,
        dash_length: 0,
        gap_length: 0,
        dash_offset: 0,
        anchor_c: Word4::zero(),
    }
}

/// The record of a line segment.
pub open spec fn line_instance(
    start: Word3,
    end: Word3,
    half_thickness: u32,
    color: Word4,
    dash_len: u32,
    gap_len: u32,
    dash_offset: u32,
) -> Instance {
    Instance {
        anchor_a: Word4 { x: start.x, y: start.y, z: start.z, w: half_thickness },
        anchor_b: Word4 { x: end.x, y: end.y, z: end.z, w: 0 },
        color,
        primitive_type: TYPE_LINE,
        dash_length: dash_len,
        gap_length: gap_len,
        dash_offset,
        anchor_c: Word4::zero(),
    }
}

/// The record of a filled triangle with tag `primitive_type`.
pub open spec fn triangle_instance(
    p0: Word3,
    p1: Word3,
    p2: Word3,
    color: Word4,
    primitive_type: u32,
) -> Instance {
    Instance {
        anchor_a: Word4 { x: p0.x, y: p0.y, z: p0.z, w: 0 },
        anchor_b: Word4 { x: p1.x, y: p1.y, z: p1.z, w: 0 },
        color,
        primitive_type,
        dash_length: 0,
        gap_length: 0,
        dash_offset: 0,
        anchor_c: Word4 { x: p2.x, y: p2.y, z: p2.z, w: 0 },
    }
}

/// The draw calls of a batch: one over the faces at its front with the
/// depth-writing pipeline, then one over the rest with the blending
/// pipeline, each left out where its range is empty.
pub open spec fn draw_calls(batch: Seq<Instance>) -> Seq<DrawCall> {
    let split = leading_faces(batch);
    let depth = if split > 0 {
        seq![
            DrawCall {
                pipeline: Pipeline::DepthWrite,
                vertex_count: QUAD_VERTEX_COUNT,
                first_instance: 0,
                end_instance: split as u32,
            },
        ]
    } else {
        Seq::empty()
    };
    let lines = if split < batch.len() {
        seq![
            DrawCall {
                pipeline: Pipeline::Lines,
                vertex_count: QUAD_VERTEX_COUNT,
                first_instance: split as u32,
                end_instance: batch.len() as u32,
            },
        ]
    } else {
        Seq::empty()
    };
    depth + lines
}

/// Whether `call` draws the instance at index `i`.
pub open spec fn draws(call: DrawCall, i: int) -> bool {
    call.first_instance <= i < call.end_instance
}

/// The commands of one draw call: the switch to its pipeline, then the
/// draw.
pub open spec fn call_commands(call: DrawCall) -> Seq<PassCommand> {
    seq![
        PassCommand::SetPipeline(call.pipeline),
        PassCommand::Draw {
            vertex_count: call.vertex_count,
            first_instance: call.first_instance,
            end_instance: call.end_instance,
        },
    ]
}

/// The commands of a sequence of draw calls, call after call.
pub open spec fn commands_of(calls: Seq<DrawCall>) -> Seq<PassCommand>
    decreases calls.len(),
{
    if calls.len() == 0 {
        Seq::empty()
    } else {
        commands_of(calls.drop_last()) + call_commands(calls.last())
    }
}

/// The commands that draw a batch: nothing for an empty batch;
/// otherwise the shared bind group and the instance buffer are bound,
/// once, and the draw calls of the batch follow.
pub open spec fn pass_commands(batch: Seq<Instance>) -> Seq<PassCommand> {
    if batch.len() == 0 {
        Seq::empty()
    } else {
        seq![PassCommand::SetBindGroup, PassCommand::SetVertexBuffer] + commands_of(
            draw_calls(batch),
        )
    }
}

/// Size in bytes of a batch of `len` instances.
pub open spec fn batch_bytes(len: nat) -> nat {
    len * INSTANCE_SIZE as nat
}

/// The capacity, in bytes, of the device buffer once a batch of `len`
/// instances has been prepared: the buffer is replaced by one that fits
/// the batch exactly where the batch does not fit, and is kept
/// otherwise.
pub open spec fn grown_capacity(capacity: nat, len: nat) -> nat {
    if batch_bytes(len) > capacity {
        batch_bytes(len)
    } else {
        capacity
    }
}

/// What the device is asked to do for a batch of `len` instances while
/// its buffer holds `capacity`: nothing for an empty batch.
pub open spec fn upload_plan(capacity: nat, len: nat) -> Option<Upload> {
    if len == 0 {
        None
    } else {
        Some(
            Upload {
                byte_len: batch_bytes(len) as u64,
                grow_to: if batch_bytes(len) > capacity {
                    Some(batch_bytes(len) as u64)
                } else {
                    None
                },
            },
        )
    }
}

/// The mathematical state of a renderer.
pub struct RendererState {
    /// The instances appended since the last `clear`, in the order in
    /// which they will be drawn.
    pub batch: Seq<Instance>,
    /// Size of the device buffer in bytes.
    pub capacity: nat,
    /// Width of the screen in pixels.
    pub width: u32,
    /// Height of the screen in pixels.
    pub height: u32,
    /// The view-projection matrix.
    pub view_proj: Mat4,
}

/// Accumulates the primitives of a frame and plans their upload and
/// their draw calls.
pub struct PrimitiveRenderer {
    instances: Vec<Instance>,
    capacity: u64,
    width: u32,
    height: u32,
    view_proj: Mat4,
}

impl View for PrimitiveRenderer {
    type V = RendererState;

    closed spec fn view(&self) -> RendererState {
        RendererState {
            batch: self.instances@,
            capacity: self.capacity as nat,
            width: self.width,
            height: self.height,
            view_proj: self.view_proj,
        }
    }
}

impl PrimitiveRenderer {
    /// The uniform block of a renderer in state `state` whose camera
    /// stands at `camera_pos`.
    pub open spec fn uniform_block(state: RendererState, camera_pos: Word3) -> Uniforms {
        Uniforms {
            view_proj: state.view_proj,
            screen_width: state.width,
            screen_height: state.height,
            camera_pos,
        }
    }

    /// The state of a new renderer for a screen of `width` by `height`
    /// pixels: no instance, the identity as view-projection, and a
    /// device buffer of `INITIAL_CAPACITY` instances, which is
    /// `INITIAL_CAPACITY_BYTES` bytes.
    pub open spec fn new_state(width: u32, height: u32) -> RendererState {
        RendererState {
            batch: Seq::empty(),
            capacity: INITIAL_CAPACITY_BYTES as nat,
            width,
            height,
            view_proj: Mat4::spec_identity(),
        }
    }

    /// The state that `prepare` leaves: the faces moved to the front of
    /// the batch, and the device buffer grown to the batch where the
    /// batch did not fit.
    pub open spec fn prepared_state(state: RendererState) -> RendererState {
        RendererState {
            batch: faces_first(state.batch),
            capacity: grown_capacity(state.capacity, state.batch.len()),
            ..state
        }
    }

    /// Creates a renderer for a screen of `width` by `height` pixels.
    pub fn new(width: u32, height: u32) -> (r: Self)
        ensures
            r@ == Self::new_state(width, height),
    {
        PrimitiveRenderer {
            instances: Vec::with_capacity(INITIAL_CAPACITY),
            capacity: INITIAL_CAPACITY_BYTES,
            width,
            height,
            view_proj: Mat4::identity(),
        }
    }

    /// Sets the screen size and returns the uniform block to write; the
    /// block's camera position is zero.
    pub fn resize(&mut self, width: u32, height: u32) -> (u: Uniforms)
        ensures
            final(self)@ == (RendererState { width, height, ..old(self)@ }),
            u == Self::uniform_block(final(self)@, Word3 { x: 0, y: 0, z: 0 }),
    {
        self.width = width;
        self.height = height;
        self.update_uniforms()
    }

    /// Sets the view-projection matrix and returns the uniform block to
    /// write; the block's camera position is zero.
    pub fn set_view_projection(&mut self, matrix: Mat4) -> (u: Uniforms)
        ensures
            final(self)@ == (RendererState { view_proj: matrix, ..old(self)@ }),
            u == Self::uniform_block(final(self)@, Word3 { x: 0, y: 0, z: 0 }),
    {
        self.view_proj = matrix;
        self.update_uniforms()
    }

    /// Returns the uniform block to write for a camera at `pos`.
    pub fn set_camera_pos(&self, pos: Word3) -> (u: Uniforms)
        ensures
            u == Self::uniform_block(self@, pos),
    {
        Uniforms {
            view_proj: self.view_proj,
            screen_width: self.width,
            screen_height: self.height,
            camera_pos: pos,
        }
    }

    fn update_uniforms(&self) -> (u: Uniforms)
        ensures
            u == Self::uniform_block(self@, Word3 { x: 0, y: 0, z: 0 }),
    {
        self.set_camera_pos(Word3 { x: 0, y: 0, z: 0 })
    }

    /// Appends a rectangle at `pos` of size `size`, with corner radius
    /// `radius` and a stroke ring of `stroke_width`.
    pub fn draw_rect(
        &mut self,
        pos: Word2,
        size: Word2,
        color: Word4,
        radius: u32,
        stroke_width: u32,
    )
        ensures
            final(self)@ == (RendererState {
                batch: old(self)@.batch.push(rect_instance(pos, size, color, radius, stroke_width)),
                ..old(self)@
            }),
    {
        self.instances.push(
            Instance {
                anchor_a: Word4 { x: pos.x, y: pos.y, z: 0, w: radius },
                anchor_b: Word4 { x: size.x, y: size.y, z: 0, w: stroke_width },
                color,
                primitive_type: TYPE_RECTANGLE,
                dash_length: 0,
                gap_length: 0,
                dash_offset: 0,
                anchor_c: Word4 { x: 0, y: 0, z: 0, w: 0 },
            },
        );
    }

    /// Appends a circle around `center`; `marker_type` becomes the
    /// record's tag as it is.
    pub fn draw_circle(
        &mut self,
        center: Word3,
        radius: u32,
        color: Word4,
        stroke_width: u32,
        marker_type: u32,
    )
        ensures
            final(self)@ == (RendererState {
                batch: old(self)@.batch.push(
                    circle_instance(center, radius, color, stroke_width, marker_type),
                ),
                ..old(self)@
            }),
    {
        self.instances.push(
            Instance {
                anchor_a: Word4 { x: center.x, y: center.y, z: center.z, w: radius },
                anchor_b: Word4 { x: 0, y: 0, z: 0, w: stroke_width },
                color,
                primitive_type: marker_type,
                dash_length: 0,
                gap_length: 0,
                dash_offset: 0,
                anchor_c: Word4 { x: 0, y: 0, z: 0, w: 0 },
            },
        );
    }

    /// Appends an oval around `center` with the radii `radii`.
    pub fn draw_oval(&mut self, center: Word2, radii: Word2, color: Word4, stroke_width: u32)
        ensures
            final(self)@ == (RendererState {
                batch: old(self)@.batch.push(
                    oval_instance(center, radii, color, stroke_width, TYPE_CIRCLE),
                ),
                ..old(self)@
            }),
    {
        self.instances.push(
            Instance {
                anchor_a: Word4 { x: center.x, y: center.y, z: 0, w: radii.x },
                anchor_b: Word4 { x: radii.y, y: 0, z: 0, w: stroke_width },
                color,
                primitive_type: TYPE_CIRCLE,
                dash_length: 0,
                gap_length: 0,
                dash_offset: 0,
                anchor_c: Word4 { x: 0, y: 0, z: 0, w: 0 },
            },
        );
    }

    /// Appends the extended marker `marker_type`, whose tag is
    /// `10 + marker_type`.
    pub fn draw_marker(
        &mut self,
        center: Word2,
        radii: Word2,
        marker_type: u32,
        color: Word4,
        stroke_width: u32,
    )
        requires
            TYPE_MARKER_BASE + marker_type <= u32::MAX,
        ensures
            final(self)@ == (RendererState {
                batch: old(self)@.batch.push(
                    oval_instance(
                        center,
                        radii,
                        color,
                        stroke_width,
                        (TYPE_MARKER_BASE + marker_type) as u32,
                    ),
                ),
                ..old(self)@
            }),
    {
        self.instances.push(
            Instance {
                anchor_a: Word4 { x: center.x, y: center.y, z: 0, w: radii.x },
                anchor_b: Word4 { x: radii.y, y: 0, z: 0, w: stroke_width },
                color,
                primitive_type: TYPE_MARKER_BASE + marker_type,
                dash_length: 0,
                gap_length: 0,
                dash_offset: 0,
                anchor_c: Word4 { x: 0, y: 0, z: 0, w: 0 },
            },
        );
    }

    /// Appends a line from `start` to `end`. The record holds half the
    /// thickness of the line, which is what `half_thickness` gives.
    pub fn draw_line(
        &mut self,
        start: Word3,
        end: Word3,
        half_thickness: u32,
        color: Word4,
        dash_len: u32,
        gap_len: u32,
        dash_offset: u32,
    )
        ensures
            final(self)@ == (RendererState {
                batch: old(self)@.batch.push(
                    line_instance(
                        start,
                        end,
                        half_thickness,
                        color,
                        dash_len,
                        gap_len,
                        dash_offset,
                    ),
                ),
                ..old(self)@
            }),
    {
        self.instances.push(
            Instance {
                anchor_a: Word4 { x: start.x, y: start.y, z: start.z, w: half_thickness },
                anchor_b: Word4 { x: end.x, y: end.y, z: end.z, w: 0 },
                color,
                primitive_type: TYPE_LINE,
                dash_length: dash_len,
                gap_length: gap_len,
                dash_offset,
                anchor_c: Word4 { x: 0, y: 0, z: 0, w: 0 },
            },
        );
    }

    /// Appends a filled triangle that is drawn unlit.
    pub fn draw_triangle_unlit(&mut self, p0: Word3, p1: Word3, p2: Word3, color: Word4)
        ensures
            final(self)@ == (RendererState {
                batch: old(self)@.batch.push(
                    triangle_instance(p0, p1, p2, color, TYPE_TRIANGLE_UNLIT),
                ),
                ..old(self)@
            }),
    {
        self.instances.push(
            Instance {
                anchor_a: Word4 { x: p0.x, y: p0.y, z: p0.z, w: 0 },
                anchor_b: Word4 { x: p1.x, y: p1.y, z: p1.z, w: 0 },
                color,
                primitive_type: TYPE_TRIANGLE_UNLIT,
                dash_length: 0,
                gap_length: 0,
                dash_offset: 0,
                anchor_c: Word4 { x: p2.x, y: p2.y, z: p2.z, w: 0 },
            },
        );
    }

    /// Appends a filled triangle.
    pub fn draw_triangle(&mut self, p0: Word3, p1: Word3, p2: Word3, color: Word4)
        ensures
            final(self)@ == (RendererState {
                batch: old(self)@.batch.push(triangle_instance(p0, p1, p2, color, TYPE_TRIANGLE)),
                ..old(self)@
            }),
    {
        self.instances.push(
            Instance {
                anchor_a: Word4 { x: p0.x, y: p0.y, z: p0.z, w: 0 },
                anchor_b: Word4 { x: p1.x, y: p1.y, z: p1.z, w: 0 },
                color,
                primitive_type: TYPE_TRIANGLE,
                dash_length: 0,
                gap_length: 0,
                dash_offset: 0,
                anchor_c: Word4 { x: p2.x, y: p2.y, z: p2.z, w: 0 },
            },
        );
    }

    /// Orders the batch for drawing and plans its upload.
    ///
    /// The faces are moved to the front of the batch by a stable sort.
    /// Where the batch does not fit the device buffer, the buffer is to
    /// be replaced by one of exactly the batch's size; a buffer that is
    /// large enough is kept, so the capacity never shrinks. An empty
    /// batch asks nothing of the device.
    pub fn prepare(&mut self) -> (plan: Option<Upload>)
        requires
            old(self)@.batch.len() * INSTANCE_SIZE <= usize::MAX,
        ensures
            final(self)@ == Self::prepared_state(old(self)@),
            plan == upload_plan(old(self)@.capacity, old(self)@.batch.len()),
            final(self)@.capacity >= old(self)@.capacity,
            final(self)@.capacity >= batch_bytes(final(self)@.batch.len()),
    {
        proof {
            lemma_classes_split(self.instances@);
        }
        if self.instances.is_empty() {
            assert(faces_first(self.instances@) =~= self.instances@);
            return None;
        }
        sort_faces_first(&mut self.instances);
        let len = self.instances.len();
        let size = (len * INSTANCE_SIZE) as u64;
        let mut grow_to: Option<u64> = None;
        if size > self.capacity {
            grow_to = Some(size);
            self.capacity = size;
        }
        Some(Upload { byte_len: size, grow_to })
    }

    /// Plans the draw calls of the batch: the faces at its front with
    /// the depth-writing pipeline, then the rest with the blending
    /// pipeline. An empty batch gives no call.
    pub fn draw_calls(&self) -> (calls: Vec<DrawCall>)
        requires
            self@.batch.len() <= u32::MAX,
        ensures
            calls@ == draw_calls(self@.batch),
    {
        let mut calls: Vec<DrawCall> = Vec::new();
        if self.instances.is_empty() {
            return calls;
        }
        let len = self.instances.len();
        let split = split_index(self.instances.as_slice());
        proof {
            lemma_leading_faces(self.instances@);
        }
        if split > 0 {
            calls.push(
                DrawCall {
                    pipeline: Pipeline::DepthWrite,
                    vertex_count: QUAD_VERTEX_COUNT,
                    first_instance: 0,
                    end_instance: split as u32,
                },
            );
        }
        if split < len {
            calls.push(
                DrawCall {
                    pipeline: Pipeline::Lines,
                    vertex_count: QUAD_VERTEX_COUNT,
                    first_instance: split as u32,
                    end_instance: len as u32,
                },
            );
        }
        calls
    }

    /// Renders the batch into a render pass, as the commands to record:
    /// none for an empty batch; otherwise the shared bind group and
    /// the instance buffer are bound once, then the faces are drawn
    /// with the depth-writing pipeline and the rest with the blending
    /// pipeline.
    pub fn render(&self) -> (commands: Vec<PassCommand>)
        requires
            self@.batch.len() <= u32::MAX,
        ensures
            commands@ == pass_commands(self@.batch),
    {
        let mut commands: Vec<PassCommand> = Vec::new();
        if self.instances.is_empty() {
            return commands;
        }
        let calls = self.draw_calls();
        commands.push(PassCommand::SetBindGroup);
        commands.push(PassCommand::SetVertexBuffer);
        let ghost bound = commands@;
        let mut i: usize = 0;
        while i < calls.len()
            invariant
                0 <= i <= calls@.len(),
                bound == seq![PassCommand::SetBindGroup, PassCommand::SetVertexBuffer],
                commands@ == bound + commands_of(calls@.take(i as int)),
            decreases calls@.len() - i,
        {
            let call = calls[i];
            proof {
                assert(calls@.take(i + 1).drop_last() =~= calls@.take(i as int));
                assert(bound + commands_of(calls@.take(i + 1)) =~= (bound + commands_of(
                    calls@.take(i as int),
                )) + call_commands(call));
            }
            commands.push(PassCommand::SetPipeline(call.pipeline));
            commands.push(
                PassCommand::Draw {
                    vertex_count: call.vertex_count,
                    first_instance: call.first_instance,
                    end_instance: call.end_instance,
                },
            );
            proof {
                assert(commands@ =~= (bound + commands_of(calls@.take(i as int)))
                    + call_commands(call));
            }
            i += 1;
        }
        proof {
            assert(calls@.take(calls@.len() as int) =~= calls@);
        }
        commands
    }

    /// Empties the batch. The capacity of the device buffer stays.
    pub fn clear(&mut self)
        ensures
            final(self)@ == (RendererState { batch: Seq::empty(), ..old(self)@ }),
    {
        self.instances.clear();
    }

    /// The batch, in the order in which it is uploaded and drawn.
    pub fn instances(&self) -> (batch: &[Instance])
        ensures
            batch@ == self@.batch,
    {
        self.instances.as_slice()
    }

    /// Number of instances in the batch.
    pub fn len(&self) -> (n: usize)
        ensures
            n == self@.batch.len(),
    {
        self.instances.len()
    }

    /// Whether the batch is empty.
    pub fn is_empty(&self) -> (b: bool)
        ensures
            b == (self@.batch.len() == 0),
    {
        self.instances.is_empty()
    }

    /// Size of the device buffer in bytes.
    pub fn capacity(&self) -> (n: u64)
        ensures
            n == self@.capacity,
    {
        self.capacity
    }
}

/// The device buffer holds the batch that was prepared last and never
/// shrinks: after a batch of `first` instances it holds that batch, a
/// batch that did not fit exactly; after a following batch of `second`
/// instances it is no smaller, and it is left as it was where that
/// batch fits.
pub proof fn lemma_capacity_never_shrinks(capacity: nat, first: nat, second: nat)
    ensures
        grown_capacity(capacity, first) >= capacity,
        grown_capacity(capacity, first) >= batch_bytes(first),
        grown_capacity(grown_capacity(capacity, first), second) >= grown_capacity(capacity, first),
        grown_capacity(grown_capacity(capacity, first), second) >= batch_bytes(second),
        batch_bytes(second) <= grown_capacity(capacity, first) ==> grown_capacity(
            grown_capacity(capacity, first),
            second,
        ) == grown_capacity(capacity, first),
        batch_bytes(first) > capacity ==> grown_capacity(capacity, first) == batch_bytes(first),
        upload_plan(capacity, first) is Some && upload_plan(capacity, first)->0.grow_to is Some
            <==> batch_bytes(first) > capacity,
{
}

/// Preparing an unchanged batch again changes nothing: the batch keeps
/// its order and the device buffer its size, the same bytes are
/// uploaded, no larger buffer is asked for, and the same commands are
/// recorded.
pub proof fn lemma_prepare_idempotent(state: RendererState)
    ensures
        ({
            let once = PrimitiveRenderer::prepared_state(state);
            let twice = PrimitiveRenderer::prepared_state(once);
            &&& twice == once
            &&& once.batch.len() == state.batch.len()
            &&& pass_commands(twice.batch) == pass_commands(once.batch)
            &&& state.batch.len() > 0 ==> upload_plan(once.capacity, once.batch.len()) == Some(
                Upload { byte_len: batch_bytes(state.batch.len()) as u64, grow_to: None },
            )
        }),
{
    lemma_faces_first_idempotent(state.batch);
    lemma_classes_split(state.batch);
}

/// The commands of a batch hold its draw calls and nothing else behind
/// the two bindings: two commands for every call, the switch to the
/// call's pipeline and then its draw.
pub proof fn lemma_pass_commands(batch: Seq<Instance>, k: int)
    requires
        0 <= k < draw_calls(batch).len(),
    ensures
        batch.len() > 0,
        pass_commands(batch).len() == 2 + 2 * draw_calls(batch).len(),
        pass_commands(batch)[0] == PassCommand::SetBindGroup,
        pass_commands(batch)[1] == PassCommand::SetVertexBuffer,
        pass_commands(batch)[2 + 2 * k] == PassCommand::SetPipeline(draw_calls(batch)[k].pipeline),
        pass_commands(batch)[3 + 2 * k] == (PassCommand::Draw {
            vertex_count: draw_calls(batch)[k].vertex_count,
            first_instance: draw_calls(batch)[k].first_instance,
            end_instance: draw_calls(batch)[k].end_instance,
        }),
{
    lemma_commands_of(draw_calls(batch), k);
}

proof fn lemma_commands_of(calls: Seq<DrawCall>, k: int)
    requires
        0 <= k < calls.len(),
    ensures
        commands_of(calls).len() == 2 * calls.len(),
        commands_of(calls)[2 * k] == call_commands(calls[k])[0],
        commands_of(calls)[2 * k + 1] == call_commands(calls[k])[1],
    decreases calls.len(),
{
    let rest = calls.drop_last();
    if rest.len() == 0 {
        assert(commands_of(rest).len() == 0);
    } else if k < rest.len() {
        lemma_commands_of(rest, k);
    } else {
        lemma_commands_of(rest, 0);
    }
}

/// Index, among the draw calls of `batch`, of the call that draws
/// the instance at index `i`.
pub open spec fn call_of(batch: Seq<Instance>, i: int) -> int {
    if i < leading_faces(batch) {
        0
    } else {
        draw_calls(batch).len() - 1
    }
}

/// Whether one of `calls` uses `pipeline`.
pub open spec fn issues(calls: Seq<DrawCall>, pipeline: Pipeline) -> bool {
    exists|k: int| 0 <= k < calls.len() && (#[trigger] calls[k]).pipeline == pipeline
}

/// Whether `batch` holds a face.
pub open spec fn has_face(batch: Seq<Instance>) -> bool {
    exists|i: int| 0 <= i < batch.len() && (#[trigger] batch[i]).is_face()
}

/// Whether `batch` holds an instance that is not a face.
pub open spec fn has_blended(batch: Seq<Instance>) -> bool {
    exists|i: int| 0 <= i < batch.len() && !(#[trigger] batch[i]).is_face()
}

/// The draw calls of a batch cover it exactly: each instance is drawn
/// by one call and by no other, and no call reaches past the batch. The
/// depth-writing draw is issued only for a batch that holds a face, the
/// blended draw only for one that holds an instance that is not a face.
pub proof fn lemma_draw_calls_cover(batch: Seq<Instance>)
    requires
        batch.len() <= u32::MAX,
    ensures
        forall|i: int|
            0 <= i < batch.len() ==> 0 <= #[trigger] call_of(batch, i) < draw_calls(batch).len()
                && draws(draw_calls(batch)[call_of(batch, i)], i),
        forall|i: int, k: int|
            0 <= k < draw_calls(batch).len() && #[trigger] draws(draw_calls(batch)[k], i) ==> 0
                <= i < batch.len() && k == call_of(batch, i),
        issues(draw_calls(batch), Pipeline::DepthWrite) ==> has_face(batch),
        issues(draw_calls(batch), Pipeline::Lines) ==> has_blended(batch),
        draw_calls(batch).len() == 0 <==> batch.len() == 0,
{
    lemma_leading_faces(batch);
    let split = leading_faces(batch) as int;
    if issues(draw_calls(batch), Pipeline::DepthWrite) {
        assert(batch[0].is_face());
    }
    if issues(draw_calls(batch), Pipeline::Lines) {
        assert(!batch[split].is_face());
    }
}

/// Once a batch has been prepared, the depth-writing draw is issued if
/// and only if the batch holds a face, and it draws the faces and
/// nothing else; the blended draw is issued if and only if the batch
/// holds an instance that is not a face, and it draws all of those.
pub proof fn lemma_draw_calls_of_prepared(batch: Seq<Instance>)
    requires
        batch.len() <= u32::MAX,
        is_partitioned(batch),
    ensures
        forall|i: int, k: int|
            0 <= k < draw_calls(batch).len() && #[trigger] draws(draw_calls(batch)[k], i) ==> (
            draw_calls(batch)[k].pipeline == Pipeline::DepthWrite <==> batch[i].is_face()),
        issues(draw_calls(batch), Pipeline::DepthWrite) <==> has_face(batch),
        issues(draw_calls(batch), Pipeline::Lines) <==> has_blended(batch),
        leading_faces(batch) == faces(batch).len(),
{
    lemma_leading_faces(batch);
    lemma_draw_calls_cover(batch);
    lemma_faces_first_idempotent(batch);
    lemma_faces_first_partitioned(batch);
    let calls = draw_calls(batch);
    let split = leading_faces(batch) as int;
    if has_face(batch) {
        let i = choose|i: int| 0 <= i < batch.len() && (#[trigger] batch[i]).is_face();
        assert(calls[0].pipeline == Pipeline::DepthWrite);
    }
    if has_blended(batch) {
        let i = choose|i: int| 0 <= i < batch.len() && !(#[trigger] batch[i]).is_face();
        assert(calls[calls.len() - 1].pipeline == Pipeline::Lines);
    }
}

} // verus!
