//! The off-screen capture path: the size of the render target, the row
//! layout of the staging buffer that receives a frame, and the way back
//! from that layout to a tightly packed RGBA image.
//!
//! A copy from a texture to a buffer writes every row at an offset that
//! is a multiple of 256 bytes. A row of pixels is therefore followed by
//! padding in the staging buffer, and the padding is dropped again when
//! the frame is read.

use vstd::prelude::*;
use crate::partition::{faces_first, lemma_faces_first_idempotent, lemma_faces_first_permutes};
use crate::primitives::{
    lemma_prepare_idempotent, pass_commands, upload_plan, PassCommand, PrimitiveRenderer,
    RendererState, Upload, WORD_ONE,
};
use crate::instance::{Word4, INSTANCE_SIZE};
use crate::text::{text_views, QueuedText, QueuedTextView, TextRenderer, TextState};

verus! {

/// Granularity, in bytes, to which every row of a texture-to-buffer
/// copy is aligned.
pub const COPY_BYTES_PER_ROW_ALIGNMENT: u32 = 256;

/// Number of bytes of one RGBA8 pixel.
pub const BYTES_PER_PIXEL: u32 = 4;

/// The widest target whose padded row still fits 32 bits.
pub const MAX_WIDTH: u32 = 1_073_741_760;

/// Bytes of pixel data in one row of `width` pixels.
pub open spec fn unpadded_row_bytes(width: int) -> int {
    width * BYTES_PER_PIXEL
}

/// Bytes of one row of `width` pixels once rounded up to the copy
/// alignment: the least multiple of 256 that is at least `4 * width`.
pub open spec fn padded_row_bytes(width: int) -> int {
    (unpadded_row_bytes(width) + (COPY_BYTES_PER_ROW_ALIGNMENT - 1)) / (
    COPY_BYTES_PER_ROW_ALIGNMENT as int) * COPY_BYTES_PER_ROW_ALIGNMENT
}

/// Size in bytes of the staging buffer of a `width` by `height` target.
pub open spec fn staging_bytes(width: int, height: int) -> int {
    padded_row_bytes(width) * height
}

/// The least number of staged bytes that holds every row of pixels of a
/// `width` by `height` target: the last row needs no padding.
pub open spec fn min_staged_bytes(width: int, height: int) -> int {
    if height <= 0 {
        0
    } else {
        padded_row_bytes(width) * (height - 1) + unpadded_row_bytes(width)
    }
}

/// The pixel data of row `row` in a staged frame: the first `4 * width`
/// bytes of the row, without the padding behind them.
pub open spec fn staged_row(staged: Seq<u8>, width: int, row: int) -> Seq<u8> {
    staged.subrange(
        row * padded_row_bytes(width),
        row * padded_row_bytes(width) + unpadded_row_bytes(width),
    )
}

/// The first `height` rows of a staged frame, tightly packed: row after
/// row, each without its padding.
pub open spec fn packed_pixels(staged: Seq<u8>, width: int, height: int) -> Seq<u8>
    decreases height,
{
    if height <= 0 {
        Seq::empty()
    } else {
        packed_pixels(staged, width, height - 1) + staged_row(staged, width, height - 1)
    }
}

/// Computes the padded bytes-per-row for a given width.
pub fn padded_bytes_per_row(width: u32) -> (padded: u32)
    requires
        width <= MAX_WIDTH,
    ensures
        padded == padded_row_bytes(width as int),
        padded % COPY_BYTES_PER_ROW_ALIGNMENT == 0,
        unpadded_row_bytes(width as int) <= padded < unpadded_row_bytes(width as int) + 256,
{
    let unpadded = width * BYTES_PER_PIXEL;
    let align = COPY_BYTES_PER_ROW_ALIGNMENT;
    (unpadded + (align - 1)) / align * align
}

/// The padded row is the least multiple of the alignment that holds
/// the row's pixels: it is such a multiple, and no multiple `m` that
/// holds the row is smaller.
pub proof fn lemma_padded_row_bytes(width: int, m: int)
    requires
        0 <= width,
    ensures
        padded_row_bytes(width) % 256 == 0,
        unpadded_row_bytes(width) <= padded_row_bytes(width) < unpadded_row_bytes(width) + 256,
        m % 256 == 0 && m >= unpadded_row_bytes(width) ==> m >= padded_row_bytes(width),
{
}

/// A packed frame holds `4 * width * height` bytes, and the byte at
/// offset `col` of row `row` is the staged byte at the same offset of
/// the padded row.
pub proof fn lemma_packed_pixels(staged: Seq<u8>, width: int, height: int, row: int, col: int)
    requires
        0 <= width,
        0 <= height,
        min_staged_bytes(width, height) <= staged.len(),
        0 <= row < height,
        0 <= col < unpadded_row_bytes(width),
    ensures
        packed_pixels(staged, width, height).len() == unpadded_row_bytes(width) * height,
        0 <= row * unpadded_row_bytes(width) + col < unpadded_row_bytes(width) * height,
        0 <= row * padded_row_bytes(width) + col < staged.len(),
        packed_pixels(staged, width, height)[row * unpadded_row_bytes(width) + col]
            == staged[row * padded_row_bytes(width) + col],
    decreases height,
{
    let u = unpadded_row_bytes(width);
    let p = padded_row_bytes(width);
    lemma_min_staged_monotone(width, height - 1, height);
    lemma_packed_len(staged, width, height);
    lemma_packed_len(staged, width, height - 1);
    lemma_row_in_bounds(width, height, row);
    assert(row * u + u <= (height - 1) * u + u) by (nonlinear_arith)
        requires
            0 <= row <= height - 1,
            0 <= u,
    ;
    assert((height - 1) * u + u == u * height) by (nonlinear_arith);
    assert(u * (height - 1) == (height - 1) * u) by (nonlinear_arith);
    if row == height - 1 {
        assert(staged_row(staged, width, row)[col] == staged[row * p + col]);
    } else {
        lemma_packed_pixels(staged, width, height - 1, row, col);
    }
}

/// Channel `k` of the pixel in column `x` of row `y` of a packed frame
/// is the same channel of that pixel in the staged frame. A staged
/// frame that shows one colour everywhere is therefore packed into a
/// frame of that colour.
pub proof fn lemma_packed_pixel_at(
    staged: Seq<u8>,
    width: int,
    height: int,
    x: int,
    y: int,
    k: int,
)
    requires
        0 <= width,
        0 <= height,
        min_staged_bytes(width, height) <= staged.len(),
        0 <= x < width,
        0 <= y < height,
        0 <= k < 4,
    ensures
        0 <= (y * width + x) * 4 + k < packed_pixels(staged, width, height).len(),
        0 <= y * padded_row_bytes(width) + x * 4 + k < staged.len(),
        packed_pixels(staged, width, height)[(y * width + x) * 4 + k] == staged[y
            * padded_row_bytes(width) + x * 4 + k],
{
    lemma_packed_pixels(staged, width, height, y, x * 4 + k);
    assert((y * width + x) * 4 + k == y * unpadded_row_bytes(width) + (x * 4 + k))
        by (nonlinear_arith);
}

/// Length of a packed frame.
pub proof fn lemma_packed_len(staged: Seq<u8>, width: int, height: int)
    requires
        0 <= width,
        0 <= height,
        min_staged_bytes(width, height) <= staged.len(),
    ensures
        packed_pixels(staged, width, height).len() == unpadded_row_bytes(width) * height,
    decreases height,
{
    let u = unpadded_row_bytes(width);
    if height > 0 {
        lemma_min_staged_monotone(width, height - 1, height);
        lemma_packed_len(staged, width, height - 1);
        lemma_row_in_bounds(width, height, height - 1);
        assert(u * (height - 1) + u == u * height) by (nonlinear_arith);
    } else {
        assert(u * height == 0) by (nonlinear_arith)
            requires
                height == 0,
        ;
    }
}

proof fn lemma_min_staged_monotone(width: int, h1: int, h2: int)
    requires
        0 <= width,
        0 <= h1 <= h2,
    ensures
        min_staged_bytes(width, h1) <= min_staged_bytes(width, h2),
{
    let p = padded_row_bytes(width);
    let u = unpadded_row_bytes(width);
    if h1 > 0 {
        assert(p * (h1 - 1) <= p * (h2 - 1)) by (nonlinear_arith)
            requires
                0 <= p,
                h1 <= h2,
        ;
    } else if h2 > 0 {
        assert(0 <= p * (h2 - 1)) by (nonlinear_arith)
            requires
                0 <= p,
                1 <= h2,
        ;
    }
}

proof fn lemma_row_in_bounds(width: int, height: int, row: int)
    requires
        0 <= width,
        0 <= row < height,
    ensures
        0 <= row * padded_row_bytes(width),
        row * padded_row_bytes(width) + unpadded_row_bytes(width) <= min_staged_bytes(
            width,
            height,
        ),
{
    let p = padded_row_bytes(width);
    assert(0 <= row * p && row * p <= p * (height - 1)) by (nonlinear_arith)
        requires
            0 <= p,
            0 <= row <= height - 1,
    ;
}

proof fn lemma_packed_fits(width: int, height: int)
    requires
        0 <= width,
        0 <= height,
    ensures
        0 <= unpadded_row_bytes(width) * height <= min_staged_bytes(width, height),
{
    let p = padded_row_bytes(width);
    let u = unpadded_row_bytes(width);
    if height > 0 {
        assert(u * height == u * (height - 1) + u) by (nonlinear_arith);
        assert(0 <= u * (height - 1) <= p * (height - 1)) by (nonlinear_arith)
            requires
                0 <= u <= p,
                0 <= height - 1,
        ;
    } else {
        assert(u * height == 0) by (nonlinear_arith)
            requires
                height == 0,
        ;
    }
}

/// Drops the padding of every row of a staged frame and returns the
/// tightly packed pixels, row after row.
pub fn strip_row_padding(staged: &[u8], width: u32, height: u32) -> (pixels: Vec<u8>)
    requires
        width <= MAX_WIDTH,
        min_staged_bytes(width as int, height as int) <= staged@.len(),
    ensures
        pixels@ == packed_pixels(staged@, width as int, height as int),
        pixels@.len() == unpadded_row_bytes(width as int) * height,
{
    let padded_row = padded_bytes_per_row(width) as usize;
    let unpadded_row = (width * BYTES_PER_PIXEL) as usize;
    let len = staged.len();
    proof {
        lemma_packed_fits(width as int, height as int);
    }
    let mut pixels: Vec<u8> = Vec::with_capacity(unpadded_row * height as usize);
    let mut row: u32 = 0;
    while row < height
        invariant
            width <= MAX_WIDTH,
            len == staged@.len(),
            0 <= row <= height,
            padded_row == padded_row_bytes(width as int),
            unpadded_row == unpadded_row_bytes(width as int),
            min_staged_bytes(width as int, height as int) <= staged@.len(),
            pixels@ == packed_pixels(staged@, width as int, row as int),
        decreases height - row,
    {
        proof {
            lemma_row_in_bounds(width as int, height as int, row as int);
        }
        let start = row as usize * padded_row;
        let pixels_of_row = &staged[start..start + unpadded_row];
        let ghost before = pixels@;
        pixels.extend_from_slice(pixels_of_row);
        proof {
            assert(pixels@ =~= before + staged_row(staged@, width as int, row as int));
        }
        row += 1;
    }
    proof {
        lemma_packed_len(staged@, width as int, height as int);
    }
    pixels
}

/// The size of the off-screen render target.
///
/// A target is at most `MAX_WIDTH` pixels wide, so that the padded
/// length of its rows fits the 32 bits that a copy takes.
#[derive(Clone, Copy, Debug)]
pub struct OffscreenTarget {
    width: u32,
    height: u32,
}

impl OffscreenTarget {
    #[verifier::type_invariant]
    spec fn inv(self) -> bool {
        self.width <= MAX_WIDTH
    }

    /// Width of the target in pixels.
    pub closed spec fn spec_width(&self) -> u32 {
        self.width
    }

    /// Height of the target in pixels.
    pub closed spec fn spec_height(&self) -> u32 {
        self.height
    }

    /// A target of `width` by `height` pixels.
    pub fn new(width: u32, height: u32) -> (t: Self)
        requires
            width <= MAX_WIDTH,
        ensures
            t.width() == width,
            t.height() == height,
    {
        OffscreenTarget { width, height }
    }

    /// A target of `width` by `height` pixels, or `None` where a row of
    /// `width` pixels is too long to be copied.
    pub fn checked_new(width: u32, height: u32) -> (t: Option<Self>)
        ensures
            t is Some <==> width <= MAX_WIDTH,
            t is Some ==> t->0.width() == width && t->0.height() == height,
    {
        if width <= MAX_WIDTH {
            Some(OffscreenTarget { width, height })
        } else {
            None
        }
    }

    /// Width of the target in pixels.
    #[verifier::when_used_as_spec(spec_width)]
    pub fn width(&self) -> (w: u32)
        ensures
            w == self.width(),
            w <= MAX_WIDTH,
    {
        proof {
            use_type_invariant(self);
        }
        self.width
    }

    /// Height of the target in pixels.
    #[verifier::when_used_as_spec(spec_height)]
    pub fn height(&self) -> (h: u32)
        ensures
            h == self.height(),
    {
        self.height
    }

    /// Bytes from one row to the next in the staging buffer.
    pub fn bytes_per_row(&self) -> (padded: u32)
        ensures
            padded == padded_row_bytes(self.width() as int),
    {
        proof {
            use_type_invariant(self);
        }
        padded_bytes_per_row(self.width)
    }

    /// Size in bytes of the staging buffer that receives a frame.
    pub fn staging_size(&self) -> (size: u64)
        ensures
            size == staging_bytes(self.width() as int, self.height() as int),
    {
        proof {
            use_type_invariant(self);
        }
        let padded = padded_bytes_per_row(self.width) as u64;
        assert(padded * self.height <= u64::MAX) by (nonlinear_arith)
            requires
                0 <= padded <= u32::MAX,
                0 <= self.height <= u32::MAX,
        ;
        padded * (self.height as u64)
    }

    /// Size in bytes of a tightly packed frame.
    pub fn packed_size(&self) -> (size: u64)
        ensures
            size == unpadded_row_bytes(self.width() as int) * self.height(),
    {
        proof {
            use_type_invariant(self);
        }
        let unpadded = (self.width * BYTES_PER_PIXEL) as u64;
        assert(unpadded * self.height <= u64::MAX) by (nonlinear_arith)
            requires
                0 <= unpadded <= u32::MAX,
                0 <= self.height <= u32::MAX,
        ;
        unpadded * (self.height as u64)
    }
}

/// The colour to which the target is cleared before a frame is drawn:
/// opaque white.
pub open spec fn spec_clear_color() -> Word4 {
    Word4 { x: WORD_ONE, y: WORD_ONE, z: WORD_ONE, w: WORD_ONE }
}

/// The colour to which the target is cleared before a frame is drawn.
#[verifier::when_used_as_spec(spec_clear_color)]
pub fn clear_color() -> (color: Word4)
    ensures
        color == spec_clear_color(),
{
    Word4 { x: WORD_ONE, y: WORD_ONE, z: WORD_ONE, w: WORD_ONE }
}

/// What one frame asks of the device, in the order in which it is done:
/// upload the instances, shape the labels, clear the target and record
/// the commands, then copy the target to the staging buffer with the
/// given row layout.
#[derive(Debug)]
pub struct Frame {
    /// The upload of the instance data; `None` for an empty batch.
    pub upload: Option<Upload>,
    /// The labels to shape, in the order in which they were drawn.
    pub texts: Vec<QueuedText>,
    /// The colour to which the target is cleared.
    pub clear_color: Word4,
    /// The commands that draw the primitives.
    pub commands: Vec<PassCommand>,
    /// Bytes from one row to the next in the staging buffer.
    pub bytes_per_row: u32,
    /// Number of rows copied.
    pub rows_per_image: u32,
}

/// The mathematical value of a frame.
pub struct FrameView {
    pub upload: Option<Upload>,
    pub texts: Seq<QueuedTextView>,
    pub clear_color: Word4,
    pub commands: Seq<PassCommand>,
    pub bytes_per_row: u32,
    pub rows_per_image: u32,
}

impl View for Frame {
    type V = FrameView;

    open spec fn view(&self) -> FrameView {
        FrameView {
            upload: self.upload,
            texts: text_views(self.texts@),
            clear_color: self.clear_color,
            commands: self.commands@,
            bytes_per_row: self.bytes_per_row,
            rows_per_image: self.rows_per_image,
        }
    }
}

/// The frame that a capture plans for a renderer in state `state`: the
/// upload of the batch, every queued label, the clear colour, the
/// commands of the batch in drawing order, and the row layout of the
/// target.
pub open spec fn frame_of(state: HeadlessState) -> FrameView {
    FrameView {
        upload: upload_plan(state.prim.capacity, state.prim.batch.len()),
        texts: state.text.queued,
        clear_color: clear_color(),
        commands: pass_commands(faces_first(state.prim.batch)),
        bytes_per_row: padded_row_bytes(state.width as int) as u32,
        rows_per_image: state.height,
    }
}

/// The state in which a capture leaves a renderer that was in state
/// `state`: the batch prepared, and nothing else changed. The text
/// queue stays, as the batch does, until it is cleared.
pub open spec fn captured_state(state: HeadlessState) -> HeadlessState {
    HeadlessState { prim: PrimitiveRenderer::prepared_state(state.prim), ..state }
}

/// Capturing an unchanged scene again gives the same frame. The second
/// capture leaves the renderer as the first left it and plans what the
/// first planned, label for label and command for command, for a target
/// of the same size, except that it asks for no larger buffer: the
/// first has grown it. Every capture after the first plans the very
/// same frame.
pub proof fn lemma_capture_idempotent(state: HeadlessState)
    ensures
        ({
            let once = captured_state(state);
            let twice = captured_state(once);
            let first = frame_of(state);
            let second = frame_of(once);
            &&& twice == once
            &&& second.texts == first.texts
            &&& second.commands == first.commands
            &&& second.clear_color == first.clear_color
            &&& second.bytes_per_row == first.bytes_per_row
            &&& second.rows_per_image == first.rows_per_image
            &&& second.upload is Some <==> first.upload is Some
            &&& second.upload is Some ==> second.upload->0.byte_len == first.upload->0.byte_len
                && second.upload->0.grow_to is None
            &&& frame_of(twice) == second
            &&& once.width == state.width && once.height == state.height
            &&& once.text == state.text
        }),
{
    lemma_prepare_idempotent(state.prim);
    lemma_faces_first_idempotent(state.prim.batch);
}

/// The mathematical state of a headless renderer.
pub struct HeadlessState {
    pub prim: RendererState,
    pub text: TextState,
    pub width: u32,
    pub height: u32,
}

/// Renders to an off-screen target and reads the frame back: the
/// primitives and labels of the frame, and the size of the target.
pub struct HeadlessRenderer {
    target: OffscreenTarget,
    prim: PrimitiveRenderer,
    text: TextRenderer,
}

impl View for HeadlessRenderer {
    type V = HeadlessState;

    closed spec fn view(&self) -> HeadlessState {
        HeadlessState {
            prim: self.prim@,
            text: self.text@,
            width: self.target.width(),
            height: self.target.height(),
        }
    }
}

impl HeadlessRenderer {
    /// Creates a headless renderer for a target of `width` by `height`
    /// pixels, with an empty batch and no label.
    pub fn new(width: u32, height: u32) -> (r: Self)
        requires
            width <= MAX_WIDTH,
        ensures
            r@.width == width,
            r@.height == height,
            r@.prim == PrimitiveRenderer::new_state(width, height),
            r@.text == (TextState { queued: Seq::empty(), width, height }),
    {
        HeadlessRenderer {
            target: OffscreenTarget::new(width, height),
            prim: PrimitiveRenderer::new(width, height),
            text: TextRenderer::new(width, height),
        }
    }

    /// The primitive renderer, to append to its batch.
    pub fn prim(&mut self) -> (prim: &mut PrimitiveRenderer)
        ensures
            prim@ == old(self)@.prim,
            final(self)@ == (HeadlessState { prim: final(prim)@, ..old(self)@ }),
    {
        &mut self.prim
    }

    /// The text renderer, to queue labels.
    pub fn text(&mut self) -> (text: &mut TextRenderer)
        ensures
            text@ == old(self)@.text,
            final(self)@ == (HeadlessState { text: final(text)@, ..old(self)@ }),
    {
        &mut self.text
    }

    /// Both renderers at once, for a caller that fills the batch and
    /// the text queue in one pass.
    pub fn renderers(&mut self) -> (both: (&mut PrimitiveRenderer, &mut TextRenderer))
        ensures
            both.0@ == old(self)@.prim,
            both.1@ == old(self)@.text,
            final(self)@ == (HeadlessState {
                prim: final(both.0)@,
                text: final(both.1)@,
                ..old(self)@
            }),
    {
        (&mut self.prim, &mut self.text)
    }

    /// The size of the target.
    pub fn target(&self) -> (t: OffscreenTarget)
        ensures
            t.width() == self@.width,
            t.height() == self@.height,
    {
        self.target
    }

    /// Returns the capture width in pixels.
    pub fn width(&self) -> (w: u32)
        ensures
            w == self@.width,
            w <= MAX_WIDTH,
    {
        self.target.width()
    }

    /// Returns the capture height in pixels.
    pub fn height(&self) -> (h: u32)
        ensures
            h == self@.height,
    {
        self.target.height()
    }

    /// Empties the batch and the text queue, so that a frame can be
    /// drawn anew. Without it the primitives and labels of the last
    /// frame stay and are drawn again under those of the next.
    pub fn clear(&mut self)
        ensures
            final(self)@ == (HeadlessState {
                prim: RendererState { batch: Seq::empty(), ..old(self)@.prim },
                text: TextState { queued: Seq::empty(), ..old(self)@.text },
                ..old(self)@
            }),
    {
        self.prim.clear();
        self.text.clear();
    }

    /// Begins the capture of a frame: prepares the primitives and the
    /// labels, and plans the render pass and the copy to the staging
    /// buffer. The batch is left in drawing order; the text queue and
    /// everything else stay as they are, so that a second capture of
    /// the unchanged scene plans the same frame.
    pub fn begin_capture(&mut self) -> (frame: Frame)
        requires
            old(self)@.prim.batch.len() * INSTANCE_SIZE <= usize::MAX,
            old(self)@.prim.batch.len() <= u32::MAX,
        ensures
            final(self)@ == captured_state(old(self)@),
            frame@ == frame_of(old(self)@),
            frame.bytes_per_row == padded_row_bytes(old(self)@.width as int),
    {
        proof {
            lemma_faces_first_permutes(self.prim@.batch);
        }
        let upload = self.prim.prepare();
        let texts = self.text.prepare();
        let commands = self.prim.render();
        Frame {
            upload,
            texts,
            clear_color: clear_color(),
            commands,
            bytes_per_row: self.target.bytes_per_row(),
            rows_per_image: self.target.height(),
        }
    }

    /// Ends the capture of a frame: takes the bytes read from the
    /// staging buffer and returns the frame as tightly packed RGBA
    /// pixels, `4 * width * height` bytes, row after row.
    pub fn capture(&self, staged: &[u8]) -> (pixels: Vec<u8>)
        requires
            min_staged_bytes(self@.width as int, self@.height as int) <= staged@.len(),
        ensures
            pixels@ == packed_pixels(staged@, self@.width as int, self@.height as int),
            pixels@.len() == unpadded_row_bytes(self@.width as int) * self@.height,
    {
        strip_row_padding(staged, self.target.width(), self.target.height())
    }
}

} // verus!
