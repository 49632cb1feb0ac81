//! The text queue: the labels of a frame, held for the text-shaping
//! stage until they are cleared, and the font that they are shaped
//! with.

use vstd::prelude::*;
use vstd::slice::slice_to_vec;
use wgpu_text::glyph_brush::ab_glyph::{FontArc, InvalidFont};
use crate::instance::{Word2, Word4};

verus! {

/// A parsed font of the glyph library. Nothing is known of its inside.
#[verifier::external_type_specification]
#[verifier::external_body]
pub struct ExFontArc(FontArc);

/// The glyph library's error for data that is no font.
#[verifier::external_type_specification]
#[verifier::external_body]
pub struct ExInvalidFont(InvalidFont);

/// Whether the glyph library accepts `data` as a font file. This is
/// what `FontArc::try_from_vec` decides; it is not stated here.
pub uninterp spec fn is_valid_font(data: Seq<u8>) -> bool;

/// Why a font could not be used.
#[derive(Clone, Copy, Debug, PartialEq, Eq, Structural)]
pub enum FontError {
    /// The data is not a font file that the glyph library can read.
    InvalidFont,
}

/// `FontArc::try_from_vec` of the glyph library, which parses a font
/// file held in memory. The contract is believed, not proved: the call
/// succeeds exactly on the data that `is_valid_font` names, so that two
/// calls on the same bytes agree. The parser reads nothing but `data`
/// and is written not to panic.
#[verifier::external_body]
fn font_from_vec(data: Vec<u8>) -> (parsed: Result<FontArc, InvalidFont>)
    ensures
        parsed is Ok <==> is_valid_font(data@),
{
    FontArc::try_from_vec(data)
}

/// Turns the outcome of the font parser into the outcome of this
/// library: the font as it is, or `FontError::InvalidFont`.
pub fn font_result(parsed: Result<FontArc, InvalidFont>) -> (font: Result<FontArc, FontError>)
    ensures
        parsed is Ok ==> font == Ok::<FontArc, FontError>(parsed->Ok_0),
        parsed is Err ==> font == Err::<FontArc, FontError>(FontError::InvalidFont),
{
    match parsed {
        Ok(font) => Ok(font),
        Err(_) => Err(FontError::InvalidFont),
    }
}

/// Parses the font file `font_data`, with which the labels are to be
/// shaped. Data that the glyph library does not accept gives
/// `FontError::InvalidFont`.
pub fn parse_font(font_data: &[u8]) -> (font: Result<FontArc, FontError>)
    ensures
        font is Ok <==> is_valid_font(font_data@),
        font is Err ==> font == Err::<FontArc, FontError>(FontError::InvalidFont),
{
    font_result(font_from_vec(slice_to_vec(font_data)))
}

/// One label waiting to be shaped.
#[derive(Clone, Debug, PartialEq, Eq)]
pub struct QueuedText {
    pub text: String,
    /// Screen position of the label.
    pub pos: Word2,
    /// Font size.
    pub size: u32,
    /// Straight RGBA colour.
    pub color: Word4,
}

/// The mathematical value of a queued label.
pub struct QueuedTextView {
    pub text: Seq<char>,
    pub pos: Word2,
    pub size: u32,
    pub color: Word4,
}

impl View for QueuedText {
    type V = QueuedTextView;

    open spec fn view(&self) -> QueuedTextView {
        QueuedTextView { text: self.text@, pos: self.pos, size: self.size, color: self.color }
    }
}

/// The values of a sequence of labels.
pub open spec fn text_views(texts: Seq<QueuedText>) -> Seq<QueuedTextView> {
    texts.map_values(|t: QueuedText| t@)
}

/// The mathematical state of a text renderer.
pub struct TextState {
    /// The labels drawn since the queue was last cleared, in the order
    /// in which they were drawn.
    pub queued: Seq<QueuedTextView>,
    /// Width of the view in pixels.
    pub width: u32,
    /// Height of the view in pixels.
    pub height: u32,
}

/// Queues the labels of a frame.
pub struct TextRenderer {
    width: u32,
    height: u32,
    queued_texts: Vec<QueuedText>,
}

impl View for TextRenderer {
    type V = TextState;

    closed spec fn view(&self) -> TextState {
        TextState {
            queued: text_views(self.queued_texts@),
            width: self.width,
            height: self.height,
        }
    }
}

impl TextRenderer {
    /// Creates a text renderer for a view of `width` by `height`
    /// pixels, with nothing queued.
    pub fn new(width: u32, height: u32) -> (r: Self)
        ensures
            r@ == (TextState { queued: Seq::empty(), width, height }),
    {
        let r = TextRenderer { width, height, queued_texts: Vec::new() };
        assert(r@.queued =~= Seq::empty());
        r
    }

    /// Sets the size of the view.
    pub fn resize(&mut self, width: u32, height: u32)
        ensures
            final(self)@ == (TextState { width, height, ..old(self)@ }),
    {
        self.width = width;
        self.height = height;
    }

    /// Queues `text` for the current frame.
    pub fn draw_text(&mut self, text: &str, pos: Word2, size: u32, color: Word4)
        ensures
            final(self)@ == (TextState {
                queued: old(self)@.queued.push(QueuedTextView { text: text@, pos, size, color }),
                ..old(self)@
            }),
    {
        let queued = QueuedText { text: text.to_owned(), pos, size, color };
        self.queued_texts.push(queued);
        assert(self@.queued =~= old(self)@.queued.push(queued@));
    }

    /// Returns the queued labels, in the order in which they were
    /// drawn, for the text-shaping stage. The queue stays as it is: the
    /// labels are shaped again with every frame until `clear` drops
    /// them.
    pub fn prepare(&self) -> (sections: Vec<QueuedText>)
        ensures
            text_views(sections@) == self@.queued,
    {
        let mut sections: Vec<QueuedText> = Vec::new();
        let n = self.queued_texts.len();
        let mut i: usize = 0;
        while i < n
            invariant
                n == self.queued_texts@.len(),
                0 <= i <= n,
                text_views(sections@) == text_views(self.queued_texts@.take(i as int)),
            decreases n - i,
        {
            let queued = &self.queued_texts[i];
            let copy = QueuedText {
                text: queued.text.clone(),
                pos: queued.pos,
                size: queued.size,
                color: queued.color,
            };
            let ghost before = sections@;
            sections.push(copy);
            proof {
                assert(self.queued_texts@.take(i + 1) =~= self.queued_texts@.take(i as int).push(
                    *queued,
                ));
                assert(text_views(before.push(copy)) =~= text_views(before).push(copy@));
                assert(text_views(self.queued_texts@.take(i as int).push(*queued)) =~= text_views(
                    self.queued_texts@.take(i as int),
                ).push(queued@));
            }
            i += 1;
        }
        proof {
            assert(self.queued_texts@.take(n as int) =~= self.queued_texts@);
        }
        sections
    }

    /// Drops the queued labels.
    pub fn clear(&mut self)
        ensures
            final(self)@ == (TextState { queued: Seq::empty(), ..old(self)@ }),
    {
        self.queued_texts.clear();
        assert(self@.queued =~= Seq::empty());
    }
}

} // verus!
