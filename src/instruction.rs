//! Drawing instructions: the flat, ordered list that describes a page.
use vstd::prelude::*;

use crate::page::Point;

verus! {

#[derive(Clone, Copy, Debug, PartialEq, Eq, Structural)]
pub enum Color {
    Black,
    White,
    LightGray,
}

/// The two embedded fonts: IBM Plex Mono Medium for the title, the notes
/// label and the footer; IBM Plex Mono Regular for the ciphertext.
#[derive(Clone, Copy, Debug, PartialEq, Eq, Structural)]
pub enum Font {
    Title,
    Code,
}

#[derive(Clone, Copy, Debug, PartialEq, Eq, Structural)]
pub enum Layer {
    Background,
    Foreground,
}

/// Where the QR code image goes and how much it is scaled: the image's
/// lower left corner is moved to `(translate_x, translate_y)` and its size at
/// 300 dpi is multiplied by `scale_num / scale_den`.
#[derive(Clone, Copy, Debug, PartialEq, Eq, Structural)]
pub struct ImagePlacement {
    pub translate_x: i128,
    pub translate_y: i128,
    pub scale_num: i128,
    pub scale_den: i128,
}

/// One drawing primitive of the page.
#[derive(Debug, PartialEq)]
pub enum DrawingInstruction {
    BeginLayer { layer: Layer },
    EndLayer { layer: Layer },
    SetFillColor { color: Color },
    StartTextSection,
    EndTextSection,
    SetFont { font: Font, size: i64 },
    SetTextCursor { pos: Point },
    SetLineHeight { height: i64 },
    WriteText { text: String, font: Font },
    AddLineBreak,
    SaveGraphicsState,
    RestoreGraphicsState,
    SetOutlineColor { color: Color },
    SetLineDashPattern { dash: Option<i64> },
    SetOutlineThickness { thickness: i64 },
    DrawLine { from: Point, to: Point },
    PlaceImage { placement: ImagePlacement },
}

/// What a drawing instruction means, with its text as characters.
pub enum Instruction {
    BeginLayer { layer: Layer },
    EndLayer { layer: Layer },
    SetFillColor { color: Color },
    StartTextSection,
    EndTextSection,
    SetFont { font: Font, size: i64 },
    SetTextCursor { pos: Point },
    SetLineHeight { height: i64 },
    WriteText { text: Seq<char>, font: Font },
    AddLineBreak,
    SaveGraphicsState,
    RestoreGraphicsState,
    SetOutlineColor { color: Color },
    SetLineDashPattern { dash: Option<i64> },
    SetOutlineThickness { thickness: i64 },
    DrawLine { from: Point, to: Point },
    PlaceImage { placement: ImagePlacement },
}

impl View for DrawingInstruction {
    type V = Instruction;

    open spec fn view(&self) -> Instruction {
        match self {
            DrawingInstruction::BeginLayer { layer } => Instruction::BeginLayer { layer: *layer },
            DrawingInstruction::EndLayer { layer } => Instruction::EndLayer { layer: *layer },
            DrawingInstruction::SetFillColor { color } => Instruction::SetFillColor {
                color: *color,
            },
            DrawingInstruction::StartTextSection => Instruction::StartTextSection,
            DrawingInstruction::EndTextSection => Instruction::EndTextSection,
            DrawingInstruction::SetFont { font, size } => Instruction::SetFont {
                font: *font,
                size: *size,
            },
            DrawingInstruction::SetTextCursor { pos } => Instruction::SetTextCursor { pos: *pos },
            DrawingInstruction::SetLineHeight { height } => Instruction::SetLineHeight {
                height: *height,
            },
            DrawingInstruction::WriteText { text, font } => Instruction::WriteText {
                text: text@,
                font: *font,
            },
            DrawingInstruction::AddLineBreak => Instruction::AddLineBreak,
            DrawingInstruction::SaveGraphicsState => Instruction::SaveGraphicsState,
            DrawingInstruction::RestoreGraphicsState => Instruction::RestoreGraphicsState,
            DrawingInstruction::SetOutlineColor { color } => Instruction::SetOutlineColor {
                color: *color,
            },
            DrawingInstruction::SetLineDashPattern { dash } => Instruction::SetLineDashPattern {
                dash: *dash,
            },
            DrawingInstruction::SetOutlineThickness { thickness } =>
                Instruction::SetOutlineThickness { thickness: *thickness },
            DrawingInstruction::DrawLine { from, to } => Instruction::DrawLine {
                from: *from,
                to: *to,
            },
            DrawingInstruction::PlaceImage { placement } => Instruction::PlaceImage {
                placement: *placement,
            },
        }
    }
}

/// The meaning of a list of drawing instructions.
pub open spec fn view_of(ops: Seq<DrawingInstruction>) -> Seq<Instruction> {
    ops.map_values(|o: DrawingInstruction| o@)
}

/// The meaning of two lists one after the other is the meanings one after
/// the other.
pub(crate) proof fn lemma_view_of_concat(a: Seq<DrawingInstruction>, b: Seq<DrawingInstruction>)
    ensures
        view_of(a + b) == view_of(a) + view_of(b),
{
    assert(view_of(a + b) =~= view_of(a) + view_of(b));
}

/// Appends `more` to `ops`.
pub(crate) fn append_ops(ops: &mut Vec<DrawingInstruction>, more: Vec<DrawingInstruction>)
    ensures
        view_of(final(ops)@) == view_of(old(ops)@) + view_of(more@),
{
    let mut more = more;
    proof {
        lemma_view_of_concat(ops@, more@);
    }
    ops.append(&mut more);
}

/// A text section that writes `text` at `pos` in black.
pub open spec fn text_ops(font: Font, size: i64, pos: Point, text: Seq<char>) -> Seq<Instruction> {
    seq![
        Instruction::StartTextSection,
        Instruction::SetFillColor { color: Color::Black },
        Instruction::SetFont { font, size },
        Instruction::SetTextCursor { pos },
        Instruction::WriteText { text, font },
        Instruction::EndTextSection,
    ]
}

/// A light gray straight line from `from` to `to`.
pub open spec fn line_ops(from: Point, to: Point, thickness: i64, dash: Option<i64>) -> Seq<
    Instruction,
> {
    seq![
        Instruction::SaveGraphicsState,
        Instruction::SetOutlineColor { color: Color::LightGray },
        Instruction::SetLineDashPattern { dash },
        Instruction::SetOutlineThickness { thickness },
        Instruction::DrawLine { from, to },
        Instruction::RestoreGraphicsState,
    ]
}

pub(crate) fn text_section(font: Font, size: i64, pos: Point, text: String) -> (r: Vec<DrawingInstruction>)
    ensures
        view_of(r@) == text_ops(font, size, pos, text@),
{
    let r = vec![
        DrawingInstruction::StartTextSection,
        DrawingInstruction::SetFillColor { color: Color::Black },
        DrawingInstruction::SetFont { font, size },
        DrawingInstruction::SetTextCursor { pos },
        DrawingInstruction::WriteText { text, font },
        DrawingInstruction::EndTextSection,
    ];
    assert(view_of(r@) =~= text_ops(font, size, pos, text@));
    r
}

/// Draw a line on the page
pub(crate) fn draw_line(from: Point, to: Point, thickness: i64, dash: Option<i64>) -> (r: Vec<
    DrawingInstruction,
>)
    ensures
        view_of(r@) == line_ops(from, to, thickness, dash),
{
    let r = vec![
        DrawingInstruction::SaveGraphicsState,
        DrawingInstruction::SetOutlineColor { color: Color::LightGray },
        DrawingInstruction::SetLineDashPattern { dash },
        DrawingInstruction::SetOutlineThickness { thickness },
        DrawingInstruction::DrawLine { from, to },
        DrawingInstruction::RestoreGraphicsState,
    ];
    assert(view_of(r@) =~= line_ops(from, to, thickness, dash));
    r
}

} // verus!
