//! The document builder: places the title, the QR code, the notes field, the
//! divider, the armored ciphertext and the footer on one page, as an ordered
//! list of drawing instructions.
use vstd::prelude::*;
use vstd::utf8::*;
use vstd::string::*;

use printpdf::{ExternalXObject, Svg};

use crate::instruction::{
    append_ops, draw_line, line_ops, text_ops, text_section, view_of, Color, DrawingInstruction,
    Font, Instruction, Layer,
};
use crate::page::{EMU_PER_MM, EMU_PER_PT, PageDimensions, PageSize, Point};
use crate::scaler::{barcode_placement, scale_barcode};
use crate::svg::{qr_fits, qrcode_svg, CorrectionLevel};
use crate::text::{lines_of, split_lines};

verus! {

/// Size of the title font (14 pt).
pub const TITLE_FONT_SIZE: i64 = 14 * EMU_PER_PT;

/// Size of the notes label font (13 pt).
pub const LABEL_FONT_SIZE: i64 = 13 * EMU_PER_PT;

/// Size of the footer font (13 pt).
pub const FOOTER_FONT_SIZE: i64 = 13 * EMU_PER_PT;

/// Estimated width of one label glyph: the font's width is three fifths of
/// its height, 7.8 pt for the 13 pt label font.
pub const LABEL_GLYPH_WIDTH: i64 = 99_060;

/// Titles up to this many bytes are aligned with the QR code.
pub const TITLE_ALIGN_MAX_LEN: usize = 37;

/// Labels up to this many bytes get a line to write on.
pub const MAX_LABEL_LEN: usize = 32;

/// Distance between two lines of the debugging grid (5 mm).
pub const GRID_SPACING: i64 = 180_000;

/// Thickness of the divider and of the notes line (1 pt).
pub const LINE_THICKNESS: i64 = EMU_PER_PT;

/// Dash length of the divider (5 pt).
pub const DIVIDER_DASH: i64 = 5 * EMU_PER_PT;

/// How far the notes line sits under the label's baseline (1 mm).
pub const UNDERLINE_DROP: i64 = EMU_PER_MM;

/// The caption at the bottom of the page.
pub const FOOTER_TEXT: &'static str = "Scan QR code and decrypt using Age <https://age-encryption.org>";

/// Container for all the data required to insert elements into the PDF
pub struct DocumentBuilder {
    pub title: String,
    pub page_size: PageSize,
    pub grid: bool,
    pub notes_label: String,
    pub skip_notes_line: bool,
    pub footer: bool,
}

/// The background layer: the page is painted white.
pub open spec fn background_ops() -> Seq<Instruction> {
    seq![
        Instruction::BeginLayer { layer: Layer::Background },
        Instruction::SetFillColor { color: Color::White },
        Instruction::EndLayer { layer: Layer::Background },
    ]
}

/// Left edge of a title of `len` bytes: aligned with the QR code when it is
/// short enough, with the page margin otherwise.
pub open spec fn title_left_edge(size: PageSize, len: nat) -> i64 {
    if len <= TITLE_ALIGN_MAX_LEN {
        size.spec_qrcode_left_edge()
    } else {
        size.spec_dimensions().margin
    }
}

/// The title, one title font height below the top margin.
pub open spec fn title_ops(size: PageSize, title: Seq<char>) -> Seq<Instruction> {
    let d = size.spec_dimensions();
    text_ops(
        Font::Title,
        TITLE_FONT_SIZE,
        Point {
            x: title_left_edge(size, encode_utf8(title).len()),
            y: (d.height - d.margin - TITLE_FONT_SIZE) as i64,
        },
        title,
    )
}

/// Baseline of the notes label: one margin above the middle of the page.
pub open spec fn notes_baseline(size: PageSize) -> i64 {
    (size.spec_dimensions().height / 2 + size.spec_dimensions().margin) as i64
}

/// Whether the notes label gets a line to write on.
pub open spec fn has_notes_line(label: Seq<char>, skip_line: bool) -> bool {
    encode_utf8(label).len() <= MAX_LABEL_LEN && !skip_line
}

/// The notes label in line with the QR code and, unless it is too long or
/// the line is skipped, a line from its estimated end to the QR code's
/// right edge, just under the baseline.
pub open spec fn notes_ops(size: PageSize, label: Seq<char>, skip_line: bool) -> Seq<Instruction> {
    let left = size.spec_qrcode_left_edge();
    let baseline = notes_baseline(size);
    let text = text_ops(Font::Title, LABEL_FONT_SIZE, Point { x: left, y: baseline }, label);
    if has_notes_line(label, skip_line) {
        let y = (baseline - UNDERLINE_DROP) as i64;
        text + line_ops(
            Point { x: (left + LABEL_GLYPH_WIDTH * encode_utf8(label).len()) as i64, y },
            Point { x: (left + size.spec_qrcode_size()) as i64, y },
            LINE_THICKNESS,
            None,
        )
    } else {
        text
    }
}

/// The dashed divider across the middle of the page, inside the margins.
pub open spec fn divider_ops(size: PageSize) -> Seq<Instruction> {
    let d = size.spec_dimensions();
    line_ops(
        Point { x: d.margin, y: (d.height / 2) as i64 },
        Point { x: (d.width - d.margin) as i64, y: (d.height / 2) as i64 },
        LINE_THICKNESS,
        Some(DIVIDER_DASH),
    )
}

/// The footer caption in the bottom left corner, inside the margins.
pub open spec fn footer_ops(size: PageSize) -> Seq<Instruction> {
    let m = size.spec_dimensions().margin;
    text_ops(Font::Title, FOOTER_FONT_SIZE, Point { x: m, y: m }, FOOTER_TEXT@)
}

/// A vertical grid line at `x`, across the whole height.
pub open spec fn vertical_grid_line(d: PageDimensions, x: int) -> Seq<Instruction> {
    line_ops(Point { x: x as i64, y: d.height }, Point { x: x as i64, y: 0 }, 0, None)
}

/// A horizontal grid line at `y`, across the whole width.
pub open spec fn horizontal_grid_line(d: PageDimensions, y: int) -> Seq<Instruction> {
    line_ops(Point { x: d.width, y: y as i64 }, Point { x: 0, y: y as i64 }, 0, None)
}

/// Vertical grid lines one spacing apart, right of `x`, up to the first at
/// or beyond the right edge.
pub open spec fn vertical_grid_lines(d: PageDimensions, x: int) -> Seq<Instruction>
    decreases d.width - x + GRID_SPACING,
{
    if x >= d.width {
        seq![]
    } else {
        vertical_grid_line(d, x + GRID_SPACING) + vertical_grid_lines(d, x + GRID_SPACING)
    }
}

/// Horizontal grid lines one spacing apart, below `y`, down to the first at
/// or below the bottom edge.
pub open spec fn horizontal_grid_lines(d: PageDimensions, y: int) -> Seq<Instruction>
    decreases y + GRID_SPACING,
{
    if y <= 0 {
        seq![]
    } else {
        horizontal_grid_line(d, y - GRID_SPACING) + horizontal_grid_lines(d, y - GRID_SPACING)
    }
}

/// The debugging grid: the first vertical line, every horizontal line from
/// the top down, then the remaining vertical lines from left to right.
pub open spec fn grid_ops(d: PageDimensions) -> Seq<Instruction> {
    vertical_grid_line(d, GRID_SPACING as int) + horizontal_grid_lines(d, d.height as int)
        + vertical_grid_lines(d, GRID_SPACING as int)
}

/// Font size of the ciphertext for a given number of lines: the more lines,
/// the smaller the text.
pub open spec fn pem_font_size(line_count: nat) -> i64 {
    if line_count > 42 {
        (13 * EMU_PER_PT / 2) as i64
    } else if line_count > 39 {
        (7 * EMU_PER_PT) as i64
    } else if line_count > 27 {
        (8 * EMU_PER_PT) as i64
    } else if line_count > 22 {
        (10 * EMU_PER_PT) as i64
    } else {
        (13 * EMU_PER_PT) as i64
    }
}

/// Line height of the ciphertext for a given number of lines.
pub open spec fn pem_line_height(line_count: nat) -> i64 {
    if line_count > 42 {
        (7 * EMU_PER_PT) as i64
    } else if line_count > 39 {
        (8 * EMU_PER_PT) as i64
    } else if line_count > 27 {
        (9 * EMU_PER_PT) as i64
    } else if line_count > 22 {
        (12 * EMU_PER_PT) as i64
    } else {
        (15 * EMU_PER_PT) as i64
    }
}

/// The lines of `text`, as `str::lines` gives them.
pub open spec fn text_lines(text: Seq<char>) -> Seq<Seq<char>> {
    lines_of(encode_utf8(text)).map_values(|l: Seq<u8>| decode_utf8(l))
}

/// Each line written verbatim, followed by a line break.
pub open spec fn written_lines(lines: Seq<Seq<char>>) -> Seq<Instruction>
    decreases lines.len(),
{
    if lines.len() == 0 {
        seq![]
    } else {
        written_lines(lines.drop_last()) + seq![
            Instruction::WriteText { text: lines.last(), font: Font::Code },
            Instruction::AddLineBreak,
        ]
    }
}

/// The ciphertext in the bottom half of the page, one margin below the
/// middle, in the size its number of lines calls for.
pub open spec fn pem_ops(size: PageSize, lines: Seq<Seq<char>>) -> Seq<Instruction> {
    let d = size.spec_dimensions();
    let font_size = pem_font_size(lines.len());
    seq![
        Instruction::StartTextSection,
        Instruction::SetFillColor { color: Color::Black },
        Instruction::SetLineHeight { height: pem_line_height(lines.len()) },
        Instruction::SetFont { font: Font::Code, size: font_size },
        Instruction::SetTextCursor {
            pos: Point { x: d.margin, y: (d.height / 2 - font_size - d.margin) as i64 },
        },
    ] + written_lines(lines) + seq![Instruction::EndTextSection]
}

/// The QR code image placed in the top half of the page.
pub open spec fn qr_code_ops(size: PageSize, width_px: nat, height_px: nat) -> Seq<Instruction> {
    seq![
        Instruction::PlaceImage {
            placement: barcode_placement(
                size.spec_dimensions(),
                size.spec_qrcode_size(),
                width_px,
                height_px,
            ),
        },
    ]
}

/// Font size and line height of the ciphertext for `line_count` lines.
pub fn pem_text_size(line_count: usize) -> (r: (i64, i64))
    ensures
        r.0 == pem_font_size(line_count as nat),
        r.1 == pem_line_height(line_count as nat),
{
    // Rudimentary text scaling to get the Ascii Armor text to fit
    if line_count > 42 {
        (13 * EMU_PER_PT / 2, 7 * EMU_PER_PT)
    } else if line_count > 39 {
        (7 * EMU_PER_PT, 8 * EMU_PER_PT)
    } else if line_count > 27 {
        (8 * EMU_PER_PT, 9 * EMU_PER_PT)
    } else if line_count > 22 {
        (10 * EMU_PER_PT, 12 * EMU_PER_PT)
    } else {
        (13 * EMU_PER_PT, 15 * EMU_PER_PT)
    }
}

/// Why a page could not be built.
#[derive(Clone, Copy, Debug, PartialEq, Eq, Structural)]
pub enum BuildError {
    /// The ciphertext does not fit in a QR code, not even at the lowest
    /// error correction level.
    CapacityExceeded,
    /// The QR code image could not be read back.
    ImageParse,
    /// The QR code image has no height.
    DegenerateImage,
}

/// What a document builder holds, as mathematical values.
pub struct DocumentConfig {
    pub title: Seq<char>,
    pub page_size: PageSize,
    pub grid: bool,
    pub notes_label: Seq<char>,
    pub skip_notes_line: bool,
    pub footer: bool,
}

impl View for DocumentBuilder {
    type V = DocumentConfig;

    open spec fn view(&self) -> DocumentConfig {
        DocumentConfig {
            title: self.title@,
            page_size: self.page_size,
            grid: self.grid,
            notes_label: self.notes_label@,
            skip_notes_line: self.skip_notes_line,
            footer: self.footer,
        }
    }
}

/// The foreground layer, in painting order: the optional grid, the title,
/// the QR code, the notes field, the divider, the ciphertext and the
/// optional footer.
pub open spec fn foreground_ops(
    c: DocumentConfig,
    pem: Seq<char>,
    width_px: nat,
    height_px: nat,
) -> Seq<Instruction> {
    seq![Instruction::BeginLayer { layer: Layer::Foreground }] + (if c.grid {
        grid_ops(c.page_size.spec_dimensions())
    } else {
        seq![]
    }) + title_ops(c.page_size, c.title) + qr_code_ops(c.page_size, width_px, height_px)
        + notes_ops(c.page_size, c.notes_label, c.skip_notes_line) + divider_ops(c.page_size)
        + pem_ops(c.page_size, text_lines(pem)) + (if c.footer {
        footer_ops(c.page_size)
    } else {
        seq![]
    }) + seq![Instruction::EndLayer { layer: Layer::Foreground }]
}

/// The whole page: the background layer, then the foreground layer.
pub open spec fn page_ops(c: DocumentConfig, pem: Seq<char>, width_px: nat, height_px: nat) -> Seq<
    Instruction,
> {
    background_ops() + foreground_ops(c, pem, width_px, height_px)
}

/// Whether an instruction only strokes a line or sets up the stroke.
pub open spec fn is_line_instruction(i: Instruction) -> bool {
    match i {
        Instruction::SaveGraphicsState => true,
        Instruction::RestoreGraphicsState => true,
        Instruction::SetOutlineColor { .. } => true,
        Instruction::SetLineDashPattern { .. } => true,
        Instruction::SetOutlineThickness { .. } => true,
        Instruction::DrawLine { .. } => true,
        _ => false,
    }
}

proof fn lemma_vertical_lines_only_lines(d: PageDimensions, x: int)
    ensures
        forall|k: int|
            0 <= k < vertical_grid_lines(d, x).len() ==> is_line_instruction(
                #[trigger] vertical_grid_lines(d, x)[k],
            ),
    decreases d.width - x + GRID_SPACING,
{
    if x < d.width {
        lemma_vertical_lines_only_lines(d, x + GRID_SPACING);
        let head = vertical_grid_line(d, x + GRID_SPACING);
        let tail = vertical_grid_lines(d, x + GRID_SPACING);
        assert forall|k: int| 0 <= k < (head + tail).len() implies is_line_instruction(
            #[trigger] (head + tail)[k],
        ) by {
            if k >= head.len() {
                assert((head + tail)[k] == tail[k - head.len()]);
            }
        }
    }
}

proof fn lemma_horizontal_lines_only_lines(d: PageDimensions, y: int)
    ensures
        forall|k: int|
            0 <= k < horizontal_grid_lines(d, y).len() ==> is_line_instruction(
                #[trigger] horizontal_grid_lines(d, y)[k],
            ),
    decreases y + GRID_SPACING,
{
    if y > 0 {
        lemma_horizontal_lines_only_lines(d, y - GRID_SPACING);
        let head = horizontal_grid_line(d, y - GRID_SPACING);
        let tail = horizontal_grid_lines(d, y - GRID_SPACING);
        assert forall|k: int| 0 <= k < (head + tail).len() implies is_line_instruction(
            #[trigger] (head + tail)[k],
        ) by {
            if k >= head.len() {
                assert((head + tail)[k] == tail[k - head.len()]);
            }
        }
    }
}

/// Turning the grid on inserts the grid right after the foreground layer
/// begins and changes nothing else; the grid only draws lines.
pub proof fn lemma_grid_only_adds_lines(c: DocumentConfig, pem: Seq<char>, width_px: nat, height_px: nat)
    requires
        !c.grid,
    ensures
        ({
            let with_grid = DocumentConfig { grid: true, ..c };
            let plain = page_ops(c, pem, width_px, height_px);
            page_ops(with_grid, pem, width_px, height_px) == plain.subrange(0, 4) + grid_ops(
                c.page_size.spec_dimensions(),
            ) + plain.subrange(4, plain.len() as int)
        }),
        forall|k: int|
            0 <= k < grid_ops(c.page_size.spec_dimensions()).len() ==> is_line_instruction(
                #[trigger] grid_ops(c.page_size.spec_dimensions())[k],
            ),
{
    let d = c.page_size.spec_dimensions();
    let with_grid = DocumentConfig { grid: true, ..c };
    let begin = seq![Instruction::BeginLayer { layer: Layer::Foreground }];
    let rest = title_ops(c.page_size, c.title) + qr_code_ops(c.page_size, width_px, height_px)
        + notes_ops(c.page_size, c.notes_label, c.skip_notes_line) + divider_ops(c.page_size)
        + pem_ops(c.page_size, text_lines(pem)) + (if c.footer {
        footer_ops(c.page_size)
    } else {
        seq![]
    }) + seq![Instruction::EndLayer { layer: Layer::Foreground }];
    let plain = page_ops(c, pem, width_px, height_px);
    assert(foreground_ops(c, pem, width_px, height_px) =~= begin + rest);
    assert(foreground_ops(with_grid, pem, width_px, height_px) =~= begin + grid_ops(d) + rest);
    assert(plain =~= background_ops() + begin + rest);
    assert(plain.subrange(0, 4) =~= background_ops() + begin);
    assert(plain.subrange(4, plain.len() as int) =~= rest);
    assert(page_ops(with_grid, pem, width_px, height_px) =~= plain.subrange(0, 4) + grid_ops(d)
        + plain.subrange(4, plain.len() as int));
    lemma_vertical_lines_only_lines(d, GRID_SPACING as int);
    lemma_horizontal_lines_only_lines(d, d.height as int);
    let first = vertical_grid_line(d, GRID_SPACING as int);
    let across = horizontal_grid_lines(d, d.height as int);
    let down = vertical_grid_lines(d, GRID_SPACING as int);
    assert forall|k: int| 0 <= k < grid_ops(d).len() implies is_line_instruction(
        #[trigger] grid_ops(d)[k],
    ) by {
        assert(grid_ops(d) == first + across + down);
        if k < first.len() {
            assert(grid_ops(d)[k] == first[k]);
        } else if k < first.len() + across.len() {
            assert(grid_ops(d)[k] == across[k - first.len()]);
        } else {
            assert(grid_ops(d)[k] == down[k - first.len() - across.len()]);
        }
    }
}

/// Every page is laid out whole: the background layer first, then the
/// foreground layer, in which the QR code image is placed right after the
/// optional grid and the title, and which closes the page.
pub proof fn lemma_page_is_complete(c: DocumentConfig, pem: Seq<char>, width_px: nat, height_px: nat)
    ensures
        ({
            let ops = page_ops(c, pem, width_px, height_px);
            let grid_len: int = if c.grid {
                grid_ops(c.page_size.spec_dimensions()).len() as int
            } else {
                0
            };
            &&& ops.subrange(0, 3) == background_ops()
            &&& ops[3] == Instruction::BeginLayer { layer: Layer::Foreground }
            &&& ops.subrange(4, 4 + grid_len) == (if c.grid {
                grid_ops(c.page_size.spec_dimensions())
            } else {
                seq![]
            })
            &&& ops.subrange(4 + grid_len, 10 + grid_len) == title_ops(c.page_size, c.title)
            &&& ops[10 + grid_len] == qr_code_ops(c.page_size, width_px, height_px)[0]
            &&& ops.last() == Instruction::EndLayer { layer: Layer::Foreground }
        }),
{
    let d = c.page_size.spec_dimensions();
    let g: Seq<Instruction> = if c.grid {
        grid_ops(d)
    } else {
        seq![]
    };
    let begin = seq![Instruction::BeginLayer { layer: Layer::Foreground }];
    let title = title_ops(c.page_size, c.title);
    let qr = qr_code_ops(c.page_size, width_px, height_px);
    let rest = notes_ops(c.page_size, c.notes_label, c.skip_notes_line) + divider_ops(c.page_size)
        + pem_ops(c.page_size, text_lines(pem)) + (if c.footer {
        footer_ops(c.page_size)
    } else {
        seq![]
    }) + seq![Instruction::EndLayer { layer: Layer::Foreground }];
    let ops = page_ops(c, pem, width_px, height_px);
    assert(ops =~= background_ops() + begin + g + title + qr + rest);
    assert(ops.subrange(0, 3) =~= background_ops());
    assert(ops.subrange(4, 4 + g.len() as int) =~= g);
    assert(ops.subrange(4 + g.len() as int, 10 + g.len() as int) =~= title);
    assert(ops[10 + g.len() as int] == qr[0]);
    assert(ops.last() == rest.last());
}

/// The layout is a function of its inputs alone: equal configurations,
/// ciphertexts and image sizes give equal instruction lists.
pub proof fn lemma_layout_deterministic(
    c1: DocumentConfig,
    c2: DocumentConfig,
    pem1: Seq<char>,
    pem2: Seq<char>,
    width_px: nat,
    height_px: nat,
)
    requires
        c1 == c2,
        pem1 == pem2,
    ensures
        page_ops(c1, pem1, width_px, height_px) == page_ops(c2, pem2, width_px, height_px),
{
}

/// More lines of ciphertext never make its text larger, and each tier's
/// text is strictly smaller than the one before it.
pub proof fn lemma_pem_size_monotonic(fewer: nat, more: nat)
    requires
        fewer <= more,
    ensures
        pem_font_size(more) <= pem_font_size(fewer),
        pem_line_height(more) <= pem_line_height(fewer),
        pem_font_size(more) < pem_font_size(fewer) <==> pem_line_height(more) < pem_line_height(
            fewer,
        ),
        pem_font_size(more) <= pem_line_height(more),
{
}

/// The notes field draws its line exactly when the label has at most 32
/// bytes and the line is not skipped.
pub proof fn lemma_notes_line_presence(size: PageSize, label: Seq<char>, skip_line: bool)
    ensures
        has_notes_line(label, skip_line) <==> (encode_utf8(label).len() <= MAX_LABEL_LEN
            && !skip_line),
        has_notes_line(label, skip_line) ==> notes_ops(size, label, skip_line).len() == 12
            && notes_ops(size, label, skip_line)[10] is DrawLine,
        !has_notes_line(label, skip_line) ==> notes_ops(size, label, skip_line).len() == 6
            && forall|k: int|
            0 <= k < 6 ==> !(#[trigger] notes_ops(size, label, skip_line)[k] is DrawLine),
{
}

#[verifier::external_type_specification]
#[verifier::external_body]
pub struct ExExternalXObject(ExternalXObject);

/// Relies on `printpdf::Svg::parse`: it converts an SVG document into a PDF
/// form XObject, or says why it cannot.
#[verifier::external_body]
fn parse_svg(image: &str) -> (r: Result<ExternalXObject, String>) {
    let mut warnings = Vec::new();
    Svg::parse(image, &mut warnings)
}

/// Relies on the `width` and `height` fields of `printpdf::ExternalXObject`:
/// the image's size in pixels, where it has one.
#[verifier::external_body]
fn image_size(image: &ExternalXObject) -> (r: (Option<usize>, Option<usize>)) {
    (image.width.map(|px| px.0), image.height.map(|px| px.0))
}

/// A laid out page, ready to be serialized.
pub struct Document {
    pub title: String,
    pub page_size: PageSize,
    /// The QR code image that the `PlaceImage` instruction places.
    pub barcode: ExternalXObject,
    pub barcode_width_px: usize,
    pub barcode_height_px: usize,
    pub instructions: Vec<DrawingInstruction>,
}

impl DocumentBuilder {
    pub fn new(title: String, page_size: PageSize) -> (r: Self)
        ensures
            r.title@ == title@,
            r.page_size == page_size,
            !r.grid,
            r.notes_label@ == Seq::<char>::empty(),
            !r.skip_notes_line,
            r.footer,
    {
        Self {
            title,
            page_size,
            grid: false,
            notes_label: String::new(),
            skip_notes_line: false,
            footer: true,
        }
    }

    fn build_background_layer(&self) -> (r: Vec<DrawingInstruction>)
        ensures
            view_of(r@) == background_ops(),
    {
        let r = vec![
            DrawingInstruction::BeginLayer { layer: Layer::Background },
            DrawingInstruction::SetFillColor { color: Color::White },
            DrawingInstruction::EndLayer { layer: Layer::Background },
        ];
        assert(view_of(r@) =~= background_ops());
        r
    }

    /// Insert the given title at the top of the PDF
    pub fn insert_title_text(&self) -> (r: Vec<DrawingInstruction>)
        ensures
            view_of(r@) == title_ops(self.page_size, self.title@),
    {
        let dims = self.page_size.dimensions();
        // Align the title with the QR code if the title is narrower than the QR code
        let margin = if self.title.as_str().as_bytes().len() <= TITLE_ALIGN_MAX_LEN {
            self.page_size.qrcode_left_edge()
        } else {
            dims.margin
        };
        let pos = Point::new(margin, dims.height - dims.margin - TITLE_FONT_SIZE);
        text_section(Font::Title, TITLE_FONT_SIZE, pos, self.title.clone())
    }

    /// Insert the notes field label and placeholder in the PDF
    pub fn insert_notes_field(&self, label: String, skip_line: bool) -> (r: Vec<
        DrawingInstruction,
    >)
        ensures
            view_of(r@) == notes_ops(self.page_size, label@, skip_line),
    {
        let dims = self.page_size.dimensions();
        let left = self.page_size.qrcode_left_edge();
        let baseline = dims.height / 2 + dims.margin;
        let label_len = label.as_str().as_bytes().len();
        let mut content = text_section(
            Font::Title,
            LABEL_FONT_SIZE,
            Point::new(left, baseline),
            label,
        );
        if label_len <= MAX_LABEL_LEN && !skip_line {
            let y = baseline - UNDERLINE_DROP;
            let line = draw_line(
                Point::new(left + LABEL_GLYPH_WIDTH * (label_len as i64), y),
                Point::new(left + self.page_size.qrcode_size(), y),
                LINE_THICKNESS,
                None,
            );
            append_ops(&mut content, line);
        }
        content
    }

    /// The dashed line that divides the page in two halves.
    pub fn insert_divider(&self) -> (r: Vec<DrawingInstruction>)
        ensures
            view_of(r@) == divider_ops(self.page_size),
    {
        let dims = self.page_size.dimensions();
        draw_line(dims.center_left(), dims.center_right(), LINE_THICKNESS, Some(DIVIDER_DASH))
    }

    /// Add the footer at the bottom of the page
    pub fn insert_footer(&self) -> (r: Vec<DrawingInstruction>)
        ensures
            view_of(r@) == footer_ops(self.page_size),
    {
        let dims = self.page_size.dimensions();
        text_section(
            Font::Title,
            FOOTER_FONT_SIZE,
            dims.bottom_left(),
            FOOTER_TEXT.to_owned(),
        )
    }
    /// Draw a grid debugging layout issues
    pub fn draw_grid(&self) -> (r: Vec<DrawingInstruction>)
        ensures
            view_of(r@) == grid_ops(self.page_size.spec_dimensions()),
    {
        let dims = self.page_size.dimensions();
        let ghost d = dims;
        let mut ops = draw_line(
            Point::new(GRID_SPACING, dims.height),
            Point::new(GRID_SPACING, 0),
            0,
            None,
        );
        let mut y: i64 = dims.height;
        while y > 0
            invariant
                d == dims,
                d.wf(),
                -GRID_SPACING <= y <= d.height,
                view_of(ops@) + horizontal_grid_lines(d, y as int) + vertical_grid_lines(
                    d,
                    GRID_SPACING as int,
                ) == grid_ops(d),
            decreases y + GRID_SPACING,
        {
            y = y - GRID_SPACING;
            let line = draw_line(Point::new(dims.width, y), Point::new(0, y), 0, None);
            let ghost before = view_of(ops@);
            append_ops(&mut ops, line);
            assert(before + horizontal_grid_lines(d, y + GRID_SPACING) == view_of(ops@)
                + horizontal_grid_lines(d, y as int));
        }
        let mut x: i64 = GRID_SPACING;
        while x < dims.width
            invariant
                d == dims,
                d.wf(),
                0 <= x <= d.width + GRID_SPACING,
                view_of(ops@) + vertical_grid_lines(d, x as int) == grid_ops(d),
            decreases d.width - x + GRID_SPACING,
        {
            x = x + GRID_SPACING;
            let line = draw_line(Point::new(x, dims.height), Point::new(x, 0), 0, None);
            let ghost before = view_of(ops@);
            append_ops(&mut ops, line);
            assert(before + vertical_grid_lines(d, x - GRID_SPACING) == view_of(ops@)
                + vertical_grid_lines(d, x as int));
        }
        assert(view_of(ops@) + vertical_grid_lines(d, x as int) == view_of(ops@));
        ops
    }
    /// Insert the QR code of the PEM encoded ciphertext in the top half of the page
    pub fn insert_qr_code(&self, width_px: usize, height_px: usize) -> (r: Result<
        Vec<DrawingInstruction>,
        BuildError,
    >)
        ensures
            height_px == 0 ==> r == Err::<Vec<DrawingInstruction>, BuildError>(
                BuildError::DegenerateImage,
            ),
            height_px > 0 ==> r is Ok && view_of(r->Ok_0@) == qr_code_ops(
                self.page_size,
                width_px as nat,
                height_px as nat,
            ),
    {
        let dims = self.page_size.dimensions();
        let placement = scale_barcode(dims, self.page_size.qrcode_size(), width_px, height_px)?;
        let r = vec![DrawingInstruction::PlaceImage { placement }];
        assert(view_of(r@) =~= qr_code_ops(self.page_size, width_px as nat, height_px as nat));
        Ok(r)
    }

    /// Insert the given PEM ciphertext in the bottom half of the page
    pub fn insert_pem_text(&self, pem: &str) -> (r: Vec<DrawingInstruction>)
        ensures
            view_of(r@) == pem_ops(self.page_size, text_lines(pem@)),
    {
        let lines = split_lines(pem);
        let ghost ls = text_lines(pem@);
        proof {
            assert forall|k: int| 0 <= k < lines@.len() implies #[trigger] lines@[k]@ == ls[k] by {
                encode_utf8_decode_utf8(lines@[k]@);
            }
        }
        let n = lines.len();
        let (font_size, line_height) = pem_text_size(n);
        let dims = self.page_size.dimensions();
        let cursor = Point::new(dims.margin, dims.height / 2 - font_size - dims.margin);
        let mut content = vec![
            DrawingInstruction::StartTextSection,
            DrawingInstruction::SetFillColor { color: Color::Black },
            DrawingInstruction::SetLineHeight { height: line_height },
            DrawingInstruction::SetFont { font: Font::Code, size: font_size },
            DrawingInstruction::SetTextCursor { pos: cursor },
        ];
        let ghost header = view_of(content@);
        assert(written_lines(ls.subrange(0, 0)) =~= Seq::<Instruction>::empty());
        assert(header =~= header + written_lines(ls.subrange(0, 0)));
        let mut i: usize = 0;
        while i < n
            invariant
                n == lines@.len(),
                n == ls.len(),
                i <= n,
                forall|k: int| 0 <= k < lines@.len() ==> #[trigger] lines@[k]@ == ls[k],
                view_of(content@) == header + written_lines(ls.subrange(0, i as int)),
            decreases n - i,
        {
            let text = lines[i].clone();
            let ghost before = view_of(content@);
            let step = vec![
                DrawingInstruction::WriteText { text, font: Font::Code },
                DrawingInstruction::AddLineBreak,
            ];
            append_ops(&mut content, step);
            proof {
                let next = ls.subrange(0, i + 1);
                assert(next.drop_last() =~= ls.subrange(0, i as int));
                assert(next.last() == ls[i as int]);
                assert(view_of(step@) =~= seq![
                    Instruction::WriteText { text: ls[i as int], font: Font::Code },
                    Instruction::AddLineBreak,
                ]);
                assert(view_of(content@) =~= header + written_lines(next));
            }
            i = i + 1;
        }
        assert(ls.subrange(0, n as int) =~= ls);
        let ghost body = view_of(content@);
        content.push(DrawingInstruction::EndTextSection);
        proof {
            let d = self.page_size.spec_dimensions();
            assert(view_of(content@) =~= body + seq![Instruction::EndTextSection]);
            assert(header =~= seq![
                Instruction::StartTextSection,
                Instruction::SetFillColor { color: Color::Black },
                Instruction::SetLineHeight { height: pem_line_height(ls.len()) },
                Instruction::SetFont { font: Font::Code, size: pem_font_size(ls.len()) },
                Instruction::SetTextCursor {
                    pos: Point {
                        x: d.margin,
                        y: (d.height / 2 - pem_font_size(ls.len()) - d.margin) as i64,
                    },
                },
            ]);
        }
        assert(view_of(content@) =~= pem_ops(self.page_size, ls));
        content
    }
    fn build_foreground_layer(&self, encrypted_data: &str, width_px: usize, height_px: usize) -> (r:
        Result<Vec<DrawingInstruction>, BuildError>)
        ensures
            height_px == 0 ==> r == Err::<Vec<DrawingInstruction>, BuildError>(
                BuildError::DegenerateImage,
            ),
            height_px > 0 ==> r is Ok && view_of(r->Ok_0@) == foreground_ops(
                self@,
                encrypted_data@,
                width_px as nat,
                height_px as nat,
            ),
    {
        let qrcode = self.insert_qr_code(width_px, height_px)?;
        let mut ops = vec![DrawingInstruction::BeginLayer { layer: Layer::Foreground }];
        let ghost begin = view_of(ops@);
        assert(begin =~= seq![Instruction::BeginLayer { layer: Layer::Foreground }]);
        if self.grid {
            append_ops(&mut ops, self.draw_grid());
        } else {
            assert(view_of(ops@) =~= begin + Seq::<Instruction>::empty());
        }
        append_ops(&mut ops, self.insert_title_text());
        append_ops(&mut ops, qrcode);
        append_ops(&mut ops, self.insert_notes_field(self.notes_label.clone(), self.skip_notes_line));
        append_ops(&mut ops, self.insert_divider());
        append_ops(&mut ops, self.insert_pem_text(encrypted_data));
        let ghost before_footer = view_of(ops@);
        if self.footer {
            append_ops(&mut ops, self.insert_footer());
        } else {
            assert(view_of(ops@) =~= before_footer + Seq::<Instruction>::empty());
        }
        let ghost before_end = view_of(ops@);
        ops.push(DrawingInstruction::EndLayer { layer: Layer::Foreground });
        assert(view_of(ops@) =~= before_end + seq![
            Instruction::EndLayer { layer: Layer::Foreground },
        ]);
        Ok(ops)
    }

    /// The drawing instructions of the whole page, for a QR code image of
    /// `width_px` by `height_px` pixels at 300 dpi.
    pub fn layout(&self, encrypted_data: &str, width_px: usize, height_px: usize) -> (r: Result<
        Vec<DrawingInstruction>,
        BuildError,
    >)
        ensures
            height_px == 0 ==> r == Err::<Vec<DrawingInstruction>, BuildError>(
                BuildError::DegenerateImage,
            ),
            height_px > 0 ==> r is Ok && view_of(r->Ok_0@) == page_ops(
                self@,
                encrypted_data@,
                width_px as nat,
                height_px as nat,
            ),
    {
        let foreground = self.build_foreground_layer(encrypted_data, width_px, height_px)?;
        let mut ops = self.build_background_layer();
        append_ops(&mut ops, foreground);
        Ok(ops)
    }
    pub fn generate_qr_code(&self, encrypted_data: &str) -> (r: Result<ExternalXObject, BuildError>)
        ensures
            r == Err::<ExternalXObject, BuildError>(BuildError::CapacityExceeded) <==> !qr_fits(encrypted_data@, CorrectionLevel::Low),
            r is Err ==> r == Err::<ExternalXObject, BuildError>(BuildError::CapacityExceeded) || r
                == Err::<ExternalXObject, BuildError>(BuildError::ImageParse),
    {
        let image = qrcode_svg(encrypted_data)?;
        match parse_svg(image.as_str()) {
            Ok(xobject) => Ok(xobject),
            Err(_) => Err(BuildError::ImageParse),
        }
    }

    /// Lays out the page for `encrypted_data`: its QR code is generated and
    /// measured, then every element is placed. Nothing is laid out when the
    /// QR code cannot be made.
    pub fn build(&self, encrypted_data: &str) -> (r: Result<Document, BuildError>)
        ensures
            r == Err::<Document, BuildError>(BuildError::CapacityExceeded) <==> !qr_fits(encrypted_data@, CorrectionLevel::Low),
            r is Err ==> r == Err::<Document, BuildError>(BuildError::CapacityExceeded) || r
                == Err::<Document, BuildError>(BuildError::ImageParse) || r == Err::<
                Document,
                BuildError,
            >(BuildError::DegenerateImage),
            r is Ok ==> ({
                let doc = r->Ok_0;
                &&& doc.title@ == self.title@
                &&& doc.page_size == self.page_size
                &&& doc.barcode_height_px > 0
                &&& view_of(doc.instructions@) == page_ops(
                    self@,
                    encrypted_data@,
                    doc.barcode_width_px as nat,
                    doc.barcode_height_px as nat,
                )
            }),
    {
        let barcode = self.generate_qr_code(encrypted_data)?;
        let (width, height) = image_size(&barcode);
        match (width, height) {
            (Some(width_px), Some(height_px)) => {
                let instructions = self.layout(encrypted_data, width_px, height_px)?;
                Ok(
                    Document {
                        title: self.title.clone(),
                        page_size: self.page_size,
                        barcode,
                        barcode_width_px: width_px,
                        barcode_height_px: height_px,
                        instructions,
                    },
                )
            },
            _ => Err(BuildError::ImageParse),
        }
    }
}

} // verus!
