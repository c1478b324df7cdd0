//! Page sizes and the anchor points derived from them.
//!
//! Lengths are whole English Metric Units (EMU): 36 000 to the millimetre,
//! 12 700 to the point and 3 048 to a pixel at 300 dpi, so that every length
//! the layout derives is exact.
use vstd::prelude::*;

verus! {

/// EMU in one millimetre.
pub const EMU_PER_MM: i64 = 36000;

/// EMU in one typographic point (1/72 inch).
pub const EMU_PER_PT: i64 = 12700;

/// EMU in one pixel at the reference resolution of 300 dpi.
pub const EMU_PER_PX: i64 = 3048;

/// Largest page side accepted as well formed (about 27 km).
pub const MAX_PAGE_SIDE: i64 = 1_000_000_000_000;

/// A point on the page; the origin is the bottom left corner.
#[derive(Clone, Copy, Debug, PartialEq, Eq, Structural)]
pub struct Point {
    pub x: i64,
    pub y: i64,
}

impl Point {
    pub fn new(x: i64, y: i64) -> (r: Point)
        ensures
            r.x == x,
            r.y == y,
    {
        Point { x, y }
    }
}

/// Page dimensions
#[derive(Clone, Copy, Debug, PartialEq, Eq, Structural)]
pub struct PageDimensions {
    pub width: i64,
    pub height: i64,
    pub margin: i64,
}

/// Width of an A4 page (210 mm).
pub const A4_WIDTH: i64 = 7_560_000;

/// Height of an A4 page (297 mm).
pub const A4_HEIGHT: i64 = 10_692_000;

/// Width of a Letter page (215.9 mm).
pub const LETTER_WIDTH: i64 = 7_772_400;

/// Height of a Letter page (279.4 mm).
pub const LETTER_HEIGHT: i64 = 10_058_400;

/// The margin of both page sizes (10 mm).
pub const PAGE_MARGIN: i64 = 360_000;

/// A4 dimensions with a 10mm margin
pub open spec fn spec_a4_page() -> PageDimensions {
    PageDimensions { width: A4_WIDTH, height: A4_HEIGHT, margin: PAGE_MARGIN }
}

/// Letter dimensions with a 10mm margin
pub open spec fn spec_letter_page() -> PageDimensions {
    PageDimensions { width: LETTER_WIDTH, height: LETTER_HEIGHT, margin: PAGE_MARGIN }
}

/// A4 dimensions with a 10mm margin
pub fn a4_page() -> (r: PageDimensions)
    ensures
        r == spec_a4_page(),
{
    PageDimensions { width: A4_WIDTH, height: A4_HEIGHT, margin: PAGE_MARGIN }
}

/// Letter dimensions with a 10mm margin
pub fn letter_page() -> (r: PageDimensions)
    ensures
        r == spec_letter_page(),
{
    PageDimensions { width: LETTER_WIDTH, height: LETTER_HEIGHT, margin: PAGE_MARGIN }
}

impl PageDimensions {
    /// All sides positive, the margin under half of the shorter side, and
    /// the sides small enough that the layout's arithmetic cannot overflow.
    pub open spec fn wf(self) -> bool {
        &&& 0 < self.margin
        &&& 2 * self.margin < self.width
        &&& 2 * self.margin < self.height
        &&& self.width <= MAX_PAGE_SIDE
        &&& self.height <= MAX_PAGE_SIDE
    }

    /// Center point of the page
    pub fn center(&self) -> (r: Point)
        requires
            self.wf(),
        ensures
            r.x == self.width / 2,
            r.y == self.height / 2,
    {
        Point::new(self.width / 2, self.height / 2)
    }

    /// Vertical center left of the page (with margin)
    pub fn center_left(&self) -> (r: Point)
        requires
            self.wf(),
        ensures
            r.x == self.margin,
            r.y == self.height / 2,
    {
        Point::new(self.margin, self.height / 2)
    }

    /// Vertical center right of the page (with margin)
    pub fn center_right(&self) -> (r: Point)
        requires
            self.wf(),
        ensures
            r.x == self.width - self.margin,
            r.y == self.height / 2,
    {
        Point::new(self.width - self.margin, self.height / 2)
    }

    /// Top left of the page (with margin)
    pub fn top_left(&self) -> (r: Point)
        requires
            self.wf(),
        ensures
            r.x == self.margin,
            r.y == self.height - self.margin,
    {
        Point::new(self.margin, self.height - self.margin)
    }

    /// Top right of the page (with margin)
    pub fn top_right(&self) -> (r: Point)
        requires
            self.wf(),
        ensures
            r.x == self.width - self.margin,
            r.y == self.height - self.margin,
    {
        Point::new(self.width - self.margin, self.height - self.margin)
    }

    /// Bottom left of the page (with margin)
    pub fn bottom_left(&self) -> (r: Point)
        requires
            self.wf(),
        ensures
            r.x == self.margin,
            r.y == self.margin,
    {
        Point::new(self.margin, self.margin)
    }

    /// Bottom right of the page (with margin)
    pub fn bottom_right(&self) -> (r: Point)
        requires
            self.wf(),
        ensures
            r.x == self.width - self.margin,
            r.y == self.margin,
    {
        Point::new(self.width - self.margin, self.margin)
    }
}

/// Default to an A4 page
impl Default for PageDimensions {
    fn default() -> (r: PageDimensions)
        ensures
            r == spec_a4_page(),
    {
        a4_page()
    }
}

/// Side of the QR code on an A4 page (110 mm).
pub const A4_QRCODE_SIZE: i64 = 3_960_000;

/// Side of the QR code on a Letter page (102 mm).
pub const LETTER_QRCODE_SIZE: i64 = 3_672_000;

/// The page sizes a document can be laid out on.
#[derive(Clone, Copy, Debug, PartialEq, Eq, Structural)]
pub enum PageSize {
    A4,
    Letter,
}

impl PageSize {
    pub open spec fn spec_dimensions(self) -> PageDimensions {
        match self {
            PageSize::A4 => spec_a4_page(),
            PageSize::Letter => spec_letter_page(),
        }
    }

    pub open spec fn spec_qrcode_size(self) -> i64 {
        match self {
            PageSize::A4 => A4_QRCODE_SIZE,
            PageSize::Letter => LETTER_QRCODE_SIZE,
        }
    }

    pub open spec fn spec_qrcode_left_edge(self) -> i64 {
        ((self.spec_dimensions().width - self.spec_qrcode_size()) / 2) as i64
    }

    /// Page dimensions
    pub fn dimensions(&self) -> (r: PageDimensions)
        ensures
            r == self.spec_dimensions(),
            r.wf(),
    {
        match self {
            PageSize::A4 => a4_page(),
            PageSize::Letter => letter_page(),
        }
    }

    /// QR code size for the page size
    pub fn qrcode_size(&self) -> (r: i64)
        ensures
            r == self.spec_qrcode_size(),
            0 < r < self.spec_dimensions().width - 2 * self.spec_dimensions().margin,
    {
        match self {
            PageSize::A4 => A4_QRCODE_SIZE,
            PageSize::Letter => LETTER_QRCODE_SIZE,
        }
    }

    /// The left edge of the QR code on the page: the code is centred
    /// horizontally, so the edge lies halfway across the space beside it.
    pub fn qrcode_left_edge(&self) -> (r: i64)
        ensures
            r == self.spec_qrcode_left_edge(),
            2 * r + self.spec_qrcode_size() == self.spec_dimensions().width,
            self.spec_dimensions().margin < r,
    {
        (self.dimensions().width - self.qrcode_size()) / 2
    }

    /// The lower case name of the page size, as a command line spells it.
    pub fn name(&self) -> (r: &'static str)
        ensures
            r@ == (match self {
                PageSize::A4 => "a4"@,
                PageSize::Letter => "letter"@,
            }),
    {
        match self {
            PageSize::A4 => "a4",
            PageSize::Letter => "letter",
        }
    }
}

/// Every page size gives positive dimensions with a margin under half of
/// the shorter side, and a QR code that fits between the side margins.
pub proof fn lemma_page_sizes_well_formed(size: PageSize)
    ensures
        size.spec_dimensions().wf(),
        0 < size.spec_dimensions().width,
        0 < size.spec_dimensions().height,
        0 < size.spec_dimensions().margin,
        2 * size.spec_dimensions().margin < size.spec_dimensions().width,
        2 * size.spec_dimensions().margin < size.spec_dimensions().height,
        0 < size.spec_qrcode_size(),
        size.spec_dimensions().margin < size.spec_qrcode_left_edge(),
{
}

/// The QR code's left edge is half of the page width left over by the code.
pub proof fn lemma_qrcode_left_edge_centres_code(size: PageSize)
    ensures
        size.spec_qrcode_left_edge() == (size.spec_dimensions().width
            - size.spec_qrcode_size()) / 2,
        size.spec_qrcode_left_edge() + size.spec_qrcode_size() + size.spec_qrcode_left_edge()
            == size.spec_dimensions().width,
{
}

} // verus!
