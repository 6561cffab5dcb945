//! Fixed-point page geometry.
//!
//! Lengths on a page are whole numbers of milli-points (a point is 1/72 inch,
//! the native unit of a page description). Page-relative positions are whole
//! numbers of millionths of the page extent, so `0` is the left or top edge
//! and `NORMALIZED_ONE` the right or bottom edge. The origin is the top-left
//! corner throughout.

use vstd::prelude::*;

verus! {

/// Length units (milli-points) in one point.
pub const UNITS_PER_POINT: u32 = 1000;

/// The normalized coordinate of the far edge of a page.
pub const NORMALIZED_ONE: i64 = 1_000_000;

/// Width of a US Letter page, in length units.
pub const LETTER_WIDTH: u32 = 612_000;

/// Height of a US Letter page, in length units.
pub const LETTER_HEIGHT: u32 = 792_000;

/// The page-relative position of `coord` on an axis of length `extent`:
/// the exact ratio `coord / extent`, in millionths, rounded down.
pub open spec fn normalized(coord: int, extent: int) -> int {
    (coord * 1_000_000) / extent
}

/// `normalized` is the one integer `n` with
/// `n * extent <= coord * 1_000_000 < (n + 1) * extent`.
pub proof fn lemma_normalized_is_floor(coord: int, extent: int)
    requires
        extent > 0,
    ensures
        normalized(coord, extent) * extent <= coord * 1_000_000,
        coord * 1_000_000 < (normalized(coord, extent) + 1) * extent,
{
    let a = coord * 1_000_000;
    assert(a == extent * (a / extent) + a % extent && 0 <= a % extent < extent)
        by (nonlinear_arith)
        requires
            extent > 0,
    ;
    assert((a / extent) * extent == extent * (a / extent)) by (nonlinear_arith);
    assert((a / extent + 1) * extent == extent * (a / extent) + extent) by (nonlinear_arith);
}

/// Any integer squeezed like the floor is the floor.
pub proof fn lemma_floor_unique(n: int, coord: int, extent: int)
    requires
        extent > 0,
        n * extent <= coord * 1_000_000,
        coord * 1_000_000 < (n + 1) * extent,
    ensures
        n == normalized(coord, extent),
{
    lemma_normalized_is_floor(coord, extent);
    let m = normalized(coord, extent);
    let a = coord * 1_000_000;
    assert(n == m) by (nonlinear_arith)
        requires
            extent > 0,
            n * extent <= a,
            a < (n + 1) * extent,
            m * extent <= a,
            a < (m + 1) * extent,
    ;
}

/// Normalization keeps order: a smaller coordinate never lands further along.
pub proof fn lemma_normalized_monotone(a: int, b: int, extent: int)
    requires
        extent > 0,
        a <= b,
    ensures
        normalized(a, extent) <= normalized(b, extent),
{
    lemma_normalized_is_floor(a, extent);
    lemma_normalized_is_floor(b, extent);
    let m = normalized(a, extent);
    let n = normalized(b, extent);
    assert(m <= n) by (nonlinear_arith)
        requires
            extent > 0,
            a <= b,
            m * extent <= a * 1_000_000,
            b * 1_000_000 < (n + 1) * extent,
    ;
}

/// The two parts of a split length never normalize to more than the whole.
pub proof fn lemma_normalized_superadditive(a: int, b: int, extent: int)
    requires
        extent > 0,
    ensures
        normalized(a, extent) + normalized(b, extent) <= normalized(a + b, extent),
{
    lemma_normalized_is_floor(a, extent);
    lemma_normalized_is_floor(b, extent);
    lemma_normalized_is_floor(a + b, extent);
    let m = normalized(a, extent);
    let n = normalized(b, extent);
    let s = normalized(a + b, extent);
    assert(m + n <= s) by (nonlinear_arith)
        requires
            extent > 0,
            m * extent <= a * 1_000_000,
            n * extent <= b * 1_000_000,
            (a + b) * 1_000_000 < (s + 1) * extent,
    ;
}

/// A coordinate that is not negative normalizes to no more than a million
/// times itself.
pub proof fn lemma_normalized_range(coord: int, extent: int)
    requires
        extent > 0,
        coord >= 0,
    ensures
        0 <= normalized(coord, extent) <= coord * 1_000_000,
{
    lemma_normalized_is_floor(coord, extent);
    let n = normalized(coord, extent);
    let a = coord * 1_000_000;
    assert(0 <= n <= a) by (nonlinear_arith)
        requires
            extent >= 1,
            n * extent <= a,
            a < (n + 1) * extent,
            0 <= a,
    ;
}

/// The origin normalizes to zero and the far edge to one.
pub proof fn lemma_normalized_ends(extent: int)
    requires
        extent > 0,
    ensures
        normalized(0, extent) == 0,
        normalized(extent, extent) == 1_000_000,
{
    lemma_floor_unique(0, 0, extent);
    lemma_floor_unique(1_000_000, extent, extent);
}

/// Rounds `value / extent` down to millionths.
fn scale_to_unit(value: i64, extent: u32) -> (n: i64)
    requires
        extent > 0,
        -0x1_0000_0000 <= value <= 0x1_0000_0000,
    ensures
        n == normalized(value as int, extent as int),
{
    let e: i64 = extent as i64;
    if value >= 0 {
        assert(0 <= value * 1_000_000 <= 0x1_0000_0000 * 1_000_000) by (nonlinear_arith)
            requires
                0 <= value <= 0x1_0000_0000,
        ;
        (value * 1_000_000) / e
    } else {
        let p: i64 = -value;
        assert(0 < p * 1_000_000 <= 0x1_0000_0000 * 1_000_000) by (nonlinear_arith)
            requires
                0 < p <= 0x1_0000_0000,
        ;
        let q: i64 = p * 1_000_000;
        let up: i64 = (q + (e - 1)) / e;
        proof {
            // `up` is the ceiling of q / e, so `-up` is the floor of -q / e.
            let u = up as int;
            let d = e as int;
            let t = q as int + (d - 1);
            assert(t == d * (t / d) + t % d && 0 <= t % d < d) by (nonlinear_arith)
                requires
                    d > 0,
            ;
            assert((-u) * d == -(d * u)) by (nonlinear_arith);
            assert((-u + 1) * d == -(d * u) + d) by (nonlinear_arith);
            assert(value * 1_000_000 == -(q as int)) by (nonlinear_arith)
                requires
                    q == p * 1_000_000,
                    p == -value,
            ;
            lemma_floor_unique(-u, value as int, d);
        }
        -up
    }
}

/// The size of a page as a document reports it, in length units.
#[derive(Clone, Copy, Debug, PartialEq, Eq, Structural)]
pub struct PageSize {
    pub width: u32,
    pub height: u32,
}

impl PageSize {
    /// The size assumed for a page that cannot be measured: US Letter.
    pub fn letter() -> (s: PageSize)
        ensures
            s == (PageSize { width: LETTER_WIDTH, height: LETTER_HEIGHT }),
    {
        PageSize { width: LETTER_WIDTH, height: LETTER_HEIGHT }
    }
}

/// A point in page space, in length units.
#[derive(Clone, Copy, Debug, PartialEq, Eq, Structural)]
pub struct PagePoint {
    pub x: i32,
    pub y: i32,
}

/// An axis-aligned rectangle in page space, by its top-left and bottom-right
/// corners.
#[derive(Clone, Copy, Debug, PartialEq, Eq, Structural)]
pub struct PageRect {
    pub x0: i32,
    pub y0: i32,
    pub x1: i32,
    pub y1: i32,
}

/// A quadrilateral in page space, by its four corners. Text may be rotated,
/// so the corners need not form an axis-aligned rectangle.
#[derive(Clone, Copy, Debug, PartialEq, Eq, Structural)]
pub struct PageQuad {
    pub ul: PagePoint,
    pub ur: PagePoint,
    pub lr: PagePoint,
    pub ll: PagePoint,
}

/// A rectangle in page-relative coordinates (millionths of the page extent).
#[derive(Clone, Copy, Debug, PartialEq, Eq, Structural)]
pub struct NormalizedRect {
    pub x: i64,
    pub y: i64,
    pub width: i64,
    pub height: i64,
}

impl NormalizedRect {
    /// Whether the rectangle lies on the page: its near corner and its far
    /// corner are both inside the unit square.
    pub open spec fn in_unit_square(&self) -> bool {
        &&& 0 <= self.x <= 1_000_000
        &&& 0 <= self.y <= 1_000_000
        &&& 0 <= self.x + self.width <= 1_000_000
        &&& 0 <= self.y + self.height <= 1_000_000
    }
}

/// The lesser of two integers.
pub open spec fn min_int(a: int, b: int) -> int {
    if a <= b {
        a
    } else {
        b
    }
}

/// The greater of two integers.
pub open spec fn max_int(a: int, b: int) -> int {
    if a >= b {
        a
    } else {
        b
    }
}

/// The least of four integers.
pub open spec fn min_of_four(a: int, b: int, c: int, d: int) -> int {
    min_int(min_int(a, b), min_int(c, d))
}

/// The greatest of four integers.
pub open spec fn max_of_four(a: int, b: int, c: int, d: int) -> int {
    max_int(max_int(a, b), max_int(c, d))
}

fn least(a: i32, b: i32, c: i32, d: i32) -> (m: i32)
    ensures
        m == min_of_four(a as int, b as int, c as int, d as int),
{
    let ab = if a <= b { a } else { b };
    let cd = if c <= d { c } else { d };
    if ab <= cd { ab } else { cd }
}

fn greatest(a: i32, b: i32, c: i32, d: i32) -> (m: i32)
    ensures
        m == max_of_four(a as int, b as int, c as int, d as int),
{
    let ab = if a >= b { a } else { b };
    let cd = if c >= d { c } else { d };
    if ab >= cd { ab } else { cd }
}

impl PageQuad {
    /// The axis-aligned box of a quadrilateral, however it is turned: from
    /// the least to the greatest abscissa and from the least to the
    /// greatest ordinate of its four corners.
    pub open spec fn spec_bounding_rect(&self) -> PageRect {
        PageRect {
            x0: min_of_four(
                self.ul.x as int,
                self.ur.x as int,
                self.lr.x as int,
                self.ll.x as int,
            ) as i32,
            y0: min_of_four(
                self.ul.y as int,
                self.ur.y as int,
                self.lr.y as int,
                self.ll.y as int,
            ) as i32,
            x1: max_of_four(
                self.ul.x as int,
                self.ur.x as int,
                self.lr.x as int,
                self.ll.x as int,
            ) as i32,
            y1: max_of_four(
                self.ul.y as int,
                self.ur.y as int,
                self.lr.y as int,
                self.ll.y as int,
            ) as i32,
        }
    }

    /// The axis-aligned box of the quadrilateral.
    pub fn bounding_rect(&self) -> (r: PageRect)
        ensures
            r == self.spec_bounding_rect(),
            r.x0 <= r.x1,
            r.y0 <= r.y1,
    {
        PageRect {
            x0: least(self.ul.x, self.ur.x, self.lr.x, self.ll.x),
            y0: least(self.ul.y, self.ur.y, self.lr.y, self.ll.y),
            x1: greatest(self.ul.x, self.ur.x, self.lr.x, self.ll.x),
            y1: greatest(self.ul.y, self.ur.y, self.lr.y, self.ll.y),
        }
    }

    /// The box of a quadrilateral holds its four corners and is no larger
    /// than that: each side of the box passes through a corner, and the
    /// sides of the box are not negative.
    pub proof fn lemma_bounding_rect(&self)
        ensures
            self.spec_bounding_rect().x0 <= self.ul.x <= self.spec_bounding_rect().x1,
            self.spec_bounding_rect().x0 <= self.ur.x <= self.spec_bounding_rect().x1,
            self.spec_bounding_rect().x0 <= self.lr.x <= self.spec_bounding_rect().x1,
            self.spec_bounding_rect().x0 <= self.ll.x <= self.spec_bounding_rect().x1,
            self.spec_bounding_rect().y0 <= self.ul.y <= self.spec_bounding_rect().y1,
            self.spec_bounding_rect().y0 <= self.ur.y <= self.spec_bounding_rect().y1,
            self.spec_bounding_rect().y0 <= self.lr.y <= self.spec_bounding_rect().y1,
            self.spec_bounding_rect().y0 <= self.ll.y <= self.spec_bounding_rect().y1,
            self.spec_bounding_rect().x0 == self.ul.x || self.spec_bounding_rect().x0 == self.ur.x
                || self.spec_bounding_rect().x0 == self.lr.x || self.spec_bounding_rect().x0
                == self.ll.x,
            self.spec_bounding_rect().x1 == self.ul.x || self.spec_bounding_rect().x1 == self.ur.x
                || self.spec_bounding_rect().x1 == self.lr.x || self.spec_bounding_rect().x1
                == self.ll.x,
            self.spec_bounding_rect().y0 == self.ul.y || self.spec_bounding_rect().y0 == self.ur.y
                || self.spec_bounding_rect().y0 == self.lr.y || self.spec_bounding_rect().y0
                == self.ll.y,
            self.spec_bounding_rect().y1 == self.ul.y || self.spec_bounding_rect().y1 == self.ur.y
                || self.spec_bounding_rect().y1 == self.lr.y || self.spec_bounding_rect().y1
                == self.ll.y,
    {
    }
}

/// The extent of a page, the divisor of every normalization. Both sides are
/// strictly positive, so no caller can divide by a degenerate page.
#[derive(Clone, Copy, Debug, PartialEq, Eq)]
pub struct PageBounds {
    width: u32,
    height: u32,
}

impl PageBounds {
    #[verifier::type_invariant]
    spec fn positive(&self) -> bool {
        self.width > 0 && self.height > 0
    }

    /// Page width in length units.
    pub closed spec fn spec_width(&self) -> int {
        self.width as int
    }

    /// Page height in length units.
    pub closed spec fn spec_height(&self) -> int {
        self.height as int
    }

    /// What holds of every page extent: both sides are strictly positive.
    pub open spec fn valid(&self) -> bool {
        0 < self.spec_width() <= u32::MAX && 0 < self.spec_height() <= u32::MAX
    }

    /// Accepts a page extent; a degenerate one (a side of zero) is rejected.
    pub fn new(width: u32, height: u32) -> (r: Option<PageBounds>)
        ensures
            r is Some <==> (width > 0 && height > 0),
            r matches Some(b) ==> b.valid() && b.spec_width() == width && b.spec_height()
                == height,
    {
        if width > 0 && height > 0 {
            Some(PageBounds { width, height })
        } else {
            None
        }
    }

    /// Accepts a reported page size; a degenerate one is rejected.
    pub fn from_size(size: PageSize) -> (r: Option<PageBounds>)
        ensures
            r is Some <==> (size.width > 0 && size.height > 0),
            r matches Some(b) ==> b.valid() && b.spec_width() == size.width && b.spec_height()
                == size.height,
    {
        PageBounds::new(size.width, size.height)
    }

    /// The extent of a US Letter page.
    pub fn letter() -> (b: PageBounds)
        ensures
            b.valid(),
            b.spec_width() == LETTER_WIDTH,
            b.spec_height() == LETTER_HEIGHT,
    {
        PageBounds { width: LETTER_WIDTH, height: LETTER_HEIGHT }
    }

    /// Page width in length units.
    pub fn width(&self) -> (w: u32)
        ensures
            w == self.spec_width(),
            self.valid(),
    {
        proof {
            use_type_invariant(self);
        }
        self.width
    }

    /// Page height in length units.
    pub fn height(&self) -> (h: u32)
        ensures
            h == self.spec_height(),
            self.valid(),
    {
        proof {
            use_type_invariant(self);
        }
        self.height
    }

    /// The extent as a page size.
    pub fn size(&self) -> (s: PageSize)
        ensures
            s.width == self.spec_width(),
            s.height == self.spec_height(),
    {
        PageSize { width: self.width, height: self.height }
    }

    /// Whether a point lies on the page, edges included.
    pub open spec fn contains_point(&self, p: PagePoint) -> bool {
        0 <= p.x <= self.spec_width() && 0 <= p.y <= self.spec_height()
    }

    /// Whether a rectangle is well-formed and lies on the page.
    pub open spec fn contains_rect(&self, r: PageRect) -> bool {
        0 <= r.x0 <= r.x1 <= self.spec_width() && 0 <= r.y0 <= r.y1 <= self.spec_height()
    }

    /// Whether all four corners of a quadrilateral lie on the page.
    pub open spec fn contains_quad(&self, q: PageQuad) -> bool {
        &&& self.contains_point(q.ul)
        &&& self.contains_point(q.ur)
        &&& self.contains_point(q.lr)
        &&& self.contains_point(q.ll)
    }

    /// A rectangle relative to this page: the near corner and the side
    /// lengths, each divided by the page extent on its own axis.
    pub open spec fn spec_normalize_rect(&self, r: PageRect) -> NormalizedRect {
        NormalizedRect {
            x: normalized(r.x0 as int, self.spec_width()) as i64,
            y: normalized(r.y0 as int, self.spec_height()) as i64,
            width: normalized(r.x1 - r.x0, self.spec_width()) as i64,
            height: normalized(r.y1 - r.y0, self.spec_height()) as i64,
        }
    }

    /// The eight coordinates of a quadrilateral relative to this page, in the
    /// order upper-left, upper-right, lower-right, lower-left, abscissa
    /// before ordinate. Abscissas are divided by the page width and ordinates
    /// by the page height.
    pub open spec fn spec_normalize_quad(&self, q: PageQuad) -> Seq<i64> {
        seq![
            normalized(q.ul.x as int, self.spec_width()) as i64,
            normalized(q.ul.y as int, self.spec_height()) as i64,
            normalized(q.ur.x as int, self.spec_width()) as i64,
            normalized(q.ur.y as int, self.spec_height()) as i64,
            normalized(q.lr.x as int, self.spec_width()) as i64,
            normalized(q.lr.y as int, self.spec_height()) as i64,
            normalized(q.ll.x as int, self.spec_width()) as i64,
            normalized(q.ll.y as int, self.spec_height()) as i64,
        ]
    }

    /// A horizontal position relative to the page width.
    pub fn normalize_x(&self, x: i32) -> (n: i64)
        ensures
            n == normalized(x as int, self.spec_width()),
    {
        proof {
            use_type_invariant(self);
        }
        scale_to_unit(x as i64, self.width)
    }

    /// A vertical position relative to the page height.
    pub fn normalize_y(&self, y: i32) -> (n: i64)
        ensures
            n == normalized(y as int, self.spec_height()),
    {
        proof {
            use_type_invariant(self);
        }
        scale_to_unit(y as i64, self.height)
    }

    /// A rectangle relative to this page.
    pub fn normalize_rect(&self, r: &PageRect) -> (n: NormalizedRect)
        ensures
            n == self.spec_normalize_rect(*r),
    {
        proof {
            use_type_invariant(self);
        }
        NormalizedRect {
            x: scale_to_unit(r.x0 as i64, self.width),
            y: scale_to_unit(r.y0 as i64, self.height),
            width: scale_to_unit(r.x1 as i64 - r.x0 as i64, self.width),
            height: scale_to_unit(r.y1 as i64 - r.y0 as i64, self.height),
        }
    }

    /// The eight coordinates of a quadrilateral relative to this page.
    pub fn normalize_quad(&self, q: &PageQuad) -> (n: [i64; 8])
        ensures
            n@ == self.spec_normalize_quad(*q),
    {
        let n = [
            self.normalize_x(q.ul.x),
            self.normalize_y(q.ul.y),
            self.normalize_x(q.ur.x),
            self.normalize_y(q.ur.y),
            self.normalize_x(q.lr.x),
            self.normalize_y(q.lr.y),
            self.normalize_x(q.ll.x),
            self.normalize_y(q.ll.y),
        ];
        n
    }

    /// A rectangle that lies on the page normalizes into the unit square:
    /// its near corner, its far corner and its sides are all between zero and
    /// one.
    pub proof fn lemma_rect_in_unit_square(&self, r: PageRect)
        requires
            self.valid(),
            self.contains_rect(r),
        ensures
            self.spec_normalize_rect(r).in_unit_square(),
            0 <= self.spec_normalize_rect(r).width,
            0 <= self.spec_normalize_rect(r).height,
    {
        lemma_axis_in_unit(r.x0 as int, r.x1 as int, self.width as int);
        lemma_axis_in_unit(r.y0 as int, r.y1 as int, self.height as int);
    }

    /// A quadrilateral whose corners lie on the page normalizes to eight
    /// coordinates between zero and one.
    pub proof fn lemma_quad_in_unit_square(&self, q: PageQuad)
        requires
            self.valid(),
            self.contains_quad(q),
        ensures
            self.spec_normalize_quad(q).len() == 8,
            forall|i: int|
                0 <= i < 8 ==> 0 <= #[trigger] self.spec_normalize_quad(q)[i] <= 1_000_000,
    {
        let w = self.width as int;
        let h = self.height as int;
        lemma_axis_in_unit(q.ul.x as int, q.ul.x as int, w);
        lemma_axis_in_unit(q.ur.x as int, q.ur.x as int, w);
        lemma_axis_in_unit(q.lr.x as int, q.lr.x as int, w);
        lemma_axis_in_unit(q.ll.x as int, q.ll.x as int, w);
        lemma_axis_in_unit(q.ul.y as int, q.ul.y as int, h);
        lemma_axis_in_unit(q.ur.y as int, q.ur.y as int, h);
        lemma_axis_in_unit(q.lr.y as int, q.lr.y as int, h);
        lemma_axis_in_unit(q.ll.y as int, q.ll.y as int, h);
    }
}

impl PageBounds {
    /// The box of a quadrilateral whose corners lie on the page lies on the
    /// page.
    pub proof fn lemma_box_on_page(&self, q: PageQuad)
        requires
            self.contains_quad(q),
        ensures
            self.contains_rect(q.spec_bounding_rect()),
    {
        q.lemma_bounding_rect();
    }
}

/// On one axis: an interval inside `[0, extent]` normalizes to a start and a
/// length that stay inside `[0, 1]`, their sum included.
pub proof fn lemma_axis_in_unit(lo: int, hi: int, extent: int)
    requires
        extent > 0,
        0 <= lo <= hi <= extent,
    ensures
        0 <= normalized(lo, extent) <= 1_000_000,
        0 <= normalized(hi - lo, extent) <= 1_000_000,
        normalized(lo, extent) + normalized(hi - lo, extent) <= 1_000_000,
{
    lemma_normalized_ends(extent);
    lemma_normalized_monotone(0, lo, extent);
    lemma_normalized_monotone(lo, extent, extent);
    lemma_normalized_monotone(0, hi - lo, extent);
    lemma_normalized_monotone(hi - lo, extent, extent);
    lemma_normalized_superadditive(lo, hi - lo, extent);
    lemma_normalized_monotone(hi, extent, extent);
}

} // verus!
