//! Page rasterization plans: the scale handed to the rasterizer, the pixel
//! box that the scaled page covers and the caps that the image must keep.
//!
//! There are two strategies. The constrained fit starts from a resolution
//! and brings the scale down, first to a width cap and then to a height
//! cap. The target-side fit scales the longer side of the page to a given
//! length, be that up or down.

use vstd::prelude::*;
use vstd::string::*;
use crate::encoding::{base64_standard, encodable, encode_base64};
use crate::error::ViewerError;
use crate::geometry::PageBounds;

verus! {

/// The resolution of a render that names none, in dots per inch.
pub const DEFAULT_DPI: u32 = 150;

/// The resolution at which one point is one pixel.
pub const NATIVE_DPI: u32 = 72;

/// The side of the square that a thumbnail fits in when none is named.
pub const DEFAULT_THUMBNAIL_SIZE: u32 = 200;

/// A rendered page: the encoded image as base64 text, its size in pixels and
/// the one-based page number.
#[derive(Clone, Debug, PartialEq, Eq)]
pub struct RenderedPage {
    pub data: String,
    pub width: u32,
    pub height: u32,
    pub page: u32,
}

/// What a `RenderedPage` holds.
pub struct RenderedPageView {
    pub data: Seq<char>,
    pub width: u32,
    pub height: u32,
    pub page: u32,
}

impl View for RenderedPage {
    type V = RenderedPageView;

    open spec fn view(&self) -> RenderedPageView {
        RenderedPageView {
            data: self.data@,
            width: self.width,
            height: self.height,
            page: self.page,
        }
    }
}

impl RenderedPage {
    /// A rendered page from image data that is already encoded as text.
    pub fn new(data: String, width: u32, height: u32, page: u32) -> (out: RenderedPage)
        ensures
            out.data == data,
            out.width == width,
            out.height == height,
            out.page == page,
    {
        RenderedPage { data, width, height, page }
    }

    /// A rendered page from the bytes of an encoded image, the pixel size
    /// that the rasterizer reports and the one-based page number. The bytes
    /// are carried as base64 text. Image data too long for its text to be
    /// addressed is refused with `Render`.
    pub fn from_image(image: &[u8], width: u32, height: u32, page: u32) -> (out: Result<
        RenderedPage,
        ViewerError,
    >)
        ensures
            match out {
                Ok(rendered) => {
                    &&& encodable(image@.len())
                    &&& rendered@ == (RenderedPageView {
                        data: base64_standard(image@),
                        width,
                        height,
                        page,
                    })
                },
                Err(e) => {
                    &&& !encodable(image@.len())
                    &&& e matches ViewerError::Render(detail)
                    &&& detail@ == "image data is too long to encode"@
                },
            },
    {
        if image.len() / 3 <= (usize::MAX - 4) / 4 {
            Ok(RenderedPage::new(encode_base64(image), width, height, page))
        } else {
            Err(ViewerError::Render(String::from_str("image data is too long to encode")))
        }
    }

    /// The rendered page of a plan, from the bytes of the encoded image and
    /// the pixel size that the rasterizer reports. An image that passes a
    /// cap of the plan is refused with `Render`, so that no page is handed
    /// out wider or taller than was asked for; so is image data too long
    /// for its text to be addressed.
    pub fn from_render(plan: &RenderPlan, image: &[u8], width: u32, height: u32, page: u32) -> (out:
        Result<RenderedPage, ViewerError>)
        ensures
            match out {
                Ok(rendered) => {
                    &&& plan.admits(width, height)
                    &&& encodable(image@.len())
                    &&& rendered@ == (RenderedPageView {
                        data: base64_standard(image@),
                        width,
                        height,
                        page,
                    })
                    &&& plan.max_width matches Some(cap) ==> rendered.width <= cap
                    &&& plan.max_height matches Some(cap) ==> rendered.height <= cap
                },
                Err(e) => {
                    &&& e matches ViewerError::Render(detail)
                    &&& if !plan.admits(width, height) {
                        detail@ == "the image is larger than was asked for"@
                    } else {
                        !encodable(image@.len()) && detail@
                            == "image data is too long to encode"@
                    }
                },
            },
    {
        if !plan.is_admitted(width, height) {
            return Err(ViewerError::Render(String::from_str("the image is larger than was asked for")));
        }
        RenderedPage::from_image(image, width, height, page)
    }
}

/// A page of a batch that could not be rendered, and why.
#[derive(Clone, Debug, PartialEq, Eq)]
pub struct PageFailure {
    pub page: u32,
    pub error: ViewerError,
}

/// The outcome of a batch of renders: the pages that were rendered, in the
/// order asked for, and beside them the pages that failed. A failed page is
/// absent from `pages`; it does not fail the batch.
#[derive(Clone, Debug, PartialEq, Eq)]
pub struct ThumbnailBatch {
    pub pages: Vec<RenderedPage>,
    pub failures: Vec<PageFailure>,
}

impl ThumbnailBatch {
    /// A batch with no page yet.
    pub fn new() -> (batch: ThumbnailBatch)
        ensures
            batch.pages@.len() == 0,
            batch.failures@.len() == 0,
    {
        ThumbnailBatch { pages: Vec::new(), failures: Vec::new() }
    }

    /// Takes in the outcome of one page: a rendered page joins `pages`, a
    /// failure joins `failures` with the page's number.
    pub fn record(&mut self, page: u32, outcome: Result<RenderedPage, ViewerError>)
        ensures
            match outcome {
                Ok(rendered) => {
                    &&& final(self).pages@ == old(self).pages@.push(rendered)
                    &&& final(self).failures@ == old(self).failures@
                },
                Err(error) => {
                    &&& final(self).pages@ == old(self).pages@
                    &&& final(self).failures@ == old(self).failures@.push(
                        PageFailure { page, error },
                    )
                },
            },
    {
        match outcome {
            Ok(rendered) => {
                self.pages.push(rendered);
            },
            Err(error) => {
                self.failures.push(PageFailure { page, error });
            },
        }
    }
}

/// A uniform scale factor in pixels per point, as the fraction `num / den`.
#[derive(Clone, Copy, Debug, PartialEq, Eq, Structural)]
pub struct RenderScale {
    pub num: u128,
    pub den: u128,
}

/// What to ask of the rasterizer for one page, and what to accept of it.
#[derive(Clone, Copy, Debug, PartialEq, Eq)]
pub struct RenderPlan {
    /// The factor by which both axes of the page are scaled.
    pub scale: RenderScale,
    /// The width in pixels that the scaled page covers, a pixel begun
    /// counted whole.
    pub width: u32,
    /// The height in pixels that the scaled page covers, a pixel begun
    /// counted whole.
    pub height: u32,
    /// The most pixels that the image may be wide, if there is a cap.
    pub max_width: Option<u32>,
    /// The most pixels that the image may be tall, if there is a cap.
    pub max_height: Option<u32>,
    /// Whether interactive annotations are drawn.
    pub show_annotations: bool,
}

/// A scale as a fraction of integers.
pub struct Fit {
    pub num: int,
    pub den: int,
}

/// A scale that is a fraction: not negative, over a positive denominator.
pub open spec fn fit_is_sound(fit: Fit) -> bool {
    0 <= fit.num && 0 < fit.den
}

/// Whether a page side of `extent` length units, `extent / 1000` points,
/// comes out at no more than `pixels` pixels under a scale.
pub open spec fn within(fit: Fit, extent: int, pixels: int) -> bool {
    fit.num * extent <= pixels * 1000 * fit.den
}

/// The pixels that a page side of `extent` length units covers under a
/// scale: `extent / 1000` points times the scale, rounded up, and no more
/// than a 32-bit count.
pub open spec fn covered_pixels(extent: int, fit: Fit) -> int {
    let exact = (fit.num * extent + (1000 * fit.den - 1)) / (1000 * fit.den);
    if exact > u32::MAX {
        u32::MAX as int
    } else {
        exact
    }
}

/// A scale brought down to a cap on one axis: where the side of the page
/// would come out at more than `cap` pixels, the scale becomes the one that
/// brings the side to exactly `cap` pixels; else it stays.
pub open spec fn capped(fit: Fit, extent: int, cap: Option<u32>) -> Fit {
    match cap {
        Some(c) => if within(fit, extent, c as int) {
            fit
        } else {
            Fit { num: c * 1000, den: extent }
        },
        None => fit,
    }
}

/// The resolution asked for, or the default of 150 dots per inch.
pub open spec fn dpi_or_default(dpi: Option<u32>) -> int {
    match dpi {
        Some(d) => d as int,
        None => 150,
    }
}

/// The scale of a resolution: `dpi / 72` pixels per point.
pub open spec fn resolution_scale(dpi: int) -> Fit {
    Fit { num: dpi, den: 72 }
}

/// The constrained fit: the scale of the resolution, brought down to the
/// width cap and then to the height cap. The caps are taken one after the
/// other; the scale that comes out keeps both, and a side may stay short
/// of its cap.
pub open spec fn constrained_fit(
    bounds: PageBounds,
    dpi: Option<u32>,
    max_width: Option<u32>,
    max_height: Option<u32>,
) -> Fit {
    capped(
        capped(resolution_scale(dpi_or_default(dpi)), bounds.spec_width(), max_width),
        bounds.spec_height(),
        max_height,
    )
}

/// The longer side of a page; the height where the page is not wider than
/// it is tall.
pub open spec fn longer_side(bounds: PageBounds) -> int {
    if bounds.spec_width() > bounds.spec_height() {
        bounds.spec_width()
    } else {
        bounds.spec_height()
    }
}

/// The thumbnail size asked for, or the default of 200 pixels.
pub open spec fn size_or_default(max_size: Option<u32>) -> int {
    match max_size {
        Some(s) => s as int,
        None => 200,
    }
}

/// The target-side fit: the scale that brings the longer side of the page
/// to exactly `target` pixels. A page that is not wider than tall counts as
/// tall.
pub open spec fn target_side_fit(bounds: PageBounds, target: int) -> Fit {
    Fit { num: target * 1000, den: longer_side(bounds) }
}

/// A scale as a fraction of integers.
pub open spec fn fit_of(scale: RenderScale) -> Fit {
    Fit { num: scale.num as int, den: scale.den as int }
}

impl RenderPlan {
    /// Whether the plan holds the scale `fit` and the box that the page
    /// covers under it.
    pub open spec fn is_fit(&self, fit: Fit, bounds: PageBounds) -> bool {
        &&& self.scale.num == fit.num
        &&& self.scale.den == fit.den
        &&& self.width == covered_pixels(bounds.spec_width(), fit)
        &&& self.height == covered_pixels(bounds.spec_height(), fit)
    }

    /// Whether an image of the given size keeps the caps of the plan.
    pub open spec fn admits(&self, width: u32, height: u32) -> bool {
        &&& self.max_width matches Some(cap) ==> width <= cap
        &&& self.max_height matches Some(cap) ==> height <= cap
    }

    /// Tells whether an image of the given size keeps the caps of the plan.
    pub fn is_admitted(&self, width: u32, height: u32) -> (ok: bool)
        ensures
            ok == self.admits(width, height),
    {
        let wide = match self.max_width {
            Some(cap) => width > cap,
            None => false,
        };
        let tall = match self.max_height {
            Some(cap) => height > cap,
            None => false,
        };
        !wide && !tall
    }
}

/// Capping keeps a scale sound, never raises it, brings the capped side
/// within the cap, and leaves within its bound any side that was.
pub proof fn lemma_capped(fit: Fit, extent: int, cap: Option<u32>, other: int, bound: int)
    requires
        fit_is_sound(fit),
        0 < extent,
        0 < other,
        0 <= bound,
    ensures
        fit_is_sound(capped(fit, extent, cap)),
        capped(fit, extent, cap).num * fit.den <= fit.num * capped(fit, extent, cap).den,
        cap matches Some(c) ==> within(capped(fit, extent, cap), extent, c as int),
        within(fit, other, bound) ==> within(capped(fit, extent, cap), other, bound),
{
    match cap {
        Some(c) => {
            if !within(fit, extent, c as int) {
                let n = fit.num;
                let d = fit.den;
                let k = c as int * 1000;
                // n * extent > k * d
                assert(k * extent <= c * 1000 * extent) by (nonlinear_arith)
                    requires
                        k == c * 1000,
                ;
                assert(k * d <= n * extent) by (nonlinear_arith)
                    requires
                        n * extent > c * 1000 * d,
                        k == c * 1000,
                ;
                if within(fit, other, bound) {
                    // n * other <= bound * 1000 * d, so k * other <= bound * 1000 * extent
                    assert(k * other <= bound * 1000 * extent) by (nonlinear_arith)
                        requires
                            k * d <= n * extent,
                            n * other <= bound * 1000 * d,
                            0 < d,
                            0 < extent,
                            0 < other,
                            0 <= k,
                            0 <= n,
                            0 <= bound,
                    ;
                }
            }
        },
        None => {},
    }
}

/// The scale of a constrained fit keeps both caps at once: under it the
/// page comes out no wider than a supplied width cap and no taller than a
/// supplied height cap. It is never above the scale of the resolution.
pub proof fn lemma_constrained_fit_within_caps(
    bounds: PageBounds,
    dpi: Option<u32>,
    max_width: Option<u32>,
    max_height: Option<u32>,
)
    requires
        bounds.valid(),
    ensures
        fit_is_sound(constrained_fit(bounds, dpi, max_width, max_height)),
        max_width matches Some(cap) ==> within(
            constrained_fit(bounds, dpi, max_width, max_height),
            bounds.spec_width(),
            cap as int,
        ),
        max_height matches Some(cap) ==> within(
            constrained_fit(bounds, dpi, max_width, max_height),
            bounds.spec_height(),
            cap as int,
        ),
        constrained_fit(bounds, dpi, max_width, max_height).num * 72 <= dpi_or_default(dpi)
            * constrained_fit(bounds, dpi, max_width, max_height).den,
{
    let w = bounds.spec_width();
    let h = bounds.spec_height();
    let start = resolution_scale(dpi_or_default(dpi));
    let mid = capped(start, w, max_width);
    let bound: int = match max_width {
        Some(c) => c as int,
        None => 0,
    };
    lemma_capped(start, w, max_width, h, 0);
    lemma_capped(mid, h, max_height, w, bound);
    let end = capped(mid, h, max_height);
    assert(end.num * 72 <= start.num * end.den) by (nonlinear_arith)
        requires
            mid.num * 72 <= start.num * mid.den,
            end.num * mid.den <= mid.num * end.den,
            0 < mid.den,
            0 < end.den,
            0 <= end.num,
            0 <= mid.num,
            0 <= start.num,
    ;
}

/// A side that is within a number of pixels under a scale covers no more
/// than that many pixels.
pub proof fn lemma_covered_within(extent: int, fit: Fit, pixels: int)
    requires
        fit_is_sound(fit),
        0 <= extent,
        0 <= pixels <= u32::MAX,
        within(fit, extent, pixels),
    ensures
        0 <= covered_pixels(extent, fit) <= pixels,
{
    let a = fit.num * extent;
    let b = 1000 * fit.den;
    assert(0 <= a) by (nonlinear_arith)
        requires
            0 <= fit.num,
            0 <= extent,
            a == fit.num * extent,
    ;
    assert(pixels * 1000 * fit.den == pixels * b) by (nonlinear_arith)
        requires
            b == 1000 * fit.den,
    ;
    assert(0 <= (a + (b - 1)) / b <= pixels) by (nonlinear_arith)
        requires
            0 <= a <= pixels * b,
            0 < b,
            0 <= pixels,
    ;
}

/// The pixels that a side covers are the scaled side rounded up: the side
/// fills the last pixel at least in part and no pixel beyond it.
pub proof fn lemma_covered_is_rounded_up(extent: int, fit: Fit)
    requires
        fit_is_sound(fit),
        0 <= extent,
        covered_pixels(extent, fit) < u32::MAX,
    ensures
        within(fit, extent, covered_pixels(extent, fit)),
        fit.num * extent > (covered_pixels(extent, fit) - 1) * 1000 * fit.den,
{
    let a = fit.num * extent;
    let b = 1000 * fit.den;
    let q = (a + (b - 1)) / b;
    assert(0 <= a) by (nonlinear_arith)
        requires
            0 <= fit.num,
            0 <= extent,
            a == fit.num * extent,
    ;
    assert(a <= q * b && a > (q - 1) * b) by (nonlinear_arith)
        requires
            0 <= a,
            0 < b,
            q == (a + (b - 1)) / b,
    ;
    assert(q * b == q * 1000 * fit.den) by (nonlinear_arith)
        requires
            b == 1000 * fit.den,
    ;
    assert((q - 1) * b == (q - 1) * 1000 * fit.den) by (nonlinear_arith)
        requires
            b == 1000 * fit.den,
    ;
}

/// Under the target-side fit the longer side of the page comes out at
/// exactly the target and the other side at no more.
pub proof fn lemma_target_side_fit(bounds: PageBounds, target: int)
    requires
        bounds.valid(),
        0 <= target <= u32::MAX,
    ensures
        fit_is_sound(target_side_fit(bounds, target)),
        target_side_fit(bounds, target).num * longer_side(bounds) == target * 1000
            * target_side_fit(bounds, target).den,
        covered_pixels(longer_side(bounds), target_side_fit(bounds, target)) == target,
        within(target_side_fit(bounds, target), bounds.spec_width(), target),
        within(target_side_fit(bounds, target), bounds.spec_height(), target),
{
    let l = longer_side(bounds);
    let w = bounds.spec_width();
    let h = bounds.spec_height();
    let k = target * 1000;
    assert(k * l == target * 1000 * l) by (nonlinear_arith)
        requires
            k == target * 1000,
    ;
    assert(k * w <= target * 1000 * l) by (nonlinear_arith)
        requires
            k == target * 1000,
            0 <= w <= l,
            0 <= target,
    ;
    assert(k * h <= target * 1000 * l) by (nonlinear_arith)
        requires
            k == target * 1000,
            0 <= h <= l,
            0 <= target,
    ;
    let b = 1000 * l;
    assert(target * 1000 * l == target * b) by (nonlinear_arith)
        requires
            b == 1000 * l,
    ;
    assert((k * l + (b - 1)) / b == target) by (nonlinear_arith)
        requires
            k * l == target * b,
            0 < b,
    ;
}

/// Brings a scale down to a cap on one axis.
fn cap_scale(scale: RenderScale, extent: u32, cap: Option<u32>) -> (out: RenderScale)
    requires
        scale.num <= 0xffff_ffff * 1000,
        0 < scale.den <= 0xffff_ffff,
        0 < extent,
    ensures
        fit_of(out) == capped(fit_of(scale), extent as int, cap),
        out.num <= 0xffff_ffff * 1000,
        0 < out.den <= 0xffff_ffff,
{
    match cap {
        Some(c) => {
            assert(scale.num * extent <= 0xffff_ffff * 1000 * 0xffff_ffff) by (nonlinear_arith)
                requires
                    0 <= scale.num <= 0xffff_ffff * 1000,
                    0 <= extent <= 0xffff_ffff,
            ;
            assert(c * 1000 * scale.den <= 0xffff_ffff * 1000 * 0xffff_ffff) by (nonlinear_arith)
                requires
                    0 <= c <= 0xffff_ffff,
                    0 <= scale.den <= 0xffff_ffff,
            ;
            if scale.num * (extent as u128) <= (c as u128) * 1000 * scale.den {
                scale
            } else {
                RenderScale { num: (c as u128) * 1000, den: extent as u128 }
            }
        },
        None => scale,
    }
}

/// The pixels that a page side covers under a scale.
fn covered(extent: u32, scale: RenderScale) -> (px: u32)
    requires
        scale.num <= 0xffff_ffff * 1000,
        0 < scale.den <= 0xffff_ffff,
    ensures
        px == covered_pixels(extent as int, fit_of(scale)),
{
    assert(scale.num * extent <= 0xffff_ffff * 1000 * 0xffff_ffff) by (nonlinear_arith)
        requires
            0 <= scale.num <= 0xffff_ffff * 1000,
            0 <= extent <= 0xffff_ffff,
    ;
    let whole: u128 = 1000 * scale.den;
    let exact: u128 = (scale.num * (extent as u128) + (whole - 1)) / whole;
    if exact > u32::MAX as u128 {
        u32::MAX
    } else {
        exact as u32
    }
}

/// Whether annotations are drawn: they are unless the caller hides them.
pub fn show_annotations(hide_annotations: Option<bool>) -> (show: bool)
    ensures
        show == match hide_annotations {
            Some(hide) => !hide,
            None => true,
        },
{
    match hide_annotations {
        Some(hide) => !hide,
        None => true,
    }
}

/// Plans the render of one page by the constrained fit. Without `dpi` the
/// resolution is `DEFAULT_DPI`. Under the scale of the plan the page is no
/// wider than `max_width` and no taller than `max_height`, and the plan
/// carries both caps for the image to be held to.
pub fn plan_page_render(
    bounds: &PageBounds,
    dpi: Option<u32>,
    max_width: Option<u32>,
    max_height: Option<u32>,
    hide_annotations: Option<bool>,
) -> (plan: RenderPlan)
    ensures
        plan.is_fit(constrained_fit(*bounds, dpi, max_width, max_height), *bounds),
        plan.scale.den > 0,
        plan.max_width == max_width,
        plan.max_height == max_height,
        max_width matches Some(cap) ==> plan.scale.num * bounds.spec_width() <= cap * 1000
            * plan.scale.den && plan.width <= cap,
        max_height matches Some(cap) ==> plan.scale.num * bounds.spec_height() <= cap * 1000
            * plan.scale.den && plan.height <= cap,
        plan.show_annotations == match hide_annotations {
            Some(hide) => !hide,
            None => true,
        },
{
    let dpi_value: u32 = match dpi {
        Some(d) => d,
        None => DEFAULT_DPI,
    };
    let page_width = bounds.width();
    let page_height = bounds.height();
    let start = RenderScale { num: dpi_value as u128, den: NATIVE_DPI as u128 };
    let by_width = cap_scale(start, page_width, max_width);
    let scale = cap_scale(by_width, page_height, max_height);
    proof {
        lemma_constrained_fit_within_caps(*bounds, dpi, max_width, max_height);
        let fit = constrained_fit(*bounds, dpi, max_width, max_height);
        match max_width {
            Some(cap) => {
                lemma_covered_within(bounds.spec_width(), fit, cap as int);
            },
            None => {},
        }
        match max_height {
            Some(cap) => {
                lemma_covered_within(bounds.spec_height(), fit, cap as int);
            },
            None => {},
        }
    }
    RenderPlan {
        scale,
        width: covered(page_width, scale),
        height: covered(page_height, scale),
        max_width,
        max_height,
        show_annotations: show_annotations(hide_annotations),
    }
}

/// Plans the render of a single thumbnail: a constrained fit at the native
/// resolution into a square of side `max_size`, annotations drawn. Without
/// `max_size` the side is `DEFAULT_THUMBNAIL_SIZE`.
pub fn plan_thumbnail(bounds: &PageBounds, max_size: Option<u32>) -> (plan: RenderPlan)
    ensures
        plan.is_fit(
            constrained_fit(
                *bounds,
                Some(72u32),
                Some(size_or_default(max_size) as u32),
                Some(size_or_default(max_size) as u32),
            ),
            *bounds,
        ),
        plan.scale.den > 0,
        plan.max_width == Some(size_or_default(max_size) as u32),
        plan.max_height == Some(size_or_default(max_size) as u32),
        plan.scale.num * bounds.spec_width() <= size_or_default(max_size) * 1000
            * plan.scale.den,
        plan.scale.num * bounds.spec_height() <= size_or_default(max_size) * 1000
            * plan.scale.den,
        plan.width <= size_or_default(max_size),
        plan.height <= size_or_default(max_size),
        plan.show_annotations,
{
    let side: u32 = match max_size {
        Some(s) => s,
        None => DEFAULT_THUMBNAIL_SIZE,
    };
    plan_page_render(bounds, Some(NATIVE_DPI), Some(side), Some(side), None)
}

/// Plans the render of a thumbnail in a batch by the target-side fit, the
/// longer side of the page coming out at exactly `max_size` pixels, whether
/// that makes the page smaller or larger. Without `max_size` the target is
/// `DEFAULT_THUMBNAIL_SIZE`. Annotations are not drawn in a batch, and the
/// image is held to the target on both sides.
pub fn plan_batch_thumbnail(bounds: &PageBounds, max_size: Option<u32>) -> (plan: RenderPlan)
    ensures
        plan.is_fit(target_side_fit(*bounds, size_or_default(max_size)), *bounds),
        plan.scale.den == longer_side(*bounds),
        plan.scale.den > 0,
        plan.max_width == Some(size_or_default(max_size) as u32),
        plan.max_height == Some(size_or_default(max_size) as u32),
        plan.width <= size_or_default(max_size),
        plan.height <= size_or_default(max_size),
        bounds.spec_width() > bounds.spec_height() ==> plan.width == size_or_default(max_size),
        bounds.spec_width() <= bounds.spec_height() ==> plan.height == size_or_default(
            max_size,
        ),
        !plan.show_annotations,
{
    let side: u32 = match max_size {
        Some(s) => s,
        None => DEFAULT_THUMBNAIL_SIZE,
    };
    let page_width = bounds.width();
    let page_height = bounds.height();
    let longer: u32 = if page_width > page_height { page_width } else { page_height };
    let scale = RenderScale { num: (side as u128) * 1000, den: longer as u128 };
    proof {
        let fit = target_side_fit(*bounds, side as int);
        lemma_target_side_fit(*bounds, side as int);
        lemma_covered_within(bounds.spec_width(), fit, side as int);
        lemma_covered_within(bounds.spec_height(), fit, side as int);
    }
    RenderPlan {
        scale,
        width: covered(page_width, scale),
        height: covered(page_height, scale),
        max_width: Some(side),
        max_height: Some(side),
        show_annotations: false,
    }
}

} // verus!
