use tlacuilo::error::ViewerError;
use tlacuilo::geometry::PageBounds;
use tlacuilo::render::{
    plan_batch_thumbnail, plan_page_render, plan_thumbnail, show_annotations, PageFailure,
    RenderPlan, RenderScale, RenderedPage, ThumbnailBatch, DEFAULT_DPI, DEFAULT_THUMBNAIL_SIZE,
    NATIVE_DPI,
};

fn letter() -> PageBounds {
    PageBounds::new(612_000, 792_000).unwrap()
}

fn too_large() -> Result<RenderedPage, ViewerError> {
    Err(ViewerError::Render("the image is larger than was asked for".to_string()))
}

#[test]
fn letter_page_at_native_resolution() {
    let plan = plan_page_render(&letter(), Some(72), None, None, None);
    assert_eq!(plan.width, 612);
    assert_eq!(plan.height, 792);
    assert_eq!(plan.scale, RenderScale { num: 72, den: 72 });
    assert_eq!((plan.max_width, plan.max_height), (None, None));
    assert!(plan.show_annotations);
    let page = RenderedPage::from_render(&plan, b"png", 612, 792, 1).unwrap();
    assert_eq!((page.width, page.height, page.page), (612, 792, 1));
}

#[test]
fn resolution_defaults_to_150() {
    assert_eq!(DEFAULT_DPI, 150);
    assert_eq!(NATIVE_DPI, 72);
    let plan = plan_page_render(&letter(), None, None, None, None);
    assert_eq!((plan.width, plan.height), (1275, 1650));
    assert_eq!(plan.scale, RenderScale { num: 150, den: 72 });
}

#[test]
fn a_pixel_begun_counts_whole() {
    let a4 = PageBounds::new(595_276, 841_890).unwrap();
    let plan = plan_page_render(&a4, Some(72), None, None, None);
    assert_eq!((plan.width, plan.height), (596, 842));
    let plan = plan_page_render(&a4, Some(300), None, None, None);
    assert_eq!((plan.width, plan.height), (2481, 3508));
    let plan = plan_page_render(&PageBounds::new(1, 72_000).unwrap(), Some(1), None, None, None);
    assert_eq!((plan.width, plan.height), (1, 1));
}

#[test]
fn width_cap_brings_the_scale_down() {
    let plan = plan_page_render(&letter(), None, Some(1000), None, None);
    assert_eq!(plan.scale, RenderScale { num: 1_000_000, den: 612_000 });
    assert_eq!((plan.width, plan.height), (1000, 1295));
    assert_eq!((plan.max_width, plan.max_height), (Some(1000), None));
}

#[test]
fn height_cap_brings_the_scale_down() {
    let plan = plan_page_render(&letter(), None, None, Some(1000), None);
    assert_eq!(plan.scale, RenderScale { num: 1_000_000, den: 792_000 });
    assert_eq!((plan.width, plan.height), (773, 1000));
}

#[test]
fn both_caps_hold_at_once() {
    let plan = plan_page_render(&letter(), None, Some(1000), Some(1000), None);
    assert_eq!(plan.scale, RenderScale { num: 1_000_000, den: 792_000 });
    assert_eq!((plan.width, plan.height), (773, 1000));
    // the width cap is the tighter one
    let plan = plan_page_render(&letter(), None, Some(500), Some(1000), None);
    assert_eq!(plan.scale, RenderScale { num: 500_000, den: 612_000 });
    assert_eq!((plan.width, plan.height), (500, 648));
    // the height pass shrinks further after the width pass
    let plan = plan_page_render(&letter(), None, Some(1000), Some(700), None);
    assert_eq!(plan.scale, RenderScale { num: 700_000, den: 792_000 });
    assert_eq!((plan.width, plan.height), (541, 700));
}

#[test]
fn the_scaled_page_never_passes_a_cap() {
    // 595.276 pt at 150 dpi would be 1240.16 px wide
    let a4 = PageBounds::new(595_276, 841_890).unwrap();
    let plan = plan_page_render(&a4, Some(150), Some(1000), None, None);
    assert_eq!(plan.scale, RenderScale { num: 1_000_000, den: 595_276 });
    assert_eq!(plan.scale.num * 595_276, 1000 * 1000 * plan.scale.den);
    assert_eq!(plan.width, 1000);
    // a page that truncation would let through: 100.5 px against a cap of 100
    let b = PageBounds::new(100_500, 50_000).unwrap();
    let plan = plan_page_render(&b, Some(72), Some(100), None, None);
    assert_eq!(plan.scale, RenderScale { num: 100_000, den: 100_500 });
    assert_eq!((plan.width, plan.height), (100, 50));
}

#[test]
fn caps_that_do_not_bite_change_nothing() {
    let plan = plan_page_render(&letter(), Some(72), Some(612), Some(792), None);
    assert_eq!((plan.width, plan.height), (612, 792));
    assert_eq!(plan.scale, RenderScale { num: 72, den: 72 });
    let plan = plan_page_render(&letter(), Some(72), Some(5000), Some(5000), None);
    assert_eq!((plan.width, plan.height), (612, 792));
    assert_eq!(plan.scale, RenderScale { num: 72, den: 72 });
}

#[test]
fn planned_size_and_scale_never_exceed_the_caps() {
    let pages =
        [(612_000u32, 792_000u32), (792_000, 612_000), (595_276, 841_890), (1, 4_000_000_000)];
    let caps = [0u32, 1, 7, 200, 611, 612, 613, 5000, u32::MAX];
    for (w, h) in pages.iter() {
        let b = PageBounds::new(*w, *h).unwrap();
        for dpi in [0u32, 1, 72, 150, 600, u32::MAX].iter() {
            for mw in caps.iter() {
                for mh in caps.iter() {
                    let plan = plan_page_render(&b, Some(*dpi), Some(*mw), Some(*mh), None);
                    assert!(plan.width <= *mw);
                    assert!(plan.height <= *mh);
                    assert!(plan.scale.den > 0);
                    let s = plan.scale;
                    assert!(s.num * (*w as u128) <= (*mw as u128) * 1000 * s.den);
                    assert!(s.num * (*h as u128) <= (*mh as u128) * 1000 * s.den);
                    assert!(s.num * 72 <= (*dpi as u128) * s.den);
                }
            }
        }
    }
}

#[test]
fn zero_cap_gives_an_empty_plan() {
    let plan = plan_page_render(&letter(), Some(72), Some(0), None, None);
    assert_eq!((plan.width, plan.height), (0, 0));
    assert_eq!(plan.scale, RenderScale { num: 0, den: 612_000 });
}

#[test]
fn pixel_size_saturates() {
    let b = PageBounds::new(u32::MAX, 1).unwrap();
    let plan = plan_page_render(&b, Some(u32::MAX), None, None, None);
    assert_eq!(plan.width, u32::MAX);
    assert_eq!(plan.height, 59_653);
}

#[test]
fn annotations_show_unless_hidden() {
    assert!(show_annotations(None));
    assert!(show_annotations(Some(false)));
    assert!(!show_annotations(Some(true)));
    assert!(!plan_page_render(&letter(), None, None, None, Some(true)).show_annotations);
    assert!(plan_page_render(&letter(), None, None, None, Some(false)).show_annotations);
}

#[test]
fn single_thumbnail_is_a_constrained_fit_at_72_dpi() {
    assert_eq!(DEFAULT_THUMBNAIL_SIZE, 200);
    let plan = plan_thumbnail(&letter(), None);
    assert_eq!(
        plan,
        RenderPlan {
            scale: RenderScale { num: 200_000, den: 792_000 },
            width: 155,
            height: 200,
            max_width: Some(200),
            max_height: Some(200),
            show_annotations: true,
        }
    );
    assert_eq!(plan, plan_page_render(&letter(), Some(72), Some(200), Some(200), None));
    let plan = plan_thumbnail(&letter(), Some(100));
    assert_eq!((plan.width, plan.height), (78, 100));
}

#[test]
fn landscape_thumbnail_matches_only_its_width_cap() {
    let wide = PageBounds::new(792_000, 612_000).unwrap();
    let plan = plan_thumbnail(&wide, Some(200));
    assert_eq!(plan.scale, RenderScale { num: 200_000, den: 792_000 });
    assert_eq!((plan.width, plan.height), (200, 155));
}

#[test]
fn batch_thumbnail_hits_the_longer_side() {
    let plan = plan_batch_thumbnail(&letter(), None);
    assert_eq!(
        plan,
        RenderPlan {
            scale: RenderScale { num: 200_000, den: 792_000 },
            width: 155,
            height: 200,
            max_width: Some(200),
            max_height: Some(200),
            show_annotations: false,
        }
    );
    let wide = PageBounds::new(792_000, 612_000).unwrap();
    let plan = plan_batch_thumbnail(&wide, Some(300));
    assert_eq!(plan.scale, RenderScale { num: 300_000, den: 792_000 });
    assert_eq!((plan.width, plan.height), (300, 232));
    let square = PageBounds::new(500_000, 500_000).unwrap();
    let plan = plan_batch_thumbnail(&square, Some(50));
    assert_eq!(plan.scale, RenderScale { num: 50_000, den: 500_000 });
    assert_eq!((plan.width, plan.height), (50, 50));
    // the longer side, in points, times the scale is the target
    let s = plan_batch_thumbnail(&letter(), None).scale;
    assert_eq!(792_000u128 * s.num, 200u128 * 1000 * s.den);
    let empty = plan_batch_thumbnail(&letter(), Some(0));
    assert_eq!((empty.width, empty.height, empty.scale.num), (0, 0, 0));
    let extreme = plan_batch_thumbnail(&PageBounds::new(1, u32::MAX).unwrap(), Some(u32::MAX));
    assert_eq!((extreme.width, extreme.height), (1, u32::MAX));
}

#[test]
fn the_two_thumbnail_strategies_differ() {
    // a page smaller than the thumbnail: 100 pt square
    let small = PageBounds::new(100_000, 100_000).unwrap();
    let single = plan_thumbnail(&small, Some(200));
    let batch = plan_batch_thumbnail(&small, Some(200));
    assert_eq!(single.scale, RenderScale { num: 72, den: 72 });
    assert_eq!((single.width, single.height), (100, 100));
    assert_eq!(batch.scale, RenderScale { num: 200_000, den: 100_000 });
    assert_eq!((batch.width, batch.height), (200, 200));
    assert!(single.show_annotations && !batch.show_annotations);
}

#[test]
fn an_image_within_the_caps_is_handed_out() {
    let plan = plan_page_render(&letter(), None, Some(1000), Some(2000), None);
    let page = RenderedPage::from_render(&plan, b"hello", 1000, 1295, 4).unwrap();
    assert_eq!(
        page,
        RenderedPage { data: "aGVsbG8=".to_string(), width: 1000, height: 1295, page: 4 }
    );
    // smaller than planned, or larger where no cap stands, is taken as it comes
    assert!(RenderedPage::from_render(&plan, b"x", 999, 2000, 4).is_ok());
    let free = plan_page_render(&letter(), None, None, None, None);
    assert!(RenderedPage::from_render(&free, b"x", u32::MAX, u32::MAX, 4).is_ok());
    assert!(free.is_admitted(u32::MAX, u32::MAX));
}

#[test]
fn an_image_that_passes_a_cap_is_refused() {
    let plan = plan_page_render(&letter(), None, Some(1000), Some(2000), None);
    assert_eq!(RenderedPage::from_render(&plan, b"x", 1001, 1295, 4), too_large());
    assert_eq!(RenderedPage::from_render(&plan, b"x", 1000, 2001, 4), too_large());
    assert_eq!(RenderedPage::from_render(&plan, b"x", 1001, 2001, 4), too_large());
    assert!(!plan.is_admitted(1001, 0));
    assert!(plan.is_admitted(1000, 2000));
    let only_height = plan_page_render(&letter(), None, None, Some(10), None);
    assert!(RenderedPage::from_render(&only_height, b"x", 5000, 10, 1).is_ok());
    assert_eq!(RenderedPage::from_render(&only_height, b"x", 1, 11, 1), too_large());
    let thumb = plan_batch_thumbnail(&letter(), Some(200));
    assert_eq!(RenderedPage::from_render(&thumb, b"x", 201, 200, 1), too_large());
    assert!(RenderedPage::from_render(&thumb, b"x", 155, 200, 1).is_ok());
}

#[test]
fn image_bytes_are_carried_as_base64() {
    let page = RenderedPage::from_image(b"hello", 10, 20, 3).unwrap();
    assert_eq!(page.data, "aGVsbG8=");
    assert_eq!((page.width, page.height, page.page), (10, 20, 3));
    assert_eq!(RenderedPage::from_image(b"", 0, 0, 1).unwrap().data, "");
    assert_eq!(RenderedPage::from_image(&[0xff, 0xfe, 0xfd], 1, 1, 1).unwrap().data, "//79");
    assert_eq!(RenderedPage::from_image(b"ab", 1, 1, 1).unwrap().data, "YWI=");
}

#[test]
fn rendered_page_from_encoded_text() {
    let page = RenderedPage::new("QQ==".to_string(), 4, 5, 6);
    assert_eq!(
        page,
        RenderedPage { data: "QQ==".to_string(), width: 4, height: 5, page: 6 }
    );
}

#[test]
fn batch_keeps_rendered_pages_and_lists_failures() {
    let mut batch = ThumbnailBatch::new();
    assert!(batch.pages.is_empty() && batch.failures.is_empty());
    batch.record(1, RenderedPage::from_image(b"a", 1, 2, 1));
    batch.record(2, Err(ViewerError::Render("no pixmap".to_string())));
    batch.record(3, RenderedPage::from_image(b"b", 3, 4, 3));
    assert_eq!(batch.pages.len(), 2);
    assert_eq!(batch.pages[0].page, 1);
    assert_eq!(batch.pages[1].page, 3);
    assert_eq!(
        batch.failures,
        vec![PageFailure { page: 2, error: ViewerError::Render("no pixmap".to_string()) }]
    );
}
