use tlacuilo::geometry::PageBounds;
use tlacuilo::outline::{
    convert_outline, convert_outlines, find_page_bounds, OutlineEntry, OutlineNode,
};

fn node(title: &str, page: Option<u32>, y: i32, down: Vec<OutlineNode>) -> OutlineNode {
    OutlineNode { title: title.to_string(), page, y, down }
}

fn pages() -> Vec<(u32, PageBounds)> {
    vec![
        (2, PageBounds::new(595_276, 841_890).unwrap()),
        (0, PageBounds::new(612_000, 792_000).unwrap()),
        (2, PageBounds::new(1, 1).unwrap()),
    ]
}

#[test]
fn target_page_becomes_one_based() {
    let e = convert_outline(&node("Intro", Some(0), 0, vec![]), &pages());
    assert_eq!(
        e,
        OutlineEntry { title: "Intro".to_string(), page: Some(1), y: None, children: vec![] }
    );
    let e = convert_outline(&node("Far", Some(41), 0, vec![]), &pages());
    assert_eq!(e.page, Some(42));
}

#[test]
fn offset_is_divided_by_the_height_of_the_target_page() {
    let e = convert_outline(&node("A", Some(0), 396_000, vec![]), &pages());
    assert_eq!(e.y, Some(500_000));
    let e = convert_outline(&node("B", Some(2), 396_000, vec![]), &pages());
    assert_eq!(e.y, Some(470_370));
    assert_eq!(e.page, Some(3));
}

#[test]
fn no_position_without_a_usable_offset_or_page() {
    let p = pages();
    // no page target
    let e = convert_outline(&node("none", None, 396_000, vec![]), &p);
    assert_eq!((e.page, e.y), (None, None));
    // offset not positive
    assert_eq!(convert_outline(&node("zero", Some(0), 0, vec![]), &p).y, None);
    assert_eq!(convert_outline(&node("neg", Some(0), -5, vec![]), &p).y, None);
    // page that could not be measured
    let e = convert_outline(&node("unmeasured", Some(1), 100, vec![]), &p);
    assert_eq!((e.page, e.y), (Some(2), None));
    // page beyond the document
    let e = convert_outline(&node("beyond", Some(3), 100, vec![]), &p);
    assert_eq!((e.page, e.y), (Some(4), None));
    // index without a one-based number
    let e = convert_outline(&node("last", Some(u32::MAX), 100, vec![]), &p);
    assert_eq!((e.page, e.y), (None, None));
    let e = convert_outline(&node("almost", Some(u32::MAX - 1), 100, vec![]), &p);
    assert_eq!((e.page, e.y), (Some(u32::MAX), None));
}

#[test]
fn children_are_converted_in_order() {
    let tree = node(
        "Book",
        Some(0),
        79_200,
        vec![
            node("Chapter 1", Some(0), 158_400, vec![node("1.1", Some(2), 841_890, vec![])]),
            node("Chapter 2", None, 10, vec![]),
        ],
    );
    let e = convert_outline(&tree, &pages());
    assert_eq!(
        e,
        OutlineEntry {
            title: "Book".to_string(),
            page: Some(1),
            y: Some(100_000),
            children: vec![
                OutlineEntry {
                    title: "Chapter 1".to_string(),
                    page: Some(1),
                    y: Some(200_000),
                    children: vec![OutlineEntry {
                        title: "1.1".to_string(),
                        page: Some(3),
                        y: Some(1_000_000),
                        children: vec![],
                    }],
                },
                OutlineEntry {
                    title: "Chapter 2".to_string(),
                    page: None,
                    y: None,
                    children: vec![],
                },
            ],
        }
    );
}

#[test]
fn outline_of_a_document_without_bookmarks_is_empty() {
    assert!(convert_outlines(&Vec::new(), &pages()).is_empty());
}

#[test]
fn converting_twice_gives_the_same_outline() {
    let nodes = vec![
        node("One", Some(0), 5, vec![node("One.a", Some(2), 7, vec![])]),
        node("Two", None, 0, vec![]),
        node("Three", Some(1), 9, vec![]),
    ];
    let first = convert_outlines(&nodes, &pages());
    let second = convert_outlines(&nodes, &pages());
    assert_eq!(first, second);
    assert_eq!(first.len(), 3);
    assert_eq!(first[0].children[0].title, "One.a");
    assert_eq!(first[2].page, Some(2));
}

#[test]
fn measured_pages_are_found_by_their_index() {
    let p = pages();
    assert_eq!(find_page_bounds(&p, 0), PageBounds::new(612_000, 792_000));
    assert_eq!(find_page_bounds(&p, 1), None);
    // the first entry for a page counts
    assert_eq!(find_page_bounds(&p, 2), PageBounds::new(595_276, 841_890));
    assert_eq!(find_page_bounds(&p, u32::MAX), None);
    assert_eq!(find_page_bounds(&Vec::new(), 0), None);
}

#[test]
fn the_page_to_measure_for_a_bookmark() {
    assert_eq!(node("a", Some(4), 10, vec![]).measured_page(), Some(4));
    assert_eq!(node("b", Some(4), 0, vec![]).measured_page(), None);
    assert_eq!(node("c", Some(4), -1, vec![]).measured_page(), None);
    assert_eq!(node("d", None, 10, vec![]).measured_page(), None);
    assert_eq!(node("e", Some(u32::MAX), 10, vec![]).measured_page(), None);
    assert_eq!(node("f", Some(0), 1, vec![]).measured_page(), Some(0));
}
