//! Outline conversion: from a document's bookmark tree to navigation
//! entries with one-based target pages and page-relative positions.

use vstd::prelude::*;
use crate::geometry::{normalized, PageBounds};

verus! {

/// A node of a document's bookmark tree as the document engine reports it.
#[derive(Debug, PartialEq, Eq)]
pub struct OutlineNode {
    /// The title shown for the bookmark.
    pub title: String,
    /// The zero-based index of the target page, if the bookmark has one.
    pub page: Option<u32>,
    /// The vertical offset of the target on its page, in length units. An
    /// offset that is not positive stands for none.
    pub y: i32,
    /// The bookmarks below this one, in order.
    pub down: Vec<OutlineNode>,
}

/// An entry of the outline (table of contents) of a document.
#[derive(Debug, PartialEq, Eq)]
pub struct OutlineEntry {
    /// The title of the entry.
    pub title: String,
    /// The one-based number of the target page, if there is one.
    pub page: Option<u32>,
    /// The target's vertical position relative to its page, if known.
    pub y: Option<i64>,
    /// The entries below this one, in order.
    pub children: Vec<OutlineEntry>,
}

/// What an `OutlineEntry` holds, children included.
pub struct OutlineEntryView {
    pub title: Seq<char>,
    pub page: Option<u32>,
    pub y: Option<i64>,
    pub children: Seq<OutlineEntryView>,
}

impl View for OutlineEntry {
    type V = OutlineEntryView;

    open spec fn view(&self) -> OutlineEntryView
        decreases self,
    {
        OutlineEntryView {
            title: self.title@,
            page: self.page,
            y: self.y,
            children: Seq::new(
                self.children@.len(),
                |i: int|
                    if 0 <= i < self.children@.len() {
                        self.children@[i].view()
                    } else {
                        arbitrary()
                    },
            ),
        }
    }
}

/// What a run of outline entries holds.
pub open spec fn entry_views(entries: Seq<OutlineEntry>) -> Seq<OutlineEntryView> {
    Seq::new(entries.len(), |i: int| entries[i]@)
}

/// The one-based number of a bookmark's target page. A bookmark without a
/// target has none, and neither has one whose index has no successor.
pub open spec fn target_page(page: Option<u32>) -> Option<u32> {
    match page {
        Some(p) => if p < u32::MAX {
            Some((p + 1) as u32)
        } else {
            None
        },
        None => None,
    }
}

/// The extent of the page with zero-based index `index` among the pages
/// that were measured, each given with its index: that of the first entry
/// for the page, and none if the page has no entry.
pub open spec fn page_bounds_at(pages: Seq<(u32, PageBounds)>, index: int) -> Option<PageBounds>
    decreases pages.len(),
{
    if pages.len() == 0 {
        None
    } else if pages.first().0 == index {
        Some(pages.first().1)
    } else {
        page_bounds_at(pages.drop_first(), index)
    }
}

/// Looks a page up among the pages that were measured.
pub fn find_page_bounds(pages: &Vec<(u32, PageBounds)>, index: u32) -> (found: Option<PageBounds>)
    ensures
        found == page_bounds_at(pages@, index as int),
{
    let n = pages.len();
    let mut i: usize = 0;
    assert(pages@.skip(0) =~= pages@);
    while i < n
        invariant
            n == pages@.len(),
            i <= n,
            page_bounds_at(pages@, index as int) == page_bounds_at(
                pages@.skip(i as int),
                index as int,
            ),
        decreases n - i,
    {
        proof {
            assert(pages@.skip(i as int).first() == pages@[i as int]);
            assert(pages@.skip(i as int).drop_first() =~= pages@.skip(i as int + 1));
        }
        if pages[i].0 == index {
            return Some(pages[i].1);
        }
        i += 1;
    }
    None
}

/// The page-relative position of a bookmark's target: its offset divided by
/// the height of the target page. A bookmark has none if it has no target
/// page, if its offset is not positive, or if the target page could not be
/// measured.
pub open spec fn target_y(page: Option<u32>, y: i32, pages: Seq<(u32, PageBounds)>) -> Option<
    i64,
> {
    match target_page(page) {
        Some(_) => if y > 0 {
            match page_bounds_at(pages, page->0 as int) {
                Some(bounds) => Some(normalized(y as int, bounds.spec_height()) as i64),
                None => None,
            }
        } else {
            None
        },
        None => None,
    }
}

/// The page that a bookmark's position is measured against, by its
/// zero-based index: the target page of a bookmark whose offset is
/// positive. A bookmark without such a page has no position, whatever the
/// pages are.
pub open spec fn page_to_measure(page: Option<u32>, y: i32) -> Option<u32> {
    if target_page(page) is Some && y > 0 {
        page
    } else {
        None
    }
}

impl OutlineNode {
    /// The page to measure for this bookmark's position, if its position
    /// depends on one.
    pub fn measured_page(&self) -> (page: Option<u32>)
        ensures
            page == page_to_measure(self.page, self.y),
    {
        match self.page {
            Some(p) => if p < u32::MAX && self.y > 0 {
                Some(p)
            } else {
                None
            },
            None => None,
        }
    }
}

/// A bookmark has a position exactly if it has a page to measure and that
/// page could be measured; the extents of all other pages do not matter.
pub proof fn lemma_position_needs_measured_page(
    page: Option<u32>,
    y: i32,
    pages: Seq<(u32, PageBounds)>,
)
    ensures
        target_y(page, y, pages) is Some <==> (page_to_measure(page, y) matches Some(p)
            && page_bounds_at(pages, p as int) is Some),
{
}

/// A position is between zero and one where the offset lies on the target
/// page.
pub proof fn lemma_target_y_in_unit(page: Option<u32>, y: i32, pages: Seq<(u32, PageBounds)>)
    requires
        target_y(page, y, pages) is Some,
        page_bounds_at(pages, page->0 as int)->0.valid(),
        y <= page_bounds_at(pages, page->0 as int)->0.spec_height(),
    ensures
        0 <= target_y(page, y, pages)->0 <= 1_000_000,
{
    let height = page_bounds_at(pages, page->0 as int)->0.spec_height();
    crate::geometry::lemma_axis_in_unit(y as int, y as int, height);
}

/// The outline entry of a bookmark, with the entries of the bookmarks below
/// it as its children, in order.
pub open spec fn entry_of(node: OutlineNode, pages: Seq<(u32, PageBounds)>) -> OutlineEntryView
    decreases node,
{
    OutlineEntryView {
        title: node.title@,
        page: target_page(node.page),
        y: target_y(node.page, node.y, pages),
        children: Seq::new(
            node.down@.len(),
            |i: int|
                if 0 <= i < node.down@.len() {
                    entry_of(node.down@[i], pages)
                } else {
                    arbitrary()
                },
        ),
    }
}

/// The outline entries of a run of bookmarks, in order.
pub open spec fn entries_of(nodes: Seq<OutlineNode>, pages: Seq<(u32, PageBounds)>) -> Seq<
    OutlineEntryView,
> {
    Seq::new(nodes.len(), |i: int| entry_of(nodes[i], pages))
}

/// Converts one bookmark and all bookmarks below it. `pages` holds the
/// pages that could be measured, each as its zero-based index and its
/// extent; a page that is not among them counts as not measured.
pub fn convert_outline(node: &OutlineNode, pages: &Vec<(u32, PageBounds)>) -> (entry: OutlineEntry)
    ensures
        entry@ == entry_of(*node, pages@),
    decreases node,
{
    let page: Option<u32> = match node.page {
        Some(p) => if p < u32::MAX {
            Some(p + 1)
        } else {
            None
        },
        None => None,
    };
    let y: Option<i64> = match (page, node.page) {
        (Some(_), Some(p)) => {
            if node.y > 0 {
                match find_page_bounds(pages, p) {
                    Some(bounds) => Some(bounds.normalize_y(node.y)),
                    None => None,
                }
            } else {
                None
            }
        },
        _ => None,
    };
    let mut children: Vec<OutlineEntry> = Vec::new();
    let n = node.down.len();
    let mut i: usize = 0;
    while i < n
        invariant
            n == node.down@.len(),
            i <= n,
            children@.len() == i,
            forall|k: int| 0 <= k < i ==> (#[trigger] children@[k])@ == entry_of(node.down@[k], pages@),
        decreases n - i,
    {
        let child = convert_outline(&node.down[i], pages);
        children.push(child);
        i += 1;
    }
    let entry = OutlineEntry { title: node.title.clone(), page, y, children };
    proof {
        assert(entry@.children =~= entry_of(*node, pages@).children);
    }
    entry
}

/// Converts the top-level bookmarks of a document, each with the bookmarks
/// below it, in order.
pub fn convert_outlines(nodes: &Vec<OutlineNode>, pages: &Vec<(u32, PageBounds)>) -> (entries: Vec<
    OutlineEntry,
>)
    ensures
        entry_views(entries@) == entries_of(nodes@, pages@),
{
    let mut entries: Vec<OutlineEntry> = Vec::new();
    let n = nodes.len();
    let mut i: usize = 0;
    while i < n
        invariant
            n == nodes@.len(),
            i <= n,
            entries@.len() == i,
            forall|k: int| 0 <= k < i ==> (#[trigger] entries@[k])@ == entry_of(nodes@[k], pages@),
        decreases n - i,
    {
        let entry = convert_outline(&nodes[i], pages);
        entries.push(entry);
        i += 1;
    }
    entries
}

/// Converting the same bookmarks of the same document twice gives the same
/// outline: entries that agree in every title, page, position and child.
pub proof fn lemma_outline_is_repeatable(
    first: Seq<OutlineEntry>,
    second: Seq<OutlineEntry>,
    nodes: Seq<OutlineNode>,
    pages: Seq<(u32, PageBounds)>,
)
    requires
        entry_views(first) == entries_of(nodes, pages),
        entry_views(second) == entries_of(nodes, pages),
    ensures
        entry_views(first) == entry_views(second),
        first.len() == second.len(),
        forall|i: int| 0 <= i < first.len() ==> (#[trigger] first[i])@ == second[i]@,
{
    assert(entry_views(first).len() == first.len());
    assert forall|i: int| 0 <= i < first.len() implies (#[trigger] first[i])@ == second[i]@ by {
        assert(entry_views(first)[i] == first[i]@);
    }
}

} // verus!
