//! Full-document text search: the bookkeeping of a page-by-page scan, the
//! suppression of near-adjacent hits and the context snippet of a hit.
//!
//! The document engine finds the hits of one page at a time. A `SearchScan`
//! says how many hits to ask of the next page, takes each page's hits in
//! discovery order and keeps the results.

use vstd::prelude::*;
use vstd::string::*;
use crate::geometry::{NormalizedRect, PageBounds, PageQuad, PageRect};
use crate::strings::{is_substring, lowercase_of, str_contains, trimmed_of};
use crate::text::{line_text, RawTextBlock, RawTextLine};

verus! {

/// Two hits on one page whose tops are closer than this (2% of the page
/// height) count as one visual match.
pub const DEDUP_THRESHOLD: i64 = 20_000;

/// The most hits asked of a single page.
pub const PAGE_HIT_CAP: u32 = 100;

/// The result cap of a search that names none.
pub const DEFAULT_MAX_RESULTS: u32 = 1000;

/// How far (5 points) a line's top or bottom may be from a hit and still
/// count as the hit's line.
pub const CONTEXT_REACH: i64 = 5000;

/// The most characters of a line shown as context.
pub const CONTEXT_LIMIT: usize = 100;

/// One search hit: its one-based page, the page-relative top of the match,
/// its box, and the text around it.
#[derive(Clone, Debug, PartialEq, Eq)]
pub struct SearchResult {
    pub page: u32,
    pub y: i64,
    pub rect: NormalizedRect,
    pub context: String,
}

/// The outcome of a search over a whole document. Results are in page order
/// and, within a page, in the order of discovery.
#[derive(Clone, Debug, PartialEq, Eq)]
pub struct SearchResults {
    pub query: String,
    pub total: u32,
    pub results: Vec<SearchResult>,
}

/// What a `SearchResult` holds.
pub struct SearchResultView {
    pub page: u32,
    pub y: i64,
    pub rect: NormalizedRect,
    pub context: Seq<char>,
}

impl View for SearchResult {
    type V = SearchResultView;

    open spec fn view(&self) -> SearchResultView {
        SearchResultView { page: self.page, y: self.y, rect: self.rect, context: self.context@ }
    }
}

/// What a run of search results holds.
pub open spec fn result_views(results: Seq<SearchResult>) -> Seq<SearchResultView> {
    results.map_values(|r: SearchResult| r@)
}

/// The distance between two integers.
pub open spec fn distance(a: int, b: int) -> int {
    if a >= b {
        a - b
    } else {
        b - a
    }
}

// ---------------------------------------------------------------------------
// Context snippets
// ---------------------------------------------------------------------------
/// Whether a line counts as the line of a hit whose top is at `y`: its top or
/// its bottom is within reach of `y`, or it spans `y`.
pub open spec fn line_is_near(bounds: PageRect, y: int) -> bool {
    distance(bounds.y0 as int, y) < 5000 || distance(bounds.y1 as int, y) < 5000 || (bounds.y0
        <= y <= bounds.y1)
}

/// Whether a line is near the hit and holds the lower-cased query, case
/// ignored.
pub open spec fn line_matches(line: RawTextLine, needle: Seq<char>, y: int) -> bool {
    line_is_near(line.bounds, y) && is_substring(needle, lowercase_of(line_text(line.chars@)))
}

/// The text of the first matching line among `lines`.
pub open spec fn first_match_in_lines(lines: Seq<RawTextLine>, needle: Seq<char>, y: int) -> Option<
    Seq<char>,
>
    decreases lines.len(),
{
    if lines.len() == 0 {
        None
    } else if line_matches(lines.first(), needle, y) {
        Some(line_text(lines.first().chars@))
    } else {
        first_match_in_lines(lines.drop_first(), needle, y)
    }
}

/// The text of the first matching line of a page, blocks and lines taken in
/// source order.
pub open spec fn first_match_in_blocks(
    blocks: Seq<RawTextBlock>,
    needle: Seq<char>,
    y: int,
) -> Option<Seq<char>>
    decreases blocks.len(),
{
    if blocks.len() == 0 {
        None
    } else {
        match first_match_in_lines(blocks.first().lines@, needle, y) {
            Some(t) => Some(t),
            None => first_match_in_blocks(blocks.drop_first(), needle, y),
        }
    }
}

/// A line cut down for display: as it is up to 100 characters, else its
/// first 100 characters and an ellipsis of three full stops.
pub open spec fn snippet(line: Seq<char>) -> Seq<char> {
    if line.len() > 100 {
        line.take(100) + seq!['.', '.', '.']
    } else {
        line
    }
}

/// The context of a hit whose top is at `y`: the trimmed, cut-down text of
/// the first line near the hit that holds the query, or the query itself if
/// there is no such line.
pub open spec fn context_of(blocks: Seq<RawTextBlock>, query: Seq<char>, y: int) -> Seq<char> {
    match first_match_in_blocks(blocks, lowercase_of(query), y) {
        Some(t) => snippet(trimmed_of(t)),
        None => query,
    }
}

/// The context of a hit on a page whose text structure may be missing: then
/// the context is the query.
pub open spec fn hit_context(text: Option<&Vec<RawTextBlock>>, query: Seq<char>, y: int) -> Seq<
    char,
> {
    match text {
        Some(blocks) => context_of(blocks@, query, y),
        None => query,
    }
}

/// Tells whether a line with box `bounds` is near a hit whose top is at `y`.
pub fn near_line(bounds: &PageRect, y: i32) -> (near: bool)
    ensures
        near == line_is_near(*bounds, y as int),
{
    let y: i64 = y as i64;
    let top: i64 = bounds.y0 as i64;
    let bottom: i64 = bounds.y1 as i64;
    let from_top: i64 = if top >= y { top - y } else { y - top };
    let from_bottom: i64 = if bottom >= y { bottom - y } else { y - bottom };
    from_top < CONTEXT_REACH || from_bottom < CONTEXT_REACH || (top <= y && y <= bottom)
}

/// Cuts a line down for display.
pub fn snippet_of(line: &str) -> (out: String)
    ensures
        out@ == snippet(line@),
{
    if line.unicode_len() > CONTEXT_LIMIT {
        let head = line.substring_char(0, CONTEXT_LIMIT);
        let mut out = String::from_str(head);
        out.append("...");
        proof {
            reveal_strlit("...");
        }
        out
    } else {
        String::from_str(line)
    }
}

/// The text of a line: the characters of its glyphs that decode, in order.
pub fn collect_line_text(line: &RawTextLine) -> (text: String)
    ensures
        text@ == line_text(line.chars@),
{
    let mut text = String::new();
    let n = line.chars.len();
    let mut i: usize = 0;
    while i < n
        invariant
            n == line.chars@.len(),
            i <= n,
            text@ == line_text(line.chars@.take(i as int)),
        decreases n - i,
    {
        proof {
            line.chars@.lemma_filter_map_take_succ(|c: crate::text::RawTextChar| c.ch, i as int);
        }
        match line.chars[i].ch {
            Some(ch) => {
                text.push(ch);
            },
            None => {},
        }
        i += 1;
    }
    assert(line.chars@.take(n as int) =~= line.chars@);
    text
}

/// Tells whether a line holds the query, both given in lower case.
pub fn line_holds_query(lowered_line: &str, lowered_query: &str) -> (holds: bool)
    ensures
        holds == is_substring(lowered_query@, lowered_line@),
{
    str_contains(lowered_line, lowered_query)
}

/// Finds the first line among `lines` that is near the hit and holds
/// `needle`, which the caller has lower-cased, and returns its text.
pub fn find_in_lines(lines: &Vec<RawTextLine>, needle: &str, y: i32) -> (found: Option<String>)
    ensures
        match found {
            Some(t) => first_match_in_lines(lines@, needle@, y as int) == Some(t@),
            None => first_match_in_lines(lines@, needle@, y as int) is None,
        },
{
    let n = lines.len();
    let mut i: usize = 0;
    assert(lines@.skip(0) =~= lines@);
    while i < n
        invariant
            n == lines@.len(),
            i <= n,
            first_match_in_lines(lines@, needle@, y as int) == first_match_in_lines(
                lines@.skip(i as int),
                needle@,
                y as int,
            ),
        decreases n - i,
    {
        let line = &lines[i];
        proof {
            assert(lines@.skip(i as int).drop_first() =~= lines@.skip(i as int + 1));
        }
        if near_line(&line.bounds, y) {
            let text = collect_line_text(line);
            let lowered = text.as_str().to_lowercase();
            if line_holds_query(lowered.as_str(), needle) {
                return Some(text);
            }
        }
        i += 1;
    }
    None
}

/// The context of a hit whose top is at `match_y` on a page with text
/// structure `text`.
pub fn extract_context_around_match(text: &Vec<RawTextBlock>, query: &str, match_y: i32) -> (context:
    String)
    ensures
        context@ == context_of(text@, query@, match_y as int),
{
    let needle = query.to_lowercase();
    let n = text.len();
    let mut i: usize = 0;
    assert(text@.skip(0) =~= text@);
    while i < n
        invariant
            n == text@.len(),
            i <= n,
            needle@ == lowercase_of(query@),
            first_match_in_blocks(text@, needle@, match_y as int) == first_match_in_blocks(
                text@.skip(i as int),
                needle@,
                match_y as int,
            ),
        decreases n - i,
    {
        proof {
            assert(text@.skip(i as int).drop_first() =~= text@.skip(i as int + 1));
        }
        match find_in_lines(&text[i].lines, needle.as_str(), match_y) {
            Some(line) => {
                return snippet_of(line.as_str().trim());
            },
            None => {},
        }
        i += 1;
    }
    String::from_str(query)
}

// ---------------------------------------------------------------------------
// The scan
// ---------------------------------------------------------------------------
/// Whether a hit at `y` on `page` repeats the last result kept: same page,
/// tops closer than the threshold.
pub open spec fn is_duplicate(found: Seq<SearchResultView>, page: u32, y: int) -> bool {
    found.len() > 0 && found.last().page == page && distance(y, found.last().y as int) < 20_000
}

/// Whether a hit is kept: there is room for it and it does not repeat the
/// last result kept.
pub open spec fn is_retained(found: Seq<SearchResultView>, limit: nat, page: u32, y: int) -> bool {
    found.len() < limit && !is_duplicate(found, page, y)
}

/// The position of a hit: the top of the box of its quadrilateral,
/// relative to the page height.
pub open spec fn hit_top(bounds: PageBounds, quad: PageQuad) -> int {
    bounds.spec_normalize_rect(quad.spec_bounding_rect()).y as int
}

/// A hit whose corners lie on the page gives a result in the unit square,
/// with sides that are not negative, at a position between zero and one.
pub proof fn lemma_hit_in_unit_square(
    page: u32,
    bounds: PageBounds,
    quad: PageQuad,
    context: Seq<char>,
)
    requires
        bounds.valid(),
        bounds.contains_quad(quad),
    ensures
        hit_result(page, bounds, quad, context).rect.in_unit_square(),
        0 <= hit_result(page, bounds, quad, context).rect.width,
        0 <= hit_result(page, bounds, quad, context).rect.height,
        0 <= hit_result(page, bounds, quad, context).y <= 1_000_000,
        hit_result(page, bounds, quad, context).y == hit_result(page, bounds, quad, context).rect.y,
        hit_result(page, bounds, quad, context).y == hit_top(bounds, quad),
{
    bounds.lemma_box_on_page(quad);
    bounds.lemma_rect_in_unit_square(quad.spec_bounding_rect());
}

/// The box of a hit has sides that are not negative, however the hit is
/// turned and wherever it lies, and the position of the hit is the top of
/// its box.
pub proof fn lemma_hit_box_is_proper(
    page: u32,
    bounds: PageBounds,
    quad: PageQuad,
    context: Seq<char>,
)
    requires
        bounds.valid(),
    ensures
        0 <= hit_result(page, bounds, quad, context).rect.width,
        0 <= hit_result(page, bounds, quad, context).rect.height,
        hit_result(page, bounds, quad, context).y == hit_result(page, bounds, quad, context).rect.y,
{
    quad.lemma_bounding_rect();
    let r = quad.spec_bounding_rect();
    crate::geometry::lemma_normalized_ends(bounds.spec_width());
    crate::geometry::lemma_normalized_ends(bounds.spec_height());
    crate::geometry::lemma_normalized_monotone(0, r.x1 - r.x0, bounds.spec_width());
    crate::geometry::lemma_normalized_monotone(0, r.y1 - r.y0, bounds.spec_height());
    crate::geometry::lemma_normalized_monotone(r.x1 - r.x0, 0x1_0000_0000, bounds.spec_width());
    crate::geometry::lemma_normalized_monotone(r.y1 - r.y0, 0x1_0000_0000, bounds.spec_height());
    crate::geometry::lemma_normalized_range(0x1_0000_0000, bounds.spec_width());
    crate::geometry::lemma_normalized_range(0x1_0000_0000, bounds.spec_height());
}

/// The result that a hit gives: the box of its quadrilateral relative to
/// the page, with the top of that box as its position.
pub open spec fn hit_result(
    page: u32,
    bounds: PageBounds,
    quad: PageQuad,
    context: Seq<char>,
) -> SearchResultView {
    let rect = bounds.spec_normalize_rect(quad.spec_bounding_rect());
    SearchResultView { page, y: rect.y, rect, context }
}

/// The results after the hits of one page have been taken in, one by one in
/// discovery order: each hit that is retained is appended.
pub open spec fn scan_hits(
    found: Seq<SearchResultView>,
    limit: nat,
    page: u32,
    bounds: PageBounds,
    hits: Seq<PageQuad>,
    text: Option<&Vec<RawTextBlock>>,
    query: Seq<char>,
) -> Seq<SearchResultView>
    decreases hits.len(),
{
    if hits.len() == 0 {
        found
    } else {
        let before = scan_hits(found, limit, page, bounds, hits.drop_last(), text, query);
        let quad = hits.last();
        let context = hit_context(text, query, quad.spec_bounding_rect().y0 as int);
        let result = hit_result(page, bounds, quad, context);
        if is_retained(before, limit, page, result.y as int) {
            before.push(result)
        } else {
            before
        }
    }
}

/// The number of hits to ask of the next page: what is left of the budget,
/// but no more than the per-page cap.
pub open spec fn page_budget(found: nat, limit: nat) -> nat {
    if found >= limit {
        0
    } else if limit - found > 100 {
        100
    } else {
        (limit - found) as nat
    }
}

/// The hits of a page that a scan looks at: the first of them, as many as
/// were asked of the page.
pub open spec fn requested_hits(hits: Seq<PageQuad>, found: nat, limit: nat) -> Seq<PageQuad> {
    if hits.len() <= page_budget(found, limit) {
        hits
    } else {
        hits.take(page_budget(found, limit) as int)
    }
}

/// Once the budget is spent no further hit changes the results.
pub proof fn lemma_full_scan_keeps_results(
    found: Seq<SearchResultView>,
    limit: nat,
    page: u32,
    bounds: PageBounds,
    hits: Seq<PageQuad>,
    text: Option<&Vec<RawTextBlock>>,
    query: Seq<char>,
)
    requires
        found.len() >= limit,
    ensures
        scan_hits(found, limit, page, bounds, hits, text, query) == found,
    decreases hits.len(),
{
    if hits.len() > 0 {
        lemma_full_scan_keeps_results(found, limit, page, bounds, hits.drop_last(), text, query);
    }
}

/// A scan never loses a result and never exceeds its budget.
pub proof fn lemma_scan_extends(
    found: Seq<SearchResultView>,
    limit: nat,
    page: u32,
    bounds: PageBounds,
    hits: Seq<PageQuad>,
    text: Option<&Vec<RawTextBlock>>,
    query: Seq<char>,
)
    requires
        found.len() <= limit,
    ensures
        found.len() <= scan_hits(found, limit, page, bounds, hits, text, query).len() <= limit,
        scan_hits(found, limit, page, bounds, hits, text, query).len() <= found.len() + hits.len(),
        scan_hits(found, limit, page, bounds, hits, text, query).take(found.len() as int)
            == found,
        forall|i: int|
            found.len() <= i < scan_hits(found, limit, page, bounds, hits, text, query).len()
                ==> (#[trigger] scan_hits(found, limit, page, bounds, hits, text, query)[i]).page
                == page,
    decreases hits.len(),
{
    if hits.len() > 0 {
        lemma_scan_extends(found, limit, page, bounds, hits.drop_last(), text, query);
        let before = scan_hits(found, limit, page, bounds, hits.drop_last(), text, query);
        let after = scan_hits(found, limit, page, bounds, hits, text, query);
    }
}

/// Whether results that follow each other on one page are at least the
/// threshold apart: no result repeats the one before it.
pub open spec fn well_spaced(found: Seq<SearchResultView>) -> bool {
    forall|i: int|
        0 <= i && i + 1 < found.len() && (#[trigger] found[i]).page == found[i + 1].page
            ==> distance(found[i].y as int, found[i + 1].y as int) >= 20_000
}

/// A scan keeps its results apart: results that are well spaced are still
/// well spaced after the hits of a page have been taken in, whatever the
/// hits are.
pub proof fn lemma_scan_keeps_spacing(
    found: Seq<SearchResultView>,
    limit: nat,
    page: u32,
    bounds: PageBounds,
    hits: Seq<PageQuad>,
    text: Option<&Vec<RawTextBlock>>,
    query: Seq<char>,
)
    requires
        well_spaced(found),
    ensures
        well_spaced(scan_hits(found, limit, page, bounds, hits, text, query)),
    decreases hits.len(),
{
    if hits.len() > 0 {
        lemma_scan_keeps_spacing(found, limit, page, bounds, hits.drop_last(), text, query);
        let before = scan_hits(found, limit, page, bounds, hits.drop_last(), text, query);
        let after = scan_hits(found, limit, page, bounds, hits, text, query);
        if after != before {
            let added = after.last();
            assert(after == before.push(added));
            assert(!is_duplicate(before, page, added.y as int));
            assert(added.page == page);
            assert forall|i: int|
                0 <= i && i + 1 < after.len() && (#[trigger] after[i]).page == after[i + 1].page
                implies distance(after[i].y as int, after[i + 1].y as int) >= 20_000 by {
                if i + 1 < before.len() {
                    assert(after[i] == before[i]);
                    assert(after[i + 1] == before[i + 1]);
                } else {
                    assert(after[i] == before.last());
                }
            }
        }
    }
}

/// Whether results are in page order and none is on a page after `page`.
pub open spec fn pages_ascend_to(found: Seq<SearchResultView>, page: u32) -> bool {
    &&& forall|i: int, j: int|
        0 <= i <= j < found.len() ==> (#[trigger] found[i]).page <= (#[trigger] found[j]).page
    &&& forall|i: int| 0 <= i < found.len() ==> (#[trigger] found[i]).page <= page
}

/// Results stay in page order when pages are scanned in ascending order:
/// results in page order up to `page` are still in page order up to `page`
/// after the hits of `page` have been taken in, the earlier results first.
pub proof fn lemma_scan_keeps_page_order(
    found: Seq<SearchResultView>,
    limit: nat,
    page: u32,
    bounds: PageBounds,
    hits: Seq<PageQuad>,
    text: Option<&Vec<RawTextBlock>>,
    query: Seq<char>,
)
    requires
        found.len() <= limit,
        pages_ascend_to(found, page),
    ensures
        pages_ascend_to(scan_hits(found, limit, page, bounds, hits, text, query), page),
{
    lemma_scan_extends(found, limit, page, bounds, hits, text, query);
    let after = scan_hits(found, limit, page, bounds, hits, text, query);
    assert forall|i: int| 0 <= i < after.len() implies (#[trigger] after[i]).page <= page by {
        if i < found.len() {
            assert(after.take(found.len() as int)[i] == found[i]);
        }
    }
    assert forall|i: int, j: int| 0 <= i <= j < after.len() implies (#[trigger] after[i]).page <= (
    #[trigger] after[j]).page by {
        if j < found.len() {
            assert(after.take(found.len() as int)[i] == found[i]);
            assert(after.take(found.len() as int)[j] == found[j]);
        } else if i < found.len() {
        }
    }
}

/// Two hits that follow each other on one page, the first of them kept: if
/// their tops are closer than the threshold the second is dropped, and the
/// results end with the first.
pub proof fn lemma_close_hits_collapse(
    found: Seq<SearchResultView>,
    limit: nat,
    page: u32,
    bounds: PageBounds,
    first: PageQuad,
    second: PageQuad,
    text: Option<&Vec<RawTextBlock>>,
    query: Seq<char>,
)
    requires
        is_retained(found, limit, page, hit_top(bounds, first)),
        distance(hit_top(bounds, first), hit_top(bounds, second)) < 20_000,
    ensures
        scan_hits(found, limit, page, bounds, seq![first, second], text, query) == found.push(
            hit_result(
                page,
                bounds,
                first,
                hit_context(text, query, first.spec_bounding_rect().y0 as int),
            ),
        ),
{
    let hits = seq![first, second];
    reveal_with_fuel(scan_hits, 3);
}

/// Two hits that follow each other on one page, the first of them kept: if
/// their tops are at least the threshold apart and the budget has room for
/// both, both are kept, in order.
pub proof fn lemma_distant_hits_both_kept(
    found: Seq<SearchResultView>,
    limit: nat,
    page: u32,
    bounds: PageBounds,
    first: PageQuad,
    second: PageQuad,
    text: Option<&Vec<RawTextBlock>>,
    query: Seq<char>,
)
    requires
        is_retained(found, limit, page, hit_top(bounds, first)),
        found.len() + 2 <= limit,
        distance(hit_top(bounds, first), hit_top(bounds, second)) >= 20_000,
    ensures
        scan_hits(found, limit, page, bounds, seq![first, second], text, query) == found.push(
            hit_result(
                page,
                bounds,
                first,
                hit_context(text, query, first.spec_bounding_rect().y0 as int),
            ),
        ).push(
            hit_result(
                page,
                bounds,
                second,
                hit_context(text, query, second.spec_bounding_rect().y0 as int),
            ),
        ),
{
    let hits = seq![first, second];
    reveal_with_fuel(scan_hits, 3);
}

/// The state of a search over a document: the results kept so far and the
/// most that may be kept.
pub struct SearchScan {
    results: Vec<SearchResult>,
    max_results: u32,
}

impl SearchScan {
    #[verifier::type_invariant]
    spec fn within_budget_and_spaced(&self) -> bool {
        self.results@.len() <= self.max_results && well_spaced(result_views(self.results@))
    }

    /// The results kept so far.
    pub closed spec fn found(&self) -> Seq<SearchResultView> {
        result_views(self.results@)
    }

    /// The most results the scan may keep.
    pub closed spec fn limit(&self) -> nat {
        self.max_results as nat
    }

    /// Starts a scan with no results. Without a cap the scan keeps up to
    /// `DEFAULT_MAX_RESULTS` results.
    pub fn new(max_results: Option<u32>) -> (scan: SearchScan)
        ensures
            scan.found() == Seq::<SearchResultView>::empty(),
            scan.limit() == match max_results {
                Some(m) => m,
                None => DEFAULT_MAX_RESULTS,
            },
            well_spaced(scan.found()),
    {
        let max_results = match max_results {
            Some(m) => m,
            None => DEFAULT_MAX_RESULTS,
        };
        let scan = SearchScan { results: Vec::new(), max_results };
        scan
    }

    /// The number of results kept so far. Of every scan it holds that the
    /// results are within the budget and well spaced.
    pub fn total(&self) -> (n: u32)
        ensures
            n == self.found().len(),
            n <= self.limit(),
            well_spaced(self.found()),
    {
        proof {
            use_type_invariant(self);
        }
        self.results.len() as u32
    }

    /// The number of hits to ask of the next page. Zero means that the
    /// budget is spent and the scan is over.
    pub fn page_request(&self) -> (n: u32)
        ensures
            n == page_budget(self.found().len(), self.limit()),
    {
        proof {
            use_type_invariant(self);
        }
        let found = self.results.len() as u32;
        if found >= self.max_results {
            0
        } else if self.max_results - found > PAGE_HIT_CAP {
            PAGE_HIT_CAP
        } else {
            self.max_results - found
        }
    }

    /// Takes in the hits that the engine found on one page, in discovery
    /// order, and gives the scan that follows. `page` is the page's one-based
    /// number, `bounds` its extent and `text` its text structure, if it could
    /// be had. Of `hits`, no more than the page's request are looked at.
    pub fn absorb_page(
        self,
        page: u32,
        bounds: &PageBounds,
        hits: &Vec<PageQuad>,
        text: Option<&Vec<RawTextBlock>>,
        query: &str,
    ) -> (next: SearchScan)
        ensures
            next.limit() == self.limit(),
            next.found() == scan_hits(
                self.found(),
                self.limit(),
                page,
                *bounds,
                requested_hits(hits@, self.found().len(), self.limit()),
                text,
                query@,
            ),
            next.found().len() <= next.limit(),
            well_spaced(next.found()),
    {
        proof {
            use_type_invariant(&self);
        }
        let request = self.page_request() as usize;
        let n = if hits.len() <= request { hits.len() } else { request };
        let ghost start = self.found();
        let ghost limit = self.limit();
        let ghost considered = hits@.take(n as int);
        proof {
            if hits@.len() <= request {
                assert(considered =~= hits@);
            }
        }
        let max_results = self.max_results;
        let mut results = self.results;
        let mut i: usize = 0;
        while i < n && results.len() < max_results as usize
            invariant
                n <= hits@.len(),
                considered == hits@.take(n as int),
                i <= n,
                limit == max_results,
                results@.len() <= max_results,
                result_views(results@) == scan_hits(
                    start,
                    limit,
                    page,
                    *bounds,
                    considered.take(i as int),
                    text,
                    query@,
                ),
            decreases n - i,
        {
            let quad = &hits[i];
            let rect = quad.bounding_rect();
            let normalized = bounds.normalize_rect(&rect);
            let ghost before = result_views(results@);
            proof {
                assert(considered.take(i as int + 1).drop_last() =~= considered.take(i as int));
            }
            let duplicate = match results.last() {
                Some(last) => {
                    let gap: i128 = normalized.y as i128 - last.y as i128;
                    last.page == page && -(DEDUP_THRESHOLD as i128) < gap && gap < (
                    DEDUP_THRESHOLD as i128)
                },
                None => false,
            };
            assert(duplicate == is_duplicate(before, page, normalized.y as int));
            if !duplicate {
                let context = match text {
                    Some(blocks) => extract_context_around_match(blocks, query, rect.y0),
                    None => String::from_str(query),
                };
                let result = SearchResult { page, y: normalized.y, rect: normalized, context };
                proof {
                    assert(result_views(results@.push(result)) =~= result_views(results@).push(
                        result@,
                    ));
                }
                results.push(result);
            }
            i += 1;
        }
        proof {
            if i < n {
                // The budget ran out: the hits not looked at change nothing.
                let done = considered.take(i as int);
                let rest = considered.skip(i as int);
                lemma_scan_splits(start, limit, page, *bounds, done, rest, text, query@);
                assert(done + rest =~= considered);
                lemma_full_scan_keeps_results(
                    result_views(results@),
                    limit,
                    page,
                    *bounds,
                    rest,
                    text,
                    query@,
                );
            } else {
                assert(considered.take(n as int) =~= considered);
            }
            lemma_scan_keeps_spacing(start, limit, page, *bounds, considered, text, query@);
        }
        SearchScan { results, max_results }
    }

    /// Ends the scan and hands out its results with their count. No two
    /// results that follow each other on one page are closer than the
    /// threshold.
    pub fn finish(self, query: String) -> (out: SearchResults)
        ensures
            out.query == query,
            out.total == self.found().len(),
            out.total <= self.limit(),
            result_views(out.results@) == self.found(),
            well_spaced(result_views(out.results@)),
    {
        proof {
            use_type_invariant(&self);
        }
        let total = self.results.len() as u32;
        SearchResults { query, total, results: self.results }
    }
}

/// Scanning a run of hits is scanning its first part and then the rest.
pub proof fn lemma_scan_splits(
    found: Seq<SearchResultView>,
    limit: nat,
    page: u32,
    bounds: PageBounds,
    head: Seq<PageQuad>,
    tail: Seq<PageQuad>,
    text: Option<&Vec<RawTextBlock>>,
    query: Seq<char>,
)
    ensures
        scan_hits(found, limit, page, bounds, head + tail, text, query) == scan_hits(
            scan_hits(found, limit, page, bounds, head, text, query),
            limit,
            page,
            bounds,
            tail,
            text,
            query,
        ),
    decreases tail.len(),
{
    if tail.len() == 0 {
    } else {
        lemma_scan_splits(found, limit, page, bounds, head, tail.drop_last(), text, query);
        assert((head + tail).drop_last() =~= head + tail.drop_last());
    }
}

impl SearchResults {
    /// The outcome of a search that found nothing.
    pub fn empty(query: String) -> (out: SearchResults)
        ensures
            out.query == query,
            out.total == 0,
            out.results@.len() == 0,
    {
        SearchResults { query, total: 0, results: Vec::new() }
    }
}

/// How a search begins.
pub enum SearchStart {
    /// The query is empty: the outcome is known without a look at the
    /// document.
    Done(SearchResults),
    /// The document is to be scanned.
    Scan(SearchScan),
}

/// Opens a search. An empty query finds nothing and needs no scan: the
/// outcome is there at once, with no result. Any other query starts a scan
/// with no results yet.
pub fn begin_search(query: &str, max_results: Option<u32>) -> (start: SearchStart)
    ensures
        match start {
            SearchStart::Done(done) => {
                &&& query@.len() == 0
                &&& done.query@ == query@
                &&& done.total == 0
                &&& done.results@.len() == 0
            },
            SearchStart::Scan(scan) => {
                &&& query@.len() > 0
                &&& scan.found() == Seq::<SearchResultView>::empty()
                &&& scan.limit() == match max_results {
                    Some(m) => m,
                    None => DEFAULT_MAX_RESULTS,
                }
            },
        },
{
    if query.is_empty() {
        SearchStart::Done(SearchResults::empty(String::from_str(query)))
    } else {
        SearchStart::Scan(SearchScan::new(max_results))
    }
}

} // verus!
