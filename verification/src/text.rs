//! Text layout extraction: from the text runs of a page to a tree of blocks,
//! lines and characters with page-relative geometry.

use vstd::prelude::*;
use crate::geometry::{NormalizedRect, PageBounds, PageQuad, PageRect};

verus! {

/// One glyph of a text run as the document engine reports it. A glyph that
/// decodes to no character has `ch == None`.
#[derive(Clone, Copy, Debug, PartialEq, Eq)]
pub struct RawTextChar {
    pub ch: Option<char>,
    pub quad: PageQuad,
}

/// One line of a text run: its box and its glyphs in reading order.
#[derive(Clone, Debug, PartialEq, Eq)]
pub struct RawTextLine {
    pub bounds: PageRect,
    pub chars: Vec<RawTextChar>,
}

/// One block of a page's text structure. An image-only region is a block
/// without lines.
#[derive(Clone, Debug, PartialEq, Eq)]
pub struct RawTextBlock {
    pub bounds: PageRect,
    pub lines: Vec<RawTextLine>,
}

/// A single character with its page-relative quadrilateral: eight
/// coordinates, upper-left, upper-right, lower-right, lower-left.
#[derive(Clone, Debug, PartialEq, Eq)]
pub struct TextCharInfo {
    pub char: String,
    pub quad: [i64; 8],
}

/// A line of text with its page-relative box and its characters.
#[derive(Clone, Debug, PartialEq, Eq)]
pub struct TextLineInfo {
    pub text: String,
    pub rect: NormalizedRect,
    pub chars: Vec<TextCharInfo>,
}

/// A block of text (a paragraph) with its lines.
#[derive(Clone, Debug, PartialEq, Eq)]
pub struct TextBlockInfo {
    pub rect: NormalizedRect,
    pub lines: Vec<TextLineInfo>,
}

/// The text content of one page.
#[derive(Clone, Debug, PartialEq, Eq)]
pub struct PageTextContent {
    pub page: u32,
    pub blocks: Vec<TextBlockInfo>,
}

/// What a `TextCharInfo` holds.
pub struct TextCharView {
    pub text: Seq<char>,
    pub quad: Seq<i64>,
}

/// What a `TextLineInfo` holds.
pub struct TextLineView {
    pub text: Seq<char>,
    pub rect: NormalizedRect,
    pub chars: Seq<TextCharView>,
}

/// What a `TextBlockInfo` holds.
pub struct TextBlockView {
    pub rect: NormalizedRect,
    pub lines: Seq<TextLineView>,
}

impl View for TextCharInfo {
    type V = TextCharView;

    open spec fn view(&self) -> TextCharView {
        TextCharView { text: self.char@, quad: self.quad@ }
    }
}

impl View for TextLineInfo {
    type V = TextLineView;

    open spec fn view(&self) -> TextLineView {
        TextLineView { text: self.text@, rect: self.rect, chars: char_views(self.chars@) }
    }
}

impl View for TextBlockInfo {
    type V = TextBlockView;

    open spec fn view(&self) -> TextBlockView {
        TextBlockView { rect: self.rect, lines: line_views(self.lines@) }
    }
}

/// What a run of characters holds.
pub open spec fn char_views(chars: Seq<TextCharInfo>) -> Seq<TextCharView> {
    chars.map_values(|c: TextCharInfo| c@)
}

/// What a run of lines holds.
pub open spec fn line_views(lines: Seq<TextLineInfo>) -> Seq<TextLineView> {
    lines.map_values(|l: TextLineInfo| l@)
}

/// What a run of blocks holds.
pub open spec fn block_views(blocks: Seq<TextBlockInfo>) -> Seq<TextBlockView> {
    blocks.map_values(|b: TextBlockInfo| b@)
}

/// The character a glyph contributes to its line, if it decodes to one.
pub open spec fn char_entry(c: RawTextChar, bounds: PageBounds) -> Option<TextCharView> {
    match c.ch {
        Some(ch) => Some(
            TextCharView { text: seq![ch], quad: bounds.spec_normalize_quad(c.quad) },
        ),
        None => None,
    }
}

/// The text of a line: the characters of its glyphs that decode, in order.
pub open spec fn line_text(chars: Seq<RawTextChar>) -> Seq<char> {
    chars.filter_map(|c: RawTextChar| c.ch)
}

/// The characters of a line: one per glyph that decodes, in order.
pub open spec fn line_chars(chars: Seq<RawTextChar>, bounds: PageBounds) -> Seq<TextCharView> {
    chars.filter_map(|c: RawTextChar| char_entry(c, bounds))
}

/// What a line of a text run contributes: nothing if its text is empty.
pub open spec fn line_entry(line: RawTextLine, bounds: PageBounds) -> Option<TextLineView> {
    if line_text(line.chars@).len() == 0 {
        None
    } else {
        Some(
            TextLineView {
                text: line_text(line.chars@),
                rect: bounds.spec_normalize_rect(line.bounds),
                chars: line_chars(line.chars@, bounds),
            },
        )
    }
}

/// The lines of a block that survive, in order.
pub open spec fn block_lines(lines: Seq<RawTextLine>, bounds: PageBounds) -> Seq<TextLineView> {
    lines.filter_map(|l: RawTextLine| line_entry(l, bounds))
}

/// What a block contributes: nothing if none of its lines survives.
pub open spec fn block_entry(block: RawTextBlock, bounds: PageBounds) -> Option<TextBlockView> {
    if block_lines(block.lines@, bounds).len() == 0 {
        None
    } else {
        Some(
            TextBlockView {
                rect: bounds.spec_normalize_rect(block.bounds),
                lines: block_lines(block.lines@, bounds),
            },
        )
    }
}

/// The text blocks of a page: the blocks that keep at least one line, in
/// order.
pub open spec fn page_blocks(blocks: Seq<RawTextBlock>, bounds: PageBounds) -> Seq<TextBlockView> {
    blocks.filter_map(|b: RawTextBlock| block_entry(b, bounds))
}

/// No block is empty and no line is blank.
pub open spec fn blocks_have_content(blocks: Seq<TextBlockView>) -> bool {
    forall|i: int|
        0 <= i < blocks.len() ==> {
            &&& (#[trigger] blocks[i]).lines.len() >= 1
            &&& forall|j: int|
                0 <= j < blocks[i].lines.len() ==> (#[trigger] blocks[i].lines[j]).text.len() >= 1
        }
}

/// Every line that survives has text.
pub proof fn lemma_block_lines_have_text(lines: Seq<RawTextLine>, bounds: PageBounds)
    ensures
        forall|j: int|
            0 <= j < block_lines(lines, bounds).len() ==> (#[trigger] block_lines(
                lines,
                bounds,
            )[j]).text.len() >= 1,
    decreases lines.len(),
{
    let f = |l: RawTextLine| line_entry(l, bounds);
    if lines.len() > 0 {
        lemma_block_lines_have_text(lines.drop_last(), bounds);
        let rest = block_lines(lines.drop_last(), bounds);
        assert(block_lines(lines, bounds) == match f(lines.last()) {
            Some(l) => rest + seq![l],
            None => rest,
        });
    }
}

/// Every block of a page's text content holds at least one line, and every
/// line holds at least one character: nothing without content is emitted.
pub proof fn lemma_page_blocks_have_content(blocks: Seq<RawTextBlock>, bounds: PageBounds)
    ensures
        blocks_have_content(page_blocks(blocks, bounds)),
    decreases blocks.len(),
{
    let f = |b: RawTextBlock| block_entry(b, bounds);
    if blocks.len() > 0 {
        lemma_page_blocks_have_content(blocks.drop_last(), bounds);
        lemma_block_lines_have_text(blocks.last().lines@, bounds);
        let rest = page_blocks(blocks.drop_last(), bounds);
        assert(page_blocks(blocks, bounds) == match f(blocks.last()) {
            Some(b) => rest + seq![b],
            None => rest,
        });
    }
}

/// Whether a line of a text run lies on the page: its box and the corners
/// of its glyphs.
pub open spec fn line_on_page(line: RawTextLine, bounds: PageBounds) -> bool {
    &&& bounds.contains_rect(line.bounds)
    &&& forall|k: int|
        0 <= k < line.chars@.len() ==> bounds.contains_quad((#[trigger] line.chars@[k]).quad)
}

/// Whether a block lies on the page: its box and all its lines.
pub open spec fn block_on_page(block: RawTextBlock, bounds: PageBounds) -> bool {
    &&& bounds.contains_rect(block.bounds)
    &&& forall|j: int|
        0 <= j < block.lines@.len() ==> line_on_page(#[trigger] block.lines@[j], bounds)
}

/// Whether the text structure of a page is well-formed: every block, line
/// and glyph lies on the page.
pub open spec fn text_on_page(blocks: Seq<RawTextBlock>, bounds: PageBounds) -> bool {
    forall|i: int| 0 <= i < blocks.len() ==> block_on_page(#[trigger] blocks[i], bounds)
}

/// Whether the eight coordinates of a quadrilateral are between zero and
/// one.
pub open spec fn quad_in_unit_square(quad: Seq<i64>) -> bool {
    quad.len() == 8 && forall|c: int| 0 <= c < 8 ==> 0 <= #[trigger] quad[c] <= 1_000_000
}

/// Whether a line's box and the quadrilaterals of its characters are in the
/// unit square.
pub open spec fn line_in_unit_square(line: TextLineView) -> bool {
    &&& line.rect.in_unit_square()
    &&& forall|k: int|
        0 <= k < line.chars.len() ==> quad_in_unit_square((#[trigger] line.chars[k]).quad)
}

/// Whether a block's box and all its lines are in the unit square.
pub open spec fn block_in_unit_square(block: TextBlockView) -> bool {
    &&& block.rect.in_unit_square()
    &&& forall|j: int|
        0 <= j < block.lines.len() ==> line_in_unit_square(#[trigger] block.lines[j])
}

/// The characters of a line that lies on the page have quadrilaterals in
/// the unit square.
pub proof fn lemma_line_chars_in_unit_square(line: RawTextLine, bounds: PageBounds)
    requires
        bounds.valid(),
        line_on_page(line, bounds),
    ensures
        forall|k: int|
            0 <= k < line_chars(line.chars@, bounds).len() ==> quad_in_unit_square(
                (#[trigger] line_chars(line.chars@, bounds)[k]).quad,
            ),
{
    let f = |c: RawTextChar| char_entry(c, bounds);
    let out = line_chars(line.chars@, bounds);
    assert forall|k: int| 0 <= k < out.len() implies quad_in_unit_square(
        (#[trigger] out[k]).quad,
    ) by {
        line.chars@.lemma_filter_map_contains(f, out[k]);
        let c = choose|c: RawTextChar| #[trigger] line.chars@.contains(c) && f(c) == Some(out[k]);
        let at = choose|i: int| 0 <= i < line.chars@.len() && line.chars@[i] == c;
        bounds.lemma_quad_in_unit_square(c.quad);
    }
}

/// The lines kept of a block that lies on the page are in the unit square.
pub proof fn lemma_block_lines_in_unit_square(block: RawTextBlock, bounds: PageBounds)
    requires
        bounds.valid(),
        block_on_page(block, bounds),
    ensures
        forall|j: int|
            0 <= j < block_lines(block.lines@, bounds).len() ==> line_in_unit_square(
                #[trigger] block_lines(block.lines@, bounds)[j],
            ),
{
    let f = |l: RawTextLine| line_entry(l, bounds);
    let out = block_lines(block.lines@, bounds);
    assert forall|j: int| 0 <= j < out.len() implies line_in_unit_square(#[trigger] out[j]) by {
        block.lines@.lemma_filter_map_contains(f, out[j]);
        let l = choose|l: RawTextLine| #[trigger] block.lines@.contains(l) && f(l) == Some(out[j]);
        let at = choose|i: int| 0 <= i < block.lines@.len() && block.lines@[i] == l;
        bounds.lemma_rect_in_unit_square(l.bounds);
        lemma_line_chars_in_unit_square(l, bounds);
    }
}

/// On a well-formed page every box and every quadrilateral of the text
/// content is in the unit square: each coordinate, and each near corner
/// plus its side, is between zero and one.
pub proof fn lemma_page_text_in_unit_square(blocks: Seq<RawTextBlock>, bounds: PageBounds)
    requires
        bounds.valid(),
        text_on_page(blocks, bounds),
    ensures
        forall|i: int|
            0 <= i < page_blocks(blocks, bounds).len() ==> block_in_unit_square(
                #[trigger] page_blocks(blocks, bounds)[i],
            ),
{
    let f = |b: RawTextBlock| block_entry(b, bounds);
    let out = page_blocks(blocks, bounds);
    assert forall|i: int| 0 <= i < out.len() implies block_in_unit_square(#[trigger] out[i]) by {
        blocks.lemma_filter_map_contains(f, out[i]);
        let b = choose|b: RawTextBlock| #[trigger] blocks.contains(b) && f(b) == Some(out[i]);
        let at = choose|k: int| 0 <= k < blocks.len() && blocks[k] == b;
        bounds.lemma_rect_in_unit_square(b.bounds);
        lemma_block_lines_in_unit_square(b, bounds);
    }
}

/// Converts one line of a text run. The line is dropped (`None`) exactly when
/// none of its glyphs decodes to a character.
pub fn convert_line(line: &RawTextLine, bounds: &PageBounds) -> (out: Option<TextLineInfo>)
    ensures
        match out {
            Some(l) => line_entry(*line, *bounds) == Some(l@),
            None => line_entry(*line, *bounds) is None,
        },
{
    let mut chars: Vec<TextCharInfo> = Vec::new();
    let mut text = String::new();
    let n = line.chars.len();
    let mut i: usize = 0;
    while i < n
        invariant
            n == line.chars@.len(),
            i <= n,
            text@ == line_text(line.chars@.take(i as int)),
            char_views(chars@) == line_chars(line.chars@.take(i as int), *bounds),
        decreases n - i,
    {
        let c = &line.chars[i];
        proof {
            line.chars@.lemma_filter_map_take_succ(|c: RawTextChar| c.ch, i as int);
            line.chars@.lemma_filter_map_take_succ(
                |c: RawTextChar| char_entry(c, *bounds),
                i as int,
            );
        }
        match c.ch {
            Some(ch) => {
                text.push(ch);
                let mut glyph = String::new();
                glyph.push(ch);
                let info = TextCharInfo { char: glyph, quad: bounds.normalize_quad(&c.quad) };
                chars.push(info);
            },
            None => {},
        }
        i += 1;
    }
    assert(line.chars@.take(n as int) =~= line.chars@);
    if text.as_str().is_empty() {
        None
    } else {
        Some(TextLineInfo { text, rect: bounds.normalize_rect(&line.bounds), chars })
    }
}

/// Converts one block of a page's text structure. The block is dropped
/// (`None`) exactly when none of its lines survives; a block without lines,
/// such as an image region, is one of these.
pub fn convert_block(block: &RawTextBlock, bounds: &PageBounds) -> (out: Option<TextBlockInfo>)
    ensures
        match out {
            Some(b) => block_entry(*block, *bounds) == Some(b@),
            None => block_entry(*block, *bounds) is None,
        },
{
    let mut lines: Vec<TextLineInfo> = Vec::new();
    let n = block.lines.len();
    let mut i: usize = 0;
    while i < n
        invariant
            n == block.lines@.len(),
            i <= n,
            line_views(lines@) == block_lines(block.lines@.take(i as int), *bounds),
        decreases n - i,
    {
        proof {
            block.lines@.lemma_filter_map_take_succ(
                |l: RawTextLine| line_entry(l, *bounds),
                i as int,
            );
        }
        match convert_line(&block.lines[i], bounds) {
            Some(info) => {
                lines.push(info);
            },
            None => {},
        }
        i += 1;
    }
    assert(block.lines@.take(n as int) =~= block.lines@);
    if lines.len() == 0 {
        None
    } else {
        Some(TextBlockInfo { rect: bounds.normalize_rect(&block.bounds), lines })
    }
}

/// Builds the text content of a page from its text structure: blocks, lines
/// and characters in source order, every box and quadrilateral relative to
/// `bounds`, with blank lines and empty blocks left out.
pub fn extract_text_blocks(page: u32, bounds: &PageBounds, blocks: &Vec<RawTextBlock>) -> (out:
    PageTextContent)
    ensures
        out.page == page,
        block_views(out.blocks@) == page_blocks(blocks@, *bounds),
        blocks_have_content(block_views(out.blocks@)),
{
    let mut kept: Vec<TextBlockInfo> = Vec::new();
    let n = blocks.len();
    let mut i: usize = 0;
    while i < n
        invariant
            n == blocks@.len(),
            i <= n,
            block_views(kept@) == page_blocks(blocks@.take(i as int), *bounds),
        decreases n - i,
    {
        proof {
            blocks@.lemma_filter_map_take_succ(
                |b: RawTextBlock| block_entry(b, *bounds),
                i as int,
            );
        }
        match convert_block(&blocks[i], bounds) {
            Some(info) => {
                kept.push(info);
            },
            None => {},
        }
        i += 1;
    }
    proof {
        assert(blocks@.take(n as int) =~= blocks@);
        lemma_page_blocks_have_content(blocks@, *bounds);
    }
    PageTextContent { page, blocks: kept }
}

} // verus!
