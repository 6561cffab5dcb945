//! Failures of the viewer's operations.

use vstd::prelude::*;
use vstd::string::*;
use crate::decimal::{decimal, push_decimal};

verus! {

/// Why an operation on a document failed. The variants that come from the
/// document engine carry its own account of the failure.
#[derive(Clone, Debug, PartialEq, Eq)]
pub enum ViewerError {
    /// The path is unreadable or holds no document that can be read.
    DocumentOpen(String),
    /// The page number is outside `1..=page_count`.
    PageIndex { page: u32, page_count: u32 },
    /// Rasterizing or encoding a page failed.
    Render(String),
    /// The text structure of a page could not be had.
    TextExtraction(String),
    /// The worker that was to run a search could not be started or joined.
    SearchTask(String),
}

impl ViewerError {
    /// The message shown to the caller.
    pub open spec fn spec_message(&self) -> Seq<char> {
        match self {
            ViewerError::DocumentOpen(detail) => "Failed to load PDF: "@ + detail@,
            ViewerError::PageIndex { page, page_count } => "Failed to get page "@ + decimal(
                *page as nat,
            ) + ": the document has "@ + decimal(*page_count as nat) + " page(s)"@,
            ViewerError::Render(detail) => "Failed to render page: "@ + detail@,
            ViewerError::TextExtraction(detail) => "Failed to extract text: "@ + detail@,
            ViewerError::SearchTask(detail) => "Search task failed: "@ + detail@,
        }
    }

    /// The message shown to the caller.
    pub fn message(&self) -> (m: String)
        ensures
            m@ == self.spec_message(),
    {
        match self {
            ViewerError::DocumentOpen(detail) => {
                String::from_str("Failed to load PDF: ").concat(detail.as_str())
            },
            ViewerError::PageIndex { page, page_count } => {
                let mut m = String::from_str("Failed to get page ");
                push_decimal(&mut m, *page as u128);
                m.append(": the document has ");
                push_decimal(&mut m, *page_count as u128);
                m.append(" page(s)");
                m
            },
            ViewerError::Render(detail) => {
                String::from_str("Failed to render page: ").concat(detail.as_str())
            },
            ViewerError::TextExtraction(detail) => {
                String::from_str("Failed to extract text: ").concat(detail.as_str())
            },
            ViewerError::SearchTask(detail) => {
                String::from_str("Search task failed: ").concat(detail.as_str())
            },
        }
    }
}

/// The zero-based index of a page by its number alone, for an engine that
/// is left to judge whether the document has the page: the number less
/// one, and none for the number zero, which no page has.
pub fn index_of_page(page: u32) -> (index: Option<u32>)
    ensures
        match index {
            Some(i) => page >= 1 && i == page - 1,
            None => page == 0,
        },
{
    if page >= 1 {
        Some(page - 1)
    } else {
        None
    }
}

/// The zero-based index that the document engine knows a page by. A page
/// number is valid if it is at least one and at most the page count; any
/// other is refused with `PageIndex`.
pub fn page_index(page: u32, page_count: u32) -> (r: Result<u32, ViewerError>)
    ensures
        match r {
            Ok(index) => 1 <= page <= page_count && index == page - 1,
            Err(e) => !(1 <= page <= page_count) && e == (ViewerError::PageIndex {
                page,
                page_count,
            }),
        },
{
    if 1 <= page && page <= page_count {
        Ok(page - 1)
    } else {
        Err(ViewerError::PageIndex { page, page_count })
    }
}

} // verus!
