//! What a document reports of itself: its pages, their sizes and its
//! descriptive fields.

use vstd::prelude::*;
use crate::geometry::{PageSize, LETTER_HEIGHT, LETTER_WIDTH};

verus! {

/// A document and the sizes of its pages.
#[derive(Clone, Debug, PartialEq, Eq)]
pub struct PdfInfo {
    pub path: String,
    pub num_pages: u32,
    pub page_sizes: Vec<PageSize>,
}

/// The descriptive fields of a document. A field that the document lacks,
/// or holds as empty text, is `None`.
#[derive(Clone, Debug, PartialEq, Eq)]
pub struct PdfMetadata {
    /// Format and version of the document.
    pub format: Option<String>,
    /// How the document is encrypted.
    pub encryption: Option<String>,
    pub title: Option<String>,
    pub author: Option<String>,
    pub subject: Option<String>,
    pub keywords: Option<String>,
    /// The software that created the document.
    pub creator: Option<String>,
    /// The software that produced the file.
    pub producer: Option<String>,
    /// The creation date, as the document holds it.
    pub creation_date: Option<String>,
    /// The date of the last change, as the document holds it.
    pub mod_date: Option<String>,
    pub page_count: u32,
    /// The size of the file in bytes.
    pub file_size: u64,
}

/// The descriptive fields of a document as its engine hands them out: for
/// each field the text, or `None` where the engine has none.
#[derive(Clone, Debug, PartialEq, Eq)]
pub struct MetadataFields {
    pub format: Option<String>,
    pub encryption: Option<String>,
    pub title: Option<String>,
    pub author: Option<String>,
    pub subject: Option<String>,
    pub keywords: Option<String>,
    pub creator: Option<String>,
    pub producer: Option<String>,
    pub creation_date: Option<String>,
    pub mod_date: Option<String>,
}

/// The size reported for the page at `index`: the measured size, or US
/// Letter for a page that could not be measured.
pub open spec fn reported_size(measured: Seq<Option<PageSize>>, index: int) -> PageSize {
    if 0 <= index < measured.len() && measured[index] is Some {
        measured[index]->0
    } else {
        PageSize { width: LETTER_WIDTH, height: LETTER_HEIGHT }
    }
}

/// The text of a field that counts as present: there is text and it is not
/// empty.
pub open spec fn present_text(value: Option<String>) -> Option<Seq<char>> {
    match value {
        Some(text) => if text@.len() > 0 {
            Some(text@)
        } else {
            None
        },
        None => None,
    }
}

/// The characters of a field, if it is there.
pub open spec fn text_of(value: Option<String>) -> Option<Seq<char>> {
    match value {
        Some(text) => Some(text@),
        None => None,
    }
}

/// Keeps a field that holds text and drops one that is missing or empty.
pub fn present(value: Option<String>) -> (kept: Option<String>)
    ensures
        text_of(kept) == present_text(value),
{
    match value {
        Some(text) => {
            if text.as_str().is_empty() {
                None
            } else {
                Some(text)
            }
        },
        None => None,
    }
}

impl PdfInfo {
    /// The description of a document with `num_pages` pages. `measured`
    /// holds the size of each page by its zero-based index, or `None` for a
    /// page that could not be loaded; such a page, and any page that
    /// `measured` does not reach, is reported as US Letter.
    pub fn from_pages(path: String, num_pages: u32, measured: &Vec<Option<PageSize>>) -> (info:
        PdfInfo)
        ensures
            info.path == path,
            info.num_pages == num_pages,
            info.page_sizes@.len() == num_pages,
            forall|i: int|
                0 <= i < num_pages ==> #[trigger] info.page_sizes@[i] == reported_size(
                    measured@,
                    i,
                ),
    {
        let mut page_sizes: Vec<PageSize> = Vec::new();
        let mut i: u32 = 0;
        while i < num_pages
            invariant
                i <= num_pages,
                page_sizes@.len() == i,
                forall|k: int|
                    0 <= k < i ==> #[trigger] page_sizes@[k] == reported_size(measured@, k),
            decreases num_pages - i,
        {
            let size = if (i as usize) < measured.len() {
                match measured[i as usize] {
                    Some(size) => size,
                    None => PageSize::letter(),
                }
            } else {
                PageSize::letter()
            };
            page_sizes.push(size);
            i += 1;
        }
        PdfInfo { path, num_pages, page_sizes }
    }
}

impl PdfMetadata {
    /// The metadata of a document from the fields that its engine hands
    /// out. Missing and empty fields are reported as missing. A file whose
    /// size could not be read is reported with size zero.
    pub fn from_fields(fields: MetadataFields, page_count: u32, file_size: Option<u64>) -> (meta:
        PdfMetadata)
        ensures
            text_of(meta.format) == present_text(fields.format),
            text_of(meta.encryption) == present_text(fields.encryption),
            text_of(meta.title) == present_text(fields.title),
            text_of(meta.author) == present_text(fields.author),
            text_of(meta.subject) == present_text(fields.subject),
            text_of(meta.keywords) == present_text(fields.keywords),
            text_of(meta.creator) == present_text(fields.creator),
            text_of(meta.producer) == present_text(fields.producer),
            text_of(meta.creation_date) == present_text(fields.creation_date),
            text_of(meta.mod_date) == present_text(fields.mod_date),
            meta.page_count == page_count,
            meta.file_size == match file_size {
                Some(size) => size,
                None => 0,
            },
    {
        PdfMetadata {
            format: present(fields.format),
            encryption: present(fields.encryption),
            title: present(fields.title),
            author: present(fields.author),
            subject: present(fields.subject),
            keywords: present(fields.keywords),
            creator: present(fields.creator),
            producer: present(fields.producer),
            creation_date: present(fields.creation_date),
            mod_date: present(fields.mod_date),
            page_count,
            file_size: match file_size {
                Some(size) => size,
                None => 0,
            },
        }
    }
}

} // verus!
