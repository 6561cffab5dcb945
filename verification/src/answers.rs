//! What the service scripts answer, read leniently: a field that an answer
//! lacks, or holds in another shape than expected, takes its default.

use vstd::prelude::*;
use vstd::string::*;
use crate::strings::texts;

verus! {

/// A count as 32 bits; a larger count keeps its low 32 bits.
pub open spec fn low_bits(count: u64) -> u32 {
    (count % 0x1_0000_0000) as u32
}

/// A count that may be missing, as 32 bits: zero where it is missing.
pub open spec fn count_or_zero(count: Option<u64>) -> u32 {
    match count {
        Some(n) => low_bits(n),
        None => 0,
    }
}

/// A size that may be missing: zero where it is missing.
pub open spec fn size_or_zero(size: Option<u64>) -> u64 {
    match size {
        Some(n) => n,
        None => 0,
    }
}

/// A text that may be missing: empty where it is missing.
pub open spec fn text_or_empty(text: Option<String>) -> Seq<char> {
    match text {
        Some(t) => t@,
        None => Seq::empty(),
    }
}

/// The entries of a list that are text, in order. A missing list has none.
pub open spec fn texts_of(list: Option<Vec<Option<String>>>) -> Seq<Seq<char>> {
    match list {
        Some(entries) => entries@.filter_map(
            |e: Option<String>|
                match e {
                    Some(t) => Some(t@),
                    None => None,
                },
        ),
        None => Seq::empty(),
    }
}

fn to_count(count: Option<u64>) -> (n: u32)
    ensures
        n == count_or_zero(count),
{
    match count {
        Some(c) => (c % 0x1_0000_0000) as u32,
        None => 0,
    }
}

fn to_size(size: Option<u64>) -> (n: u64)
    ensures
        n == size_or_zero(size),
{
    match size {
        Some(s) => s,
        None => 0,
    }
}

fn to_text(text: Option<String>) -> (t: String)
    ensures
        t@ == text_or_empty(text),
{
    match text {
        Some(t) => t,
        None => String::new(),
    }
}

fn to_flag(flag: Option<bool>) -> (on: bool)
    ensures
        on == (flag == Some(true)),
{
    match flag {
        Some(f) => f,
        None => false,
    }
}

/// Keeps the entries of a list that are text.
pub fn keep_texts(list: Vec<Option<String>>) -> (kept: Vec<String>)
    ensures
        texts(kept@) == texts_of(Some(list)),
{
    let ghost pick = |e: Option<String>|
        match e {
            Some(t) => Some(t@),
            None => None,
        };
    let mut kept: Vec<String> = Vec::new();
    let n = list.len();
    let mut i: usize = 0;
    while i < n
        invariant
            n == list@.len(),
            i <= n,
            pick == |e: Option<String>|
                match e {
                    Some(t) => Some(t@),
                    None => None,
                },
            texts(kept@) == list@.take(i as int).filter_map(pick),
        decreases n - i,
    {
        proof {
            list@.lemma_filter_map_take_succ(pick, i as int);
        }
        match &list[i] {
            Some(t) => {
                let copy = t.clone();
                kept.push(copy);
            },
            None => {},
        }
        i += 1;
    }
    assert(list@.take(n as int) =~= list@);
    kept
}

/// The outcome of embedding annotations in a document.
#[derive(Clone, Debug, PartialEq, Eq)]
pub struct AnnotationEmbedResult {
    pub output_path: String,
    /// The number of annotations embedded.
    pub total: u32,
    /// What went wrong with single annotations.
    pub errors: Vec<String>,
}

impl AnnotationEmbedResult {
    /// The outcome from the fields of the script's answer: the count is
    /// zero and the errors are none where the answer lacks them.
    pub fn from_answer(
        output_path: String,
        total: Option<u64>,
        errors: Option<Vec<Option<String>>>,
    ) -> (result: AnnotationEmbedResult)
        ensures
            result.output_path == output_path,
            result.total == count_or_zero(total),
            texts(result.errors@) == texts_of(errors),
    {
        let kept = match errors {
            Some(list) => keep_texts(list),
            None => {
                let none: Vec<String> = Vec::new();
                none
            },
        };
        AnnotationEmbedResult { output_path, total: to_count(total), errors: kept }
    }
}

/// The outcome of exporting annotations to an XFDF file.
#[derive(Clone, Debug, PartialEq, Eq)]
pub struct XfdfExportResult {
    pub output_path: String,
    /// The number of annotations exported.
    pub exported: u32,
}

impl XfdfExportResult {
    /// The outcome from the count in the script's answer, zero where the
    /// answer lacks it.
    pub fn from_answer(output_path: String, exported: Option<u64>) -> (result: XfdfExportResult)
        ensures
            result.output_path == output_path,
            result.exported == count_or_zero(exported),
    {
        XfdfExportResult { output_path, exported: to_count(exported) }
    }
}

/// A file embedded in a document.
#[derive(Clone, Debug, PartialEq, Eq)]
pub struct AttachmentInfo {
    pub index: u32,
    pub name: String,
    pub filename: String,
    pub size: u64,
    pub length: u64,
    pub created: String,
    pub modified: String,
    pub description: String,
}

/// The fields of an embedded file as the script's answer holds them.
#[derive(Clone, Debug, PartialEq, Eq)]
pub struct AttachmentFields {
    pub index: Option<u64>,
    pub name: Option<String>,
    pub filename: Option<String>,
    pub size: Option<u64>,
    pub length: Option<u64>,
    pub created: Option<String>,
    pub modified: Option<String>,
    pub description: Option<String>,
}

impl AttachmentInfo {
    /// The file from the fields of the script's answer: a missing number is
    /// zero, a missing text empty.
    pub fn from_answer(fields: AttachmentFields) -> (info: AttachmentInfo)
        ensures
            info.index == count_or_zero(fields.index),
            info.name@ == text_or_empty(fields.name),
            info.filename@ == text_or_empty(fields.filename),
            info.size == size_or_zero(fields.size),
            info.length == size_or_zero(fields.length),
            info.created@ == text_or_empty(fields.created),
            info.modified@ == text_or_empty(fields.modified),
            info.description@ == text_or_empty(fields.description),
    {
        AttachmentInfo {
            index: to_count(fields.index),
            name: to_text(fields.name),
            filename: to_text(fields.filename),
            size: to_size(fields.size),
            length: to_size(fields.length),
            created: to_text(fields.created),
            modified: to_text(fields.modified),
            description: to_text(fields.description),
        }
    }
}

/// The outcome of writing an embedded file out.
#[derive(Clone, Debug, PartialEq, Eq)]
pub struct AttachmentExtractResult {
    pub success: bool,
    pub path: String,
    pub name: String,
    pub size: u64,
}

impl AttachmentExtractResult {
    /// The outcome from the fields of the script's answer: success only
    /// where the answer says so, a missing text empty, a missing size zero.
    pub fn from_answer(
        success: Option<bool>,
        path: Option<String>,
        name: Option<String>,
        size: Option<u64>,
    ) -> (result: AttachmentExtractResult)
        ensures
            result.success == (success == Some(true)),
            result.path@ == text_or_empty(path),
            result.name@ == text_or_empty(name),
            result.size == size_or_zero(size),
    {
        AttachmentExtractResult {
            success: to_flag(success),
            path: to_text(path),
            name: to_text(name),
            size: to_size(size),
        }
    }
}

/// The complaint of an answer. `error` is the answer's `error` field if it
/// has one: its text, or `None` where the field holds no text. An answer
/// without the field has no complaint; one whose field holds no text
/// complains of an unknown error.
pub fn answer_error(error: Option<Option<String>>) -> (complaint: Option<String>)
    ensures
        match error {
            Some(Some(text)) => complaint == Some(text),
            Some(None) => complaint matches Some(c) && c@ == "Unknown error"@,
            None => complaint is None,
        },
{
    match error {
        Some(Some(text)) => Some(text),
        Some(None) => Some(String::from_str("Unknown error")),
        None => None,
    }
}

/// The outcome of filling a form.
#[derive(Clone, Debug, PartialEq, Eq)]
pub struct FormFillResult {
    pub success: bool,
    pub filled_count: u32,
    pub errors: Option<Vec<String>>,
    pub output_path: String,
}

impl FormFillResult {
    /// The outcome from the fields of the script's answer: success only
    /// where the answer says so, a missing count zero, a missing path
    /// empty; the errors are the texts of the answer's list, and missing
    /// where the answer has no list.
    pub fn from_answer(
        success: Option<bool>,
        filled_count: Option<u64>,
        errors: Option<Vec<Option<String>>>,
        output_path: Option<String>,
    ) -> (result: FormFillResult)
        ensures
            result.success == (success == Some(true)),
            result.filled_count == count_or_zero(filled_count),
            result.errors is Some <==> errors is Some,
            result.errors matches Some(kept) ==> texts(kept@) == texts_of(errors),
            result.output_path@ == text_or_empty(output_path),
    {
        FormFillResult {
            success: to_flag(success),
            filled_count: to_count(filled_count),
            errors: match errors {
                Some(list) => Some(keep_texts(list)),
                None => None,
            },
            output_path: to_text(output_path),
        }
    }
}

/// Whether packages are installed, and which are missing.
#[derive(Clone, Debug, PartialEq, Eq)]
pub struct PackageCheckResult {
    pub all_installed: bool,
    pub missing: Vec<String>,
}

impl PackageCheckResult {
    /// The outcome of a check that found `missing` missing: all packages
    /// are installed exactly if none is missing.
    pub fn from_missing(missing: Vec<String>) -> (result: PackageCheckResult)
        ensures
            result.missing == missing,
            result.all_installed == (missing@.len() == 0),
    {
        PackageCheckResult { all_installed: missing.len() == 0, missing }
    }
}

} // verus!
