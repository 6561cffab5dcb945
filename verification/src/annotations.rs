//! Where the annotations of a document are kept on disk.

use vstd::prelude::*;
use vstd::string::*;

verus! {

/// The version of the annotations file format.
pub const ANNOTATIONS_VERSION: u32 = 1;

/// The name of the file that keeps the annotations of a document: hidden,
/// beside the document, named after it.
pub open spec fn annotations_name(document_name: Seq<char>) -> Seq<char> {
    "."@ + document_name + ".annotations.json"@
}

/// The name of the annotations file of the document with file name
/// `document_name`.
pub fn annotations_file_name(document_name: &str) -> (name: String)
    ensures
        name@ == annotations_name(document_name@),
{
    let mut name = String::from_str(".");
    name.append(document_name);
    name.append(".annotations.json");
    name
}

} // verus!
