//! The calls to the document service scripts: for each service the script
//! and the arguments that ask for it, and what some of the scripts answer.
//!
//! Numbers with a fraction are handed in as text, in the notation that the
//! scripts read.

use vstd::prelude::*;
use vstd::string::*;
use crate::decimal::{decimal, push_decimal, signed_decimal, signed_decimal_string};
use crate::strings::{
    copy_strings,
    ends_with,
    has_prefix,
    has_suffix,
    lines_of,
    push_all,
    push_option,
    push_text,
    push_text_if,
    pushed_if,
    slice_text,
    slice_texts,
    split_lines,
    starts_with,
    texts,
    trimmed_of,
    with_option,
};

verus! {

/// A call of a service script: the file name of the script and its
/// arguments in order.
#[derive(Clone, Debug, PartialEq, Eq)]
pub struct ServiceCall {
    pub script: String,
    pub args: Vec<String>,
}

/// What a `ServiceCall` holds.
pub struct ServiceCallView {
    pub script: Seq<char>,
    pub args: Seq<Seq<char>>,
}

impl View for ServiceCall {
    type V = ServiceCallView;

    open spec fn view(&self) -> ServiceCallView {
        ServiceCallView { script: self.script@, args: texts(self.args@) }
    }
}

/// The call of `script` with `args`.
pub open spec fn call_of(script: Seq<char>, args: Seq<Seq<char>>) -> ServiceCallView {
    ServiceCallView { script, args }
}

fn service(script: &str, args: Vec<String>) -> (call: ServiceCall)
    ensures
        call@ == call_of(script@, texts(args@)),
{
    ServiceCall { script: String::from_str(script), args }
}

/// The text of a truth value: `true` or `false`.
pub open spec fn bool_text(value: bool) -> Seq<char> {
    if value {
        "true"@
    } else {
        "false"@
    }
}

fn bool_str(value: bool) -> (text: &'static str)
    ensures
        text@ == bool_text(value),
{
    if value {
        "true"
    } else {
        "false"
    }
}

// ---------------------------------------------------------------------------
// Annotations
// ---------------------------------------------------------------------------
/// The call that embeds the annotations of `annotations_json` in the document at
/// `input` and writes the result to `output`.
pub fn annotations_embed_in_pdf(input: &str, annotations_json: &str, output: &str) -> (call: ServiceCall)
    ensures
        call@ == call_of(
            "pdf_annotations.py"@,
            seq![
                "embed"@,
                "--input"@,
                input@,
                "--annotations"@,
                annotations_json@,
                "--output"@,
                output@,
            ],
        ),
{
    let parts = [
        "embed",
        "--input",
        input,
        "--annotations",
        annotations_json,
        "--output",
        output,
    ];
    proof {
        assert(slice_texts(parts@) =~= seq![
            "embed"@,
            "--input"@,
            input@,
            "--annotations"@,
            annotations_json@,
            "--output"@,
            output@,
        ]);
    }
    service("pdf_annotations.py", copy_strings(parts.as_slice()))
}

/// The call that reads the annotations of the document at `input`.
pub fn annotations_read_from_pdf(input: &str) -> (call: ServiceCall)
    ensures
        call@ == call_of(
            "pdf_annotations.py"@,
            seq!["read"@, "--input"@, input@],
        ),
{
    let parts = ["read", "--input", input];
    proof {
        assert(slice_texts(parts@) =~= seq!["read"@, "--input"@, input@]);
    }
    service("pdf_annotations.py", copy_strings(parts.as_slice()))
}

/// The call that exports the annotations of the document at `input` to the XFDF
/// file `output`.
pub fn annotations_export_xfdf(input: &str, output: &str) -> (call: ServiceCall)
    ensures
        call@ == call_of(
            "pdf_annotations.py"@,
            seq!["export-xfdf"@, "--input"@, input@, "--output"@, output@],
        ),
{
    let parts = ["export-xfdf", "--input", input, "--output", output];
    proof {
        assert(slice_texts(parts@) =~= seq!["export-xfdf"@, "--input"@, input@, "--output"@, output@]);
    }
    service("pdf_annotations.py", copy_strings(parts.as_slice()))
}

/// The call that imports the annotations of the XFDF file `xfdf` into the document
/// at `input` and writes the result to `output`.
pub fn annotations_import_xfdf(input: &str, xfdf: &str, output: &str) -> (call: ServiceCall)
    ensures
        call@ == call_of(
            "pdf_annotations.py"@,
            seq!["import-xfdf"@, "--input"@, input@, "--xfdf"@, xfdf@, "--output"@, output@],
        ),
{
    let parts = ["import-xfdf", "--input", input, "--xfdf", xfdf, "--output", output];
    proof {
        assert(slice_texts(parts@) =~= seq!["import-xfdf"@, "--input"@, input@, "--xfdf"@, xfdf@, "--output"@, output@]);
    }
    service("pdf_annotations.py", copy_strings(parts.as_slice()))
}

// ---------------------------------------------------------------------------
// Pages
// ---------------------------------------------------------------------------
/// The message for a merge of fewer than two documents.
pub open spec fn too_few_documents() -> Seq<char> {
    "Provide at least two PDF paths to merge."@
}

/// The call that merges the documents at `inputs`, in order, into
/// `output`. Fewer than two documents are refused.
pub fn merge_pdfs(inputs: &Vec<String>, output: &str) -> (r: Result<ServiceCall, String>)
    ensures
        match r {
            Ok(call) => inputs@.len() >= 2 && call@ == call_of(
                "pdf_pages.py"@,
                seq!["merge"@, "--output"@, output@, "--inputs"@] + texts(inputs@),
            ),
            Err(message) => inputs@.len() < 2 && message@ == too_few_documents(),
        },
{
    if inputs.len() < 2 {
        return Err(String::from_str("Provide at least two PDF paths to merge."));
    }
    let parts = ["merge", "--output", output, "--inputs"];
    proof {
        assert(slice_texts(parts@) =~= seq!["merge"@, "--output"@, output@, "--inputs"@]);
    }
    let mut args = copy_strings(parts.as_slice());
    push_all(&mut args, inputs);
    Ok(service("pdf_pages.py", args))
}

/// The message for a merge of no pages.
pub open spec fn no_pages() -> Seq<char> {
    "Provide at least one page specification."@
}

/// A page of a file as the merge script reads it: the file, a colon and
/// the page number.
pub open spec fn page_of_file(page: (String, i32)) -> Seq<char> {
    page.0@ + seq![':'] + signed_decimal(page.1 as int)
}

/// The pages of files as the merge script reads them, in order.
pub open spec fn pages_of_files(pages: Seq<(String, i32)>) -> Seq<Seq<char>> {
    pages.map_values(|p: (String, i32)| page_of_file(p))
}

/// The call that merges single pages, each given by its file and its page
/// number, in order, into `output`. An empty run of pages is refused.
pub fn merge_pages(pages: &Vec<(String, i32)>, output: &str) -> (r: Result<ServiceCall, String>)
    ensures
        match r {
            Ok(call) => pages@.len() >= 1 && call@ == call_of(
                "pdf_pages.py"@,
                seq!["merge-pages"@, "--output"@, output@, "--pages"@] + pages_of_files(pages@),
            ),
            Err(message) => pages@.len() == 0 && message@ == no_pages(),
        },
{
    if pages.len() == 0 {
        return Err(String::from_str("Provide at least one page specification."));
    }
    let parts = ["merge-pages", "--output", output, "--pages"];
    proof {
        assert(slice_texts(parts@) =~= seq!["merge-pages"@, "--output"@, output@, "--pages"@]);
    }
    let mut args = copy_strings(parts.as_slice());
    let ghost base = texts(args@);
    let n = pages.len();
    let mut i: usize = 0;
    while i < n
        invariant
            n == pages@.len(),
            i <= n,
            texts(args@) == base + pages_of_files(pages@.take(i as int)),
        decreases n - i,
    {
        let mut item = pages[i].0.clone();
        item.push(':');
        crate::decimal::push_signed_decimal(&mut item, pages[i].1 as i64);
        proof {
            assert(item@ =~= page_of_file(pages@[i as int]));
        }
        push_text(&mut args, item.as_str());
        proof {
            assert(pages_of_files(pages@.take(i as int + 1)) =~= pages_of_files(
                pages@.take(i as int),
            ).push(page_of_file(pages@[i as int])));
        }
        i += 1;
    }
    assert(pages@.take(n as int) =~= pages@);
    Ok(service("pdf_pages.py", args))
}

/// A run of strings with `name` and all of `values` appended if `values`
/// is not empty.
pub open spec fn with_list(
    strings: Seq<Seq<char>>,
    name: Seq<char>,
    values: Seq<Seq<char>>,
) -> Seq<Seq<char>> {
    if values.len() > 0 {
        strings.push(name) + values
    } else {
        strings
    }
}

fn push_list(strings: &mut Vec<String>, name: &str, values: &Vec<String>)
    ensures
        texts(final(strings)@) == with_list(texts(old(strings)@), name@, texts(values@)),
{
    if values.len() > 0 {
        push_text(strings, name);
        push_all(strings, values);
    }
}

/// The call that splits the document at `input` into files in
/// `output_dir`, by `ranges` if there are any.
pub fn split_pdf(input: &str, output_dir: &str, ranges: &Vec<String>) -> (call: ServiceCall)
    ensures
        call@ == call_of(
            "pdf_pages.py"@,
            with_list(
                seq!["split"@, "--input"@, input@, "--output-dir"@, output_dir@],
                "--ranges"@,
                texts(ranges@),
            ),
        ),
{
    let parts = ["split", "--input", input, "--output-dir", output_dir];
    proof {
        assert(slice_texts(parts@) =~= seq![
            "split"@,
            "--input"@,
            input@,
            "--output-dir"@,
            output_dir@,
        ]);
    }
    let mut args = copy_strings(parts.as_slice());
    push_list(&mut args, "--ranges", ranges);
    service("pdf_pages.py", args)
}

/// The name of the `number`-th file of a split, in `output_dir`.
pub open spec fn split_file(output_dir: Seq<char>, number: nat) -> Seq<char> {
    output_dir + "/split_"@ + decimal(number) + ".pdf"@
}

/// The number of files that a split by `ranges` ranges writes: one for each
/// range, and one if there is no range.
pub open spec fn split_count(ranges: nat) -> nat {
    if ranges == 0 {
        1
    } else {
        ranges
    }
}

/// What a split reports: the output directory, followed by the files of
/// the split, numbered from one.
pub open spec fn split_report(output_dir: Seq<char>, ranges: nat) -> Seq<Seq<char>> {
    Seq::new(
        split_count(ranges) + 1,
        |i: int|
            if i == 0 {
                output_dir
            } else {
                split_file(output_dir, i as nat)
            },
    )
}

/// The report of a split into `output_dir` by `ranges` ranges.
pub fn split_outputs(output_dir: &str, ranges: usize) -> (report: Vec<String>)
    ensures
        texts(report@) == split_report(output_dir@, ranges as nat),
{
    let count: usize = if ranges == 0 { 1 } else { ranges };
    let mut report: Vec<String> = Vec::new();
    push_text(&mut report, output_dir);
    let mut i: usize = 0;
    while i < count
        invariant
            count == split_count(ranges as nat),
            i <= count,
            texts(report@).len() == i + 1,
            forall|k: int|
                0 <= k <= i ==> #[trigger] texts(report@)[k] == split_report(
                    output_dir@,
                    ranges as nat,
                )[k],
        decreases count - i,
    {
        let mut name = String::from_str(output_dir);
        name.append("/split_");
        push_decimal(&mut name, (i + 1) as u128);
        name.append(".pdf");
        push_text(&mut report, name.as_str());
        i += 1;
    }
    report
}

/// The arguments that say how to turn pages: the rotations of single pages
/// if there are any, else the overall angle.
pub open spec fn with_rotation(
    strings: Seq<Seq<char>>,
    degrees: int,
    rotations: Seq<Seq<char>>,
) -> Seq<Seq<char>> {
    if rotations.len() > 0 {
        strings.push("--rotation"@) + rotations
    } else {
        strings.push("--degrees"@).push(signed_decimal(degrees))
    }
}

/// The call that turns the pages of the document at `input` and writes the
/// result to `output`: each page as `rotations` says, or, where there are
/// none, all pages by `degrees`.
pub fn rotate_pdf(input: &str, degrees: i32, output: &str, rotations: &Vec<String>) -> (call:
    ServiceCall)
    ensures
        call@ == call_of(
            "pdf_pages.py"@,
            with_rotation(
                seq!["rotate"@, "--input"@, input@, "--output"@, output@],
                degrees as int,
                texts(rotations@),
            ),
        ),
{
    let parts = ["rotate", "--input", input, "--output", output];
    proof {
        assert(slice_texts(parts@) =~= seq!["rotate"@, "--input"@, input@, "--output"@, output@]);
    }
    let mut args = copy_strings(parts.as_slice());
    if rotations.len() > 0 {
        push_text(&mut args, "--rotation");
        push_all(&mut args, rotations);
    } else {
        push_text(&mut args, "--degrees");
        push_text(&mut args, signed_decimal_string(degrees as i64).as_str());
    }
    service("pdf_pages.py", args)
}

// ---------------------------------------------------------------------------
// Conversion
// ---------------------------------------------------------------------------
/// The message for a conversion of no images.
pub open spec fn no_images() -> Seq<char> {
    "Provide at least one image path."@
}

/// The arguments of a conversion of images to a document.
pub open spec fn images_to_pdf_args(
    images: Seq<Seq<char>>,
    output: Seq<char>,
    page_size: Option<Seq<char>>,
    orientation: Option<Seq<char>>,
    margin: Option<Seq<char>>,
    transforms_json: Option<Seq<char>>,
) -> Seq<Seq<char>> {
    let a = seq!["images-to-pdf"@, "--output"@, output, "--inputs"@] + images;
    let b = with_option(a, "--page-size"@, page_size);
    let c = with_option(b, "--orientation"@, orientation);
    let d = with_option(c, "--margin"@, margin);
    with_option(d, "--transforms"@, transforms_json)
}

/// The call that lays the images at `images` out as the pages of a
/// document at `output`. An empty run of images is refused.
pub fn images_to_pdf(
    images: &Vec<String>,
    output: &str,
    page_size: Option<&str>,
    orientation: Option<&str>,
    margin: Option<&str>,
    transforms_json: Option<&str>,
) -> (r: Result<ServiceCall, String>)
    ensures
        match r {
            Ok(call) => images@.len() >= 1 && call@ == call_of(
                "pdf_convert.py"@,
                images_to_pdf_args(
                    texts(images@),
                    output@,
                    slice_text(page_size),
                    slice_text(orientation),
                    slice_text(margin),
                    slice_text(transforms_json),
                ),
            ),
            Err(message) => images@.len() == 0 && message@ == no_images(),
        },
{
    if images.len() == 0 {
        return Err(String::from_str("Provide at least one image path."));
    }
    let parts = ["images-to-pdf", "--output", output, "--inputs"];
    proof {
        assert(slice_texts(parts@) =~= seq!["images-to-pdf"@, "--output"@, output@, "--inputs"@]);
    }
    let mut args = copy_strings(parts.as_slice());
    push_all(&mut args, images);
    push_option(&mut args, "--page-size", page_size);
    push_option(&mut args, "--orientation", orientation);
    push_option(&mut args, "--margin", margin);
    push_option(&mut args, "--transforms", transforms_json);
    Ok(service("pdf_convert.py", args))
}

/// An optional number in decimal notation.
pub open spec fn decimal_text(value: Option<i32>) -> Option<Seq<char>> {
    match value {
        Some(v) => Some(signed_decimal(v as int)),
        None => None,
    }
}

fn push_number_option(strings: &mut Vec<String>, name: &str, value: Option<i32>)
    ensures
        texts(final(strings)@) == with_option(texts(old(strings)@), name@, decimal_text(value)),
{
    match value {
        Some(v) => {
            push_text(strings, name);
            push_text(strings, signed_decimal_string(v as i64).as_str());
        },
        None => {},
    }
}

/// The arguments of a conversion of a document to images.
pub open spec fn pdf_to_images_args(
    input: Seq<char>,
    output_dir: Seq<char>,
    format: Option<Seq<char>>,
    dpi: Option<i32>,
    pages: Option<Seq<char>>,
) -> Seq<Seq<char>> {
    let a = seq!["pdf-to-images"@, "--input"@, input, "--output-dir"@, output_dir];
    let b = with_option(a, "--format"@, format);
    let c = with_option(b, "--dpi"@, decimal_text(dpi));
    with_option(c, "--pages"@, pages)
}

/// The call that writes the pages of the document at `input` as images to
/// the directory `output_dir`.
pub fn pdf_to_images(
    input: &str,
    output_dir: &str,
    format: Option<&str>,
    dpi: Option<i32>,
    pages: Option<&str>,
) -> (call: ServiceCall)
    ensures
        call@ == call_of(
            "pdf_convert.py"@,
            pdf_to_images_args(input@, output_dir@, slice_text(format), dpi, slice_text(pages)),
        ),
{
    let parts = ["pdf-to-images", "--input", input, "--output-dir", output_dir];
    proof {
        assert(slice_texts(parts@) =~= seq![
            "pdf-to-images"@,
            "--input"@,
            input@,
            "--output-dir"@,
            output_dir@,
        ]);
    }
    let mut args = copy_strings(parts.as_slice());
    push_option(&mut args, "--format", format);
    push_number_option(&mut args, "--dpi", dpi);
    push_option(&mut args, "--pages", pages);
    service("pdf_convert.py", args)
}

/// Whether a trimmed line of a conversion's output names an image file: it
/// begins with the output directory or ends like an image file.
pub open spec fn names_image(line: Seq<char>, output_dir: Seq<char>) -> bool {
    has_prefix(line, output_dir) || has_suffix(line, ".png"@) || has_suffix(line, ".jpg"@)
        || has_suffix(line, ".webp"@) || has_suffix(line, ".tiff"@)
}

/// A line, trimmed, if it names an image file.
pub open spec fn image_line(line: Seq<char>, output_dir: Seq<char>) -> Option<Seq<char>> {
    if names_image(trimmed_of(line), output_dir) {
        Some(trimmed_of(line))
    } else {
        None
    }
}

/// The lines, trimmed, that name image files.
pub open spec fn image_lines(lines: Seq<Seq<char>>, output_dir: Seq<char>) -> Seq<Seq<char>> {
    lines.filter_map(|l: Seq<char>| image_line(l, output_dir))
}

/// The files that a conversion to images reports in its output; the
/// output directory alone if it reports none.
pub open spec fn reported_images(stdout: Seq<char>, output_dir: Seq<char>) -> Seq<Seq<char>> {
    if image_lines(lines_of(stdout), output_dir).len() == 0 {
        seq![output_dir]
    } else {
        image_lines(lines_of(stdout), output_dir)
    }
}

/// Tells whether a trimmed line names an image file.
pub fn is_image_line(line: &str, output_dir: &str) -> (names: bool)
    ensures
        names == names_image(line@, output_dir@),
{
    starts_with(line, output_dir) || ends_with(line, ".png") || ends_with(
        line,
        ".jpg",
    ) || ends_with(line, ".webp") || ends_with(line, ".tiff")
}

/// Reads the files that a conversion to images wrote from its output.
pub fn image_files(stdout: &str, output_dir: &str) -> (files: Vec<String>)
    ensures
        texts(files@) == reported_images(stdout@, output_dir@),
{
    let lines = split_lines(stdout);
    let ghost all = texts(lines@);
    let mut files: Vec<String> = Vec::new();
    let n = lines.len();
    let mut i: usize = 0;
    while i < n
        invariant
            n == lines@.len(),
            all == texts(lines@),
            i <= n,
            texts(files@) == image_lines(all.take(i as int), output_dir@),
        decreases n - i,
    {
        proof {
            all.lemma_filter_map_take_succ(|l: Seq<char>| image_line(l, output_dir@), i as int);
        }
        let line = lines[i].as_str().trim();
        if is_image_line(line, output_dir) {
            push_text(&mut files, line);
        }
        i += 1;
    }
    proof {
        assert(all.take(n as int) =~= all);
    }
    if files.len() == 0 {
        push_text(&mut files, output_dir);
    }
    files
}

// ---------------------------------------------------------------------------
// Security
// ---------------------------------------------------------------------------
/// The call that reports how the document at `input` is protected.
pub fn pdf_check_security(input: &str) -> (call: ServiceCall)
    ensures
        call@ == call_of(
            "pdf_security.py"@,
            seq!["check"@, "--input"@, input@, "--json"@],
        ),
{
    let parts = ["check", "--input", input, "--json"];
    proof {
        assert(slice_texts(parts@) =~= seq!["check"@, "--input"@, input@, "--json"@]);
    }
    service("pdf_security.py", copy_strings(parts.as_slice()))
}

/// The call that removes the protection of the document at `input` and
/// writes the result to `output`, with the password if one is needed.
pub fn pdf_unlock(input: &str, output: &str, password: Option<&str>) -> (call: ServiceCall)
    ensures
        call@ == call_of(
            "pdf_security.py"@,
            with_option(
                seq!["unlock"@, "--input"@, input@, "--output"@, output@, "--json"@],
                "--password"@,
                slice_text(password),
            ),
        ),
{
    let parts = ["unlock", "--input", input, "--output", output, "--json"];
    proof {
        assert(slice_texts(parts@) =~= seq![
            "unlock"@,
            "--input"@,
            input@,
            "--output"@,
            output@,
            "--json"@,
        ]);
    }
    let mut args = copy_strings(parts.as_slice());
    push_option(&mut args, "--password", password);
    service("pdf_security.py", args)
}

/// Whether a permission is withheld: only where the caller says no.
pub open spec fn denied(allow: Option<bool>) -> bool {
    allow == Some(false)
}

/// The arguments of an encryption.
pub open spec fn pdf_encrypt_args(
    input: Seq<char>,
    output: Seq<char>,
    user_password: Option<Seq<char>>,
    owner_password: Option<Seq<char>>,
    allow_printing: Option<bool>,
    allow_copying: Option<bool>,
    allow_modifying: Option<bool>,
) -> Seq<Seq<char>> {
    let a = seq!["encrypt"@, "--input"@, input, "--output"@, output, "--json"@];
    let b = with_option(a, "--user-password"@, user_password);
    let c = with_option(b, "--owner-password"@, owner_password);
    let d = pushed_if(c, denied(allow_printing), "--no-print"@);
    let e = pushed_if(d, denied(allow_copying), "--no-copy"@);
    pushed_if(e, denied(allow_modifying), "--no-modify"@)
}

fn is_denied(allow: Option<bool>) -> (no: bool)
    ensures
        no == denied(allow),
{
    match allow {
        Some(yes) => !yes,
        None => false,
    }
}

/// The call that encrypts the document at `input` and writes the result
/// to `output`. Printing, copying and modifying stay allowed unless the
/// caller withholds them.
pub fn pdf_encrypt(
    input: &str,
    output: &str,
    user_password: Option<&str>,
    owner_password: Option<&str>,
    allow_printing: Option<bool>,
    allow_copying: Option<bool>,
    allow_modifying: Option<bool>,
) -> (call: ServiceCall)
    ensures
        call@ == call_of(
            "pdf_security.py"@,
            pdf_encrypt_args(
                input@,
                output@,
                slice_text(user_password),
                slice_text(owner_password),
                allow_printing,
                allow_copying,
                allow_modifying,
            ),
        ),
{
    let parts = ["encrypt", "--input", input, "--output", output, "--json"];
    proof {
        assert(slice_texts(parts@) =~= seq![
            "encrypt"@,
            "--input"@,
            input@,
            "--output"@,
            output@,
            "--json"@,
        ]);
    }
    let mut args = copy_strings(parts.as_slice());
    push_option(&mut args, "--user-password", user_password);
    push_option(&mut args, "--owner-password", owner_password);
    push_text_if(&mut args, is_denied(allow_printing), "--no-print");
    push_text_if(&mut args, is_denied(allow_copying), "--no-copy");
    push_text_if(&mut args, is_denied(allow_modifying), "--no-modify");
    service("pdf_security.py", args)
}

// ---------------------------------------------------------------------------
// Signatures
// ---------------------------------------------------------------------------
/// The call that reports the digital signatures of the document at `input`.
pub fn check_pdf_signatures(input: &str) -> (call: ServiceCall)
    ensures
        call@ == call_of(
            "pdf_signatures.py"@,
            seq!["check"@, "--input"@, input@, "--json"@],
        ),
{
    let parts = ["check", "--input", input, "--json"];
    proof {
        assert(slice_texts(parts@) =~= seq!["check"@, "--input"@, input@, "--json"@]);
    }
    service("pdf_signatures.py", copy_strings(parts.as_slice()))
}

/// Where and how large a picture is placed on a page, each number as text.
#[derive(Clone, Debug, PartialEq, Eq)]
pub struct Placement {
    pub x: String,
    pub y: String,
    pub width: String,
    pub height: Option<String>,
    pub rotation: Option<String>,
    pub opacity: Option<String>,
}

/// The characters of an optional string.
pub open spec fn string_text(value: Option<String>) -> Option<Seq<char>> {
    match value {
        Some(v) => Some(v@),
        None => None,
    }
}

fn as_slice_option(value: &Option<String>) -> (out: Option<&str>)
    ensures
        slice_text(out) == string_text(*value),
{
    match value {
        Some(v) => Some(v.as_str()),
        None => None,
    }
}

/// The arguments of a graphical signature.
pub open spec fn signature_args(
    input: Seq<char>,
    output: Seq<char>,
    image_b64: Seq<char>,
    page: int,
    at: Placement,
    fit: Option<Seq<char>>,
) -> Seq<Seq<char>> {
    let a = seq![
        "apply"@,
        "--input"@,
        input,
        "--output"@,
        output,
        "--image-b64"@,
        image_b64,
        "--page"@,
        signed_decimal(page),
        "--x"@,
        at.x@,
        "--y"@,
        at.y@,
        "--width"@,
        at.width@,
        "--json"@,
    ];
    let b = with_option(a, "--height"@, string_text(at.height));
    let c = with_option(b, "--rotation"@, string_text(at.rotation));
    let d = with_option(c, "--opacity"@, string_text(at.opacity));
    with_option(d, "--fit"@, fit)
}

/// The call that draws the picture `image_b64` as a signature on page
/// `page` of the document at `input` and writes the result to `output`.
pub fn apply_graphical_signature(
    input: &str,
    output: &str,
    image_b64: &str,
    page: i32,
    at: &Placement,
    fit: Option<&str>,
) -> (call: ServiceCall)
    ensures
        call@ == call_of(
            "pdf_signatures.py"@,
            signature_args(input@, output@, image_b64@, page as int, *at, slice_text(fit)),
        ),
{
    let page_text = signed_decimal_string(page as i64);
    let parts = [
        "apply",
        "--input",
        input,
        "--output",
        output,
        "--image-b64",
        image_b64,
        "--page",
        page_text.as_str(),
        "--x",
        at.x.as_str(),
        "--y",
        at.y.as_str(),
        "--width",
        at.width.as_str(),
        "--json",
    ];
    proof {
        assert(slice_texts(parts@) =~= seq![
            "apply"@,
            "--input"@,
            input@,
            "--output"@,
            output@,
            "--image-b64"@,
            image_b64@,
            "--page"@,
            signed_decimal(page as int),
            "--x"@,
            at.x@,
            "--y"@,
            at.y@,
            "--width"@,
            at.width@,
            "--json"@,
        ]);
    }
    let mut args = copy_strings(parts.as_slice());
    push_option(&mut args, "--height", as_slice_option(&at.height));
    push_option(&mut args, "--rotation", as_slice_option(&at.rotation));
    push_option(&mut args, "--opacity", as_slice_option(&at.opacity));
    push_option(&mut args, "--fit", fit);
    service("pdf_signatures.py", args)
}

// ---------------------------------------------------------------------------
// Layers
// ---------------------------------------------------------------------------
/// The call that lists the layers of the document at `input`.
pub fn pdf_get_layers(input: &str) -> (call: ServiceCall)
    ensures
        call@ == call_of(
            "pdf_layers.py"@,
            seq!["list"@, "--input"@, input@, "--json"@],
        ),
{
    let parts = ["list", "--input", input, "--json"];
    proof {
        assert(slice_texts(parts@) =~= seq!["list"@, "--input"@, input@, "--json"@]);
    }
    service("pdf_layers.py", copy_strings(parts.as_slice()))
}

/// The arguments that name a layer: by its name if there is one, else by
/// its object number if there is one.
pub open spec fn with_layer(
    strings: Seq<Seq<char>>,
    layer_name: Option<Seq<char>>,
    layer_xref: Option<i32>,
) -> Seq<Seq<char>> {
    match layer_name {
        Some(name) => strings.push("--layer"@).push(name),
        None => with_option(strings, "--xref"@, decimal_text(layer_xref)),
    }
}

/// The call that shows or hides a layer of the document at `input` and
/// writes the result to `output`.
pub fn pdf_set_layer(
    input: &str,
    output: &str,
    layer_name: Option<&str>,
    layer_xref: Option<i32>,
    visible: bool,
) -> (call: ServiceCall)
    ensures
        call@ == call_of(
            "pdf_layers.py"@,
            with_layer(
                seq![
                    "toggle"@,
                    "--input"@,
                    input@,
                    "--output"@,
                    output@,
                    "--visible"@,
                    bool_text(visible),
                    "--json"@,
                ],
                slice_text(layer_name),
                layer_xref,
            ),
        ),
{
    let parts = [
        "toggle",
        "--input",
        input,
        "--output",
        output,
        "--visible",
        bool_str(visible),
        "--json",
    ];
    proof {
        assert(slice_texts(parts@) =~= seq![
            "toggle"@,
            "--input"@,
            input@,
            "--output"@,
            output@,
            "--visible"@,
            bool_text(visible),
            "--json"@,
        ]);
    }
    let mut args = copy_strings(parts.as_slice());
    match layer_name {
        Some(name) => {
            push_text(&mut args, "--layer");
            push_text(&mut args, name);
        },
        None => {
            push_number_option(&mut args, "--xref", layer_xref);
        },
    }
    service("pdf_layers.py", args)
}

// ---------------------------------------------------------------------------
// Redaction
// ---------------------------------------------------------------------------
/// The call that lists the redaction marks of the document at `input` that
/// have not been applied.
pub fn pdf_get_pending_redactions(input: &str) -> (call: ServiceCall)
    ensures
        call@ == call_of(
            "pdf_redaction.py"@,
            seq!["pending"@, "--input"@, input@, "--json"@],
        ),
{
    let parts = ["pending", "--input", input, "--json"];
    proof {
        assert(slice_texts(parts@) =~= seq!["pending"@, "--input"@, input@, "--json"@]);
    }
    service("pdf_redaction.py", copy_strings(parts.as_slice()))
}

/// An area of a page by two corners, each number as text.
#[derive(Clone, Debug, PartialEq, Eq)]
pub struct Area {
    pub x0: String,
    pub y0: String,
    pub x1: String,
    pub y1: String,
}

/// The call that marks an area of page `page` of the document at `input`
/// for redaction, with an overlay text if one is given, and writes the
/// result to `output`.
pub fn pdf_add_redaction(input: &str, output: &str, page: i32, area: &Area, text: Option<&str>) -> (call:
    ServiceCall)
    ensures
        call@ == call_of(
            "pdf_redaction.py"@,
            with_option(
                seq![
                    "mark"@,
                    "--input"@,
                    input@,
                    "--output"@,
                    output@,
                    "--page"@,
                    signed_decimal(page as int),
                    "--x0"@,
                    area.x0@,
                    "--y0"@,
                    area.y0@,
                    "--x1"@,
                    area.x1@,
                    "--y1"@,
                    area.y1@,
                    "--json"@,
                ],
                "--text"@,
                slice_text(text),
            ),
        ),
{
    let page_text = signed_decimal_string(page as i64);
    let parts = [
        "mark",
        "--input",
        input,
        "--output",
        output,
        "--page",
        page_text.as_str(),
        "--x0",
        area.x0.as_str(),
        "--y0",
        area.y0.as_str(),
        "--x1",
        area.x1.as_str(),
        "--y1",
        area.y1.as_str(),
        "--json",
    ];
    proof {
        assert(slice_texts(parts@) =~= seq![
            "mark"@,
            "--input"@,
            input@,
            "--output"@,
            output@,
            "--page"@,
            signed_decimal(page as int),
            "--x0"@,
            area.x0@,
            "--y0"@,
            area.y0@,
            "--x1"@,
            area.x1@,
            "--y1"@,
            area.y1@,
            "--json"@,
        ]);
    }
    let mut args = copy_strings(parts.as_slice());
    push_option(&mut args, "--text", text);
    service("pdf_redaction.py", args)
}

/// The call that applies the redaction marks of the document at `input`
/// for good and writes the result to `output`. Images and vector graphics
/// under the marks are removed too unless the caller spares them.
pub fn pdf_apply_redactions(
    input: &str,
    output: &str,
    redact_images: bool,
    redact_graphics: bool,
) -> (call: ServiceCall)
    ensures
        call@ == call_of(
            "pdf_redaction.py"@,
            pushed_if(
                pushed_if(
                    seq!["apply"@, "--input"@, input@, "--output"@, output@, "--json"@],
                    !redact_images,
                    "--no-images"@,
                ),
                !redact_graphics,
                "--no-graphics"@,
            ),
        ),
{
    let parts = ["apply", "--input", input, "--output", output, "--json"];
    proof {
        assert(slice_texts(parts@) =~= seq![
            "apply"@,
            "--input"@,
            input@,
            "--output"@,
            output@,
            "--json"@,
        ]);
    }
    let mut args = copy_strings(parts.as_slice());
    push_text_if(&mut args, !redact_images, "--no-images");
    push_text_if(&mut args, !redact_graphics, "--no-graphics");
    service("pdf_redaction.py", args)
}

/// The call that checks whether an area of page `page` of the document at
/// `input` is free of content.
pub fn pdf_verify_redaction(input: &str, page: i32, area: &Area) -> (call: ServiceCall)
    ensures
        call@ == call_of(
            "pdf_redaction.py"@,
            seq![
                "verify"@,
                "--input"@,
                input@,
                "--page"@,
                signed_decimal(page as int),
                "--x0"@,
                area.x0@,
                "--y0"@,
                area.y0@,
                "--x1"@,
                area.x1@,
                "--y1"@,
                area.y1@,
                "--json"@,
            ],
        ),
{
    let page_text = signed_decimal_string(page as i64);
    let parts = [
        "verify",
        "--input",
        input,
        "--page",
        page_text.as_str(),
        "--x0",
        area.x0.as_str(),
        "--y0",
        area.y0.as_str(),
        "--x1",
        area.x1.as_str(),
        "--y1",
        area.y1.as_str(),
        "--json",
    ];
    proof {
        assert(slice_texts(parts@) =~= seq![
            "verify"@,
            "--input"@,
            input@,
            "--page"@,
            signed_decimal(page as int),
            "--x0"@,
            area.x0@,
            "--y0"@,
            area.y0@,
            "--x1"@,
            area.x1@,
            "--y1"@,
            area.y1@,
            "--json"@,
        ]);
    }
    service("pdf_redaction.py", copy_strings(parts.as_slice()))
}

// ---------------------------------------------------------------------------
// Sanitization
// ---------------------------------------------------------------------------
/// The call that reports what of the document at `input` a sanitization could
/// remove.
pub fn pdf_sanitization_info(input: &str) -> (call: ServiceCall)
    ensures
        call@ == call_of(
            "pdf_sanitize.py"@,
            seq!["info"@, "--input"@, input@, "--json"@],
        ),
{
    let parts = ["info", "--input", input, "--json"];
    proof {
        assert(slice_texts(parts@) =~= seq!["info"@, "--input"@, input@, "--json"@]);
    }
    service("pdf_sanitize.py", copy_strings(parts.as_slice()))
}

/// What a sanitization removes.
#[derive(Clone, Copy, Debug, PartialEq, Eq, Structural)]
pub struct SanitizeChoice {
    pub remove_metadata: bool,
    pub remove_javascript: bool,
    pub remove_embedded_files: bool,
    pub remove_links: bool,
    pub remove_annotations: bool,
}

/// The arguments of a sanitization. Metadata, scripts and embedded files
/// go unless they are kept; links and annotations stay unless they are
/// removed.
pub open spec fn sanitize_args(
    input: Seq<char>,
    output: Seq<char>,
    choice: SanitizeChoice,
) -> Seq<Seq<char>> {
    let a = seq!["clean"@, "--input"@, input, "--output"@, output, "--json"@];
    let b = pushed_if(a, !choice.remove_metadata, "--keep-metadata"@);
    let c = pushed_if(b, !choice.remove_javascript, "--keep-javascript"@);
    let d = pushed_if(c, !choice.remove_embedded_files, "--keep-embedded"@);
    let e = pushed_if(d, choice.remove_links, "--remove-links"@);
    pushed_if(e, choice.remove_annotations, "--remove-annotations"@)
}

/// The call that sanitizes the document at `input` and writes the result
/// to `output`.
pub fn pdf_sanitize(input: &str, output: &str, choice: SanitizeChoice) -> (call: ServiceCall)
    ensures
        call@ == call_of("pdf_sanitize.py"@, sanitize_args(input@, output@, choice)),
{
    let parts = ["clean", "--input", input, "--output", output, "--json"];
    proof {
        assert(slice_texts(parts@) =~= seq![
            "clean"@,
            "--input"@,
            input@,
            "--output"@,
            output@,
            "--json"@,
        ]);
    }
    let mut args = copy_strings(parts.as_slice());
    push_text_if(&mut args, !choice.remove_metadata, "--keep-metadata");
    push_text_if(&mut args, !choice.remove_javascript, "--keep-javascript");
    push_text_if(&mut args, !choice.remove_embedded_files, "--keep-embedded");
    push_text_if(&mut args, choice.remove_links, "--remove-links");
    push_text_if(&mut args, choice.remove_annotations, "--remove-annotations");
    service("pdf_sanitize.py", args)
}

// ---------------------------------------------------------------------------
// Editing
// ---------------------------------------------------------------------------
/// The call that applies the edits of `edits_json` to the document at `input`
/// and writes the result to `output`.
pub fn pdf_apply_edits(input: &str, output: &str, edits_json: &str) -> (call: ServiceCall)
    ensures
        call@ == call_of(
            "pdf_edit.py"@,
            seq![
                "apply-edits"@,
                "--input"@,
                input@,
                "--output"@,
                output@,
                "--edits"@,
                edits_json@,
                "--json"@,
            ],
        ),
{
    let parts = [
        "apply-edits",
        "--input",
        input,
        "--output",
        output,
        "--edits",
        edits_json,
        "--json",
    ];
    proof {
        assert(slice_texts(parts@) =~= seq![
            "apply-edits"@,
            "--input"@,
            input@,
            "--output"@,
            output@,
            "--edits"@,
            edits_json@,
            "--json"@,
        ]);
    }
    service("pdf_edit.py", copy_strings(parts.as_slice()))
}

/// The call that reports the fonts of the document at `input`.
pub fn pdf_analyze_fonts(input: &str) -> (call: ServiceCall)
    ensures
        call@ == call_of(
            "pdf_edit.py"@,
            seq!["analyze-fonts"@, "--input"@, input@, "--json"@],
        ),
{
    let parts = ["analyze-fonts", "--input", input, "--json"];
    proof {
        assert(slice_texts(parts@) =~= seq!["analyze-fonts"@, "--input"@, input@, "--json"@]);
    }
    service("pdf_edit.py", copy_strings(parts.as_slice()))
}

/// The font of inserted text where the caller names none.
pub open spec fn font_or_default(font: Option<Seq<char>>) -> Seq<char> {
    match font {
        Some(f) => f,
        None => "helv"@,
    }
}

/// The size of inserted text where the caller names none.
pub open spec fn size_or_default(size: Option<Seq<char>>) -> Seq<char> {
    match size {
        Some(s) => s,
        None => "12"@,
    }
}

/// The call that writes `text` at a point of page `page` of the document
/// at `input` and writes the result to `output`. Without a font the text is
/// set in `helv`, without a size in 12 points.
pub fn pdf_insert_text(
    input: &str,
    output: &str,
    page: i32,
    x: &str,
    y: &str,
    text: &str,
    font: Option<&str>,
    size: Option<&str>,
) -> (call: ServiceCall)
    ensures
        call@ == call_of(
            "pdf_edit.py"@,
            seq![
                "insert-text"@,
                "--input"@,
                input@,
                "--output"@,
                output@,
                "--page"@,
                signed_decimal(page as int),
                "--x"@,
                x@,
                "--y"@,
                y@,
                "--text"@,
                text@,
                "--font"@,
                font_or_default(slice_text(font)),
                "--size"@,
                size_or_default(slice_text(size)),
                "--json"@,
            ],
        ),
{
    let page_text = signed_decimal_string(page as i64);
    let font_text: &str = match font {
        Some(f) => f,
        None => "helv",
    };
    let size_text: &str = match size {
        Some(s) => s,
        None => "12",
    };
    let parts = [
        "insert-text",
        "--input",
        input,
        "--output",
        output,
        "--page",
        page_text.as_str(),
        "--x",
        x,
        "--y",
        y,
        "--text",
        text,
        "--font",
        font_text,
        "--size",
        size_text,
        "--json",
    ];
    proof {
        assert(slice_texts(parts@) =~= seq![
            "insert-text"@,
            "--input"@,
            input@,
            "--output"@,
            output@,
            "--page"@,
            signed_decimal(page as int),
            "--x"@,
            x@,
            "--y"@,
            y@,
            "--text"@,
            text@,
            "--font"@,
            font_or_default(slice_text(font)),
            "--size"@,
            size_or_default(slice_text(size)),
            "--json"@,
        ]);
    }
    service("pdf_edit.py", copy_strings(parts.as_slice()))
}

/// The call that replaces the text in an area of page `page` of the
/// document at `input` by `text` and writes the result to `output`.
pub fn pdf_replace_text(input: &str, output: &str, page: i32, area: &Area, text: &str) -> (call:
    ServiceCall)
    ensures
        call@ == call_of(
            "pdf_edit.py"@,
            seq![
                "replace-text"@,
                "--input"@,
                input@,
                "--output"@,
                output@,
                "--page"@,
                signed_decimal(page as int),
                "--x0"@,
                area.x0@,
                "--y0"@,
                area.y0@,
                "--x1"@,
                area.x1@,
                "--y1"@,
                area.y1@,
                "--text"@,
                text@,
                "--json"@,
            ],
        ),
{
    let page_text = signed_decimal_string(page as i64);
    let parts = [
        "replace-text",
        "--input",
        input,
        "--output",
        output,
        "--page",
        page_text.as_str(),
        "--x0",
        area.x0.as_str(),
        "--y0",
        area.y0.as_str(),
        "--x1",
        area.x1.as_str(),
        "--y1",
        area.y1.as_str(),
        "--text",
        text,
        "--json",
    ];
    proof {
        assert(slice_texts(parts@) =~= seq![
            "replace-text"@,
            "--input"@,
            input@,
            "--output"@,
            output@,
            "--page"@,
            signed_decimal(page as int),
            "--x0"@,
            area.x0@,
            "--y0"@,
            area.y0@,
            "--x1"@,
            area.x1@,
            "--y1"@,
            area.y1@,
            "--text"@,
            text@,
            "--json"@,
        ]);
    }
    service("pdf_edit.py", copy_strings(parts.as_slice()))
}

/// The resolution of a preview where the caller names none.
pub open spec fn preview_dpi(dpi: Option<i32>) -> int {
    match dpi {
        Some(d) => d as int,
        None => 150,
    }
}

/// The call that renders page `page` of the document at `input` with the
/// edits of `edits_json` applied, at `dpi` dots per inch or, where none is
/// named, at 150.
pub fn pdf_render_preview(input: &str, page: i32, edits_json: &str, dpi: Option<i32>) -> (call:
    ServiceCall)
    ensures
        call@ == call_of(
            "pdf_edit.py"@,
            seq![
                "preview"@,
                "--input"@,
                input@,
                "--page"@,
                signed_decimal(page as int),
                "--edits"@,
                edits_json@,
                "--dpi"@,
                signed_decimal(preview_dpi(dpi)),
                "--json"@,
            ],
        ),
{
    let page_text = signed_decimal_string(page as i64);
    let dpi_text = signed_decimal_string(
        match dpi {
            Some(d) => d as i64,
            None => 150,
        },
    );
    let parts = [
        "preview",
        "--input",
        input,
        "--page",
        page_text.as_str(),
        "--edits",
        edits_json,
        "--dpi",
        dpi_text.as_str(),
        "--json",
    ];
    proof {
        assert(slice_texts(parts@) =~= seq![
            "preview"@,
            "--input"@,
            input@,
            "--page"@,
            signed_decimal(page as int),
            "--edits"@,
            edits_json@,
            "--dpi"@,
            signed_decimal(preview_dpi(dpi)),
            "--json"@,
        ]);
    }
    service("pdf_edit.py", copy_strings(parts.as_slice()))
}

/// The call that reads the text blocks of page `page` of the document at
/// `input` with their fonts.
pub fn pdf_get_text_blocks_with_fonts(input: &str, page: i32) -> (call: ServiceCall)
    ensures
        call@ == call_of(
            "pdf_edit.py"@,
            seq![
                "text-blocks-fonts"@,
                "--input"@,
                input@,
                "--page"@,
                signed_decimal(page as int),
                "--json"@,
            ],
        ),
{
    let page_text = signed_decimal_string(page as i64);
    let parts = ["text-blocks-fonts", "--input", input, "--page", page_text.as_str(), "--json"];
    proof {
        assert(slice_texts(parts@) =~= seq![
            "text-blocks-fonts"@,
            "--input"@,
            input@,
            "--page"@,
            signed_decimal(page as int),
            "--json"@,
        ]);
    }
    service("pdf_edit.py", copy_strings(parts.as_slice()))
}

// ---------------------------------------------------------------------------
// Watermarks
// ---------------------------------------------------------------------------
/// The call that stamps `text` on the document at `input` as a watermark and
/// writes the result to `output`; `options_json` holds the look of the
/// watermark.
pub fn pdf_watermark_text(input: &str, output: &str, text: &str, options_json: &str) -> (call: ServiceCall)
    ensures
        call@ == call_of(
            "pdf_watermark.py"@,
            seq!["text"@, input@, output@, text@, options_json@],
        ),
{
    let parts = ["text", input, output, text, options_json];
    proof {
        assert(slice_texts(parts@) =~= seq!["text"@, input@, output@, text@, options_json@]);
    }
    service("pdf_watermark.py", copy_strings(parts.as_slice()))
}

/// The call that stamps the image at `image_path` on the document at `input` as
/// a watermark and writes the result to `output`; `options_json` holds the
/// look of the watermark.
pub fn pdf_watermark_image(input: &str, output: &str, image_path: &str, options_json: &str) -> (call: ServiceCall)
    ensures
        call@ == call_of(
            "pdf_watermark.py"@,
            seq!["image"@, input@, output@, image_path@, options_json@],
        ),
{
    let parts = ["image", input, output, image_path, options_json];
    proof {
        assert(slice_texts(parts@) =~= seq!["image"@, input@, output@, image_path@, options_json@]);
    }
    service("pdf_watermark.py", copy_strings(parts.as_slice()))
}

// ---------------------------------------------------------------------------
// Attachments
// ---------------------------------------------------------------------------
/// The call that lists the files embedded in the document at `input`.
pub fn attachments_list(input: &str) -> (call: ServiceCall)
    ensures
        call@ == call_of(
            "pdf_attachments.py"@,
            seq!["list"@, "--input"@, input@],
        ),
{
    let parts = ["list", "--input", input];
    proof {
        assert(slice_texts(parts@) =~= seq!["list"@, "--input"@, input@]);
    }
    service("pdf_attachments.py", copy_strings(parts.as_slice()))
}

/// The call that writes the embedded file `name` of the document at `input` to
/// `output`.
pub fn attachments_extract(input: &str, name: &str, output: &str) -> (call: ServiceCall)
    ensures
        call@ == call_of(
            "pdf_attachments.py"@,
            seq!["extract"@, "--input"@, input@, "--name"@, name@, "--output"@, output@],
        ),
{
    let parts = ["extract", "--input", input, "--name", name, "--output", output];
    proof {
        assert(slice_texts(parts@) =~= seq!["extract"@, "--input"@, input@, "--name"@, name@, "--output"@, output@]);
    }
    service("pdf_attachments.py", copy_strings(parts.as_slice()))
}

/// The call that writes every file embedded in the document at `input` to the
/// directory `output_dir`.
pub fn attachments_extract_all(input: &str, output_dir: &str) -> (call: ServiceCall)
    ensures
        call@ == call_of(
            "pdf_attachments.py"@,
            seq!["extract-all"@, "--input"@, input@, "--output-dir"@, output_dir@],
        ),
{
    let parts = ["extract-all", "--input", input, "--output-dir", output_dir];
    proof {
        assert(slice_texts(parts@) =~= seq!["extract-all"@, "--input"@, input@, "--output-dir"@, output_dir@]);
    }
    service("pdf_attachments.py", copy_strings(parts.as_slice()))
}

/// The call that previews the embedded file `name` of the document at `input`.
pub fn attachments_preview(input: &str, name: &str) -> (call: ServiceCall)
    ensures
        call@ == call_of(
            "pdf_attachments.py"@,
            seq!["preview"@, "--input"@, input@, "--name"@, name@],
        ),
{
    let parts = ["preview", "--input", input, "--name", name];
    proof {
        assert(slice_texts(parts@) =~= seq!["preview"@, "--input"@, input@, "--name"@, name@]);
    }
    service("pdf_attachments.py", copy_strings(parts.as_slice()))
}

// ---------------------------------------------------------------------------
// Forms
// ---------------------------------------------------------------------------
/// The call that lists the form fields of the document at `input`.
pub fn form_fields_list(input: &str) -> (call: ServiceCall)
    ensures
        call@ == call_of(
            "pdf_forms.py"@,
            seq!["list"@, input@],
        ),
{
    let parts = ["list", input];
    proof {
        assert(slice_texts(parts@) =~= seq!["list"@, input@]);
    }
    service("pdf_forms.py", copy_strings(parts.as_slice()))
}

/// The call that fills the form fields of the document at `input` with the values
/// of `values_json` and writes the result to `output`.
pub fn form_fields_fill(input: &str, output: &str, values_json: &str) -> (call: ServiceCall)
    ensures
        call@ == call_of(
            "pdf_forms.py"@,
            seq!["fill"@, input@, output@, values_json@],
        ),
{
    let parts = ["fill", input, output, values_json];
    proof {
        assert(slice_texts(parts@) =~= seq!["fill"@, input@, output@, values_json@]);
    }
    service("pdf_forms.py", copy_strings(parts.as_slice()))
}

} // verus!
