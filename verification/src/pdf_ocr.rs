//! Text recognition for scanned documents: the options of a run and the
//! commands that ask the recognition script for its services.

use vstd::prelude::*;
use vstd::string::*;
use crate::decimal::{push_signed_decimal, signed_decimal};
use crate::python_bridge::{PythonCommand, PythonCommandView};
use crate::strings::{push_text, push_text_if, pushed_if, texts};

verus! {

/// Which recognition tools are installed.
#[derive(Clone, Debug, PartialEq, Eq)]
pub struct OcrDependencies {
    pub ocrmypdf_installed: bool,
    pub ocrmypdf_version: Option<String>,
    pub tesseract_installed: bool,
    pub tesseract_version: Option<String>,
    pub available_languages: Vec<String>,
}

/// Whether a document needs recognition.
#[derive(Clone, Debug, PartialEq, Eq)]
pub struct OcrAnalysis {
    pub success: bool,
    pub page_count: Option<u32>,
    pub has_text: Option<bool>,
    pub has_images: Option<bool>,
    pub needs_ocr: Option<bool>,
    pub recommendation: Option<String>,
    pub error: Option<String>,
}

/// The outcome of a recognition run.
#[derive(Clone, Debug, PartialEq, Eq)]
pub struct OcrResult {
    pub success: bool,
    pub output_path: Option<String>,
    pub exit_code: i32,
    pub message: Option<String>,
    pub error: Option<String>,
}

/// Options of a run that adds an invisible, searchable text layer.
#[derive(Clone, Debug, PartialEq, Eq)]
pub struct OcrOptions {
    /// The language or languages, such as `eng` or `eng+spa`.
    pub language: String,
    /// Straighten pages first.
    pub deskew: bool,
    /// Turn pages the right way up.
    pub rotate_pages: bool,
    /// Remove the background of pages.
    pub remove_background: bool,
    /// Clean pages before recognition.
    pub clean: bool,
    /// Leave pages that already hold text alone.
    pub skip_text: bool,
    /// Recognize even where text is present.
    pub force_ocr: bool,
    /// Recognize anew on pages that hold recognized text.
    pub redo_ocr: bool,
    /// How hard the result is optimized, 0 to 3.
    pub optimize: i32,
}

/// Options of a run that writes real, editable text objects.
#[derive(Clone, Debug, PartialEq, Eq)]
pub struct EditableOcrOptions {
    /// The language or languages, such as `eng` or `eng+spa`.
    pub language: String,
    /// The resolution at which pages are rendered for recognition.
    pub dpi: i32,
    /// The font family of the text: `auto`, `times`, `helvetica`,
    /// `courier`, `serif` or `sans-serif`.
    pub font_family: String,
    /// Keep images and logos where they are.
    pub preserve_images: bool,
    /// Store the measured text metrics in the document.
    pub embed_metrics: bool,
}

/// The outcome of a run that writes editable text.
#[derive(Clone, Debug, PartialEq, Eq)]
pub struct EditableOcrResult {
    pub success: bool,
    pub output_path: Option<String>,
    pub mode: Option<String>,
    pub pages_processed: Option<u32>,
    pub total_blocks: Option<u32>,
    pub metrics_embedded: Option<bool>,
    pub error: Option<String>,
}

/// The language of a run that names none.
pub fn default_language() -> (language: String)
    ensures
        language@ == "eng"@,
{
    String::from_str("eng")
}

/// The resolution of a run that names none.
pub fn default_dpi() -> (dpi: i32)
    ensures
        dpi == 300,
{
    300
}

/// The font family of a run that names none.
pub fn default_font_family() -> (family: String)
    ensures
        family@ == "auto"@,
{
    String::from_str("auto")
}

/// The value of a switch that is on unless it is turned off.
pub fn default_true() -> (on: bool)
    ensures
        on,
{
    true
}

/// The optimization level of a run that names none.
pub fn default_optimize() -> (level: i32)
    ensures
        level == 1,
{
    1
}

impl Default for OcrOptions {
    /// English, light optimization, every switch off.
    fn default() -> (options: OcrOptions)
        ensures
            options.language@ == "eng"@,
            options.optimize == 1,
            !options.deskew,
            !options.rotate_pages,
            !options.remove_background,
            !options.clean,
            !options.skip_text,
            !options.force_ocr,
            !options.redo_ocr,
    {
        OcrOptions {
            language: default_language(),
            deskew: false,
            rotate_pages: false,
            remove_background: false,
            clean: false,
            skip_text: false,
            force_ocr: false,
            redo_ocr: false,
            optimize: default_optimize(),
        }
    }
}

impl Default for EditableOcrOptions {
    /// The options with nothing chosen: no language, no resolution, no font
    /// family, every switch off. What a field takes when a caller leaves
    /// it out is given by `default_language`, `default_dpi`,
    /// `default_font_family` and `default_true`.
    fn default() -> (options: EditableOcrOptions)
        ensures
            options.language@.len() == 0,
            options.dpi == 0,
            options.font_family@.len() == 0,
            !options.preserve_images,
            !options.embed_metrics,
    {
        EditableOcrOptions {
            language: String::new(),
            dpi: 0,
            font_family: String::new(),
            preserve_images: false,
            embed_metrics: false,
        }
    }
}

/// The name of the file that a run writes when the caller names no output:
/// the name of the input file, or `document.pdf` where the input has none.
pub fn output_file_name(input_file_name: Option<&str>) -> (name: String)
    ensures
        name@ == match input_file_name {
            Some(n) => n@,
            None => "document.pdf"@,
        },
{
    match input_file_name {
        Some(n) => String::from_str(n),
        None => String::from_str("document.pdf"),
    }
}

/// The message for a recognition script that is not installed.
pub open spec fn script_missing() -> Seq<char> {
    "OCR script not found (backend/pdf_ocr.py)"@
}

/// A command that runs `python` with `args`, in the caller's environment
/// and directory.
pub open spec fn plain_command(python: Seq<char>, args: Seq<Seq<char>>) -> PythonCommandView {
    PythonCommandView { program: python, args, env: Seq::empty(), working_dir: None }
}

/// The arguments `args` followed by the flag of every switch that is on:
/// `--deskew`, `--rotate-pages`, `--remove-background`, `--clean`,
/// `--skip-text`, `--force-ocr`, `--redo-ocr`, in this order.
pub open spec fn with_ocr_switches(args: Seq<Seq<char>>, options: OcrOptions) -> Seq<Seq<char>> {
    let a = pushed_if(args, options.deskew, "--deskew"@);
    let b = pushed_if(a, options.rotate_pages, "--rotate-pages"@);
    let c = pushed_if(b, options.remove_background, "--remove-background"@);
    let d = pushed_if(c, options.clean, "--clean"@);
    let e = pushed_if(d, options.skip_text, "--skip-text"@);
    let f = pushed_if(e, options.force_ocr, "--force-ocr"@);
    pushed_if(f, options.redo_ocr, "--redo-ocr"@)
}

/// The arguments of a recognition run: the script, the verb `ocr`, input
/// and output, language and optimization level, and a flag for every switch
/// that is on.
pub open spec fn ocr_args(
    script: Seq<char>,
    input: Seq<char>,
    output: Seq<char>,
    options: OcrOptions,
) -> Seq<Seq<char>> {
    with_ocr_switches(
        seq![
            script,
            "ocr"@,
            "--input"@,
            input,
            "--output"@,
            output,
            "--language"@,
            options.language@,
            "--optimize"@,
            signed_decimal(options.optimize as int),
        ],
        options,
    )
}

/// The arguments of a run that writes editable text: the script, the verb
/// `ocr-editable`, input and output, language, resolution and font family,
/// and then `--preserve-images` and `--embed-metrics`, each if its switch
/// is on.
pub open spec fn editable_ocr_args(
    script: Seq<char>,
    input: Seq<char>,
    output: Seq<char>,
    options: EditableOcrOptions,
) -> Seq<Seq<char>> {
    pushed_if(
        pushed_if(
            seq![
                script,
                "ocr-editable"@,
                "--input"@,
                input,
                "--output"@,
                output,
                "--language"@,
                options.language@,
                "--dpi"@,
                signed_decimal(options.dpi as int),
                "--font-family"@,
                options.font_family@,
            ],
            options.preserve_images,
            "--preserve-images"@,
        ),
        options.embed_metrics,
        "--embed-metrics"@,
    )
}

fn command(python: &str, args: Vec<String>) -> (out: PythonCommand)
    ensures
        out@ == plain_command(python@, texts(args@)),
{
    let out = PythonCommand {
        program: String::from_str(python),
        args,
        env: Vec::new(),
        working_dir: None,
    };
    proof {
        assert(out@.env =~= Seq::empty());
    }
    out
}

fn push_switches(args: &mut Vec<String>, options: &OcrOptions)
    ensures
        texts(final(args)@) == with_ocr_switches(texts(old(args)@), *options),
{
    push_text_if(args, options.deskew, "--deskew");
    push_text_if(args, options.rotate_pages, "--rotate-pages");
    push_text_if(args, options.remove_background, "--remove-background");
    push_text_if(args, options.clean, "--clean");
    push_text_if(args, options.skip_text, "--skip-text");
    push_text_if(args, options.force_ocr, "--force-ocr");
    push_text_if(args, options.redo_ocr, "--redo-ocr");
}

fn no_script() -> (message: String)
    ensures
        message@ == script_missing(),
{
    String::from_str("OCR script not found (backend/pdf_ocr.py)")
}

/// The command that asks which recognition tools are installed. `script` is
/// the path of the recognition script, or `None` if it was not found, which
/// is an error.
pub fn check_dependencies(python: &str, script: Option<&str>) -> (r: Result<PythonCommand, String>)
    ensures
        match r {
            Ok(command) => script matches Some(path) && command@ == plain_command(
                python@,
                seq![path@, "check"@],
            ),
            Err(message) => script is None && message@ == script_missing(),
        },
{
    match script {
        Some(path) => {
            let mut args: Vec<String> = Vec::new();
            push_text(&mut args, path);
            push_text(&mut args, "check");
            proof {
                assert(texts(args@) =~= seq![path@, "check"@]);
            }
            Ok(command(python, args))
        },
        None => Err(no_script()),
    }
}

/// The command that asks whether the document at `input` needs
/// recognition.
pub fn analyze_pdf(python: &str, script: Option<&str>, input: &str) -> (r: Result<
    PythonCommand,
    String,
>)
    ensures
        match r {
            Ok(command) => script matches Some(path) && command@ == plain_command(
                python@,
                seq![path@, "analyze"@, "--input"@, input@],
            ),
            Err(message) => script is None && message@ == script_missing(),
        },
{
    match script {
        Some(path) => {
            let mut args: Vec<String> = Vec::new();
            push_text(&mut args, path);
            push_text(&mut args, "analyze");
            push_text(&mut args, "--input");
            push_text(&mut args, input);
            proof {
                assert(texts(args@) =~= seq![path@, "analyze"@, "--input"@, input@]);
            }
            Ok(command(python, args))
        },
        None => Err(no_script()),
    }
}

/// The command that runs recognition on `input` and writes a searchable
/// document to `output`.
pub fn run_ocr(
    python: &str,
    script: Option<&str>,
    input: &str,
    output: &str,
    options: &OcrOptions,
) -> (r: Result<PythonCommand, String>)
    ensures
        match r {
            Ok(command) => script matches Some(path) && command@ == plain_command(
                python@,
                ocr_args(path@, input@, output@, *options),
            ),
            Err(message) => script is None && message@ == script_missing(),
        },
{
    match script {
        Some(path) => {
            let mut args: Vec<String> = Vec::new();
            push_text(&mut args, path);
            push_text(&mut args, "ocr");
            push_text(&mut args, "--input");
            push_text(&mut args, input);
            push_text(&mut args, "--output");
            push_text(&mut args, output);
            push_text(&mut args, "--language");
            push_text(&mut args, options.language.as_str());
            push_text(&mut args, "--optimize");
            let mut level = String::new();
            push_signed_decimal(&mut level, options.optimize as i64);
            push_text(&mut args, level.as_str());
            proof {
                assert(texts(args@) =~= seq![
                    path@,
                    "ocr"@,
                    "--input"@,
                    input@,
                    "--output"@,
                    output@,
                    "--language"@,
                    options.language@,
                    "--optimize"@,
                    signed_decimal(options.optimize as int),
                ]);
            }
            push_switches(&mut args, options);
            Ok(command(python, args))
        },
        None => Err(no_script()),
    }
}

/// The command that runs recognition on `input` and writes a document with
/// editable text to `output`.
pub fn run_editable_ocr(
    python: &str,
    script: Option<&str>,
    input: &str,
    output: &str,
    options: &EditableOcrOptions,
) -> (r: Result<PythonCommand, String>)
    ensures
        match r {
            Ok(command) => script matches Some(path) && command@ == plain_command(
                python@,
                editable_ocr_args(path@, input@, output@, *options),
            ),
            Err(message) => script is None && message@ == script_missing(),
        },
{
    match script {
        Some(path) => {
            let mut args: Vec<String> = Vec::new();
            push_text(&mut args, path);
            push_text(&mut args, "ocr-editable");
            push_text(&mut args, "--input");
            push_text(&mut args, input);
            push_text(&mut args, "--output");
            push_text(&mut args, output);
            push_text(&mut args, "--language");
            push_text(&mut args, options.language.as_str());
            push_text(&mut args, "--dpi");
            let mut dpi = String::new();
            push_signed_decimal(&mut dpi, options.dpi as i64);
            push_text(&mut args, dpi.as_str());
            push_text(&mut args, "--font-family");
            push_text(&mut args, options.font_family.as_str());
            proof {
                assert(texts(args@) =~= seq![
                    path@,
                    "ocr-editable"@,
                    "--input"@,
                    input@,
                    "--output"@,
                    output@,
                    "--language"@,
                    options.language@,
                    "--dpi"@,
                    signed_decimal(options.dpi as int),
                    "--font-family"@,
                    options.font_family@,
                ]);
            }
            push_text_if(&mut args, options.preserve_images, "--preserve-images");
            push_text_if(&mut args, options.embed_metrics, "--embed-metrics");
            Ok(command(python, args))
        },
        None => Err(no_script()),
    }
}

/// The command that reads the text metrics stored in the document at
/// `input`.
pub fn get_ocr_metrics(python: &str, script: Option<&str>, input: &str) -> (r: Result<
    PythonCommand,
    String,
>)
    ensures
        match r {
            Ok(command) => script matches Some(path) && command@ == plain_command(
                python@,
                seq![path@, "get-metrics"@, "--input"@, input@],
            ),
            Err(message) => script is None && message@ == script_missing(),
        },
{
    match script {
        Some(path) => {
            let mut args: Vec<String> = Vec::new();
            push_text(&mut args, path);
            push_text(&mut args, "get-metrics");
            push_text(&mut args, "--input");
            push_text(&mut args, input);
            proof {
                assert(texts(args@) =~= seq![path@, "get-metrics"@, "--input"@, input@]);
            }
            Ok(command(python, args))
        },
        None => Err(no_script()),
    }
}

} // verus!
