//! Font detection: what the detection script reports and the commands that
//! ask it for its services.

use vstd::prelude::*;
use vstd::string::*;
use crate::decimal::{push_signed_decimal, signed_decimal};
use crate::python_bridge::{PythonCommand, PythonCommandView};
use crate::strings::{push_text, push_text_if, pushed_if, texts};

verus! {

/// Whether a detection engine can be used, and if not, why.
#[derive(Clone, Debug, PartialEq, Eq)]
pub struct EngineAvailability {
    pub available: bool,
    pub reason: Option<String>,
}

/// The detection engines.
#[derive(Clone, Debug, PartialEq, Eq)]
pub struct FontDetectEngines {
    pub baseline_render_compare: EngineAvailability,
    pub ml_embeddings: EngineAvailability,
}

/// Whether a font catalog is at hand, and where it is from.
#[derive(Clone, Debug, PartialEq, Eq)]
pub struct CatalogStatus {
    pub available: bool,
    pub source: Option<String>,
    pub path: Option<String>,
}

/// The state of font detection.
#[derive(Clone, Debug, PartialEq, Eq)]
pub struct FontDetectCheckResult {
    pub ok: bool,
    pub cache_dir: String,
    pub engines: FontDetectEngines,
    pub catalog: CatalogStatus,
    pub indexed_fonts: i32,
}

/// The outcome of indexing the fonts.
#[derive(Clone, Debug, PartialEq, Eq)]
pub struct FontDetectIndexResult {
    pub ok: bool,
    pub cache_dir: String,
    pub indexed_fonts: i32,
    pub duration_ms: i32,
    pub ml_indexed: bool,
    pub cached: Option<bool>,
    pub ml_reason: Option<String>,
}

/// Whether a match fell back to another engine, and why.
#[derive(Clone, Debug, PartialEq, Eq)]
pub struct FallbackInfo {
    pub used: bool,
    pub reason: Option<String>,
}

/// Figures of a match.
#[derive(Clone, Copy, Debug, PartialEq, Eq, Structural)]
pub struct MatchMeta {
    pub indexed_fonts: i32,
    pub duration_ms: i32,
}

/// The name of the environment variable that tells the script where its
/// cache is.
pub open spec fn cache_variable() -> Seq<char> {
    "TLACUILO_CACHE_DIR"@
}

/// The message for a detection script that is not installed.
pub open spec fn script_missing() -> Seq<char> {
    "font_detect script not found (backend/font_detect.py)"@
}

/// A command that runs `python` with `args` in the caller's directory, the
/// cache directory handed on in the environment.
pub open spec fn detect_command(
    python: Seq<char>,
    args: Seq<Seq<char>>,
    cache_dir: Seq<char>,
) -> PythonCommandView {
    PythonCommandView {
        program: python,
        args,
        env: seq![(cache_variable(), cache_dir)],
        working_dir: None,
    }
}

fn command(python: &str, args: Vec<String>, cache_dir: &str) -> (out: PythonCommand)
    ensures
        out@ == detect_command(python@, texts(args@), cache_dir@),
{
    let mut env: Vec<(String, String)> = Vec::new();
    env.push((String::from_str("TLACUILO_CACHE_DIR"), String::from_str(cache_dir)));
    let out = PythonCommand { program: String::from_str(python), args, env, working_dir: None };
    proof {
        assert(out@.env =~= seq![(cache_variable(), cache_dir@)]);
    }
    out
}

fn no_script() -> (message: String)
    ensures
        message@ == script_missing(),
{
    String::from_str("font_detect script not found (backend/font_detect.py)")
}

/// The command that asks for the state of font detection. `script` is the
/// path of the detection script, or `None` if it was not found, which is an
/// error.
pub fn check(python: &str, script: Option<&str>, cache_dir: &str) -> (r: Result<
    PythonCommand,
    String,
>)
    ensures
        match r {
            Ok(command) => script matches Some(path) && command@ == detect_command(
                python@,
                seq![path@, "check"@],
                cache_dir@,
            ),
            Err(message) => script is None && message@ == script_missing(),
        },
{
    match script {
        Some(path) => {
            let mut args: Vec<String> = Vec::new();
            push_text(&mut args, path);
            push_text(&mut args, "check");
            proof {
                assert(texts(args@) =~= seq![path@, "check"@]);
            }
            Ok(command(python, args, cache_dir))
        },
        None => Err(no_script()),
    }
}

/// The command that indexes the fonts; with `force`, anew even if an index
/// exists.
pub fn index(python: &str, script: Option<&str>, cache_dir: &str, force: bool) -> (r: Result<
    PythonCommand,
    String,
>)
    ensures
        match r {
            Ok(command) => script matches Some(path) && command@ == detect_command(
                python@,
                pushed_if(seq![path@, "index"@], force, "--force"@),
                cache_dir@,
            ),
            Err(message) => script is None && message@ == script_missing(),
        },
{
    match script {
        Some(path) => {
            let mut args: Vec<String> = Vec::new();
            push_text(&mut args, path);
            push_text(&mut args, "index");
            proof {
                assert(texts(args@) =~= seq![path@, "index"@]);
            }
            push_text_if(&mut args, force, "--force");
            Ok(command(python, args, cache_dir))
        },
        None => Err(no_script()),
    }
}

/// The command that matches the image at `input` against the indexed fonts
/// with the given engine and asks for the best `topk` candidates.
pub fn match_image(
    python: &str,
    script: Option<&str>,
    cache_dir: &str,
    input: &str,
    engine: &str,
    topk: i32,
) -> (r: Result<PythonCommand, String>)
    ensures
        match r {
            Ok(command) => script matches Some(path) && command@ == detect_command(
                python@,
                seq![
                    path@,
                    "match"@,
                    "--input"@,
                    input@,
                    "--engine"@,
                    engine@,
                    "--topk"@,
                    signed_decimal(topk as int),
                ],
                cache_dir@,
            ),
            Err(message) => script is None && message@ == script_missing(),
        },
{
    match script {
        Some(path) => {
            let mut args: Vec<String> = Vec::new();
            push_text(&mut args, path);
            push_text(&mut args, "match");
            push_text(&mut args, "--input");
            push_text(&mut args, input);
            push_text(&mut args, "--engine");
            push_text(&mut args, engine);
            push_text(&mut args, "--topk");
            let mut count = String::new();
            push_signed_decimal(&mut count, topk as i64);
            push_text(&mut args, count.as_str());
            proof {
                assert(texts(args@) =~= seq![
                    path@,
                    "match"@,
                    "--input"@,
                    input@,
                    "--engine"@,
                    engine@,
                    "--topk"@,
                    signed_decimal(topk as int),
                ]);
            }
            Ok(command(python, args, cache_dir))
        },
        None => Err(no_script()),
    }
}

} // verus!
