//! The bridge to the Python interpreter that runs the document services.
//!
//! The bridge plans: it says which program to run with which arguments, and
//! it reads what a finished process left behind. Starting the process is the
//! caller's part.

use vstd::prelude::*;
use vstd::string::*;
use crate::strings::{
    copy_strings,
    join,
    joined,
    lines_of,
    quoted_path,
    quoted_path_of,
    replace_char,
    slice_texts,
    split_lines,
    texts,
    trimmed_of,
    with_replaced,
};

verus! {

/// What went wrong when a script was to be run.
#[derive(Clone, Copy, Debug, PartialEq, Eq, Structural)]
pub enum PythonErrorKind {
    /// No Python interpreter was found.
    PythonNotFound,
    /// The script file was not found.
    ScriptNotFound,
    /// The process could not be started.
    SpawnFailed,
    /// The script ended with a failure status.
    ExecutionFailed,
    /// A package that the script needs is not installed.
    MissingDependency,
    /// The arguments are not valid.
    InvalidArgs,
    /// The script ran out of time.
    Timeout,
}

/// A failure of the bridge, with what the process wrote, if it ran.
#[derive(Clone, Debug, PartialEq, Eq)]
pub struct PythonError {
    pub kind: PythonErrorKind,
    pub message: String,
    pub stdout: Option<String>,
    pub stderr: Option<String>,
    pub exit_code: Option<i32>,
}

/// What a `PythonError` holds.
pub struct PythonErrorView {
    pub kind: PythonErrorKind,
    pub message: Seq<char>,
    pub stdout: Option<Seq<char>>,
    pub stderr: Option<Seq<char>>,
    pub exit_code: Option<i32>,
}

/// The characters of an optional string.
pub open spec fn optional_text(value: Option<String>) -> Option<Seq<char>> {
    match value {
        Some(text) => Some(text@),
        None => None,
    }
}

impl View for PythonError {
    type V = PythonErrorView;

    open spec fn view(&self) -> PythonErrorView {
        PythonErrorView {
            kind: self.kind,
            message: self.message@,
            stdout: optional_text(self.stdout),
            stderr: optional_text(self.stderr),
            exit_code: self.exit_code,
        }
    }
}

/// The name of an error kind.
pub open spec fn kind_name(kind: PythonErrorKind) -> Seq<char> {
    match kind {
        PythonErrorKind::PythonNotFound => "PythonNotFound"@,
        PythonErrorKind::ScriptNotFound => "ScriptNotFound"@,
        PythonErrorKind::SpawnFailed => "SpawnFailed"@,
        PythonErrorKind::ExecutionFailed => "ExecutionFailed"@,
        PythonErrorKind::MissingDependency => "MissingDependency"@,
        PythonErrorKind::InvalidArgs => "InvalidArgs"@,
        PythonErrorKind::Timeout => "Timeout"@,
    }
}

/// An error with a message and nothing from a process.
pub open spec fn plain_error(kind: PythonErrorKind, message: Seq<char>) -> PythonErrorView {
    PythonErrorView { kind, message, stdout: None, stderr: None, exit_code: None }
}

/// The one-line form of an error: the name of its kind, a colon and its
/// message.
pub open spec fn error_line(e: PythonErrorView) -> Seq<char> {
    kind_name(e.kind) + ": "@ + e.message
}

/// The form of an error that is handed to a caller as text: its one-line
/// form, followed in parentheses by what the process wrote to its error
/// stream, if that is known.
pub open spec fn error_text(e: PythonErrorView) -> Seq<char> {
    match e.stderr {
        Some(stderr) => error_line(e) + " (stderr: "@ + stderr + ")"@,
        None => error_line(e),
    }
}

impl PythonError {
    /// The name of the error's kind.
    pub fn kind_str(&self) -> (name: &'static str)
        ensures
            name@ == kind_name(self.kind),
    {
        match self.kind {
            PythonErrorKind::PythonNotFound => "PythonNotFound",
            PythonErrorKind::ScriptNotFound => "ScriptNotFound",
            PythonErrorKind::SpawnFailed => "SpawnFailed",
            PythonErrorKind::ExecutionFailed => "ExecutionFailed",
            PythonErrorKind::MissingDependency => "MissingDependency",
            PythonErrorKind::InvalidArgs => "InvalidArgs",
            PythonErrorKind::Timeout => "Timeout",
        }
    }

    /// The error for an interpreter that was not found.
    pub fn python_not_found(message: &str) -> (e: PythonError)
        ensures
            e@ == plain_error(PythonErrorKind::PythonNotFound, message@),
    {
        PythonError {
            kind: PythonErrorKind::PythonNotFound,
            message: String::from_str(message),
            stdout: None,
            stderr: None,
            exit_code: None,
        }
    }

    /// The error for a script that was not found.
    pub fn script_not_found(message: &str) -> (e: PythonError)
        ensures
            e@ == plain_error(PythonErrorKind::ScriptNotFound, message@),
    {
        PythonError {
            kind: PythonErrorKind::ScriptNotFound,
            message: String::from_str(message),
            stdout: None,
            stderr: None,
            exit_code: None,
        }
    }

    /// The error for a process that could not be started.
    pub fn spawn_failed(message: &str) -> (e: PythonError)
        ensures
            e@ == plain_error(PythonErrorKind::SpawnFailed, message@),
    {
        PythonError {
            kind: PythonErrorKind::SpawnFailed,
            message: String::from_str(message),
            stdout: None,
            stderr: None,
            exit_code: None,
        }
    }

    /// The error for a script that ended with a failure status, with what
    /// it wrote and its exit code, as far as they are known.
    pub fn execution_failed(
        message: &str,
        stdout: Option<String>,
        stderr: Option<String>,
        exit_code: Option<i32>,
    ) -> (e: PythonError)
        ensures
            e@ == (PythonErrorView {
                kind: PythonErrorKind::ExecutionFailed,
                message: message@,
                stdout: optional_text(stdout),
                stderr: optional_text(stderr),
                exit_code,
            }),
    {
        PythonError {
            kind: PythonErrorKind::ExecutionFailed,
            message: String::from_str(message),
            stdout,
            stderr,
            exit_code,
        }
    }

    /// The error for a script that is not where it was looked for.
    /// `quoted_dir` is the directory that was searched, in quotes.
    pub fn script_missing(script_name: &str, quoted_dir: &str) -> (e: PythonError)
        ensures
            e@ == plain_error(
                PythonErrorKind::ScriptNotFound,
                "Script not found: "@ + script_name@ + " (looked in "@ + quoted_dir@ + ")"@,
            ),
    {
        let mut message = String::from_str("Script not found: ");
        message.append(script_name);
        message.append(" (looked in ");
        message.append(quoted_dir);
        message.append(")");
        PythonError::script_not_found(message.as_str())
    }

    /// The error for a package that is not installed; `package` may name
    /// several.
    pub fn missing_dependency(package: &str) -> (e: PythonError)
        ensures
            e@ == plain_error(
                PythonErrorKind::MissingDependency,
                "Missing Python package: "@ + package@,
            ),
    {
        PythonError {
            kind: PythonErrorKind::MissingDependency,
            message: String::from_str("Missing Python package: ").concat(package),
            stdout: None,
            stderr: None,
            exit_code: None,
        }
    }

    /// The one-line form of the error.
    pub fn to_string(&self) -> (line: String)
        ensures
            line@ == error_line(self@),
    {
        let mut line = String::from_str(self.kind_str());
        line.append(": ");
        line.append(self.message.as_str());
        line
    }
}

/// A string has no counterpart in specifications that could be built from
/// its characters, so the conversion has no `from_spec` to obey; what it
/// returns is stated on `from` itself.
impl vstd::std_specs::convert::FromSpecImpl<PythonError> for String {
    open spec fn obeys_from_spec() -> bool {
        false
    }

    open spec fn from_spec(v: PythonError) -> String {
        v.message
    }
}

impl From<PythonError> for String {
    /// The text of an error, with what the process wrote to its error
    /// stream where that is known.
    fn from(err: PythonError) -> (text: String)
        ensures
            text@ == error_text(err@),
    {
        let mut text = err.to_string();
        match &err.stderr {
            Some(stderr) => {
                text.append(" (stderr: ");
                text.append(stderr.as_str());
                text.append(")");
            },
            None => {},
        }
        text
    }
}

/// How scripts are to be run.
#[derive(Clone, Debug, PartialEq, Eq)]
pub struct PythonConfig {
    /// The interpreter to use; `None` leaves the choice to detection.
    pub python_bin: Option<String>,
    /// The virtual environment to use; `None` leaves the choice to
    /// detection.
    pub venv_path: Option<String>,
    /// The directory in which scripts run.
    pub working_dir: Option<String>,
    /// Environment variables set for scripts: names and values, in the
    /// order in which they are set.
    pub env_vars: Vec<(String, String)>,
}

impl Default for PythonConfig {
    fn default() -> (config: PythonConfig)
        ensures
            config.python_bin is None,
            config.venv_path is None,
            config.working_dir is None,
            config.env_vars@.len() == 0,
    {
        PythonConfig { python_bin: None, venv_path: None, working_dir: None, env_vars: Vec::new() }
    }
}

/// A process to start: the program, its arguments in order, the environment
/// variables to set and the directory to run in.
#[derive(Clone, Debug, PartialEq, Eq)]
pub struct PythonCommand {
    pub program: String,
    pub args: Vec<String>,
    pub env: Vec<(String, String)>,
    pub working_dir: Option<String>,
}

/// What a finished process left behind, its output streams read as text.
#[derive(Clone, Debug, PartialEq, Eq)]
pub struct ProcessOutput {
    pub stdout: String,
    pub stderr: String,
    pub exit_code: Option<i32>,
    pub success: bool,
}

impl ProcessOutput {
    /// What a process printed, if it ended well; else `failure`, a colon
    /// and what the process wrote to its error stream.
    pub fn stdout_or(self, failure: &str) -> (r: Result<String, String>)
        ensures
            match r {
                Ok(text) => self.success && text == self.stdout,
                Err(message) => !self.success && message@ == failure@ + ": "@ + self.stderr@,
            },
    {
        if self.success {
            Ok(self.stdout)
        } else {
            let mut message = String::from_str(failure);
            message.append(": ");
            message.append(self.stderr.as_str());
            Err(message)
        }
    }
}

/// The output of a script that ended well.
#[derive(Clone, Debug, PartialEq, Eq)]
pub struct ScriptOutput {
    pub stdout: String,
    pub stderr: String,
    pub exit_code: Option<i32>,
    pub success: bool,
}

/// The names and values that a run of pairs holds.
pub open spec fn pair_texts(pairs: Seq<(String, String)>) -> Seq<(Seq<char>, Seq<char>)> {
    pairs.map_values(|p: (String, String)| (p.0@, p.1@))
}

/// What a `PythonCommand` holds.
pub struct PythonCommandView {
    pub program: Seq<char>,
    pub args: Seq<Seq<char>>,
    pub env: Seq<(Seq<char>, Seq<char>)>,
    pub working_dir: Option<Seq<char>>,
}

impl View for PythonCommand {
    type V = PythonCommandView;

    open spec fn view(&self) -> PythonCommandView {
        PythonCommandView {
            program: self.program@,
            args: texts(self.args@),
            env: pair_texts(self.env@),
            working_dir: optional_text(self.working_dir),
        }
    }
}

/// What a `ScriptOutput` holds.
pub struct ScriptOutputView {
    pub stdout: Seq<char>,
    pub stderr: Seq<char>,
    pub exit_code: Option<i32>,
    pub success: bool,
}

impl View for ScriptOutput {
    type V = ScriptOutputView;

    open spec fn view(&self) -> ScriptOutputView {
        ScriptOutputView {
            stdout: self.stdout@,
            stderr: self.stderr@,
            exit_code: self.exit_code,
            success: self.success,
        }
    }
}

impl ScriptOutput {
    /// The lines of the standard output.
    pub fn lines(&self) -> (lines: Vec<String>)
        ensures
            texts(lines@) == lines_of(self.stdout@),
    {
        split_lines(self.stdout.as_str())
    }
}

fn copy_pairs(pairs: &Vec<(String, String)>) -> (out: Vec<(String, String)>)
    ensures
        pair_texts(out@) == pair_texts(pairs@),
{
    let mut out: Vec<(String, String)> = Vec::new();
    let n = pairs.len();
    let mut i: usize = 0;
    while i < n
        invariant
            n == pairs@.len(),
            i <= n,
            pair_texts(out@) == pair_texts(pairs@.take(i as int)),
        decreases n - i,
    {
        let pair = (pairs[i].0.clone(), pairs[i].1.clone());
        proof {
            assert(pair_texts(pairs@.take(i as int + 1)) =~= pair_texts(
                pairs@.take(i as int),
            ).push((pairs@[i as int].0@, pairs@[i as int].1@)));
        }
        out.push(pair);
        i += 1;
    }
    out
}

fn copy_optional(value: &Option<String>) -> (out: Option<String>)
    ensures
        optional_text(out) == optional_text(*value),
{
    match value {
        Some(text) => Some(text.clone()),
        None => None,
    }
}

/// The inline program that prints the interpreter's version as three numbers
/// with full stops between them.
pub open spec fn version_code() -> Seq<char> {
    "import sys; print(f'{sys.version_info.major}.{sys.version_info.minor}.{sys.version_info.micro}')"@
}

/// The outcome of a process as a script result: its output if it ended
/// well, else an `ExecutionFailed` error that carries both streams and the
/// exit code.
pub open spec fn output_result(output: ProcessOutput) -> Result<ScriptOutputView, PythonErrorView> {
    if output.success {
        Ok(
            ScriptOutputView {
                stdout: output.stdout@,
                stderr: output.stderr@,
                exit_code: output.exit_code,
                success: true,
            },
        )
    } else {
        Err(
            PythonErrorView {
                kind: PythonErrorKind::ExecutionFailed,
                message: "Script execution failed"@,
                stdout: Some(output.stdout@),
                stderr: Some(output.stderr@),
                exit_code: output.exit_code,
            },
        )
    }
}

/// What the outcome of a script holds.
pub open spec fn script_result_view(r: Result<ScriptOutput, PythonError>) -> Result<
    ScriptOutputView,
    PythonErrorView,
> {
    match r {
        Ok(out) => Ok(out@),
        Err(e) => Err(e@),
    }
}

/// The index of the first check that failed to run, among the first `upto`.
pub open spec fn first_failure(outcomes: Seq<Result<bool, PythonError>>, upto: int) -> Option<int>
    decreases upto,
{
    if upto <= 0 {
        None
    } else {
        match first_failure(outcomes, upto - 1) {
            Some(i) => Some(i),
            None => if outcomes[upto - 1] is Err {
                Some(upto - 1)
            } else {
                None
            },
        }
    }
}

/// The packages, among the first `upto`, whose check found them absent.
pub open spec fn absent_packages(
    packages: Seq<&str>,
    outcomes: Seq<Result<bool, PythonError>>,
    upto: int,
) -> Seq<Seq<char>>
    decreases upto,
{
    if upto <= 0 {
        Seq::empty()
    } else if outcomes[upto - 1] == Ok::<bool, PythonError>(false) {
        absent_packages(packages, outcomes, upto - 1).push(packages[upto - 1]@)
    } else {
        absent_packages(packages, outcomes, upto - 1)
    }
}

/// The number of packages that have an outcome.
pub open spec fn checked_count(packages: Seq<&str>, outcomes: Seq<Result<bool, PythonError>>) -> int {
    if packages.len() <= outcomes.len() {
        packages.len() as int
    } else {
        outcomes.len() as int
    }
}

/// The first of `candidates` that is there, else `fallback`.
pub open spec fn first_or(candidates: Seq<Option<String>>, fallback: Seq<char>) -> Seq<char>
    decreases candidates.len(),
{
    if candidates.len() == 0 {
        fallback
    } else {
        match candidates.first() {
            Some(found) => found@,
            None => first_or(candidates.drop_first(), fallback),
        }
    }
}

/// Picks a path from places looked at in order of preference: the first
/// that exists, else `fallback`. `candidates` holds each place's path if it
/// exists and `None` if it does not.
pub fn first_existing(candidates: &Vec<Option<String>>, fallback: &str) -> (path: String)
    ensures
        path@ == first_or(candidates@, fallback@),
{
    let n = candidates.len();
    let mut i: usize = 0;
    assert(candidates@.skip(0) =~= candidates@);
    while i < n
        invariant
            n == candidates@.len(),
            i <= n,
            first_or(candidates@, fallback@) == first_or(candidates@.skip(i as int), fallback@),
        decreases n - i,
    {
        proof {
            assert(candidates@.skip(i as int).drop_first() =~= candidates@.skip(i as int + 1));
        }
        match &candidates[i] {
            Some(found) => {
                return found.clone();
            },
            None => {},
        }
        i += 1;
    }
    String::from_str(fallback)
}

/// The first of `candidates` that is there, if any is.
pub open spec fn first_of(candidates: Seq<Option<String>>) -> Option<Seq<char>>
    decreases candidates.len(),
{
    if candidates.len() == 0 {
        None
    } else {
        match candidates.first() {
            Some(found) => Some(found@),
            None => first_of(candidates.drop_first()),
        }
    }
}

/// Picks a path from places looked at in order of preference: the first
/// that exists, if any does. `candidates` holds each place's path if it
/// exists and `None` if it does not.
pub fn first_found(candidates: &Vec<Option<String>>) -> (path: Option<String>)
    ensures
        optional_text(path) == first_of(candidates@),
{
    let n = candidates.len();
    let mut i: usize = 0;
    assert(candidates@.skip(0) =~= candidates@);
    while i < n
        invariant
            n == candidates@.len(),
            i <= n,
            first_of(candidates@) == first_of(candidates@.skip(i as int)),
        decreases n - i,
    {
        proof {
            assert(candidates@.skip(i as int).drop_first() =~= candidates@.skip(i as int + 1));
        }
        match &candidates[i] {
            Some(found) => {
                return Some(found.clone());
            },
            None => {},
        }
        i += 1;
    }
    None
}

/// The interpreter to run. In order of preference: the one that the
/// environment names; the one of the virtual environment, if it exists;
/// the first interpreter on the search path that answers; `python3`.
/// `answering` holds the names of the interpreters tried, each if it
/// answers and `None` if it does not.
pub fn resolve_python_bin(
    from_environment: Option<String>,
    in_virtual_environment: Option<String>,
    answering: &Vec<Option<String>>,
) -> (python: String)
    ensures
        python@ == match from_environment {
            Some(named) => named@,
            None => match in_virtual_environment {
                Some(found) => found@,
                None => first_or(answering@, "python3"@),
            },
        },
{
    match from_environment {
        Some(named) => named,
        None => match in_virtual_environment {
            Some(found) => found,
            None => first_existing(answering, "python3"),
        },
    }
}

/// The Python bridge: the interpreter to run and the directory that holds
/// the scripts.
pub struct PythonBridge {
    config: PythonConfig,
    python_path: String,
    scripts_dir: String,
}

impl PythonBridge {
    /// The interpreter.
    pub closed spec fn spec_python_path(&self) -> Seq<char> {
        self.python_path@
    }

    /// The directory of the scripts.
    pub closed spec fn spec_scripts_dir(&self) -> Seq<char> {
        self.scripts_dir@
    }

    /// The environment variables set for scripts.
    pub closed spec fn spec_env(&self) -> Seq<(Seq<char>, Seq<char>)> {
        pair_texts(self.config.env_vars@)
    }

    /// The directory in which scripts run.
    pub closed spec fn spec_working_dir(&self) -> Option<Seq<char>> {
        optional_text(self.config.working_dir)
    }

    /// A bridge with the default configuration, which runs the interpreter
    /// `detected`.
    pub fn new(detected: String, scripts_dir: String) -> (bridge: PythonBridge)
        ensures
            bridge.spec_python_path() == detected@,
            bridge.spec_scripts_dir() == scripts_dir@,
            bridge.spec_env() == Seq::<(Seq<char>, Seq<char>)>::empty(),
            bridge.spec_working_dir() is None,
    {
        let bridge = PythonBridge::with_config(PythonConfig::default(), detected, scripts_dir);
        bridge
    }

    /// A bridge with the given configuration. The interpreter is the one
    /// that the configuration names, or else `detected`.
    pub fn with_config(config: PythonConfig, detected: String, scripts_dir: String) -> (bridge:
        PythonBridge)
        ensures
            bridge.spec_python_path() == match config.python_bin {
                Some(bin) => bin@,
                None => detected@,
            },
            bridge.spec_scripts_dir() == scripts_dir@,
            bridge.spec_env() == pair_texts(config.env_vars@),
            bridge.spec_working_dir() == optional_text(config.working_dir),
    {
        let python_path = match &config.python_bin {
            Some(bin) => bin.clone(),
            None => detected,
        };
        PythonBridge { config, python_path, scripts_dir }
    }

    /// The interpreter that the bridge runs.
    pub fn python_path(&self) -> (path: &String)
        ensures
            path@ == self.spec_python_path(),
    {
        &self.python_path
    }

    /// The directory that holds the scripts.
    pub fn scripts_dir(&self) -> (dir: &String)
        ensures
            dir@ == self.spec_scripts_dir(),
    {
        &self.scripts_dir
    }

    /// The command that tells whether a package is installed: it imports
    /// the package, by its name with every hyphen as an underscore. The
    /// package is installed if the command ends well.
    pub fn check_package(&self, package: &str) -> (command: PythonCommand)
        ensures
            command@ == (PythonCommandView {
                program: self.spec_python_path(),
                args: seq!["-c"@, "import "@ + with_replaced(package@, '-', '_')],
                env: Seq::empty(),
                working_dir: None,
            }),
    {
        let module = replace_char(package, '-', '_');
        let mut args: Vec<String> = Vec::new();
        args.push(String::from_str("-c"));
        args.push(String::from_str("import ").concat(module.as_str()));
        let command = PythonCommand {
            program: self.python_path.clone(),
            args,
            env: Vec::new(),
            working_dir: None,
        };
        proof {
            assert(command@.args =~= seq!["-c"@, "import "@ + with_replaced(package@, '-', '_')]);
            assert(command@.env =~= Seq::empty());
        }
        command
    }

    /// Reads the outcomes of package checks. `outcomes` holds, for the
    /// packages in order, whether the check found the package installed, or
    /// why the check could not run. The first check that could not run fails
    /// the whole; otherwise the result names the packages found absent, in
    /// order. A package without an outcome counts as not checked.
    pub fn check_packages(&self, packages: &[&str], outcomes: &Vec<Result<bool, PythonError>>) -> (r:
        Result<Vec<String>, PythonError>)
        ensures
            match r {
                Ok(missing) => {
                    &&& first_failure(outcomes@, checked_count(packages@, outcomes@)) is None
                    &&& texts(missing@) == absent_packages(
                        packages@,
                        outcomes@,
                        checked_count(packages@, outcomes@),
                    )
                },
                Err(e) => {
                    &&& first_failure(outcomes@, checked_count(packages@, outcomes@)) matches Some(
                        i,
                    )
                    &&& outcomes@[i] matches Err(cause)
                    &&& e@ == cause@
                },
            },
    {
        let n = if packages.len() <= outcomes.len() { packages.len() } else { outcomes.len() };
        let mut missing: Vec<String> = Vec::new();
        let mut i: usize = 0;
        while i < n
            invariant
                n == checked_count(packages@, outcomes@),
                i <= n,
                first_failure(outcomes@, i as int) is None,
                texts(missing@) == absent_packages(packages@, outcomes@, i as int),
            decreases n - i,
        {
            match &outcomes[i] {
                Ok(installed) => {
                    if !*installed {
                        let name = String::from_str(packages[i]);
                        missing.push(name);
                    }
                },
                Err(cause) => {
                    proof {
                        lemma_first_failure_stays(outcomes@, i as int + 1, n as int);
                    }
                    return Err(copy_error(cause));
                },
            }
            i += 1;
        }
        Ok(missing)
    }

    /// The command that installs a package with pip, quietly.
    pub fn install_package(&self, package: &str) -> (command: PythonCommand)
        ensures
            command@ == (PythonCommandView {
                program: self.spec_python_path(),
                args: seq!["-m"@, "pip"@, "install"@, "--quiet"@, package@],
                env: Seq::empty(),
                working_dir: None,
            }),
    {
        let mut args: Vec<String> = Vec::new();
        args.push(String::from_str("-m"));
        args.push(String::from_str("pip"));
        args.push(String::from_str("install"));
        args.push(String::from_str("--quiet"));
        args.push(String::from_str(package));
        let command = PythonCommand {
            program: self.python_path.clone(),
            args,
            env: Vec::new(),
            working_dir: None,
        };
        proof {
            assert(command@.args =~= seq!["-m"@, "pip"@, "install"@, "--quiet"@, package@]);
            assert(command@.env =~= Seq::empty());
        }
        command
    }

    /// Reads the outcome of an installation: a process that failed gives an
    /// `ExecutionFailed` error with its error stream and exit code.
    pub fn install_outcome(&self, package: &str, output: &ProcessOutput) -> (r: Result<
        (),
        PythonError,
    >)
        ensures
            match r {
                Ok(()) => output.success,
                Err(e) => !output.success && e@ == (PythonErrorView {
                    kind: PythonErrorKind::ExecutionFailed,
                    message: "Failed to install "@ + package@,
                    stdout: None,
                    stderr: Some(output.stderr@),
                    exit_code: output.exit_code,
                }),
            },
    {
        if output.success {
            Ok(())
        } else {
            let message = String::from_str("Failed to install ").concat(package);
            Err(
                PythonError::execution_failed(
                    message.as_str(),
                    None,
                    Some(output.stderr.clone()),
                    output.exit_code,
                ),
            )
        }
    }

    /// The command that runs the script `script_name` of the scripts
    /// directory. `script_path` is the path of that script if the file
    /// exists, else `None`; a script that does not exist is refused with
    /// `ScriptNotFound`.
    pub fn run_script(&self, script_name: &str, args: &[&str], script_path: Option<&str>) -> (r:
        Result<PythonCommand, PythonError>)
        ensures
            match r {
                Ok(command) => {
                    &&& script_path matches Some(path)
                    &&& command@ == (PythonCommandView {
                        program: self.spec_python_path(),
                        args: seq![path@] + slice_texts(args@),
                        env: self.spec_env(),
                        working_dir: self.spec_working_dir(),
                    })
                },
                Err(e) => {
                    &&& script_path is None
                    &&& e@ == plain_error(
                        PythonErrorKind::ScriptNotFound,
                        "Script not found: "@ + script_name@ + " (looked in "@ + quoted_path_of(
                            self.spec_scripts_dir(),
                        ) + ")"@,
                    )
                },
            },
    {
        match script_path {
            Some(path) => Ok(self.run_script_path(path, args)),
            None => Err(
                PythonError::script_missing(
                    script_name,
                    quoted_path(self.scripts_dir.as_str()).as_str(),
                ),
            ),
        }
    }

    /// The command that runs the script at `script_path`: the script and
    /// then the arguments, with the configured environment and directory.
    pub fn run_script_path(&self, script_path: &str, args: &[&str]) -> (command: PythonCommand)
        ensures
            command@ == (PythonCommandView {
                program: self.spec_python_path(),
                args: seq![script_path@] + slice_texts(args@),
                env: self.spec_env(),
                working_dir: self.spec_working_dir(),
            }),
    {
        let mut all: Vec<String> = Vec::new();
        all.push(String::from_str(script_path));
        let mut rest = copy_strings(args);
        let ghost rest_texts = texts(rest@);
        all.append(&mut rest);
        let command = PythonCommand {
            program: self.python_path.clone(),
            args: all,
            env: copy_pairs(&self.config.env_vars),
            working_dir: copy_optional(&self.config.working_dir),
        };
        proof {
            assert(command@.args =~= seq![script_path@] + rest_texts);
        }
        command
    }

    /// The command that runs a module (`-m module`) with arguments, with the
    /// configured environment and directory.
    pub fn run_module(&self, module: &str, args: &[&str]) -> (command: PythonCommand)
        ensures
            command@ == (PythonCommandView {
                program: self.spec_python_path(),
                args: seq!["-m"@, module@] + slice_texts(args@),
                env: self.spec_env(),
                working_dir: self.spec_working_dir(),
            }),
    {
        let mut all: Vec<String> = Vec::new();
        all.push(String::from_str("-m"));
        all.push(String::from_str(module));
        let mut rest = copy_strings(args);
        let ghost rest_texts = texts(rest@);
        all.append(&mut rest);
        let command = PythonCommand {
            program: self.python_path.clone(),
            args: all,
            env: copy_pairs(&self.config.env_vars),
            working_dir: copy_optional(&self.config.working_dir),
        };
        proof {
            assert(command@.args =~= seq!["-m"@, module@] + rest_texts);
        }
        command
    }

    /// The command that runs inline code (`-c code`). It runs in the
    /// caller's own environment and directory.
    pub fn run_code(&self, code: &str) -> (command: PythonCommand)
        ensures
            command@ == (PythonCommandView {
                program: self.spec_python_path(),
                args: seq!["-c"@, code@],
                env: Seq::empty(),
                working_dir: None,
            }),
    {
        let mut args: Vec<String> = Vec::new();
        args.push(String::from_str("-c"));
        args.push(String::from_str(code));
        let command = PythonCommand {
            program: self.python_path.clone(),
            args,
            env: Vec::new(),
            working_dir: None,
        };
        proof {
            assert(command@.args =~= seq!["-c"@, code@]);
            assert(command@.env =~= Seq::empty());
        }
        command
    }

    /// The command that prints the interpreter's version.
    pub fn version_command(&self) -> (command: PythonCommand)
        ensures
            command@ == (PythonCommandView {
                program: self.spec_python_path(),
                args: seq!["-c"@, version_code()],
                env: Seq::empty(),
                working_dir: None,
            }),
    {
        self.run_code(
            "import sys; print(f'{sys.version_info.major}.{sys.version_info.minor}.{sys.version_info.micro}')",
        )
    }

    /// The interpreter's version from the outcome of the version command:
    /// what the command printed, without the white space around it.
    pub fn python_version(&self, outcome: Result<ScriptOutput, PythonError>) -> (r: Result<
        String,
        PythonError,
    >)
        ensures
            match (outcome, r) {
                (Ok(out), Ok(version)) => version@ == trimmed_of(out.stdout@),
                (Err(cause), Err(e)) => e == cause,
                _ => false,
            },
    {
        match outcome {
            Ok(out) => Ok(String::from_str(out.stdout.as_str().trim())),
            Err(cause) => Err(cause),
        }
    }

    /// Reads the outcome of a script's process.
    pub fn process_output(&self, output: ProcessOutput) -> (r: Result<ScriptOutput, PythonError>)
        ensures
            script_result_view(r) == output_result(output),
    {
        if output.success {
            Ok(
                ScriptOutput {
                    stdout: output.stdout,
                    stderr: output.stderr,
                    exit_code: output.exit_code,
                    success: true,
                },
            )
        } else {
            Err(
                PythonError::execution_failed(
                    "Script execution failed",
                    Some(output.stdout),
                    Some(output.stderr),
                    output.exit_code,
                ),
            )
        }
    }
}

/// A failed check among the first `from` is still the first failed check
/// among more.
pub proof fn lemma_first_failure_stays(
    outcomes: Seq<Result<bool, PythonError>>,
    from: int,
    upto: int,
)
    requires
        0 <= from <= upto,
        first_failure(outcomes, from) is Some,
    ensures
        first_failure(outcomes, upto) == first_failure(outcomes, from),
    decreases upto - from,
{
    if from < upto {
        lemma_first_failure_stays(outcomes, from, upto - 1);
    }
}

fn copy_error(e: &PythonError) -> (out: PythonError)
    ensures
        out@ == e@,
{
    PythonError {
        kind: e.kind,
        message: e.message.clone(),
        stdout: copy_optional(&e.stdout),
        stderr: copy_optional(&e.stderr),
        exit_code: e.exit_code,
    }
}

/// Builds the run of a script step by step: its arguments and the packages
/// it needs.
pub struct ScriptRunner<'a> {
    bridge: &'a PythonBridge,
    script: String,
    args: Vec<String>,
    required_packages: Vec<String>,
}

impl<'a> ScriptRunner<'a> {
    /// The bridge that the script runs on.
    pub closed spec fn spec_bridge(&self) -> &'a PythonBridge {
        self.bridge
    }

    /// The name of the script.
    pub closed spec fn spec_script(&self) -> Seq<char> {
        self.script@
    }

    /// The arguments so far, in order.
    pub closed spec fn spec_args(&self) -> Seq<Seq<char>> {
        texts(self.args@)
    }

    /// The packages needed so far, in order.
    pub closed spec fn spec_required(&self) -> Seq<Seq<char>> {
        texts(self.required_packages@)
    }

    /// Whether `next` is this runner but for its arguments, which are
    /// `args`.
    pub open spec fn with_args(&self, next: Self, args: Seq<Seq<char>>) -> bool {
        &&& next.spec_bridge() == self.spec_bridge()
        &&& next.spec_script() == self.spec_script()
        &&& next.spec_required() == self.spec_required()
        &&& next.spec_args() == args
    }

    /// A runner for `script` with no argument and no package.
    pub fn new(bridge: &'a PythonBridge, script: &str) -> (runner: Self)
        ensures
            runner.spec_bridge() == bridge,
            runner.spec_script() == script@,
            runner.spec_args() == Seq::<Seq<char>>::empty(),
            runner.spec_required() == Seq::<Seq<char>>::empty(),
    {
        let runner = ScriptRunner {
            bridge,
            script: String::from_str(script),
            args: Vec::new(),
            required_packages: Vec::new(),
        };
        runner
    }

    /// Adds a positional argument.
    pub fn arg(self, arg: &str) -> (next: Self)
        ensures
            self.with_args(next, self.spec_args().push(arg@)),
    {
        let mut next = self;
        let added = String::from_str(arg);
        proof {
            assert(texts(next.args@.push(added)) =~= texts(next.args@).push(added@));
        }
        next.args.push(added);
        next
    }

    /// Adds several arguments, in order.
    pub fn args(self, args: &[&str]) -> (next: Self)
        ensures
            self.with_args(next, self.spec_args() + slice_texts(args@)),
    {
        let mut next = self;
        let mut added = copy_strings(args);
        proof {
            assert(texts(next.args@ + added@) =~= texts(next.args@) + texts(added@));
        }
        next.args.append(&mut added);
        next
    }

    /// Adds a flag: `--name`.
    pub fn flag(self, name: &str) -> (next: Self)
        ensures
            self.with_args(next, self.spec_args().push("--"@ + name@)),
    {
        let mut next = self;
        let added = String::from_str("--").concat(name);
        proof {
            assert(texts(next.args@.push(added)) =~= texts(next.args@).push(added@));
        }
        next.args.push(added);
        next
    }

    /// Adds an option with its value: `--name value`.
    pub fn option(self, name: &str, value: &str) -> (next: Self)
        ensures
            self.with_args(next, self.spec_args().push("--"@ + name@).push(value@)),
    {
        self.flag(name).arg(value)
    }

    /// Adds an option with its value if there is a value, else nothing.
    pub fn option_if(self, name: &str, value: Option<&str>) -> (next: Self)
        ensures
            self.with_args(
                next,
                match value {
                    Some(v) => self.spec_args().push("--"@ + name@).push(v@),
                    None => self.spec_args(),
                },
            ),
    {
        match value {
            Some(v) => self.option(name, v),
            None => self,
        }
    }

    /// Names a package that the script needs; it is checked before the
    /// script runs.
    pub fn requires_package(self, package: &str) -> (next: Self)
        ensures
            next.spec_bridge() == self.spec_bridge(),
            next.spec_script() == self.spec_script(),
            next.spec_args() == self.spec_args(),
            next.spec_required() == self.spec_required().push(package@),
    {
        let mut next = self;
        let added = String::from_str(package);
        proof {
            assert(texts(next.required_packages@.push(added)) =~= texts(
                next.required_packages@,
            ).push(added@));
        }
        next.required_packages.push(added);
        next
    }

    /// The packages to check before the script runs.
    pub fn required_packages(&self) -> (packages: &Vec<String>)
        ensures
            texts(packages@) == self.spec_required(),
    {
        &self.required_packages
    }

    /// The name of the script.
    pub fn script(&self) -> (name: &String)
        ensures
            name@ == self.spec_script(),
    {
        &self.script
    }

    /// The command that runs the script, once its packages have been
    /// checked. `checked` is the outcome of checking the needed packages:
    /// the packages found missing, or why the check failed. `script_path` is
    /// the path of the script if the file exists.
    ///
    /// A runner that needs packages fails with the check's own error if the
    /// check failed, and with `MissingDependency`, naming the packages, if
    /// any is missing. A runner that needs none does not look at `checked`.
    /// After that the script is run as `PythonBridge::run_script` runs it.
    pub fn run(self, checked: Result<Vec<String>, PythonError>, script_path: Option<&str>) -> (r:
        Result<PythonCommand, PythonError>)
        ensures
            match r {
                Ok(command) => {
                    &&& self.spec_required().len() > 0 ==> (checked matches Ok(missing)
                        && missing@.len() == 0)
                    &&& script_path matches Some(path)
                    &&& command@ == (PythonCommandView {
                        program: self.spec_bridge().spec_python_path(),
                        args: seq![path@] + self.spec_args(),
                        env: self.spec_bridge().spec_env(),
                        working_dir: self.spec_bridge().spec_working_dir(),
                    })
                },
                Err(e) => {
                    if self.spec_required().len() > 0 && checked is Err {
                        e == checked->Err_0
                    } else if self.spec_required().len() > 0 && checked->Ok_0@.len() > 0 {
                        e@ == plain_error(
                            PythonErrorKind::MissingDependency,
                            "Missing Python package: "@ + joined(
                                texts(checked->Ok_0@),
                                ", "@,
                            ),
                        )
                    } else {
                        &&& script_path is None
                        &&& e@ == plain_error(
                            PythonErrorKind::ScriptNotFound,
                            "Script not found: "@ + self.spec_script() + " (looked in "@
                                + quoted_path_of(self.spec_bridge().spec_scripts_dir()) + ")"@,
                        )
                    }
                },
            },
    {
        if self.required_packages.len() > 0 {
            match checked {
                Ok(missing) => {
                    if missing.len() > 0 {
                        let names = join(&missing, ", ");
                        return Err(PythonError::missing_dependency(names.as_str()));
                    }
                },
                Err(e) => {
                    return Err(e);
                },
            }
        }
        let args = borrow_all(&self.args);
        self.bridge.run_script(self.script.as_str(), args.as_slice(), script_path)
    }
}

/// The strings of a vector as string slices.
fn borrow_all<'a>(strings: &'a Vec<String>) -> (out: Vec<&'a str>)
    ensures
        slice_texts(out@) == texts(strings@),
{
    let mut out: Vec<&'a str> = Vec::new();
    let n = strings.len();
    let mut i: usize = 0;
    while i < n
        invariant
            n == strings@.len(),
            i <= n,
            slice_texts(out@) == texts(strings@.take(i as int)),
        decreases n - i,
    {
        let s: &'a str = strings[i].as_str();
        proof {
            assert(texts(strings@.take(i as int + 1)) =~= texts(strings@.take(i as int)).push(
                strings@[i as int]@,
            ));
        }
        out.push(s);
        i += 1;
    }
    out
}

} // verus!
