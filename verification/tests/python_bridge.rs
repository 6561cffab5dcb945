use tlacuilo::python_bridge::{
    ProcessOutput, PythonBridge, PythonCommand, PythonConfig, PythonError, PythonErrorKind,
    ScriptOutput, ScriptRunner,
};

fn bridge() -> PythonBridge {
    PythonBridge::new("python3".to_string(), "/app/backend".to_string())
}

fn configured() -> PythonBridge {
    let config = PythonConfig {
        python_bin: Some("/venv/bin/python".to_string()),
        venv_path: None,
        working_dir: Some("/work".to_string()),
        env_vars: vec![
            ("A".to_string(), "1".to_string()),
            ("B".to_string(), "two".to_string()),
        ],
    };
    PythonBridge::with_config(config, "python3".to_string(), "/scripts".to_string())
}

fn strings(items: &[&str]) -> Vec<String> {
    items.iter().map(|s| s.to_string()).collect()
}

fn output(stdout: &str) -> ScriptOutput {
    ScriptOutput { stdout: stdout.to_string(), stderr: String::new(), exit_code: Some(0), success: true }
}

#[test]
fn error_constructors() {
    let e = PythonError::python_not_found("No Python");
    assert_eq!(
        e,
        PythonError {
            kind: PythonErrorKind::PythonNotFound,
            message: "No Python".to_string(),
            stdout: None,
            stderr: None,
            exit_code: None,
        }
    );
    assert_eq!(PythonError::script_not_found("s").kind, PythonErrorKind::ScriptNotFound);
    assert_eq!(PythonError::script_not_found("s").message, "s");
    assert_eq!(PythonError::spawn_failed("f").kind, PythonErrorKind::SpawnFailed);
    assert_eq!(PythonError::spawn_failed("f").message, "f");
    let e = PythonError::execution_failed(
        "boom",
        Some("out".to_string()),
        Some("err".to_string()),
        Some(2),
    );
    assert_eq!(
        e,
        PythonError {
            kind: PythonErrorKind::ExecutionFailed,
            message: "boom".to_string(),
            stdout: Some("out".to_string()),
            stderr: Some("err".to_string()),
            exit_code: Some(2),
        }
    );
    let e = PythonError::missing_dependency("numpy");
    assert_eq!(e.kind, PythonErrorKind::MissingDependency);
    assert_eq!(e.message, "Missing Python package: numpy");
    assert_eq!((e.stdout, e.stderr, e.exit_code), (None, None, None));
}

#[test]
fn error_for_a_missing_script() {
    let e = PythonError::script_missing("x.py", "\"/dir\"");
    assert_eq!(e.kind, PythonErrorKind::ScriptNotFound);
    assert_eq!(e.message, "Script not found: x.py (looked in \"/dir\")");
    assert_eq!((e.stdout, e.stderr, e.exit_code), (None, None, None));
}

#[test]
fn error_kind_names() {
    let kinds = [
        (PythonErrorKind::PythonNotFound, "PythonNotFound"),
        (PythonErrorKind::ScriptNotFound, "ScriptNotFound"),
        (PythonErrorKind::SpawnFailed, "SpawnFailed"),
        (PythonErrorKind::ExecutionFailed, "ExecutionFailed"),
        (PythonErrorKind::MissingDependency, "MissingDependency"),
        (PythonErrorKind::InvalidArgs, "InvalidArgs"),
        (PythonErrorKind::Timeout, "Timeout"),
    ];
    for (kind, name) in kinds.iter() {
        let e = PythonError {
            kind: *kind,
            message: "m".to_string(),
            stdout: None,
            stderr: None,
            exit_code: None,
        };
        assert_eq!(e.kind_str(), *name);
        assert_eq!(e.to_string(), format!("{}: m", name));
    }
}

#[test]
fn error_as_text() {
    let plain = PythonError::spawn_failed("cannot start");
    assert_eq!(plain.to_string(), "SpawnFailed: cannot start");
    assert_eq!(String::from(plain), "SpawnFailed: cannot start");
    let with_stderr =
        PythonError::execution_failed("failed", None, Some("Traceback".to_string()), Some(1));
    assert_eq!(with_stderr.to_string(), "ExecutionFailed: failed");
    assert_eq!(String::from(with_stderr), "ExecutionFailed: failed (stderr: Traceback)");
}

#[test]
fn default_config_is_empty() {
    let c = PythonConfig::default();
    assert_eq!(
        c,
        PythonConfig { python_bin: None, venv_path: None, working_dir: None, env_vars: vec![] }
    );
}

#[test]
fn bridge_paths() {
    let b = bridge();
    assert_eq!(b.python_path(), "python3");
    assert_eq!(b.scripts_dir(), "/app/backend");
    let b = configured();
    assert_eq!(b.python_path(), "/venv/bin/python");
    assert_eq!(b.scripts_dir(), "/scripts");
}

#[test]
fn package_check_imports_the_module() {
    let c = bridge().check_package("python-dateutil");
    assert_eq!(
        c,
        PythonCommand {
            program: "python3".to_string(),
            args: strings(&["-c", "import python_dateutil"]),
            env: vec![],
            working_dir: None,
        }
    );
    assert_eq!(configured().check_package("a-b-c").args[1], "import a_b_c");
    assert_eq!(configured().check_package("numpy").env, vec![]);
}

#[test]
fn missing_packages_are_listed_in_order() {
    let b = bridge();
    let r = b.check_packages(
        &["a", "b", "c", "d"],
        &vec![Ok(true), Ok(false), Ok(true), Ok(false)],
    );
    assert_eq!(r, Ok(strings(&["b", "d"])));
    assert_eq!(b.check_packages(&[], &vec![]), Ok(vec![]));
    assert_eq!(b.check_packages(&["a"], &vec![Ok(true)]), Ok(vec![]));
}

#[test]
fn first_failed_package_check_fails_the_whole() {
    let b = bridge();
    let r = b.check_packages(
        &["a", "b", "c"],
        &vec![
            Ok(false),
            Err(PythonError::spawn_failed("first")),
            Err(PythonError::spawn_failed("second")),
        ],
    );
    assert_eq!(r, Err(PythonError::spawn_failed("first")));
}

#[test]
fn packages_without_an_outcome_are_not_judged() {
    let b = bridge();
    assert_eq!(b.check_packages(&["a", "b", "c"], &vec![Ok(false)]), Ok(strings(&["a"])));
    assert_eq!(
        b.check_packages(&["a"], &vec![Ok(true), Err(PythonError::spawn_failed("late"))]),
        Ok(vec![])
    );
}

#[test]
fn install_command_and_outcome() {
    let b = bridge();
    assert_eq!(
        b.install_package("pikepdf"),
        PythonCommand {
            program: "python3".to_string(),
            args: strings(&["-m", "pip", "install", "--quiet", "pikepdf"]),
            env: vec![],
            working_dir: None,
        }
    );
    let good = ProcessOutput {
        stdout: String::new(),
        stderr: "warning".to_string(),
        exit_code: Some(0),
        success: true,
    };
    assert_eq!(b.install_outcome("pikepdf", &good), Ok(()));
    let bad = ProcessOutput {
        stdout: "ignored".to_string(),
        stderr: "no network".to_string(),
        exit_code: Some(1),
        success: false,
    };
    assert_eq!(
        b.install_outcome("pikepdf", &bad),
        Err(PythonError {
            kind: PythonErrorKind::ExecutionFailed,
            message: "Failed to install pikepdf".to_string(),
            stdout: None,
            stderr: Some("no network".to_string()),
            exit_code: Some(1),
        })
    );
}

#[test]
fn script_runs_with_environment_and_directory() {
    let c = configured().run_script_path("/scripts/x.py", &["merge", "--output", "o.pdf"]);
    assert_eq!(
        c,
        PythonCommand {
            program: "/venv/bin/python".to_string(),
            args: strings(&["/scripts/x.py", "merge", "--output", "o.pdf"]),
            env: vec![
                ("A".to_string(), "1".to_string()),
                ("B".to_string(), "two".to_string()),
            ],
            working_dir: Some("/work".to_string()),
        }
    );
    let c = bridge().run_script_path("x.py", &[]);
    assert_eq!(c.args, strings(&["x.py"]));
    assert_eq!(c.env, vec![]);
    assert_eq!(c.working_dir, None);
}

#[test]
fn script_that_exists_is_run() {
    let r = configured().run_script("x.py", &["a"], Some("/scripts/x.py"));
    assert_eq!(r, Ok(configured().run_script_path("/scripts/x.py", &["a"])));
}

#[test]
fn script_that_is_missing_is_refused() {
    let r = configured().run_script("x.py", &["a"], None);
    assert_eq!(
        r,
        Err(PythonError::script_not_found("Script not found: x.py (looked in \"/scripts\")"))
    );
    let odd = PythonBridge::new("python3".to_string(), "C:\\dir \"q\" o'clock".to_string());
    assert_eq!(
        odd.run_script("s.py", &[], None).unwrap_err().message,
        format!(
            "Script not found: s.py (looked in {:?})",
            std::path::PathBuf::from("C:\\dir \"q\" o'clock")
        )
    );
}

#[test]
fn module_runs_with_environment_and_directory() {
    let c = configured().run_module("pip", &["list"]);
    assert_eq!(c.program, "/venv/bin/python");
    assert_eq!(c.args, strings(&["-m", "pip", "list"]));
    assert_eq!(c.env.len(), 2);
    assert_eq!(c.working_dir, Some("/work".to_string()));
}

#[test]
fn inline_code_runs_bare() {
    let c = configured().run_code("print(1)");
    assert_eq!(
        c,
        PythonCommand {
            program: "/venv/bin/python".to_string(),
            args: strings(&["-c", "print(1)"]),
            env: vec![],
            working_dir: None,
        }
    );
}

#[test]
fn version_is_the_trimmed_output() {
    let b = bridge();
    let c = b.version_command();
    assert_eq!(c.args[0], "-c");
    assert_eq!(
        c.args[1],
        "import sys; print(f'{sys.version_info.major}.{sys.version_info.minor}.{sys.version_info.micro}')"
    );
    assert_eq!(b.python_version(Ok(output("3.12.1\n"))), Ok("3.12.1".to_string()));
    assert_eq!(b.python_version(Ok(output("  3.9.0 \r\n"))), Ok("3.9.0".to_string()));
    assert_eq!(
        b.python_version(Err(PythonError::spawn_failed("x"))),
        Err(PythonError::spawn_failed("x"))
    );
}

#[test]
fn process_outcome_becomes_output_or_error() {
    let b = bridge();
    let good = ProcessOutput {
        stdout: "{}".to_string(),
        stderr: "note".to_string(),
        exit_code: Some(0),
        success: true,
    };
    assert_eq!(
        b.process_output(good),
        Ok(ScriptOutput {
            stdout: "{}".to_string(),
            stderr: "note".to_string(),
            exit_code: Some(0),
            success: true,
        })
    );
    let bad = ProcessOutput {
        stdout: "partial".to_string(),
        stderr: "Traceback".to_string(),
        exit_code: None,
        success: false,
    };
    assert_eq!(
        b.process_output(bad),
        Err(PythonError {
            kind: PythonErrorKind::ExecutionFailed,
            message: "Script execution failed".to_string(),
            stdout: Some("partial".to_string()),
            stderr: Some("Traceback".to_string()),
            exit_code: None,
        })
    );
}

#[test]
fn stdout_or_failure_message() {
    let good = ProcessOutput {
        stdout: "{\"ok\":true}".to_string(),
        stderr: String::new(),
        exit_code: Some(0),
        success: true,
    };
    assert_eq!(good.stdout_or("OCR check failed"), Ok("{\"ok\":true}".to_string()));
    let bad = ProcessOutput {
        stdout: "x".to_string(),
        stderr: "no tesseract".to_string(),
        exit_code: Some(3),
        success: false,
    };
    assert_eq!(bad.stdout_or("OCR check failed"), Err("OCR check failed: no tesseract".to_string()));
}

#[test]
fn lines_of_the_output() {
    assert_eq!(output("line1\nline2\nline3").lines(), strings(&["line1", "line2", "line3"]));
    assert_eq!(output("").lines(), Vec::<String>::new());
    assert_eq!(output("one").lines(), strings(&["one"]));
    assert_eq!(output("one\n").lines(), strings(&["one"]));
    assert_eq!(output("\n").lines(), strings(&[""]));
    assert_eq!(output("a\n\nb\n").lines(), strings(&["a", "", "b"]));
    assert_eq!(output("a\r\nb\r\n").lines(), strings(&["a", "b"]));
    assert_eq!(output("a\rb\nc\r").lines(), strings(&["a\rb", "c\r"]));
    assert_eq!(output("a\r\r\nb").lines(), strings(&["a\r", "b"]));
    assert_eq!(output("\r\n\r\n").lines(), strings(&["", ""]));
    assert_eq!(output("\r").lines(), strings(&["\r"]));
}

#[test]
fn lines_agree_with_the_standard_library() {
    let samples = [
        "", "x", "\n", "\r", "\r\n", "a\nb", "a\r\nb\r\n", "a\r", "\n\n\n", "a\r\r\n\rb\n\r",
        "é\nü\r\n日本", "tail\r\n\r",
    ];
    for s in samples.iter() {
        let expected: Vec<String> = s.lines().map(|l| l.to_string()).collect();
        assert_eq!(output(s).lines(), expected);
    }
}

#[test]
fn runner_collects_arguments() {
    let b = bridge();
    let runner = ScriptRunner::new(&b, "pdf_pages.py")
        .arg("merge")
        .args(&["--inputs", "a.pdf", "b.pdf"])
        .flag("verbose")
        .option("output", "o.pdf")
        .option_if("password", Some("pw"))
        .option_if("owner", None)
        .requires_package("pikepdf");
    assert_eq!(runner.script(), "pdf_pages.py");
    assert_eq!(runner.required_packages(), &strings(&["pikepdf"]));
    let command = runner.run(Ok(vec![]), Some("/app/backend/pdf_pages.py")).unwrap();
    assert_eq!(
        command,
        PythonCommand {
            program: "python3".to_string(),
            args: strings(&[
                "/app/backend/pdf_pages.py",
                "merge",
                "--inputs",
                "a.pdf",
                "b.pdf",
                "--verbose",
                "--output",
                "o.pdf",
                "--password",
                "pw",
            ]),
            env: vec![],
            working_dir: None,
        }
    );
}

#[test]
fn runner_without_arguments() {
    let b = configured();
    let command = ScriptRunner::new(&b, "s.py").run(Ok(vec![]), Some("/scripts/s.py")).unwrap();
    assert_eq!(command, b.run_script_path("/scripts/s.py", &[]));
}

#[test]
fn runner_reports_missing_packages() {
    let b = bridge();
    let runner = ScriptRunner::new(&b, "s.py").requires_package("a").requires_package("b");
    let r = runner.run(Ok(strings(&["a", "b"])), Some("/app/backend/s.py"));
    assert_eq!(r, Err(PythonError::missing_dependency("a, b")));
    let runner = ScriptRunner::new(&b, "s.py").requires_package("a");
    let r = runner.run(Ok(strings(&["a"])), None);
    assert_eq!(r.unwrap_err().message, "Missing Python package: a");
}

#[test]
fn runner_hands_on_a_failed_check() {
    let b = bridge();
    let runner = ScriptRunner::new(&b, "s.py").requires_package("a");
    let r = runner.run(Err(PythonError::spawn_failed("no python")), Some("/app/backend/s.py"));
    assert_eq!(r, Err(PythonError::spawn_failed("no python")));
}

#[test]
fn runner_that_needs_nothing_ignores_the_check() {
    let b = bridge();
    let r = ScriptRunner::new(&b, "s.py")
        .arg("x")
        .run(Err(PythonError::spawn_failed("unused")), Some("/app/backend/s.py"));
    assert_eq!(r.unwrap().args, strings(&["/app/backend/s.py", "x"]));
    let r = ScriptRunner::new(&b, "s.py").run(Ok(strings(&["stray"])), Some("p"));
    assert!(r.is_ok());
}

#[test]
fn runner_refuses_a_missing_script() {
    let b = bridge();
    let r = ScriptRunner::new(&b, "gone.py").requires_package("a").run(Ok(vec![]), None);
    assert_eq!(
        r,
        Err(PythonError::script_not_found(
            "Script not found: gone.py (looked in \"/app/backend\")"
        ))
    );
}
