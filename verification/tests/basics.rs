use tlacuilo::pdf_compress::{format_size, CompressionLevel};
use tlacuilo::pdf_ocr::OcrOptions;
use tlacuilo::python_bridge::{PythonError, ScriptOutput};

#[test]
fn test_format_size() {
    assert_eq!(format_size(500), "500 bytes");
    assert_eq!(format_size(1024), "1.00 KB");
    assert_eq!(format_size(1536), "1.50 KB");
    assert_eq!(format_size(1048576), "1.00 MB");
    assert_eq!(format_size(1073741824), "1.00 GB");
}

#[test]
fn test_compression_level_default() {
    assert_eq!(CompressionLevel::default(), CompressionLevel::Medium);
}

#[test]
fn test_default_options() {
    let opts = OcrOptions::default();
    assert_eq!(opts.language, "eng");
    assert_eq!(opts.optimize, 1);
    assert!(!opts.deskew);
}

#[test]
fn test_python_error_display() {
    let err = PythonError::python_not_found("No Python");
    assert!(err.to_string().contains("PythonNotFound"));
}

#[test]
fn test_script_output_lines() {
    let output = ScriptOutput {
        stdout: "line1\nline2\nline3".to_string(),
        stderr: String::new(),
        exit_code: Some(0),
        success: true,
    };
    assert_eq!(output.lines().len(), 3);
}
