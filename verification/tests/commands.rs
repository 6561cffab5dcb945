use tlacuilo::services::{
    annotations_embed_in_pdf, annotations_export_xfdf, annotations_import_xfdf,
    annotations_read_from_pdf, apply_graphical_signature, attachments_extract,
    attachments_extract_all, attachments_list, attachments_preview, check_pdf_signatures,
    form_fields_fill, form_fields_list, image_files, images_to_pdf, is_image_line, merge_pages,
    merge_pdfs, pdf_add_redaction, pdf_analyze_fonts, pdf_apply_edits, pdf_apply_redactions,
    pdf_check_security, pdf_encrypt, pdf_get_layers, pdf_get_pending_redactions,
    pdf_get_text_blocks_with_fonts, pdf_insert_text, pdf_render_preview, pdf_replace_text,
    pdf_sanitization_info, pdf_sanitize, pdf_set_layer, pdf_to_images, pdf_unlock,
    pdf_verify_redaction, pdf_watermark_image, pdf_watermark_text, rotate_pdf, split_outputs,
    split_pdf, Area, Placement, SanitizeChoice, ServiceCall,
};

fn strings(items: &[&str]) -> Vec<String> {
    items.iter().map(|s| s.to_string()).collect()
}

fn call(script: &str, args: &[&str]) -> ServiceCall {
    ServiceCall { script: script.to_string(), args: strings(args) }
}

fn area() -> Area {
    Area {
        x0: "1.5".to_string(),
        y0: "2".to_string(),
        x1: "30.25".to_string(),
        y1: "40".to_string(),
    }
}

#[test]
fn annotation_calls() {
    assert_eq!(
        annotations_embed_in_pdf("in.pdf", "{}", "out.pdf"),
        call(
            "pdf_annotations.py",
            &["embed", "--input", "in.pdf", "--annotations", "{}", "--output", "out.pdf"]
        )
    );
    assert_eq!(
        annotations_read_from_pdf("in.pdf"),
        call("pdf_annotations.py", &["read", "--input", "in.pdf"])
    );
    assert_eq!(
        annotations_export_xfdf("in.pdf", "a.xfdf"),
        call("pdf_annotations.py", &["export-xfdf", "--input", "in.pdf", "--output", "a.xfdf"])
    );
    assert_eq!(
        annotations_import_xfdf("in.pdf", "a.xfdf", "out.pdf"),
        call(
            "pdf_annotations.py",
            &["import-xfdf", "--input", "in.pdf", "--xfdf", "a.xfdf", "--output", "out.pdf"]
        )
    );
}

#[test]
fn merge_needs_two_documents() {
    let refusal = Err("Provide at least two PDF paths to merge.".to_string());
    assert_eq!(merge_pdfs(&strings(&[]), "o.pdf"), refusal);
    assert_eq!(merge_pdfs(&strings(&["a.pdf"]), "o.pdf"), refusal);
    assert_eq!(
        merge_pdfs(&strings(&["a.pdf", "b.pdf", "c.pdf"]), "o.pdf"),
        Ok(call(
            "pdf_pages.py",
            &["merge", "--output", "o.pdf", "--inputs", "a.pdf", "b.pdf", "c.pdf"]
        ))
    );
}

#[test]
fn merge_of_pages_names_file_and_page() {
    assert_eq!(
        merge_pages(&vec![], "o.pdf"),
        Err("Provide at least one page specification.".to_string())
    );
    let pages = vec![("a.pdf".to_string(), 3), ("b.pdf".to_string(), 0), ("a.pdf".to_string(), -1)];
    assert_eq!(
        merge_pages(&pages, "o.pdf"),
        Ok(call(
            "pdf_pages.py",
            &["merge-pages", "--output", "o.pdf", "--pages", "a.pdf:3", "b.pdf:0", "a.pdf:-1"]
        ))
    );
}

#[test]
fn split_with_and_without_ranges() {
    assert_eq!(
        split_pdf("in.pdf", "/out", &strings(&[])),
        call("pdf_pages.py", &["split", "--input", "in.pdf", "--output-dir", "/out"])
    );
    assert_eq!(
        split_pdf("in.pdf", "/out", &strings(&["1-3", "5"])),
        call(
            "pdf_pages.py",
            &["split", "--input", "in.pdf", "--output-dir", "/out", "--ranges", "1-3", "5"]
        )
    );
}

#[test]
fn split_reports_directory_and_files() {
    assert_eq!(split_outputs("/out", 0), strings(&["/out", "/out/split_1.pdf"]));
    assert_eq!(split_outputs("/out", 1), strings(&["/out", "/out/split_1.pdf"]));
    assert_eq!(
        split_outputs("/out", 3),
        strings(&["/out", "/out/split_1.pdf", "/out/split_2.pdf", "/out/split_3.pdf"])
    );
    let many = split_outputs("d", 12);
    assert_eq!(many.len(), 13);
    assert_eq!(many[12], "d/split_12.pdf");
}

#[test]
fn rotation_by_page_or_overall() {
    assert_eq!(
        rotate_pdf("in.pdf", 90, "o.pdf", &strings(&[])),
        call(
            "pdf_pages.py",
            &["rotate", "--input", "in.pdf", "--output", "o.pdf", "--degrees", "90"]
        )
    );
    assert_eq!(
        rotate_pdf("in.pdf", -90, "o.pdf", &strings(&[])).args[6],
        "-90"
    );
    assert_eq!(
        rotate_pdf("in.pdf", 90, "o.pdf", &strings(&["1:90", "2:180"])),
        call(
            "pdf_pages.py",
            &["rotate", "--input", "in.pdf", "--output", "o.pdf", "--rotation", "1:90", "2:180"]
        )
    );
}

#[test]
fn images_to_document() {
    assert_eq!(
        images_to_pdf(&strings(&[]), "o.pdf", None, None, None, None),
        Err("Provide at least one image path.".to_string())
    );
    assert_eq!(
        images_to_pdf(&strings(&["a.png"]), "o.pdf", None, None, None, None),
        Ok(call("pdf_convert.py", &["images-to-pdf", "--output", "o.pdf", "--inputs", "a.png"]))
    );
    assert_eq!(
        images_to_pdf(
            &strings(&["a.png", "b.jpg"]),
            "o.pdf",
            Some("A4"),
            Some("landscape"),
            Some("12.5"),
            Some("[]")
        ),
        Ok(call(
            "pdf_convert.py",
            &[
                "images-to-pdf", "--output", "o.pdf", "--inputs", "a.png", "b.jpg", "--page-size",
                "A4", "--orientation", "landscape", "--margin", "12.5", "--transforms", "[]",
            ]
        ))
    );
    assert_eq!(
        images_to_pdf(&strings(&["a.png"]), "o.pdf", None, Some("auto"), None, Some("[]"))
            .unwrap()
            .args[5..],
        strings(&["--orientation", "auto", "--transforms", "[]"])[..]
    );
}

#[test]
fn document_to_images() {
    assert_eq!(
        pdf_to_images("in.pdf", "/img", None, None, None),
        call("pdf_convert.py", &["pdf-to-images", "--input", "in.pdf", "--output-dir", "/img"])
    );
    assert_eq!(
        pdf_to_images("in.pdf", "/img", Some("png"), Some(300), Some("1-3")),
        call(
            "pdf_convert.py",
            &[
                "pdf-to-images", "--input", "in.pdf", "--output-dir", "/img", "--format", "png",
                "--dpi", "300", "--pages", "1-3",
            ]
        )
    );
}

#[test]
fn image_files_are_read_from_the_output() {
    let stdout = "Converting...\n  /img/page_1.png  \n/img/notes.txt\nelsewhere/p.jpg\r\nx.webp\ny.tiff\nz.gif\n";
    assert_eq!(
        image_files(stdout, "/img"),
        strings(&["/img/page_1.png", "/img/notes.txt", "elsewhere/p.jpg", "x.webp", "y.tiff"])
    );
    assert_eq!(image_files("nothing here\n", "/img"), strings(&["/img"]));
    assert_eq!(image_files("", "/img"), strings(&["/img"]));
    assert!(is_image_line("/img/a", "/img"));
    assert!(is_image_line("a.png", "/img"));
    assert!(!is_image_line("a.PNG", "/img"));
    assert!(!is_image_line(" /img/a", "/img"));
    assert!(is_image_line("anything", ""));
}

#[test]
fn security_calls() {
    assert_eq!(
        pdf_check_security("in.pdf"),
        call("pdf_security.py", &["check", "--input", "in.pdf", "--json"])
    );
    assert_eq!(
        pdf_unlock("in.pdf", "o.pdf", None),
        call("pdf_security.py", &["unlock", "--input", "in.pdf", "--output", "o.pdf", "--json"])
    );
    assert_eq!(
        pdf_unlock("in.pdf", "o.pdf", Some("pw")),
        call(
            "pdf_security.py",
            &["unlock", "--input", "in.pdf", "--output", "o.pdf", "--json", "--password", "pw"]
        )
    );
}

#[test]
fn encryption_withholds_only_what_is_denied() {
    assert_eq!(
        pdf_encrypt("in.pdf", "o.pdf", None, None, None, None, None),
        call("pdf_security.py", &["encrypt", "--input", "in.pdf", "--output", "o.pdf", "--json"])
    );
    assert_eq!(
        pdf_encrypt("in.pdf", "o.pdf", None, None, Some(true), Some(true), Some(true)).args.len(),
        6
    );
    assert_eq!(
        pdf_encrypt(
            "in.pdf",
            "o.pdf",
            Some("u"),
            Some("o"),
            Some(false),
            Some(false),
            Some(false)
        ),
        call(
            "pdf_security.py",
            &[
                "encrypt", "--input", "in.pdf", "--output", "o.pdf", "--json", "--user-password",
                "u", "--owner-password", "o", "--no-print", "--no-copy", "--no-modify",
            ]
        )
    );
    assert_eq!(
        pdf_encrypt("i", "o", None, Some("o"), Some(true), Some(false), None).args[6..],
        strings(&["--owner-password", "o", "--no-copy"])[..]
    );
}

#[test]
fn signature_calls() {
    assert_eq!(
        check_pdf_signatures("in.pdf"),
        call("pdf_signatures.py", &["check", "--input", "in.pdf", "--json"])
    );
    let at = Placement {
        x: "10".to_string(),
        y: "20.5".to_string(),
        width: "100".to_string(),
        height: None,
        rotation: None,
        opacity: None,
    };
    assert_eq!(
        apply_graphical_signature("in.pdf", "o.pdf", "QUJD", 2, &at, None),
        call(
            "pdf_signatures.py",
            &[
                "apply", "--input", "in.pdf", "--output", "o.pdf", "--image-b64", "QUJD", "--page",
                "2", "--x", "10", "--y", "20.5", "--width", "100", "--json",
            ]
        )
    );
    let full = Placement {
        height: Some("50".to_string()),
        rotation: Some("-45".to_string()),
        opacity: Some("0.5".to_string()),
        ..at
    };
    assert_eq!(
        apply_graphical_signature("in.pdf", "o.pdf", "QUJD", 2, &full, Some("contain")).args[16..],
        strings(&[
            "--height", "50", "--rotation", "-45", "--opacity", "0.5", "--fit", "contain",
        ])[..]
    );
}

#[test]
fn layer_calls() {
    assert_eq!(
        pdf_get_layers("in.pdf"),
        call("pdf_layers.py", &["list", "--input", "in.pdf", "--json"])
    );
    assert_eq!(
        pdf_set_layer("in.pdf", "o.pdf", Some("Grid"), Some(7), true),
        call(
            "pdf_layers.py",
            &[
                "toggle", "--input", "in.pdf", "--output", "o.pdf", "--visible", "true", "--json",
                "--layer", "Grid",
            ]
        )
    );
    assert_eq!(
        pdf_set_layer("in.pdf", "o.pdf", None, Some(7), false),
        call(
            "pdf_layers.py",
            &[
                "toggle", "--input", "in.pdf", "--output", "o.pdf", "--visible", "false", "--json",
                "--xref", "7",
            ]
        )
    );
    assert_eq!(pdf_set_layer("in.pdf", "o.pdf", None, None, true).args.len(), 8);
}

#[test]
fn redaction_calls() {
    assert_eq!(
        pdf_get_pending_redactions("in.pdf"),
        call("pdf_redaction.py", &["pending", "--input", "in.pdf", "--json"])
    );
    assert_eq!(
        pdf_add_redaction("in.pdf", "o.pdf", 0, &area(), None),
        call(
            "pdf_redaction.py",
            &[
                "mark", "--input", "in.pdf", "--output", "o.pdf", "--page", "0", "--x0", "1.5",
                "--y0", "2", "--x1", "30.25", "--y1", "40", "--json",
            ]
        )
    );
    assert_eq!(
        pdf_add_redaction("in.pdf", "o.pdf", 0, &area(), Some("REDACTED")).args[16..],
        strings(&["--text", "REDACTED"])[..]
    );
    assert_eq!(
        pdf_verify_redaction("in.pdf", 4, &area()),
        call(
            "pdf_redaction.py",
            &[
                "verify", "--input", "in.pdf", "--page", "4", "--x0", "1.5", "--y0", "2", "--x1",
                "30.25", "--y1", "40", "--json",
            ]
        )
    );
    assert_eq!(
        pdf_apply_redactions("in.pdf", "o.pdf", true, true),
        call("pdf_redaction.py", &["apply", "--input", "in.pdf", "--output", "o.pdf", "--json"])
    );
    assert_eq!(
        pdf_apply_redactions("in.pdf", "o.pdf", false, false).args[6..],
        strings(&["--no-images", "--no-graphics"])[..]
    );
    assert_eq!(
        pdf_apply_redactions("in.pdf", "o.pdf", true, false).args[6..],
        strings(&["--no-graphics"])[..]
    );
}

#[test]
fn sanitization_calls() {
    assert_eq!(
        pdf_sanitization_info("in.pdf"),
        call("pdf_sanitize.py", &["info", "--input", "in.pdf", "--json"])
    );
    let everything = SanitizeChoice {
        remove_metadata: true,
        remove_javascript: true,
        remove_embedded_files: true,
        remove_links: true,
        remove_annotations: true,
    };
    assert_eq!(
        pdf_sanitize("in.pdf", "o.pdf", everything),
        call(
            "pdf_sanitize.py",
            &[
                "clean", "--input", "in.pdf", "--output", "o.pdf", "--json", "--remove-links",
                "--remove-annotations",
            ]
        )
    );
    let nothing = SanitizeChoice {
        remove_metadata: false,
        remove_javascript: false,
        remove_embedded_files: false,
        remove_links: false,
        remove_annotations: false,
    };
    assert_eq!(
        pdf_sanitize("in.pdf", "o.pdf", nothing).args[6..],
        strings(&["--keep-metadata", "--keep-javascript", "--keep-embedded"])[..]
    );
}

#[test]
fn watermark_calls() {
    assert_eq!(
        pdf_watermark_text("in.pdf", "o.pdf", "DRAFT", "{}"),
        call("pdf_watermark.py", &["text", "in.pdf", "o.pdf", "DRAFT", "{}"])
    );
    assert_eq!(
        pdf_watermark_image("in.pdf", "o.pdf", "logo.png", "{}"),
        call("pdf_watermark.py", &["image", "in.pdf", "o.pdf", "logo.png", "{}"])
    );
}

#[test]
fn edit_calls() {
    assert_eq!(
        pdf_insert_text("in.pdf", "o.pdf", 1, "10", "20", "hi", None, None),
        call(
            "pdf_edit.py",
            &[
                "insert-text", "--input", "in.pdf", "--output", "o.pdf", "--page", "1", "--x", "10",
                "--y", "20", "--text", "hi", "--font", "helv", "--size", "12", "--json",
            ]
        )
    );
    assert_eq!(
        pdf_insert_text("in.pdf", "o.pdf", 1, "10", "20", "hi", Some("tiro"), Some("9.5")).args
            [13..],
        strings(&["--font", "tiro", "--size", "9.5", "--json"])[..]
    );
    assert_eq!(
        pdf_replace_text("in.pdf", "o.pdf", 2, &area(), "new"),
        call(
            "pdf_edit.py",
            &[
                "replace-text", "--input", "in.pdf", "--output", "o.pdf", "--page", "2", "--x0",
                "1.5", "--y0", "2", "--x1", "30.25", "--y1", "40", "--text", "new", "--json",
            ]
        )
    );
    assert_eq!(
        pdf_apply_edits("in.pdf", "o.pdf", "[]"),
        call(
            "pdf_edit.py",
            &["apply-edits", "--input", "in.pdf", "--output", "o.pdf", "--edits", "[]", "--json"]
        )
    );
    assert_eq!(
        pdf_render_preview("in.pdf", 3, "[]", None),
        call(
            "pdf_edit.py",
            &["preview", "--input", "in.pdf", "--page", "3", "--edits", "[]", "--dpi", "150", "--json"]
        )
    );
    assert_eq!(pdf_render_preview("in.pdf", 3, "[]", Some(72)).args[8], "72");
    assert_eq!(
        pdf_get_text_blocks_with_fonts("in.pdf", 0),
        call("pdf_edit.py", &["text-blocks-fonts", "--input", "in.pdf", "--page", "0", "--json"])
    );
    assert_eq!(
        pdf_analyze_fonts("in.pdf"),
        call("pdf_edit.py", &["analyze-fonts", "--input", "in.pdf", "--json"])
    );
}

#[test]
fn attachment_and_form_calls() {
    assert_eq!(
        attachments_list("in.pdf"),
        call("pdf_attachments.py", &["list", "--input", "in.pdf"])
    );
    assert_eq!(
        attachments_extract("in.pdf", "a.txt", "/tmp/a.txt"),
        call(
            "pdf_attachments.py",
            &["extract", "--input", "in.pdf", "--name", "a.txt", "--output", "/tmp/a.txt"]
        )
    );
    assert_eq!(
        attachments_extract_all("in.pdf", "/tmp/att"),
        call("pdf_attachments.py", &["extract-all", "--input", "in.pdf", "--output-dir", "/tmp/att"])
    );
    assert_eq!(
        attachments_preview("in.pdf", "a.txt"),
        call("pdf_attachments.py", &["preview", "--input", "in.pdf", "--name", "a.txt"])
    );
    assert_eq!(form_fields_list("in.pdf"), call("pdf_forms.py", &["list", "in.pdf"]));
    assert_eq!(
        form_fields_fill("in.pdf", "o.pdf", "{\"a\":1}"),
        call("pdf_forms.py", &["fill", "in.pdf", "o.pdf", "{\"a\":1}"])
    );
}
