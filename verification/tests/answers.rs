use tlacuilo::answers::{
    answer_error, keep_texts, AnnotationEmbedResult, AttachmentExtractResult, AttachmentFields,
    AttachmentInfo, FormFillResult, PackageCheckResult, XfdfExportResult,
};

fn s(text: &str) -> Option<String> {
    Some(text.to_string())
}

#[test]
fn embed_result_defaults() {
    assert_eq!(
        AnnotationEmbedResult::from_answer("o.pdf".to_string(), None, None),
        AnnotationEmbedResult { output_path: "o.pdf".to_string(), total: 0, errors: vec![] }
    );
    assert_eq!(
        AnnotationEmbedResult::from_answer(
            "o.pdf".to_string(),
            Some(7),
            Some(vec![s("bad rect"), None, s(""), s("bad page")])
        ),
        AnnotationEmbedResult {
            output_path: "o.pdf".to_string(),
            total: 7,
            errors: vec!["bad rect".to_string(), String::new(), "bad page".to_string()],
        }
    );
}

#[test]
fn large_counts_keep_their_low_bits() {
    let r = AnnotationEmbedResult::from_answer(String::new(), Some((1 << 32) + 5), None);
    assert_eq!(r.total, 5);
    assert_eq!(XfdfExportResult::from_answer(String::new(), Some(u64::MAX)).exported, u32::MAX);
    assert_eq!(XfdfExportResult::from_answer(String::new(), Some(1 << 32)).exported, 0);
    assert_eq!(
        XfdfExportResult::from_answer("a.xfdf".to_string(), Some(4_294_967_295)),
        XfdfExportResult { output_path: "a.xfdf".to_string(), exported: 4_294_967_295 }
    );
    assert_eq!(XfdfExportResult::from_answer(String::new(), None).exported, 0);
}

#[test]
fn texts_of_a_list_are_kept_in_order() {
    assert_eq!(keep_texts(vec![]), Vec::<String>::new());
    assert_eq!(keep_texts(vec![None, None]), Vec::<String>::new());
    assert_eq!(
        keep_texts(vec![s("a"), None, s("b"), s("a")]),
        vec!["a".to_string(), "b".to_string(), "a".to_string()]
    );
}

#[test]
fn attachment_defaults() {
    let empty = AttachmentFields {
        index: None,
        name: None,
        filename: None,
        size: None,
        length: None,
        created: None,
        modified: None,
        description: None,
    };
    assert_eq!(
        AttachmentInfo::from_answer(empty),
        AttachmentInfo {
            index: 0,
            name: String::new(),
            filename: String::new(),
            size: 0,
            length: 0,
            created: String::new(),
            modified: String::new(),
            description: String::new(),
        }
    );
    let full = AttachmentFields {
        index: Some(3),
        name: s("n"),
        filename: s("f.txt"),
        size: Some(u64::MAX),
        length: Some(12),
        created: s("c"),
        modified: s("m"),
        description: s("d"),
    };
    assert_eq!(
        AttachmentInfo::from_answer(full),
        AttachmentInfo {
            index: 3,
            name: "n".to_string(),
            filename: "f.txt".to_string(),
            size: u64::MAX,
            length: 12,
            created: "c".to_string(),
            modified: "m".to_string(),
            description: "d".to_string(),
        }
    );
}

#[test]
fn extract_result_defaults() {
    assert_eq!(
        AttachmentExtractResult::from_answer(None, None, None, None),
        AttachmentExtractResult { success: false, path: String::new(), name: String::new(), size: 0 }
    );
    assert_eq!(
        AttachmentExtractResult::from_answer(Some(true), s("/p"), s("n"), Some(9)),
        AttachmentExtractResult { success: true, path: "/p".to_string(), name: "n".to_string(), size: 9 }
    );
    assert!(!AttachmentExtractResult::from_answer(Some(false), None, None, None).success);
}

#[test]
fn complaint_of_an_answer() {
    assert_eq!(answer_error(None), None);
    assert_eq!(answer_error(Some(None)), s("Unknown error"));
    assert_eq!(answer_error(Some(s("no form"))), s("no form"));
    assert_eq!(answer_error(Some(s(""))), s(""));
}

#[test]
fn form_fill_defaults() {
    assert_eq!(
        FormFillResult::from_answer(None, None, None, None),
        FormFillResult { success: false, filled_count: 0, errors: None, output_path: String::new() }
    );
    assert_eq!(
        FormFillResult::from_answer(Some(true), Some(2), Some(vec![None, s("e")]), s("o.pdf")),
        FormFillResult {
            success: true,
            filled_count: 2,
            errors: Some(vec!["e".to_string()]),
            output_path: "o.pdf".to_string(),
        }
    );
    assert_eq!(FormFillResult::from_answer(None, None, Some(vec![]), None).errors, Some(vec![]));
}

#[test]
fn all_packages_are_installed_if_none_is_missing() {
    assert_eq!(
        PackageCheckResult::from_missing(vec![]),
        PackageCheckResult { all_installed: true, missing: vec![] }
    );
    assert_eq!(
        PackageCheckResult::from_missing(vec!["numpy".to_string()]),
        PackageCheckResult { all_installed: false, missing: vec!["numpy".to_string()] }
    );
}
