use submission_check::git_tools::metadata::MetadataConstraints;
use submission_check::plag_check::copydetect::{should_run_detector, supported_extensions};
use submission_check::plag_check::plag_result::{
    copy_percentage_from_html, PlagiarismVerificationResult,
};
use submission_check::plag_check::verification::VerificationResult;
use submission_check::report::SubmissionReport;

fn report_with(value: &str) -> String {
    format!(
        "<html><body>Some text<br><b>Number above display threshold:</b> 3 ({}%)<br><br>rest</body></html>",
        value
    )
}

#[test]
fn test_copy_percentage_simple_decimal() {
    let html = report_with("12.5");
    assert_eq!(copy_percentage_from_html(html.as_bytes()), Some(125000));
}

#[test]
fn test_copy_percentage_whole_number() {
    assert_eq!(copy_percentage_from_html(report_with("100").as_bytes()), Some(1000000));
    assert_eq!(copy_percentage_from_html(report_with("0").as_bytes()), Some(0));
    assert_eq!(copy_percentage_from_html(report_with("7").as_bytes()), Some(70000));
}

#[test]
fn test_copy_percentage_trailing_and_leading_dot() {
    assert_eq!(copy_percentage_from_html(report_with("12.").as_bytes()), Some(120000));
    assert_eq!(copy_percentage_from_html(report_with(".5").as_bytes()), Some(5000));
    assert_eq!(copy_percentage_from_html(report_with("0.0001").as_bytes()), Some(1));
}

#[test]
fn test_copy_percentage_unreadable_values() {
    // above 100 percent
    assert_eq!(copy_percentage_from_html(report_with("150").as_bytes()), None);
    // two decimal points
    assert_eq!(copy_percentage_from_html(report_with("1.2.3").as_bytes()), None);
    // lone dot
    assert_eq!(copy_percentage_from_html(report_with(".").as_bytes()), None);
    // finer than millionths resolve
    assert_eq!(copy_percentage_from_html(report_with("12.50000").as_bytes()), None);
}

#[test]
fn test_copy_percentage_without_marker() {
    let html = "<html><body>No summary here (12.5%)<br><br></body></html>";
    assert_eq!(copy_percentage_from_html(html.as_bytes()), None);
}

#[test]
fn test_copy_percentage_takes_first_match() {
    let html = format!("{}{}", report_with("25"), report_with("50"));
    assert_eq!(copy_percentage_from_html(html.as_bytes()), Some(250000));
}

#[test]
fn test_plagiarism_result_wraps_similarity() {
    let res = PlagiarismVerificationResult::new(Some(125000));
    match res.result {
        VerificationResult::Verified(p) => assert_eq!(p, 125000),
        other => panic!("expected Verified, got {:?}", other),
    }
    let res = PlagiarismVerificationResult::new(None);
    assert!(matches!(res.result, VerificationResult::ManualRequired));
}

#[test]
fn test_detector_declines_on_empty_comparison_set() {
    let no_dirs: Vec<String> = Vec::new();
    assert!(!should_run_detector(&no_dirs));
    let res = PlagiarismVerificationResult::new(None);
    assert!(matches!(res.result, VerificationResult::ManualRequired));

    let one_dir = vec![String::from("/tmp/somewhere")];
    assert!(should_run_detector(&one_dir));
}

#[test]
fn test_supported_extensions_list() {
    let exts = supported_extensions();
    assert_eq!(exts.len(), 28);
    assert_eq!(exts[0], "py");
    assert_eq!(exts[27], "lua");
    assert!(exts.iter().any(|e| e == "rs"));
}

#[test]
fn test_submission_report_keeps_both_outcomes() {
    let metadata = submission_check::git_tools::metadata::check_metadata_at_path(
        "/tmp/submission_check_report_missing_repo",
        MetadataConstraints::new_empty(),
    );
    let plagiarism = PlagiarismVerificationResult::new(Some(40000));
    let report = SubmissionReport::new(metadata, plagiarism);
    assert!(report.metadata.all_verified_or_skipped());
    assert!(matches!(report.plagiarism.result, VerificationResult::Verified(40000)));
}

#[test]
fn test_contains_str_membership() {
    let names = vec![String::from("alice"), String::from("bob")];
    assert!(submission_check::strutil::contains_str(&names, &String::from("alice")));
    assert!(!submission_check::strutil::contains_str(&names, &String::from("carol")));
}
