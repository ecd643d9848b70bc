use file_share::headers::{
    bearer_token, choose_token, content_disposition, is_plain_name, upload_name, upload_path,
};

#[test]
fn bearer_token_strips_the_scheme() {
    assert_eq!(bearer_token(Some("Bearer abc.def.ghi")), Some("abc.def.ghi".to_string()));
}

#[test]
fn bearer_token_of_bare_scheme_is_empty() {
    assert_eq!(bearer_token(Some("Bearer ")), Some(String::new()));
}

#[test]
fn bearer_token_needs_the_scheme() {
    assert_eq!(bearer_token(Some("Basic abc")), None);
    assert_eq!(bearer_token(Some("bearer abc")), None);
    assert_eq!(bearer_token(Some("Bearer")), None);
    assert_eq!(bearer_token(Some("")), None);
    assert_eq!(bearer_token(None), None);
}

#[test]
fn bearer_token_keeps_non_ascii_rest() {
    assert_eq!(bearer_token(Some("Bearer ünï")), Some("ünï".to_string()));
}

#[test]
fn header_token_takes_precedence_over_query() {
    assert_eq!(
        choose_token(Some("Bearer from-header"), Some("from-query".to_string())),
        Some("from-header".to_string())
    );
}

#[test]
fn query_token_is_used_without_bearer_header() {
    assert_eq!(choose_token(None, Some("q".to_string())), Some("q".to_string()));
    assert_eq!(choose_token(Some("Token x"), Some("q".to_string())), Some("q".to_string()));
    assert_eq!(choose_token(Some("Token x"), None), None);
}

#[test]
fn upload_names_and_paths() {
    assert_eq!(upload_name(Some("report.pdf")), "report.pdf");
    assert_eq!(upload_name(None), "unknown");
    assert_eq!(upload_path("report.pdf"), "uploads/report.pdf");
    assert_eq!(upload_path(&upload_name(None)), "uploads/unknown");
}

#[test]
fn disposition_names_the_file() {
    assert_eq!(content_disposition("a b.txt"), "attachment; filename=\"a b.txt\"");
}

#[test]
fn plain_names_stay_inside_uploads() {
    assert!(is_plain_name("report.pdf"));
    assert!(is_plain_name("..."));
    assert!(is_plain_name("a\\b"));
    assert!(!is_plain_name(".."));
    assert!(!is_plain_name("../x"));
    assert!(!is_plain_name("a/b"));
}
