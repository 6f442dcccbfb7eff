use axoupdater::link::get_next_url;
use axoupdater::resolve::next_page;

#[test]
fn lib_test_link_header_parse() {
    let sample = r#"
<https://api.github.com/repositories/1300192/issues?page=2>; rel="prev", <https://api.github.com/repositories/1300192/issues?page=4>; rel="next", <https://api.github.com/repositories/1300192/issues?page=515>; rel="last", <https://api.github.com/repositories/1300192/issues?page=1>; rel="first"
"#;

    let result = get_next_url(sample);
    assert!(result.is_some());
    assert_eq!(
        "https://api.github.com/repositories/1300192/issues?page=4",
        result.unwrap()
    );
}

#[test]
fn lib_test_link_header_parse_next_missing() {
    let sample = r#"
<https://api.github.com/repositories/1300192/issues?page=2>; rel="prev", <https://api.github.com/repositories/1300192/issues?page=515>; rel="last", <https://api.github.com/repositories/1300192/issues?page=1>; rel="first"
"#;

    let result = get_next_url(sample);
    assert!(result.is_none());
}

#[test]
fn lib_test_link_header_parse_empty_header() {
    let sample = "";

    let result = get_next_url(sample);
    assert!(result.is_none());
}

#[test]
fn github_test_link_header_parse() {
    let sample = r#"
    <https://api.github.com/repositories/1300192/issues?page=2>; rel="prev", <https://api.github.com/repositories/1300192/issues?page=4>; rel="next", <https://api.github.com/repositories/1300192/issues?page=515>; rel="last", <https://api.github.com/repositories/1300192/issues?page=1>; rel="first"
    "#;

    let result = get_next_url(sample);
    assert!(result.is_some());
    assert_eq!(
        "https://api.github.com/repositories/1300192/issues?page=4",
        result.unwrap()
    );
}

#[test]
fn github_test_link_header_parse_next_missing() {
    let sample = r#"
    <https://api.github.com/repositories/1300192/issues?page=2>; rel="prev", <https://api.github.com/repositories/1300192/issues?page=515>; rel="last", <https://api.github.com/repositories/1300192/issues?page=1>; rel="first"
    "#;

    let result = get_next_url(sample);
    assert!(result.is_none());
}

#[test]
fn github_test_link_header_parse_empty_header() {
    let sample = "";

    let result = get_next_url(sample);
    assert!(result.is_none());
}

#[test]
fn next_link_after_prev_entry() {
    let header = "<u1>; rel=\"prev\", <u2>; rel=\"next\"";
    assert_eq!(get_next_url(header), Some("u2".to_string()));
    assert_eq!(get_next_url("<u1>; rel=\"prev\""), None);
}

#[test]
fn next_link_trims_tabs_and_newlines() {
    let header = "\t\n <https://example.com/p2>\t ; rel=\"next\"";
    assert_eq!(get_next_url(header), Some("https://example.com/p2".to_string()));
}

#[test]
fn next_page_requires_rel_next() {
    assert_eq!(next_page(None), None);
    assert_eq!(next_page(Some("<https://example.com/nextpage>; rel=\"last\"")), None);
    assert_eq!(
        next_page(Some("<https://example.com/a>; rel=\"prev\", <https://example.com/b>; rel=\"next\"")),
        Some("https://example.com/b".to_string())
    );
}
