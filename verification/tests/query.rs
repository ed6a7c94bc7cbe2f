use reveleitor::query::{get_secret, get_source, get_url_filter, lookup_first};
use seed::browser::{Url, UrlSearch};

fn url_with(params: Vec<(&str, Vec<&str>)>) -> Url {
    Url::new().set_search(UrlSearch::new(params))
}

#[test]
fn source_is_first_value() {
    let url = url_with(vec![("source", vec!["one", "two"]), ("secret", vec!["xyz"])]);
    assert_eq!(get_source(&url), "one");
    assert_eq!(get_secret(&url), "xyz");
}

#[test]
fn lookup_first_absent_or_empty() {
    let url = url_with(vec![("empty", vec![]), ("k", vec!["v"])]);
    assert_eq!(lookup_first(&url, "missing"), None);
    assert_eq!(lookup_first(&url, "empty"), None);
    assert_eq!(lookup_first(&url, "k"), Some("v".to_string()));
}

#[test]
fn filter_lists_all_values() {
    let url = url_with(vec![("filter", vec!["site1", "site2", "site3"])]);
    assert_eq!(
        get_url_filter(&url),
        Some(vec!["site1".to_string(), "site2".to_string(), "site3".to_string()])
    );
    let url = url_with(vec![("source", vec!["x"])]);
    assert_eq!(get_url_filter(&url), None);
}
