use reveleitor::routes::{data_url, secret_runs_path, unique_sources};

fn strings(v: &[&str]) -> Vec<String> {
    v.iter().map(|s| s.to_string()).collect()
}

#[test]
fn unique_keeps_first_occurrences_in_order() {
    assert_eq!(
        unique_sources(&strings(&["b", "a", "b", "c", "a"])),
        strings(&["b", "a", "c"])
    );
    assert_eq!(unique_sources(&strings(&[])), strings(&[]));
    assert_eq!(unique_sources(&strings(&["x", "x", "x"])), strings(&["x"]));
}

#[test]
fn unique_is_idempotent() {
    let once = unique_sources(&strings(&["s1", "s2", "s1", "s3", "s2"]));
    assert_eq!(unique_sources(&once), once);
}

#[test]
fn data_url_concatenates() {
    assert_eq!(data_url("http://host/", "salt", "/src"), "http://host/salt/src");
    assert_eq!(data_url("", "", ""), "");
}

#[test]
fn secret_path() {
    assert_eq!(secret_runs_path("Ab3dE9"), "allruns_Ab3dE9");
}
