use ksecrets::diagnose::{diagnose, namespace_exists};

fn cluster(names: &[&str]) -> Vec<String> {
    names.iter().map(|n| String::from(*n)).collect()
}

#[test]
fn existing_namespace_reports_no_secrets_found() {
    let msg = diagnose("default", &cluster(&["kube-system", "default", "staging"]));
    assert_eq!(msg, "No secrets found in namespace 'default'");
}

#[test]
fn unknown_namespace_reports_wrong_cluster_hint() {
    let msg = diagnose("production", &cluster(&["kube-system", "default"]));
    assert_eq!(
        msg,
        "Namespace 'production' does not exist. Maybe you're looking at the wrong cluster?"
    );
}

#[test]
fn empty_cluster_list_reports_missing_namespace() {
    let msg = diagnose("default", &cluster(&[]));
    assert_eq!(
        msg,
        "Namespace 'default' does not exist. Maybe you're looking at the wrong cluster?"
    );
}

#[test]
fn namespace_match_is_exact() {
    let names = cluster(&["default-two", "Default", "defaul"]);
    assert!(!namespace_exists("default", &names));
    assert!(namespace_exists("Default", &names));
    let msg = diagnose("default", &names);
    assert_eq!(
        msg,
        "Namespace 'default' does not exist. Maybe you're looking at the wrong cluster?"
    );
}
