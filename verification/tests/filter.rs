use ksecrets::config::Config;
use ksecrets::filter::should_display;
use ksecrets::secret::SecretRecord;
use ksecrets::text::{contains_substring, str_eq};

fn config(show_all: bool, query: Option<&str>) -> Config {
    Config {
        show_all,
        namespace: String::from("default"),
        query: query.map(String::from),
    }
}

fn secret(name: &str, type_: &str) -> SecretRecord {
    SecretRecord {
        name: String::from(name),
        type_: String::from(type_),
        data: Vec::new(),
    }
}

#[test]
fn opaque_secret_displayed_by_default() {
    let c = config(false, None);
    let s = secret("api-token", "Opaque");
    assert!(should_display(&c, &s));
}

#[test]
fn non_opaque_secret_rejected_without_show_all() {
    let s = secret("api-token", "kubernetes.io/tls");
    assert!(!should_display(&config(false, None), &s));
    assert!(!should_display(&config(false, Some("api")), &s));
    assert!(!should_display(&config(false, Some("api-token")), &s));
}

#[test]
fn show_all_admits_every_type_without_query() {
    let c = config(true, None);
    assert!(should_display(&c, &secret("tls-cert", "kubernetes.io/tls")));
    assert!(should_display(&c, &secret("api-token", "Opaque")));
    assert!(should_display(&c, &secret("sa-token", "kubernetes.io/service-account-token")));
}

#[test]
fn show_all_still_applies_query() {
    assert!(should_display(&config(true, Some("cert")), &secret("tls-cert", "kubernetes.io/tls")));
    assert!(!should_display(&config(true, Some("cert")), &secret("api-token", "Opaque")));
}

#[test]
fn query_matching_is_case_sensitive() {
    let s = secret("api-token", "Opaque");
    assert!(!should_display(&config(false, Some("TOKEN")), &s));
    assert!(should_display(&config(false, Some("token")), &s));
    assert!(!contains_substring("api-token", "TOKEN"));
}

#[test]
fn query_matches_as_infix() {
    let s = secret("my-api-credentials", "Opaque");
    assert!(should_display(&config(false, Some("api")), &s));
    assert!(contains_substring("my-api-credentials", "api"));
}

#[test]
fn empty_query_matches_every_name() {
    let s = secret("api-token", "Opaque");
    assert!(should_display(&config(false, Some("")), &s));
    assert!(contains_substring("", ""));
    assert!(contains_substring("anything", ""));
}

#[test]
fn substring_search_finds_prefix_infix_and_suffix() {
    assert!(contains_substring("api-token", "api"));
    assert!(contains_substring("api-token", "-tok"));
    assert!(contains_substring("api-token", "token"));
    assert!(contains_substring("api-token", "api-token"));
    assert!(!contains_substring("api-token", "api-tokens"));
    assert!(!contains_substring("api", "api-token"));
    assert!(!contains_substring("aab", "ab-"));
}

#[test]
fn substring_search_handles_multibyte_characters() {
    assert!(contains_substring("naïve-secret", "ïve"));
    assert!(!contains_substring("naïve-secret", "ive"));
}

#[test]
fn string_equality_is_exact() {
    assert!(str_eq("Opaque", "Opaque"));
    assert!(!str_eq("Opaque", "opaque"));
    assert!(!str_eq("Opaque", "Opaqu"));
    assert!(!str_eq("", "Opaque"));
    assert!(str_eq("", ""));
}
