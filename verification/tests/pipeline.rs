use ksecrets::config::Config;
use ksecrets::diagnose::diagnose;
use ksecrets::pipeline::run_listing;
use ksecrets::secret::SecretRecord;

fn api_token_secret() -> SecretRecord {
    SecretRecord {
        name: String::from("api-token"),
        type_: String::from("Opaque"),
        data: vec![(String::from("value"), b"abc123".to_vec())],
    }
}

fn texts(out: &ksecrets::pipeline::RunOutcome) -> Vec<String> {
    out.lines.iter().map(|l| l.text()).collect()
}

#[test]
fn default_run_shows_matching_secret() {
    let config = Config {
        show_all: false,
        namespace: String::from("default"),
        query: None,
    };
    let secrets = vec![api_token_secret()];
    let out = run_listing(&config, &secrets);
    assert_eq!(texts(&out), vec!["api-token:", "  value: abc123", ""]);
    assert_eq!(out.entries, 1);
    assert!(!out.needs_diagnostic());
}

#[test]
fn unmatched_query_filters_secret_and_triggers_diagnostic() {
    let config = Config {
        show_all: false,
        namespace: String::from("default"),
        query: Some(String::from("cert")),
    };
    let secrets = vec![api_token_secret()];
    let out = run_listing(&config, &secrets);
    assert!(texts(&out).is_empty());
    assert_eq!(out.entries, 0);
    assert!(out.needs_diagnostic());
    let msg = diagnose(config.namespace.as_str(), &vec![String::from("default")]);
    assert_eq!(msg, "No secrets found in namespace 'default'");
}

#[test]
fn pass_keeps_fetched_order_and_skips_rejected_records() {
    let config = Config {
        show_all: false,
        namespace: String::from("default"),
        query: None,
    };
    let secrets = vec![
        SecretRecord {
            name: String::from("first"),
            type_: String::from("Opaque"),
            data: vec![
                (String::from("a"), b"1".to_vec()),
                (String::from("b"), b"2".to_vec()),
            ],
        },
        SecretRecord {
            name: String::from("hidden"),
            type_: String::from("kubernetes.io/tls"),
            data: vec![(String::from("crt"), b"pem".to_vec())],
        },
        SecretRecord {
            name: String::from("second"),
            type_: String::from("Opaque"),
            data: vec![(String::from("c"), b"3".to_vec())],
        },
    ];
    let out = run_listing(&config, &secrets);
    assert_eq!(
        texts(&out),
        vec!["first:", "  a: 1", "  b: 2", "", "second:", "  c: 3", ""]
    );
    assert_eq!(out.entries, 3);
    assert!(!out.needs_diagnostic());
}

#[test]
fn displayed_secret_without_entries_still_counts_zero() {
    let config = Config {
        show_all: false,
        namespace: String::from("default"),
        query: None,
    };
    let secrets = vec![SecretRecord {
        name: String::from("empty-secret"),
        type_: String::from("Opaque"),
        data: Vec::new(),
    }];
    let out = run_listing(&config, &secrets);
    assert_eq!(texts(&out), vec!["empty-secret:", ""]);
    assert_eq!(out.entries, 0);
    assert!(out.needs_diagnostic());
}

#[test]
fn empty_snapshot_renders_nothing() {
    let config = Config {
        show_all: true,
        namespace: String::from("default"),
        query: None,
    };
    let out = run_listing(&config, &Vec::new());
    assert!(out.lines.is_empty());
    assert_eq!(out.entries, 0);
    assert!(out.needs_diagnostic());
}
