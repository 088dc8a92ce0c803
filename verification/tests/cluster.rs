//! The cluster-action shaping logic and the configuration parsing.

use officer::config::{GatewayConfig, parse_allow_list, ConfigError};
use officer::handler::kubernetes::{
    deploy_image_for, deploy_success, isolate_decision, normalize_image, pod_info, restart_success,
    ContainerImage, IsolateAction,
};
use officer::util::time_helper::format_duration;

#[test]
fn durations_format_in_largest_fitting_unit() {
    assert_eq!(format_duration(0), "0s");
    assert_eq!(format_duration(5), "5s");
    assert_eq!(format_duration(59), "59s");
    assert_eq!(format_duration(60), "1m");
    assert_eq!(format_duration(3_599), "59m");
    assert_eq!(format_duration(3_600), "1h");
    assert_eq!(format_duration(86_399), "23h");
    assert_eq!(format_duration(86_400), "1d");
    assert_eq!(format_duration(172_800), "2d");
}

#[test]
fn negative_durations_keep_their_sign() {
    assert_eq!(format_duration(-5), "-5s");
}

#[test]
fn image_tag_is_replaced() {
    assert_eq!(normalize_image("repo/app:old", "v2"), "repo/app:v2");
}

#[test]
fn untagged_image_gains_the_tag() {
    assert_eq!(normalize_image("repo/app", "v2"), "repo/app:v2");
}

#[test]
fn rollout_retags_the_named_container() {
    let containers = vec![
        ContainerImage { name: "sidecar".to_owned(), image: Some("proxy:1".to_owned()) },
        ContainerImage { name: "web".to_owned(), image: Some("repo/app:old".to_owned()) },
    ];
    assert_eq!(deploy_image_for(&containers, "web", "v2"), Some("repo/app:v2".to_owned()));
}

#[test]
fn rollout_fails_without_the_named_container() {
    let containers =
        vec![ContainerImage { name: "sidecar".to_owned(), image: Some("proxy:1".to_owned()) }];
    assert_eq!(deploy_image_for(&containers, "web", "v2"), None);
}

#[test]
fn rollout_of_imageless_container_uses_the_placeholder() {
    let containers = vec![ContainerImage { name: "web".to_owned(), image: None }];
    assert_eq!(deploy_image_for(&containers, "web", "v2"), Some("No image specified:v2".to_owned()));
}

#[test]
fn implemented_rule_isolates_the_named_pod() {
    let r = isolate_decision(
        Some("prod".to_owned()),
        Some("web-1".to_owned()),
        Some("network_scan_process_in_container".to_owned()),
    );
    match r {
        IsolateAction::Isolate { namespace, pod_name } => {
            assert_eq!(namespace, "prod");
            assert_eq!(pod_name, "web-1");
        }
        IsolateAction::Skip => panic!("expected isolation"),
    }
}

#[test]
fn other_rules_are_skipped() {
    let r = isolate_decision(
        Some("prod".to_owned()),
        Some("web-1".to_owned()),
        Some("some_other_rule".to_owned()),
    );
    assert!(matches!(r, IsolateAction::Skip));
}

#[test]
fn missing_report_fields_fall_back_to_unknown() {
    let r = isolate_decision(None, None, Some("network_scan_process_in_container".to_owned()));
    match r {
        IsolateAction::Isolate { namespace, pod_name } => {
            assert_eq!(namespace, "Unknown");
            assert_eq!(pod_name, "Unknown");
        }
        IsolateAction::Skip => panic!("expected isolation"),
    }
}

#[test]
fn missing_rule_is_skipped() {
    let r = isolate_decision(Some("prod".to_owned()), Some("web-1".to_owned()), None);
    assert!(matches!(r, IsolateAction::Skip));
}

#[test]
fn pod_info_fills_defaults_and_age() {
    let p = pod_info(None, None, 120);
    assert_eq!(p.name, "");
    assert_eq!(p.status, "Unknown");
    assert_eq!(p.age, "2m");
    let q = pod_info(Some("web-1".to_owned()), Some("Running".to_owned()), 90_000);
    assert_eq!(q.name, "web-1");
    assert_eq!(q.status, "Running");
    assert_eq!(q.age, "1d");
}

#[test]
fn success_messages_name_the_deployment() {
    assert_eq!(restart_success("web").status, "Deployment web restarted");
    assert_eq!(deploy_success("web").status, "Service web deployed!");
}

#[test]
fn allow_list_splits_on_commas() {
    assert_eq!(parse_allow_list("a@x.com,b@x.com"), vec!["a@x.com", "b@x.com"]);
}

#[test]
fn allow_list_keeps_empty_pieces() {
    assert_eq!(parse_allow_list(""), vec![""]);
    assert_eq!(parse_allow_list("a,,b"), vec!["a", "", "b"]);
    assert_eq!(parse_allow_list("a,"), vec!["a", ""]);
}

#[test]
fn config_rejects_short_secret() {
    let r = GatewayConfig::new(
        "key".to_owned(),
        b"short".to_vec(),
        vec![],
        "https://gitlab.example.com".to_owned(),
        "id".to_owned(),
        "secret".to_owned(),
        "https://officer.example.com/cb".to_owned(),
        3_600,
    );
    assert!(matches!(r, Err(ConfigError::SecretTooShort)));
}

#[test]
fn config_accepts_a_long_enough_secret() {
    let r = GatewayConfig::new(
        "key".to_owned(),
        b"0123456789abcdef0123456789abcdef".to_vec(),
        vec!["a@x.com".to_owned()],
        "https://gitlab.example.com".to_owned(),
        "id".to_owned(),
        "secret".to_owned(),
        "https://officer.example.com/cb".to_owned(),
        3_600,
    );
    let config = r.unwrap();
    assert_eq!(config.api_key, "key");
    assert!(config.allows_email("a@x.com"));
    assert!(!config.allows_email("b@x.com"));
}
