use vera_serve::serve::{idle_timeout, run};
use vera_serve::span::Span;
use vera_serve::state::InferenceBackend;

#[test]
fn seconds_become_an_idle_timeout() {
    assert_eq!(idle_timeout(0), None);
    assert_eq!(idle_timeout(-1), Some(Span::max_value()));
    assert_eq!(idle_timeout(1), Some(Span::from_secs(1)));
    assert_eq!(idle_timeout(300), Some(Span::from_secs(300)));
    assert_eq!(idle_timeout(i64::MAX), Some(Span::from_secs(9_223_372_036_854_775_807)));
    assert_eq!(idle_timeout(-2), None);
    assert_eq!(idle_timeout(i64::MIN), None);
}

#[test]
fn no_number_of_seconds_means_for_ever() {
    assert!(!idle_timeout(i64::MAX).unwrap().is_max());
}

#[test]
fn command_hands_on_its_arguments() {
    let options = run("0.0.0.0", 8080, Some("key".to_string()), InferenceBackend::Api, "config", 60);
    assert_eq!(options.host, "0.0.0.0");
    assert_eq!(options.port, 8080);
    assert_eq!(options.api_key, Some("key".to_string()));
    assert_eq!(*options.config, "config");
    assert_eq!(options.backend, InferenceBackend::Api);
    assert_eq!(options.idle_timeout, Some(Span::from_secs(60)));
}
