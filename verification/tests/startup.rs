use std::sync::Arc;
use vera_serve::providers::{
    AcquireAction, AcquireEvent, LoadAction, LoadEvent, acquire_providers, load_fresh,
};
use vera_serve::span::Span;
use vera_serve::startup::{
    ServeOptions, StartupAction, StartupEvent, backend_label, filter_key, listen_addr,
    unloaded_line,
};
use vera_serve::state::{InferenceBackend, OnnxExecutionProvider};

type Step = (Vec<String>, StartupAction<&'static str, &'static str, u32>);

fn run_server(options: &ServeOptions<&'static str>, event: StartupEvent) -> Step {
    vera_serve::run_server(options, event)
}

fn options(api_key: Option<&str>, idle_timeout: Option<Span>) -> ServeOptions<&'static str> {
    ServeOptions {
        host: "127.0.0.1".to_string(),
        port: 3000,
        api_key: api_key.map(|key| key.to_string()),
        config: Arc::new("config"),
        backend: InferenceBackend::OnnxJina(OnnxExecutionProvider::Cpu),
        idle_timeout,
    }
}

fn probed(reranker: Result<bool, String>) -> StartupEvent {
    StartupEvent::RerankerProbed("jina".to_string(), reranker)
}

#[test]
fn backends_have_labels() {
    assert_eq!(backend_label(InferenceBackend::Api), "api");
    for (provider, label) in [
        (OnnxExecutionProvider::Cpu, "cpu"),
        (OnnxExecutionProvider::Cuda, "cuda (GPU)"),
        (OnnxExecutionProvider::Rocm, "rocm (AMD GPU)"),
        (OnnxExecutionProvider::DirectMl, "directml (GPU)"),
        (OnnxExecutionProvider::CoreMl, "coreml (Apple GPU)"),
        (OnnxExecutionProvider::OpenVino, "openvino (Intel GPU)"),
    ] {
        assert_eq!(backend_label(InferenceBackend::OnnxJina(provider)), label);
    }
}

#[test]
fn startup_probes_the_embedding_model_first() {
    let (lines, action) = run_server(&options(None, None), StartupEvent::Start);
    assert_eq!(lines, vec!["vera serve: initializing cpu backend…"]);
    match action {
        StartupAction::ProbeEmbedding(config, backend) => {
            assert_eq!(*config, "config");
            assert_eq!(backend, InferenceBackend::OnnxJina(OnnxExecutionProvider::Cpu));
        }
        other => panic!("{:?}", other),
    }
}

#[test]
fn startup_fails_without_embedding_model() {
    let event = StartupEvent::EmbeddingProbed(Err("no such file".to_string()));
    let (lines, action) = run_server(&options(None, None), event);
    assert!(lines.is_empty());
    match action {
        StartupAction::Fail(reason) => {
            assert_eq!(reason, "failed to load embedding model: no such file")
        }
        other => panic!("{:?}", other),
    }
}

#[test]
fn startup_goes_on_to_the_reranker() {
    let event = StartupEvent::EmbeddingProbed(Ok("jina".to_string()));
    let (lines, action) = run_server(&options(None, None), event);
    assert_eq!(lines, vec!["vera serve: embedding model ready (jina)"]);
    match action {
        StartupAction::ProbeReranker(model_name, config, backend) => {
            assert_eq!(model_name, "jina");
            assert_eq!(*config, "config");
            assert_eq!(backend, InferenceBackend::OnnxJina(OnnxExecutionProvider::Cpu));
        }
        other => panic!("{:?}", other),
    }
}

#[test]
fn server_is_bound_with_its_state() {
    let started = options(Some("key"), Some(Span::from_secs(60)));
    let (lines, action) = run_server(&started, probed(Ok(true)));
    assert_eq!(
        lines,
        vec![
            "vera serve: reranker ready",
            "vera serve: API key authentication enabled",
            "vera serve: model cache enabled (idle timeout 60s)",
        ]
    );
    match action {
        StartupAction::Bind(state, cache, eviction, addr) => {
            assert_eq!(state.api_key, Some("key".to_string()));
            assert_eq!(state.backend, InferenceBackend::OnnxJina(OnnxExecutionProvider::Cpu));
            assert_eq!(*state.config, "config");
            assert_eq!(state.model_name, "jina");
            assert!(state.reranker_available);
            assert_eq!(state.idle_timeout, Some(Span::from_secs(60)));
            assert!(cache.is_none());
            let eviction = eviction.unwrap();
            assert_eq!(eviction.timeout, Span::from_secs(60));
            assert_eq!(eviction.check_interval, Span::from_secs(15));
            assert_eq!(addr, "127.0.0.1:3000");
        }
        other => panic!("{:?}", other),
    }
}

#[test]
fn server_starts_without_reranker_key_and_cache() {
    let (lines, action) = run_server(&options(None, None), probed(Err("broken".to_string())));
    assert_eq!(
        lines,
        vec![
            "vera serve: reranker unavailable (broken), reranking disabled",
            "vera serve: no API key set — unauthenticated access allowed",
            "vera serve: model cache disabled (per-request load)",
        ]
    );
    match action {
        StartupAction::Bind(state, _, eviction, _) => {
            assert_eq!(state.api_key, None);
            assert!(!state.reranker_available);
            assert!(eviction.is_none());
        }
        other => panic!("{:?}", other),
    }
}

#[test]
fn server_that_keeps_models_never_evicts() {
    let (lines, action) = run_server(&options(None, Some(Span::max_value())), probed(Ok(false)));
    assert_eq!(
        lines,
        vec![
            "vera serve: no API key set — unauthenticated access allowed",
            "vera serve: model cache enabled (no idle timeout)",
        ]
    );
    match action {
        StartupAction::Bind(state, _, eviction, _) => {
            assert!(!state.reranker_available);
            assert!(eviction.is_none());
        }
        other => panic!("{:?}", other),
    }
}

#[test]
fn empty_key_counts_as_none() {
    assert_eq!(filter_key(&Some(String::new())), None);
    assert_eq!(filter_key(&None), None);
    assert_eq!(filter_key(&Some(" ".to_string())), Some(" ".to_string()));
    let (with_empty, _) = run_server(&options(Some(""), None), probed(Ok(true)));
    let (without, _) = run_server(&options(None, None), probed(Ok(true)));
    assert_eq!(with_empty, without);
}

#[test]
fn listening_server_tells_its_address() {
    let (lines, action) = run_server(&options(None, None), StartupEvent::Bound);
    assert_eq!(
        lines,
        vec![
            "vera serve: listening on http://127.0.0.1:3000",
            "",
            "  Client setup:",
            "    vera setup --api  (then set EMBEDDING_MODEL_BASE_URL=http://127.0.0.1:3000/v1)",
        ]
    );
    assert!(matches!(action, StartupAction::Serve));
}

#[test]
fn addresses_write_ports_in_decimal() {
    for port in [0u16, 7, 10, 80, 443, 8080, 65535] {
        assert_eq!(listen_addr("h", port), format!("h:{}", port));
    }
}

#[test]
fn dropped_models_are_told_of() {
    assert_eq!(unloaded_line(), "vera serve: model unloaded (idle timeout reached)");
}

#[test]
fn started_server_loads_what_was_probed() {
    let (_, action) = run_server(&options(None, None), probed(Ok(true)));
    let state = match action {
        StartupAction::Bind(state, _, _, _) => state,
        other => panic!("{:?}", other),
    };
    let action: LoadAction<&'static str, u8, u8> = load_fresh(&state, LoadEvent::Start);
    match action {
        LoadAction::LoadEmbedding(config, backend) => {
            assert_eq!(*config, "config");
            assert_eq!(backend, InferenceBackend::OnnxJina(OnnxExecutionProvider::Cpu));
        }
        other => panic!("{:?}", other),
    }
}

#[test]
fn first_request_of_a_started_server_loads() {
    let started = options(None, Some(Span::from_secs(60)));
    match run_server(&started, probed(Ok(true))).1 {
        StartupAction::Bind(state, mut cache, _, _) => {
            let now = Span::from_secs(1);
            let action = acquire_providers(&state, &mut cache, now, AcquireEvent::CacheLocked);
            assert!(matches!(action, AcquireAction::Load));
        }
        other => panic!("{:?}", other),
    }
}
