use std::sync::Arc;
use vera_serve::AppState;
use vera_serve::http::Failure;
use vera_serve::providers::{
    AcquireAction, AcquireEvent, CachedProviders, Eviction, LoadAction, LoadEvent, LoadFailed,
    Providers, acquire_providers, empty_cache, evict_idle, eviction, load_fresh,
};
use vera_serve::span::Span;
use vera_serve::state::InferenceBackend;
use vera_serve::types::ApiError;

fn server(reranker_available: bool, idle_timeout: Option<Span>) -> AppState<&'static str> {
    AppState {
        api_key: None,
        config: Arc::new("config"),
        backend: InferenceBackend::Api,
        model_name: "jina".to_string(),
        reranker_available,
        idle_timeout,
    }
}

fn at(secs: u64) -> Span {
    Span::from_secs(secs)
}

type Action = LoadAction<&'static str, &'static str, u32>;
type Cache = Option<CachedProviders<&'static str, u32>>;

#[test]
fn loading_begins_with_the_embedding_model() {
    let action: Action = load_fresh(&server(true, None), LoadEvent::Start);
    match action {
        LoadAction::LoadEmbedding(config, backend) => {
            assert_eq!(*config, "config");
            assert_eq!(backend, InferenceBackend::Api);
        }
        other => panic!("{:?}", other),
    }
}

#[test]
fn missing_embedding_model_refuses() {
    let action: Action = load_fresh(&server(true, None), LoadEvent::EmbeddingLoaded(Err(LoadFailed)));
    match action {
        LoadAction::Done(Err(failure)) => {
            assert_eq!(failure.status, axum::http::StatusCode::SERVICE_UNAVAILABLE.as_u16());
            assert_eq!(failure.body.error, "embedding model unavailable");
        }
        other => panic!("{:?}", other),
    }
}

#[test]
fn reranker_is_loaded_only_where_there_is_one() {
    let action: Action = load_fresh(&server(true, None), LoadEvent::EmbeddingLoaded(Ok("e")));
    match action {
        LoadAction::LoadReranker(embedding, config, backend) => {
            assert_eq!(embedding, "e");
            assert_eq!(*config, "config");
            assert_eq!(backend, InferenceBackend::Api);
        }
        other => panic!("{:?}", other),
    }
    let action: Action = load_fresh(&server(false, None), LoadEvent::EmbeddingLoaded(Ok("e")));
    match action {
        LoadAction::Done(Ok(providers)) => {
            assert_eq!(*providers.embedding, "e");
            assert!(providers.reranker.is_none());
        }
        other => panic!("{:?}", other),
    }
}

#[test]
fn missing_reranker_is_done_without() {
    for (loaded, expected) in [(Ok(Some(5)), Some(5)), (Ok(None), None), (Err(LoadFailed), None)] {
        let action: Action = load_fresh(&server(true, None), LoadEvent::RerankerLoaded("e", loaded));
        match action {
            LoadAction::Done(Ok(providers)) => {
                assert_eq!(*providers.embedding, "e");
                assert_eq!(providers.reranker.map(|reranker| *reranker), expected);
            }
            other => panic!("{:?}", other),
        }
    }
}

fn loaded() -> Providers<&'static str, u32> {
    Providers { embedding: Arc::new("e"), reranker: Some(Arc::new(9)) }
}

#[test]
fn without_cache_every_request_loads() {
    let state = server(true, None);
    let mut cache: Cache = None;
    let action = acquire_providers(&state, &mut cache, at(1), AcquireEvent::Start);
    assert!(matches!(action, AcquireAction::Load));
    let action = acquire_providers(&state, &mut cache, at(2), AcquireEvent::Loaded(Ok(loaded())));
    assert!(matches!(action, AcquireAction::Done(Ok(_))));
    assert!(cache.is_none());
}

#[test]
fn cache_is_filled_once_and_shared() {
    let state = server(true, Some(at(60)));
    let mut cache: Cache = None;
    let action = acquire_providers(&state, &mut cache, at(1), AcquireEvent::Start);
    assert!(matches!(action, AcquireAction::LockCache));
    let action = acquire_providers(&state, &mut cache, at(1), AcquireEvent::CacheLocked);
    assert!(matches!(action, AcquireAction::Load));
    let fresh = loaded();
    let model = Arc::clone(&fresh.embedding);
    let action = acquire_providers(&state, &mut cache, at(4), AcquireEvent::Loaded(Ok(fresh)));
    assert!(matches!(action, AcquireAction::Done(Ok(_))));
    assert_eq!(cache.as_ref().unwrap().last_used, at(4));
    match acquire_providers(&state, &mut cache, at(9), AcquireEvent::CacheLocked) {
        AcquireAction::Done(Ok(providers)) => {
            assert!(Arc::ptr_eq(&providers.embedding, &model));
            assert_eq!(providers.reranker.map(|reranker| *reranker), Some(9));
        }
        other => panic!("{:?}", other),
    }
    assert_eq!(cache.as_ref().unwrap().last_used, at(9));
}

#[test]
fn failed_load_leaves_the_cache_empty() {
    let state = server(true, Some(at(60)));
    let mut cache: Cache = None;
    let failure = Failure { status: 503, body: ApiError { error: "x".to_string() } };
    match acquire_providers(&state, &mut cache, at(1), AcquireEvent::Loaded(Err(failure))) {
        AcquireAction::Done(Err(failure)) => assert_eq!(failure.status, 503),
        other => panic!("{:?}", other),
    }
    assert!(cache.is_none());
    let action = acquire_providers(&state, &mut cache, at(2), AcquireEvent::CacheLocked);
    assert!(matches!(action, AcquireAction::Load));
}

#[test]
fn eviction_follows_the_timeout() {
    assert_eq!(eviction(&None), None);
    assert_eq!(eviction(&Some(Span::max_value())), None);
    assert_eq!(
        eviction(&Some(at(60))),
        Some(Eviction { timeout: at(60), check_interval: at(15) })
    );
    assert_eq!(
        eviction(&Some(at(2))),
        Some(Eviction { timeout: at(2), check_interval: at(1) })
    );
    assert_eq!(
        eviction(&Some(at(5))),
        Some(Eviction { timeout: at(5), check_interval: Span::new(1, 250_000_000) })
    );
    assert_eq!(
        eviction(&Some(at(0))),
        Some(Eviction { timeout: at(0), check_interval: at(1) })
    );
}

fn used_at(secs: u64) -> Cache {
    Some(CachedProviders { embedding: Arc::new("e"), reranker: None, last_used: at(secs) })
}

#[test]
fn models_are_dropped_once_unused_for_the_timeout() {
    let mut cache = used_at(100);
    assert!(!evict_idle(&mut cache, &at(60), &at(100)));
    assert!(!evict_idle(&mut cache, &at(60), &Span::new(159, 999_999_999)));
    assert!(cache.is_some());
    assert!(evict_idle(&mut cache, &at(60), &at(160)));
    assert!(cache.is_none());
    assert!(!evict_idle(&mut cache, &at(60), &at(500)));
}

#[test]
fn clock_before_the_last_use_drops_nothing() {
    let mut cache = used_at(100);
    assert!(!evict_idle(&mut cache, &at(60), &at(10)));
    assert!(cache.is_some());
    assert!(evict_idle(&mut cache, &at(0), &at(10)));
}

#[test]
fn dropped_models_are_loaded_anew() {
    let state = server(true, Some(at(60)));
    let mut cache = used_at(0);
    assert!(evict_idle(&mut cache, &at(60), &at(61)));
    let action = acquire_providers(&state, &mut cache, at(62), AcquireEvent::CacheLocked);
    assert!(matches!(action, AcquireAction::Load));
}

/// Plays a request for models to its end: what it got, and whether it had models loaded.
fn play(
    state: &AppState<&'static str>,
    cache: &mut Cache,
    now: Span,
    fresh: u32,
) -> (Result<u32, u16>, bool) {
    let mut event = AcquireEvent::Start;
    let mut loads = false;
    loop {
        event = match acquire_providers(state, cache, now, event) {
            AcquireAction::LockCache => AcquireEvent::CacheLocked,
            AcquireAction::Load => {
                loads = true;
                AcquireEvent::Loaded(if fresh == 0 {
                    Err(Failure { status: 503, body: ApiError { error: "x".to_string() } })
                } else {
                    Ok(Providers { embedding: Arc::new("e"), reranker: Some(Arc::new(fresh)) })
                })
            }
            AcquireAction::Done(Ok(providers)) => return (Ok(*providers.reranker.unwrap()), loads),
            AcquireAction::Done(Err(failure)) => return (Err(failure.status), loads),
        };
    }
}

#[test]
fn new_cache_is_empty() {
    let cache: Cache = empty_cache();
    assert!(cache.is_none());
}

#[test]
fn one_load_serves_requests_until_models_are_dropped() {
    let state = server(true, Some(at(60)));
    let mut cache: Cache = empty_cache();
    assert_eq!(play(&state, &mut cache, at(1), 0), (Err(503), true));
    assert_eq!(play(&state, &mut cache, at(2), 5), (Ok(5), true));
    assert_eq!(play(&state, &mut cache, at(30), 6), (Ok(5), false));
    assert!(!evict_idle(&mut cache, &at(60), &at(80)));
    assert_eq!(play(&state, &mut cache, at(85), 7), (Ok(5), false));
    assert!(evict_idle(&mut cache, &at(60), &at(145)));
    assert_eq!(play(&state, &mut cache, at(146), 8), (Ok(8), true));
    assert_eq!(play(&state, &mut cache, at(147), 9), (Ok(8), false));
}

#[test]
fn requests_without_cache_load_their_own_models() {
    let state = server(true, None);
    let mut cache: Cache = empty_cache();
    assert_eq!(play(&state, &mut cache, at(1), 3), (Ok(3), true));
    assert_eq!(play(&state, &mut cache, at(2), 4), (Ok(4), true));
    assert!(cache.is_none());
}
