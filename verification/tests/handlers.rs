use axum::http::{HeaderMap, HeaderValue, StatusCode};
use std::sync::Arc;
use vera_serve::AppState;
use vera_serve::handlers::{
    EmbeddingsAction, EmbeddingsEvent, RerankAction, RerankEvent, count_chars, embeddings, health,
    rerank,
};
use vera_serve::http::{Failure, InferenceError};
use vera_serve::providers::Providers;
use vera_serve::ranking::{RerankScore, Score};
use vera_serve::state::InferenceBackend;
use vera_serve::types::{
    ApiError, EmbeddingsRequest, EmbeddingsUsage, RerankRequest,
};

fn server(api_key: Option<&str>, reranker_available: bool) -> AppState<&'static str> {
    AppState {
        api_key: api_key.map(|key| key.to_string()),
        config: Arc::new("config"),
        backend: InferenceBackend::Api,
        model_name: "jina".to_string(),
        reranker_available,
        idle_timeout: None,
    }
}

fn token(key: &str) -> HeaderMap {
    let mut headers = HeaderMap::new();
    headers.insert("authorization", HeaderValue::from_str(&format!("Bearer {}", key)).unwrap());
    headers
}

fn embed_request(texts: &[&str]) -> EmbeddingsRequest {
    EmbeddingsRequest {
        model: Some("another".to_string()),
        input: texts.iter().map(|text| text.to_string()).collect(),
    }
}

fn rank_request(top_n: Option<usize>) -> RerankRequest {
    RerankRequest {
        model: None,
        query: "q".to_string(),
        documents: vec!["a".to_string(), "b".to_string()],
        top_n,
        return_documents: Some(true),
    }
}

fn providers(reranker: Option<u32>) -> Providers<&'static str, u32> {
    Providers { embedding: Arc::new("e"), reranker: reranker.map(Arc::new) }
}

type EmbedEvent = EmbeddingsEvent<&'static str, u32, Vec<f32>>;
type RankEvent = RerankEvent<&'static str, u32>;

fn refused(action: EmbeddingsAction<'_, &'static str, Vec<f32>>) -> (u16, String) {
    match action {
        EmbeddingsAction::Reply(Err(failure)) => (failure.status, failure.body.error),
        other => panic!("{:?}", other),
    }
}

fn not_ranked(action: RerankAction<'_, u32>) -> (u16, String) {
    match action {
        RerankAction::Reply(Err(failure)) => (failure.status, failure.body.error),
        other => panic!("{:?}", other),
    }
}

fn unavailable() -> Failure {
    Failure { status: 503, body: ApiError { error: "no model".to_string() } }
}

#[test]
fn embeddings_without_the_key_are_refused() {
    let (state, req) = (server(Some("k"), true), embed_request(&["a"]));
    let event: EmbedEvent = EmbeddingsEvent::Received;
    assert_eq!(
        refused(embeddings(&state, &HeaderMap::new(), &req, event)),
        (401, "invalid or missing API key".to_string())
    );
}

#[test]
fn empty_input_is_refused_after_the_key() {
    let (state, req) = (server(Some("k"), true), embed_request(&[]));
    let event: EmbedEvent = EmbeddingsEvent::Received;
    assert_eq!(
        refused(embeddings(&state, &token("k"), &req, event)),
        (StatusCode::BAD_REQUEST.as_u16(), "input must not be empty".to_string())
    );
    let event: EmbedEvent = EmbeddingsEvent::Received;
    assert_eq!(refused(embeddings(&state, &token("x"), &req, event)).0, 401);
}

#[test]
fn admitted_texts_go_to_the_acquired_model() {
    let (state, req) = (server(Some("k"), false), embed_request(&["a", "b"]));
    let event: EmbedEvent = EmbeddingsEvent::Received;
    let action = embeddings(&state, &token("k"), &req, event);
    assert!(matches!(action, EmbeddingsAction::Acquire));
    let event: EmbedEvent = EmbeddingsEvent::Acquired(Ok(providers(None)));
    match embeddings(&state, &token("k"), &req, event) {
        EmbeddingsAction::Embed(model, input) => {
            assert_eq!(*model, "e");
            assert_eq!(*input, vec!["a".to_string(), "b".to_string()]);
        }
        other => panic!("{:?}", other),
    }
    let event: EmbedEvent = EmbeddingsEvent::Acquired(Err(unavailable()));
    assert_eq!(
        refused(embeddings(&state, &token("k"), &req, event)),
        (503, "no model".to_string())
    );
}

#[test]
fn vectors_are_numbered_and_counted() {
    let (state, req) = (server(None, false), embed_request(&["hello", "wörld!"]));
    let event: EmbedEvent = EmbeddingsEvent::Embedded(Ok(vec![vec![0.5, -1.0], vec![2.0]]));
    match embeddings(&state, &HeaderMap::new(), &req, event) {
        EmbeddingsAction::Reply(Ok(response)) => {
            assert_eq!(response.object, "list");
            assert_eq!(response.model, "jina");
            assert_eq!(response.data.len(), 2);
            assert_eq!(response.data[0].object, "embedding");
            assert_eq!(response.data[0].embedding, vec![0.5, -1.0]);
            assert_eq!(response.data[0].index, 0);
            assert_eq!(response.data[1].embedding, vec![2.0]);
            assert_eq!(response.data[1].index, 1);
            assert_eq!(response.usage, EmbeddingsUsage { prompt_tokens: 3, total_tokens: 3 });
        }
        other => panic!("{:?}", other),
    }
}

#[test]
fn lengths_are_counted_in_bytes() {
    assert_eq!(count_chars(&Vec::new()), Some(0));
    assert_eq!(count_chars(&vec!["".to_string()]), Some(0));
    assert_eq!(count_chars(&vec!["hello".to_string(), "wörld!".to_string()]), Some(12));
}

#[test]
fn embedding_errors_are_answered() {
    let (state, req) = (server(None, false), embed_request(&["a"]));
    let event: EmbedEvent = EmbeddingsEvent::Embedded(Err(InferenceError::Cancelled));
    assert_eq!(
        refused(embeddings(&state, &HeaderMap::new(), &req, event)),
        (499, "request cancelled".to_string())
    );
    let event: EmbedEvent = EmbeddingsEvent::Embedded(Err(InferenceError::Failed));
    assert_eq!(
        refused(embeddings(&state, &HeaderMap::new(), &req, event)),
        (StatusCode::INTERNAL_SERVER_ERROR.as_u16(), "internal server error".to_string())
    );
}

#[test]
fn ranking_wants_the_key_and_a_reranker() {
    let req = rank_request(None);
    let event: RankEvent = RerankEvent::Received;
    assert_eq!(
        not_ranked(rerank(&server(Some("k"), false), &token("x"), &req, event)),
        (401, "invalid or missing API key".to_string())
    );
    let event: RankEvent = RerankEvent::Received;
    assert_eq!(
        not_ranked(rerank(&server(Some("k"), false), &token("k"), &req, event)),
        (StatusCode::SERVICE_UNAVAILABLE.as_u16(), "reranker not available on this server".to_string())
    );
    let event: RankEvent = RerankEvent::Received;
    let state = server(Some("k"), true);
    let action = rerank(&state, &token("k"), &req, event);
    assert!(matches!(action, RerankAction::Acquire));
}

#[test]
fn documents_go_to_the_acquired_reranker() {
    let (state, req) = (server(None, true), rank_request(None));
    let event: RankEvent = RerankEvent::Acquired(Ok(providers(Some(7))));
    match rerank(&state, &HeaderMap::new(), &req, event) {
        RerankAction::Score(model, query, documents) => {
            assert_eq!(*model, 7);
            assert_eq!(query, "q");
            assert_eq!(*documents, vec!["a".to_string(), "b".to_string()]);
        }
        other => panic!("{:?}", other),
    }
    let event: RankEvent = RerankEvent::Acquired(Ok(providers(None)));
    assert_eq!(
        not_ranked(rerank(&state, &HeaderMap::new(), &req, event)),
        (503, "reranker not available on this server".to_string())
    );
    let event: RankEvent = RerankEvent::Acquired(Err(unavailable()));
    assert_eq!(
        not_ranked(rerank(&state, &HeaderMap::new(), &req, event)),
        (503, "no model".to_string())
    );
}

#[test]
fn results_come_best_first() {
    let state = server(None, true);
    for (top_n, expected) in [(None, vec![2, 0, 1]), (Some(2), vec![2, 0]), (Some(9), vec![2, 0, 1])] {
        let scores = [0.2f64, -0.1, 0.9];
        let scored = (0..3)
            .map(|index| RerankScore {
                index,
                relevance_score: Score { bits: scores[index].to_bits() },
            })
            .collect();
        let req = rank_request(top_n);
        let event: RankEvent = RerankEvent::Scored(Ok(scored));
        match rerank(&state, &HeaderMap::new(), &req, event) {
            RerankAction::Reply(Ok(response)) => {
                let indices: Vec<usize> = response.results.iter().map(|r| r.index).collect();
                assert_eq!(indices, expected);
                assert_eq!(f64::from_bits(response.results[0].relevance_score.bits), 0.9);
            }
            other => panic!("{:?}", other),
        }
    }
}

#[test]
fn ranking_errors_are_answered() {
    let (state, req) = (server(None, true), rank_request(None));
    let event: RankEvent = RerankEvent::Scored(Err(InferenceError::Cancelled));
    assert_eq!(
        not_ranked(rerank(&state, &HeaderMap::new(), &req, event)),
        (499, "request cancelled".to_string())
    );
    let event: RankEvent = RerankEvent::Scored(Err(InferenceError::Failed));
    assert_eq!(
        not_ranked(rerank(&state, &HeaderMap::new(), &req, event)),
        (500, "internal server error".to_string())
    );
}

#[test]
fn health_reports_the_server() {
    let state = server(Some("k"), true);
    let report = health(&state, &token("k"), "1.2.3", "cpu".to_string()).unwrap();
    assert_eq!(report.status, "ok");
    assert_eq!(report.version, "1.2.3");
    assert_eq!(report.model, "jina");
    assert_eq!(report.backend, "cpu");
    let refusal = health(&state, &HeaderMap::new(), "1.2.3", "cpu".to_string()).unwrap_err();
    assert_eq!(refusal.status, 401);
}
