//! What every handler knows of the server.

use std::sync::Arc;
use vstd::prelude::*;

use crate::span::Span;

verus! {

/// What an ONNX model runs on.
#[derive(Clone, Copy, Debug, PartialEq, Eq, Structural)]
pub enum OnnxExecutionProvider {
    Cpu,
    Cuda,
    Rocm,
    DirectMl,
    CoreMl,
    OpenVino,
}

/// What computes embeddings and scores: a remote API, or a local ONNX model.
#[derive(Clone, Copy, Debug, PartialEq, Eq, Structural)]
pub enum InferenceBackend {
    Api,
    OnnxJina(OnnxExecutionProvider),
}

/// State shared by every handler. `C` is the type of what models are configured by.
#[derive(Debug)]
pub struct AppState<C> {
    /// The bearer token that a request must present; `None` lets every request in.
    pub api_key: Option<String>,
    /// The config that models are loaded with.
    pub config: Arc<C>,
    /// The backend that models are loaded for.
    pub backend: InferenceBackend,
    /// Human-readable model name, reported by `/v1/health` and in embeddings responses.
    pub model_name: String,
    /// Whether a reranker is available, as probed at startup.
    pub reranker_available: bool,
    /// `None`: models are loaded for each request. The longest span: they are kept for ever once
    /// loaded. Any other span: they are dropped when they have not been used for so long.
    pub idle_timeout: Option<Span>,
}

/// What an `AppState` says.
pub struct AppStateView<C> {
    pub api_key: Option<Seq<char>>,
    pub config: Arc<C>,
    pub backend: InferenceBackend,
    pub model_name: Seq<char>,
    pub reranker_available: bool,
    pub idle_timeout: Option<nat>,
}

/// The length of an idle timeout in nanoseconds.
pub open spec fn timeout_nanos(idle_timeout: Option<Span>) -> Option<nat> {
    match idle_timeout {
        Some(timeout) => Some(timeout@),
        None => None,
    }
}

/// The text of an optional string.
pub open spec fn optional_text(text: Option<String>) -> Option<Seq<char>> {
    match text {
        Some(text) => Some(text@),
        None => None,
    }
}

impl<C> View for AppState<C> {
    type V = AppStateView<C>;

    open spec fn view(&self) -> AppStateView<C> {
        AppStateView {
            api_key: optional_text(self.api_key),
            config: self.config,
            backend: self.backend,
            model_name: self.model_name@,
            reranker_available: self.reranker_available,
            idle_timeout: timeout_nanos(self.idle_timeout),
        }
    }
}

/// The view of a server's state holds every field of it: the key and the timeout, each just where
/// the state has one.
pub proof fn law_state_view_is_complete<C>(state: AppState<C>)
    ensures
        state@.api_key is Some <==> state.api_key is Some,
        state.api_key matches Some(key) ==> state@.api_key == Some(key@),
        state@.config == state.config,
        state@.backend == state.backend,
        state@.model_name == state.model_name@,
        state@.reranker_available == state.reranker_available,
        state@.idle_timeout is Some <==> state.idle_timeout is Some,
        state.idle_timeout matches Some(timeout) ==> state@.idle_timeout == Some(timeout@),
{
}

/// The text of an optional string is the text of the string, and its timeout that of the span,
/// just where there is one.
pub proof fn law_optional_values_keep_their_contents(text: Option<String>, timeout: Option<Span>)
    ensures
        optional_text(text) is Some <==> text is Some,
        text matches Some(string) ==> optional_text(text) == Some(string@),
        timeout_nanos(timeout) is Some <==> timeout is Some,
        timeout matches Some(span) ==> timeout_nanos(timeout) == Some(span@),
{
}

} // verus!
