//! How the server starts.
//!
//! Starting is done in steps. Probing the models, binding the address and serving requests are
//! left to the caller: `run_server` takes what has happened, an event, and gives the lines to
//! print and what to do next, an action. `C` is the type of what models are configured by,
//! `E` that of an embedding model, and `R` that of a reranker.

use std::sync::Arc;
use vstd::prelude::*;

use crate::auth::{authorized, law_missing_header_is_refused};
use crate::providers::{
    acquire_call, cache_after, check_interval, empty_cache, eviction, evicting, load_step, share,
    Acquisition, CacheOp, CachedProviders, Eviction, LoadActionView, LoadEvent,
};
use crate::span::{max_nanos, Span};
use crate::state::{
    optional_text, timeout_nanos, AppState, AppStateView, InferenceBackend, OnnxExecutionProvider,
};
use crate::text::{decimal, decimal_text, enclose, join, law_decimal_tells_numbers_apart};

verus! {

/// What a server is started with.
#[derive(Debug)]
pub struct ServeOptions<C> {
    /// The address to bind, such as `127.0.0.1` or `0.0.0.0`.
    pub host: String,
    /// The TCP port to listen on.
    pub port: u16,
    /// The bearer token that requests must present. Without one, or with an empty one, every
    /// request is let in.
    pub api_key: Option<String>,
    /// The config that models are loaded with.
    pub config: Arc<C>,
    /// The backend that models are loaded for.
    pub backend: InferenceBackend,
    /// How long models outlive their last use: see `AppState::idle_timeout`.
    pub idle_timeout: Option<Span>,
}

/// What `ServeOptions` say.
pub struct ServeOptionsView<C> {
    pub host: Seq<char>,
    pub port: u16,
    pub api_key: Option<Seq<char>>,
    pub config: Arc<C>,
    pub backend: InferenceBackend,
    pub idle_timeout: Option<nat>,
}

impl<C> View for ServeOptions<C> {
    type V = ServeOptionsView<C>;

    open spec fn view(&self) -> ServeOptionsView<C> {
        ServeOptionsView {
            host: self.host@,
            port: self.port,
            api_key: optional_text(self.api_key),
            config: self.config,
            backend: self.backend,
            idle_timeout: timeout_nanos(self.idle_timeout),
        }
    }
}

/// What has happened while the server starts.
#[derive(Debug)]
pub enum StartupEvent {
    /// The server is started.
    Start,
    /// The embedding model was loaded and has that name, or could not be loaded for that reason.
    EmbeddingProbed(Result<String, String>),
    /// With the embedding model's name known, it turned out whether there is a reranker, or it
    /// could not be loaded for that reason.
    RerankerProbed(String, Result<bool, String>),
    /// The address is bound.
    Bound,
}

/// What to do next while the server starts.
#[derive(Debug)]
pub enum StartupAction<C, E, R> {
    /// Load the embedding model with that config, for that backend, and release it.
    ProbeEmbedding(Arc<C>, InferenceBackend),
    /// Keep the embedding model's name. Load the reranker with that config, for that backend, and
    /// release it.
    ProbeReranker(String, Arc<C>, InferenceBackend),
    /// Bind the address for a server with that state, whose cache holds that, and look after the
    /// cache as told.
    Bind(AppState<C>, Option<CachedProviders<E, R>>, Option<Eviction>, String),
    /// Serve requests.
    Serve,
    /// Stop for that reason.
    Fail(String),
}

/// What a `StartupAction` says.
pub enum StartupActionView<C, E, R> {
    ProbeEmbedding(Arc<C>, InferenceBackend),
    ProbeReranker(Seq<char>, Arc<C>, InferenceBackend),
    Bind(AppStateView<C>, Option<CachedProviders<E, R>>, Option<(nat, nat)>, Seq<char>),
    Serve,
    Fail(Seq<char>),
}

impl<C, E, R> View for StartupAction<C, E, R> {
    type V = StartupActionView<C, E, R>;

    open spec fn view(&self) -> StartupActionView<C, E, R> {
        match *self {
            StartupAction::ProbeEmbedding(config, backend) => StartupActionView::ProbeEmbedding(
                config,
                backend,
            ),
            StartupAction::ProbeReranker(
                model_name,
                config,
                backend,
            ) => StartupActionView::ProbeReranker(model_name@, config, backend),
            StartupAction::Bind(state, cache, eviction, addr) => StartupActionView::Bind(
                state@,
                cache,
                match eviction {
                    Some(eviction) => Some((eviction.timeout@, eviction.check_interval@)),
                    None => None,
                },
                addr@,
            ),
            StartupAction::Serve => StartupActionView::Serve,
            StartupAction::Fail(reason) => StartupActionView::Fail(reason@),
        }
    }
}

/// What lines of output say.
pub open spec fn lines_view(lines: Seq<String>) -> Seq<Seq<char>> {
    lines.map_values(|line: String| line@)
}

/// What a backend is called when the server starts.
pub open spec fn label(backend: InferenceBackend) -> Seq<char> {
    match backend {
        InferenceBackend::Api => "api"@,
        InferenceBackend::OnnxJina(OnnxExecutionProvider::Cpu) => "cpu"@,
        InferenceBackend::OnnxJina(OnnxExecutionProvider::Cuda) => "cuda (GPU)"@,
        InferenceBackend::OnnxJina(OnnxExecutionProvider::Rocm) => "rocm (AMD GPU)"@,
        InferenceBackend::OnnxJina(OnnxExecutionProvider::DirectMl) => "directml (GPU)"@,
        InferenceBackend::OnnxJina(OnnxExecutionProvider::CoreMl) => "coreml (Apple GPU)"@,
        InferenceBackend::OnnxJina(OnnxExecutionProvider::OpenVino) => "openvino (Intel GPU)"@,
    }
}

/// What a backend is called when the server starts.
pub fn backend_label(backend: InferenceBackend) -> (text: &'static str)
    ensures
        text@ == label(backend),
{
    match backend {
        InferenceBackend::Api => "api",
        InferenceBackend::OnnxJina(OnnxExecutionProvider::Cpu) => "cpu",
        InferenceBackend::OnnxJina(OnnxExecutionProvider::Cuda) => "cuda (GPU)",
        InferenceBackend::OnnxJina(OnnxExecutionProvider::Rocm) => "rocm (AMD GPU)",
        InferenceBackend::OnnxJina(OnnxExecutionProvider::DirectMl) => "directml (GPU)",
        InferenceBackend::OnnxJina(OnnxExecutionProvider::CoreMl) => "coreml (Apple GPU)",
        InferenceBackend::OnnxJina(OnnxExecutionProvider::OpenVino) => "openvino (Intel GPU)",
    }
}

/// The key that requests must present: none where it is empty.
pub open spec fn effective_key(api_key: Option<Seq<char>>) -> Option<Seq<char>> {
    match api_key {
        Some(key) if key.len() > 0 => Some(key),
        _ => None,
    }
}

/// The key that requests must present: none where it is empty.
pub fn filter_key(api_key: &Option<String>) -> (key: Option<String>)
    ensures
        optional_text(key) == effective_key(optional_text(*api_key)),
{
    match api_key {
        Some(key) => if key.as_str().is_empty() {
            None
        } else {
            Some(key.clone())
        },
        None => None,
    }
}

/// The line on the reranker; there is none where none is configured.
pub open spec fn reranker_lines(probed: Result<bool, String>) -> Seq<Seq<char>> {
    match probed {
        Ok(true) => seq!["vera serve: reranker ready"@],
        Ok(false) => seq![],
        Err(reason) => seq![
            "vera serve: reranker unavailable ("@ + reason@ + "), reranking disabled"@,
        ],
    }
}

/// The line on authentication.
pub open spec fn key_line(key: Option<Seq<char>>) -> Seq<char> {
    if key is Some {
        "vera serve: API key authentication enabled"@
    } else {
        "vera serve: no API key set — unauthenticated access allowed"@
    }
}

/// The line on the cache.
pub open spec fn cache_line(idle_timeout: Option<nat>) -> Seq<char> {
    match idle_timeout {
        None => "vera serve: model cache disabled (per-request load)"@,
        Some(timeout) => if timeout == max_nanos() {
            "vera serve: model cache enabled (no idle timeout)"@
        } else {
            "vera serve: model cache enabled (idle timeout "@ + decimal(timeout / 1_000_000_000)
                + "s)"@
        },
    }
}

/// The line on the cache.
fn describe_cache(idle_timeout: &Option<Span>) -> (line: String)
    ensures
        line@ == cache_line(timeout_nanos(*idle_timeout)),
{
    match idle_timeout {
        None => "vera serve: model cache disabled (per-request load)".to_string(),
        Some(timeout) => if timeout.is_max() {
            "vera serve: model cache enabled (no idle timeout)".to_string()
        } else {
            enclose(
                "vera serve: model cache enabled (idle timeout ",
                decimal_text(timeout.as_secs()).as_str(),
                "s)",
            )
        },
    }
}

/// The line that tells that unused models were dropped.
pub fn unloaded_line() -> (line: &'static str)
    ensures
        line@ == "vera serve: model unloaded (idle timeout reached)"@,
{
    "vera serve: model unloaded (idle timeout reached)"
}

/// The address that the server binds.
pub open spec fn address(host: Seq<char>, port: u16) -> Seq<char> {
    host + ":"@ + decimal(port as nat)
}

/// The address that the server binds.
pub fn listen_addr(host: &str, port: u16) -> (addr: String)
    ensures
        addr@ == address(host@, port),
{
    enclose(host, ":", decimal_text(port as u64).as_str())
}

/// The lines that tell where the server listens, and how to point a client at it.
pub open spec fn listening_lines(addr: Seq<char>) -> Seq<Seq<char>> {
    seq![
        "vera serve: listening on http://"@ + addr,
        ""@,
        "  Client setup:"@,
        "    vera setup --api  (then set EMBEDDING_MODEL_BASE_URL=http://"@ + addr + "/v1)"@,
    ]
}

/// The state of a server that is started with these options, and for which the models were
/// probed: it has a reranker where there is one and it could be loaded.
pub open spec fn server_state<C>(
    options: ServeOptionsView<C>,
    model_name: Seq<char>,
    probed: Result<bool, String>,
) -> AppStateView<C> {
    AppStateView {
        api_key: effective_key(options.api_key),
        config: options.config,
        backend: options.backend,
        model_name,
        reranker_available: probed is Ok && probed->Ok_0,
        idle_timeout: options.idle_timeout,
    }
}

/// The step that `run_server` takes: the lines to print, and the action.
pub open spec fn startup_step<C, E, R>(options: ServeOptionsView<C>, event: StartupEvent) -> (
    Seq<Seq<char>>,
    StartupActionView<C, E, R>,
) {
    match event {
        StartupEvent::Start => (
            seq!["vera serve: initializing "@ + label(options.backend) + " backend…"@],
            StartupActionView::ProbeEmbedding(options.config, options.backend),
        ),
        StartupEvent::EmbeddingProbed(Ok(model_name)) => (
            seq!["vera serve: embedding model ready ("@ + model_name@ + ")"@],
            StartupActionView::ProbeReranker(model_name@, options.config, options.backend),
        ),
        StartupEvent::EmbeddingProbed(Err(reason)) => (
            seq![],
            StartupActionView::Fail("failed to load embedding model: "@ + reason@),
        ),
        StartupEvent::RerankerProbed(model_name, probed) => (
            reranker_lines(probed) + seq![
                key_line(effective_key(options.api_key)),
                cache_line(options.idle_timeout),
            ],
            StartupActionView::Bind(
                server_state(options, model_name@, probed),
                None,
                if evicting(options.idle_timeout) {
                    Some((options.idle_timeout->0, check_interval(options.idle_timeout->0)))
                } else {
                    None
                },
                address(options.host, options.port),
            ),
        ),
        StartupEvent::Bound => (
            listening_lines(address(options.host, options.port)),
            StartupActionView::Serve,
        ),
    }
}

/// One step of starting the server: the lines to print, and what to do next.
pub fn run_server<C, E, R>(options: &ServeOptions<C>, event: StartupEvent) -> (step: (
    Vec<String>,
    StartupAction<C, E, R>,
))
    ensures
        (lines_view(step.0@), step.1@) == startup_step::<C, E, R>(options@, event),
{
    let mut lines: Vec<String> = Vec::new();
    match event {
        StartupEvent::Start => {
            lines.push(
                enclose("vera serve: initializing ", backend_label(options.backend), " backend…"),
            );
            assert(lines_view(lines@) =~= startup_step::<C, E, R>(options@, event).0);
            (lines, StartupAction::ProbeEmbedding(share(&options.config), options.backend))
        },
        StartupEvent::EmbeddingProbed(Ok(model_name)) => {
            lines.push(enclose("vera serve: embedding model ready (", model_name.as_str(), ")"));
            assert(lines_view(lines@) =~= startup_step::<C, E, R>(options@, event).0);
            (
                lines,
                StartupAction::ProbeReranker(model_name, share(&options.config), options.backend),
            )
        },
        StartupEvent::EmbeddingProbed(Err(reason)) => {
            let reason = join("failed to load embedding model: ", reason.as_str());
            assert(lines_view(lines@) =~= startup_step::<C, E, R>(options@, event).0);
            (lines, StartupAction::Fail(reason))
        },
        StartupEvent::RerankerProbed(model_name, probed) => {
            let reranker_available = match &probed {
                Ok(available) => *available,
                Err(_) => false,
            };
            match &probed {
                Ok(available) => if *available {
                    lines.push("vera serve: reranker ready".to_string());
                },
                Err(reason) => lines.push(
                    enclose(
                        "vera serve: reranker unavailable (",
                        reason.as_str(),
                        "), reranking disabled",
                    ),
                ),
            }
            let api_key = filter_key(&options.api_key);
            if api_key.is_some() {
                lines.push("vera serve: API key authentication enabled".to_string());
            } else {
                lines.push(
                    "vera serve: no API key set — unauthenticated access allowed".to_string(),
                );
            }
            lines.push(describe_cache(&options.idle_timeout));
            assert(lines_view(lines@) =~= startup_step::<C, E, R>(options@, event).0);
            let state = AppState {
                api_key,
                config: share(&options.config),
                backend: options.backend,
                model_name,
                reranker_available,
                idle_timeout: options.idle_timeout,
            };
            let addr = listen_addr(options.host.as_str(), options.port);
            (
                lines,
                StartupAction::Bind(
                    state,
                    empty_cache(),
                    eviction(&options.idle_timeout),
                    addr,
                ),
            )
        },
        StartupEvent::Bound => {
            let addr = listen_addr(options.host.as_str(), options.port);
            lines.push(join("vera serve: listening on http://", addr.as_str()));
            lines.push("".to_string());
            lines.push("  Client setup:".to_string());
            lines.push(
                enclose(
                    "    vera setup --api  (then set EMBEDDING_MODEL_BASE_URL=http://",
                    addr.as_str(),
                    "/v1)",
                ),
            );
            assert(lines_view(lines@) =~= startup_step::<C, E, R>(options@, event).0);
            (lines, StartupAction::Serve)
        },
    }
}

/// A server started with an empty key is the same as one started without a key.
pub proof fn law_empty_key_is_no_key<C, E, R>(options: ServeOptionsView<C>, event: StartupEvent)
    requires
        options.api_key == Some(Seq::<char>::empty()),
    ensures
        startup_step::<C, E, R>(options, event) == startup_step::<C, E, R>(
            ServeOptionsView { api_key: None, ..options },
            event,
        ),
{
}

/// A server that was started with a key other than the empty one refuses every request without
/// an `Authorization` header; any other server lets every request in.
pub proof fn law_started_server_guards_its_key<C>(
    options: ServeOptionsView<C>,
    model_name: Seq<char>,
    probed: Result<bool, String>,
    fields: Map<Seq<char>, Seq<Seq<u8>>>,
)
    ensures
        options.api_key is Some && options.api_key->0.len() > 0 && !fields.contains_key(
            "authorization"@,
        ) ==> !authorized(server_state(options, model_name, probed).api_key, fields),
        options.api_key is None || options.api_key->0.len() == 0 ==> authorized(
            server_state(options, model_name, probed).api_key,
            fields,
        ),
{
    if options.api_key is Some && options.api_key->0.len() > 0 && !fields.contains_key(
        "authorization"@,
    ) {
        law_missing_header_is_refused(options.api_key->0, fields);
    }
}

/// The server does not start without its embedding model; without its reranker it does, and then
/// refuses to rank.
pub proof fn law_only_the_embedding_model_is_needed<C, E, R>(
    options: ServeOptionsView<C>,
    model_name: String,
    reason: String,
)
    ensures
        startup_step::<C, E, R>(options, StartupEvent::EmbeddingProbed(Err(reason))).1 is Fail,
        startup_step::<C, E, R>(
            options,
            StartupEvent::RerankerProbed(model_name, Err(reason)),
        ).1 matches StartupActionView::Bind(state, _, _, _) && !state.reranker_available,
{
}

/// The cache of a server is looked after just where its models are to be dropped, and then with
/// the timeout that it was started with.
pub proof fn law_cache_is_looked_after_as_set<C, E, R>(
    options: ServeOptionsView<C>,
    model_name: String,
    probed: Result<bool, String>,
)
    ensures
        startup_step::<C, E, R>(options, StartupEvent::RerankerProbed(model_name, probed)).1 matches
            StartupActionView::Bind(state, _, eviction, _) && {
            &&& state.idle_timeout == options.idle_timeout
            &&& eviction is Some <==> evicting(state.idle_timeout)
            &&& eviction matches Some((timeout, _)) ==> state.idle_timeout == Some(timeout)
        },
{
}

/// The models are probed with the config and for the backend that the server is started with: the
/// embedding model first and once, then the reranker once, and the address is bound only after
/// both.
pub proof fn law_models_are_probed_as_configured<C, E, R>(
    options: ServeOptionsView<C>,
    event: StartupEvent,
)
    ensures
        startup_step::<C, E, R>(options, event).1 is ProbeEmbedding <==> event is Start,
        startup_step::<C, E, R>(options, event).1 is ProbeReranker <==> event matches
            StartupEvent::EmbeddingProbed(Ok(_)),
        startup_step::<C, E, R>(options, event).1 is Bind <==> event is RerankerProbed,
        startup_step::<C, E, R>(options, event).1 matches StartupActionView::ProbeEmbedding(
            config,
            backend,
        ) ==> {
            &&& config == options.config
            &&& backend == options.backend
        },
        startup_step::<C, E, R>(options, event).1 matches StartupActionView::ProbeReranker(
            _,
            config,
            backend,
        ) ==> {
            &&& config == options.config
            &&& backend == options.backend
        },
{
}

/// What a started server loads for a request is what was probed when it started: its embedding
/// model, and its reranker where one was found, with the same config and for the same backend.
pub proof fn law_requests_load_what_was_probed<C, E, R>(
    options: ServeOptionsView<C>,
    model_name: Seq<char>,
    probed: Result<bool, String>,
    embedding: E,
)
    ensures
        startup_step::<C, E, R>(options, StartupEvent::Start).1 matches
            StartupActionView::ProbeEmbedding(config, backend) && {
            let state = server_state(options, model_name, probed);
            &&& load_step(state, LoadEvent::<E, R>::Start) == LoadActionView::<
                C,
                E,
                R,
            >::LoadEmbedding(config, backend)
            &&& probed == Ok::<bool, String>(true) ==> load_step(
                state,
                LoadEvent::<E, R>::EmbeddingLoaded(Ok(embedding)),
            ) == LoadActionView::<C, E, R>::LoadReranker(embedding, config, backend)
        },
{
}

/// A server starts with no models: those that were probed are not kept, and the first request has
/// its models loaded.
pub proof fn law_started_server_holds_no_models<C, E, R>(
    options: ServeOptionsView<C>,
    model_name: String,
    probed: Result<bool, String>,
    first: Acquisition<E, R>,
)
    ensures
        startup_step::<C, E, R>(options, StartupEvent::RerankerProbed(model_name, probed)).1 matches
            StartupActionView::Bind(state, cache, _, _) && {
            &&& cache is None
            &&& cache == cache_after(state.idle_timeout, Seq::<CacheOp<E, R>>::empty())
            &&& acquire_call(state.idle_timeout is Some, cache, first) matches Some(done)
                && done.loads && done.result == first.loaded
        },
{
}

/// The address that a server binds is the host and the port of its options with a colon between
/// them, the port in decimal; and that address is the one that the lines after binding tell.
pub proof fn law_bound_address_is_the_one_asked_for_and_told<C, E, R>(
    options: ServeOptionsView<C>,
    model_name: String,
    probed: Result<bool, String>,
)
    ensures
        startup_step::<C, E, R>(options, StartupEvent::RerankerProbed(model_name, probed)).1 matches
            StartupActionView::Bind(_, _, _, addr) && {
            &&& addr == options.host + ":"@ + decimal(options.port as nat)
            &&& addr == address(options.host, options.port)
            &&& startup_step::<C, E, R>(options, StartupEvent::Bound).1 is Serve
            &&& ({
                let lines = startup_step::<C, E, R>(options, StartupEvent::Bound).0;
                &&& lines.len() == 4
                &&& lines[0] == "vera serve: listening on http://"@ + addr
                &&& lines[1].len() == 0
                &&& lines[2] == "  Client setup:"@
                &&& lines[3]
                    == "    vera setup --api  (then set EMBEDDING_MODEL_BASE_URL=http://"@ + addr
                    + "/v1)"@
            })
        },
{
    reveal_strlit("");
}

/// Servers with the same host and different ports bind different addresses, and so do those with
/// the same port and different hosts.
pub proof fn law_addresses_tell_servers_apart(host: Seq<char>, other: Seq<char>, a: u16, b: u16)
    ensures
        address(host, a) == address(host, b) ==> a == b,
        address(host, a) == address(other, a) ==> host == other,
{
    if address(host, a) == address(host, b) {
        let from = (host + ":"@).len() as int;
        assert(address(host, a).skip(from) =~= decimal(a as nat));
        assert(address(host, b).skip(from) =~= decimal(b as nat));
        law_decimal_tells_numbers_apart(a as nat, b as nat);
    }
    if address(host, a) == address(other, a) {
        assert(address(host, a).len() == host.len() + ":"@.len() + decimal(a as nat).len());
        assert(address(other, a).len() == other.len() + ":"@.len() + decimal(a as nat).len());
        assert(address(host, a).take(host.len() as int) =~= host);
        assert(address(other, a).take(other.len() as int) =~= other);
    }
}

/// A server that binds its address is what its options ask for: it has their key unless that is
/// empty, their config, backend and idle timeout, and the name of the model that was probed; and
/// it has a reranker if and only if one was found.
pub proof fn law_server_is_what_was_asked_for<C, E, R>(
    options: ServeOptionsView<C>,
    model_name: String,
    probed: Result<bool, String>,
)
    ensures
        startup_step::<C, E, R>(options, StartupEvent::RerankerProbed(model_name, probed)).1 matches
            StartupActionView::Bind(state, cache, _, _) && {
            &&& state.api_key is Some <==> options.api_key is Some && options.api_key->0.len() > 0
            &&& state.api_key is Some ==> state.api_key == options.api_key
            &&& state.config == options.config
            &&& state.backend == options.backend
            &&& state.model_name == model_name@
            &&& state.idle_timeout == options.idle_timeout
            &&& state.reranker_available <==> (probed matches Ok(found) && found)
            &&& cache is None
        },
{
}

/// The cache is looked after just where the idle timeout is one and short of the longest span:
/// with that timeout, every quarter of it, to the nanosecond, or every second where that is
/// longer.
pub proof fn law_cache_is_looked_after_on_time<C, E, R>(
    options: ServeOptionsView<C>,
    model_name: String,
    probed: Result<bool, String>,
)
    ensures
        startup_step::<C, E, R>(options, StartupEvent::RerankerProbed(model_name, probed)).1 matches
            StartupActionView::Bind(_, _, eviction, _) && match eviction {
            Some((timeout, interval)) => {
                &&& options.idle_timeout == Some(timeout)
                &&& timeout + 1 != 0x1_0000_0000_0000_0000int * 1_000_000_000
                &&& timeout >= 4_000_000_000 ==> interval * 4 <= timeout < interval * 4 + 4
                &&& timeout < 4_000_000_000 ==> interval == 1_000_000_000
            },
            None => options.idle_timeout matches Some(timeout) ==> timeout + 1
                == 0x1_0000_0000_0000_0000int * 1_000_000_000,
        },
{
}

/// What a server that starts tells before it probes its models, and after the embedding model: its
/// backend, and then the name of the model, which it keeps, or the reason for which it stops.
pub proof fn law_probes_are_told_of<C, E, R>(
    options: ServeOptionsView<C>,
    model_name: String,
    reason: String,
)
    ensures
        ({
            let lines = startup_step::<C, E, R>(options, StartupEvent::Start).0;
            &&& lines.len() == 1
            &&& lines[0] == "vera serve: initializing "@ + label(options.backend) + " backend…"@
        }),
        ({
            let (lines, action) = startup_step::<C, E, R>(
                options,
                StartupEvent::EmbeddingProbed(Ok(model_name)),
            );
            &&& lines.len() == 1
            &&& lines[0] == "vera serve: embedding model ready ("@ + model_name@ + ")"@
            &&& action matches StartupActionView::ProbeReranker(kept, _, _) && kept == model_name@
        }),
        ({
            let (lines, action) = startup_step::<C, E, R>(
                options,
                StartupEvent::EmbeddingProbed(Err(reason)),
            );
            &&& lines.len() == 0
            &&& action matches StartupActionView::Fail(said) && said
                == "failed to load embedding model: "@ + reason@
        }),
{
}

/// What a server tells before it binds its address: first of the reranker, if it has one or could
/// not load it, then whether it asks for a key, and last how long models are kept.
pub proof fn law_settings_are_told_of<C, E, R>(
    options: ServeOptionsView<C>,
    model_name: String,
    probed: Result<bool, String>,
)
    ensures
        ({
            let lines = startup_step::<C, E, R>(
                options,
                StartupEvent::RerankerProbed(model_name, probed),
            ).0;
            &&& match probed {
                Ok(true) => lines.len() == 3 && lines[0] == "vera serve: reranker ready"@,
                Ok(false) => lines.len() == 2,
                Err(reason) => lines.len() == 3 && lines[0]
                    == "vera serve: reranker unavailable ("@ + reason@
                    + "), reranking disabled"@,
            }
            &&& lines[lines.len() - 2] == if options.api_key is Some && options.api_key->0.len()
                > 0 {
                "vera serve: API key authentication enabled"@
            } else {
                "vera serve: no API key set — unauthenticated access allowed"@
            }
            &&& lines[lines.len() - 1] == match options.idle_timeout {
                None => "vera serve: model cache disabled (per-request load)"@,
                Some(timeout) => if timeout + 1 == 0x1_0000_0000_0000_0000int * 1_000_000_000 {
                    "vera serve: model cache enabled (no idle timeout)"@
                } else {
                    "vera serve: model cache enabled (idle timeout "@ + decimal(
                        timeout / 1_000_000_000,
                    ) + "s)"@
                },
            }
        }),
{
}

/// Every backend has a label of its own, the same wherever it is told.
pub proof fn law_backends_are_told_by_name(provider: OnnxExecutionProvider)
    ensures
        label(InferenceBackend::Api) == "api"@,
        label(InferenceBackend::OnnxJina(provider)) == match provider {
            OnnxExecutionProvider::Cpu => "cpu"@,
            OnnxExecutionProvider::Cuda => "cuda (GPU)"@,
            OnnxExecutionProvider::Rocm => "rocm (AMD GPU)"@,
            OnnxExecutionProvider::DirectMl => "directml (GPU)"@,
            OnnxExecutionProvider::CoreMl => "coreml (Apple GPU)"@,
            OnnxExecutionProvider::OpenVino => "openvino (Intel GPU)"@,
        },
{
}

/// A key that is not empty is the key that requests must present, all of it; an empty key, and
/// none, is none.
pub proof fn law_key_is_kept_unless_empty(api_key: Option<Seq<char>>)
    ensures
        effective_key(api_key) is Some <==> api_key is Some && api_key->0.len() > 0,
        effective_key(api_key) is Some ==> effective_key(api_key) == api_key,
{
}

/// The view of the options holds every field of them, and that of lines every line in its place.
pub proof fn law_options_view_is_complete<C>(options: ServeOptions<C>, lines: Seq<String>)
    ensures
        options@.host == options.host@,
        options@.port == options.port,
        options@.api_key is Some <==> options.api_key is Some,
        options.api_key matches Some(key) ==> options@.api_key == Some(key@),
        options@.config == options.config,
        options@.backend == options.backend,
        options@.idle_timeout is Some <==> options.idle_timeout is Some,
        options.idle_timeout matches Some(timeout) ==> options@.idle_timeout == Some(timeout@),
        lines_view(lines).len() == lines.len(),
        forall|i: int| 0 <= i < lines.len() ==> #[trigger] lines_view(lines)[i] == lines[i]@,
{
}

/// The view of what to do while the server starts holds every field of it.
pub proof fn law_startup_action_view_is_complete<C, E, R>(action: StartupAction<C, E, R>)
    ensures
        match action {
            StartupAction::ProbeEmbedding(config, backend) => {
                &&& action@ matches StartupActionView::ProbeEmbedding(said_config, said_backend)
                &&& said_config == config && said_backend == backend
            },
            StartupAction::ProbeReranker(model_name, config, backend) => {
                &&& action@ matches StartupActionView::ProbeReranker(
                    said_name,
                    said_config,
                    said_backend,
                )
                &&& said_name == model_name@ && said_config == config && said_backend == backend
            },
            StartupAction::Bind(state, cache, eviction, addr) => {
                &&& action@ matches StartupActionView::Bind(
                    said_state,
                    said_cache,
                    said_eviction,
                    said_addr,
                )
                &&& said_state == state@ && said_cache == cache && said_addr == addr@
                &&& said_eviction is Some <==> eviction is Some
                &&& eviction matches Some(plan) ==> said_eviction == Some(
                    (plan.timeout@, plan.check_interval@),
                )
            },
            StartupAction::Serve => action@ is Serve,
            StartupAction::Fail(reason) => {
                &&& action@ matches StartupActionView::Fail(said)
                &&& said == reason@
            },
        },
{
}

} // verus!
