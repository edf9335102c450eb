//! Loading, sharing and dropping of the models that answer requests.
//!
//! A request needs an embedding model, and perhaps a reranker. How long a loaded model lives is
//! set by the idle timeout: it serves one request, or it stays in a cache that every request
//! shares, until it has not been used for as long as the timeout.
//!
//! Loading a model and waiting for the cache's lock are left to the caller. A function here takes
//! what has happened, an event, and says what to do next, an action; the caller does it, and
//! comes back with the next event until the action is `Done`. `E` is the type of an embedding
//! model, `R` that of a reranker, and `C` that of what models are configured by.

use std::sync::Arc;
use vstd::prelude::*;

use crate::http::{embedding_unavailable, failure, Failure, FailureView};
use crate::span::{max_nanos, Span};
use crate::state::{timeout_nanos, AppState, AppStateView, InferenceBackend};

verus! {

/// The models at a request's disposal.
#[derive(Debug)]
pub struct Providers<E, R> {
    pub embedding: Arc<E>,
    pub reranker: Option<Arc<R>>,
}

/// Models held in the cache.
#[derive(Debug)]
pub struct CachedProviders<E, R> {
    pub embedding: Arc<E>,
    pub reranker: Option<Arc<R>>,
    /// When a request last used them.
    pub last_used: Span,
}

impl<E, R> CachedProviders<E, R> {
    /// The models themselves.
    pub open spec fn providers(self) -> Providers<E, R> {
        Providers { embedding: self.embedding, reranker: self.reranker }
    }
}

impl<E, R> Providers<E, R> {
    /// The cache's entry for these models, used at `now`.
    pub open spec fn used_at(self, now: Span) -> CachedProviders<E, R> {
        CachedProviders { embedding: self.embedding, reranker: self.reranker, last_used: now }
    }
}

/// Calls `Arc::clone`: a further pointer to the same value.
#[verifier::external_body]
pub(crate) fn share<T>(pointer: &Arc<T>) -> (shared: Arc<T>)
    ensures
        shared == *pointer,
{
    Arc::clone(pointer)
}

/// A further pointer to the same value, where there is one.
fn share_optional<T>(pointer: &Option<Arc<T>>) -> (shared: Option<Arc<T>>)
    ensures
        shared == *pointer,
{
    match pointer {
        Some(pointer) => Some(share(pointer)),
        None => None,
    }
}

/// Says that a model could not be loaded.
#[derive(Clone, Copy, Debug, PartialEq, Eq, Structural)]
pub struct LoadFailed;

/// What has happened while models are loaded.
#[derive(Debug)]
pub enum LoadEvent<E, R> {
    /// Models are asked for.
    Start,
    /// The embedding model was loaded, or could not be.
    EmbeddingLoaded(Result<E, LoadFailed>),
    /// With the embedding model loaded, the reranker was loaded, is not configured, or could
    /// not be loaded.
    RerankerLoaded(E, Result<Option<R>, LoadFailed>),
}

/// What to do next while models are loaded.
#[derive(Debug)]
pub enum LoadAction<C, E, R> {
    /// Load the embedding model with that config, for that backend.
    LoadEmbedding(Arc<C>, InferenceBackend),
    /// Keep the embedding model, and load the reranker with that config, for that backend.
    LoadReranker(E, Arc<C>, InferenceBackend),
    /// The models are loaded, or the request is refused.
    Done(Result<Providers<E, R>, Failure>),
}

/// What a `LoadAction` says.
pub enum LoadActionView<C, E, R> {
    LoadEmbedding(Arc<C>, InferenceBackend),
    LoadReranker(E, Arc<C>, InferenceBackend),
    Done(Result<Providers<E, R>, FailureView>),
}

impl<C, E, R> View for LoadAction<C, E, R> {
    type V = LoadActionView<C, E, R>;

    open spec fn view(&self) -> LoadActionView<C, E, R> {
        match *self {
            LoadAction::LoadEmbedding(config, backend) => LoadActionView::LoadEmbedding(
                config,
                backend,
            ),
            LoadAction::LoadReranker(embedding, config, backend) => LoadActionView::LoadReranker(
                embedding,
                config,
                backend,
            ),
            LoadAction::Done(Ok(providers)) => LoadActionView::Done(Ok(providers)),
            LoadAction::Done(Err(failure)) => LoadActionView::Done(Err(failure@)),
        }
    }
}

/// The step that `load_fresh` takes.
pub open spec fn load_step<C, E, R>(
    state: AppStateView<C>,
    event: LoadEvent<E, R>,
) -> LoadActionView<C, E, R> {
    match event {
        LoadEvent::Start => LoadActionView::LoadEmbedding(state.config, state.backend),
        LoadEvent::EmbeddingLoaded(Err(_)) => LoadActionView::Done(Err(embedding_unavailable())),
        LoadEvent::EmbeddingLoaded(Ok(embedding)) => if state.reranker_available {
            LoadActionView::LoadReranker(embedding, state.config, state.backend)
        } else {
            LoadActionView::Done(Ok(Providers { embedding: Arc::new(embedding), reranker: None }))
        },
        LoadEvent::RerankerLoaded(embedding, Ok(Some(reranker))) => LoadActionView::Done(
            Ok(
                Providers {
                    embedding: Arc::new(embedding),
                    reranker: Some(Arc::new(reranker)),
                },
            ),
        ),
        LoadEvent::RerankerLoaded(embedding, _) => LoadActionView::Done(
            Ok(Providers { embedding: Arc::new(embedding), reranker: None }),
        ),
    }
}

/// One step of loading models, with the config and for the backend of the server. Without its
/// embedding model the server refuses the request; without its reranker it does what it can.
pub fn load_fresh<C, E, R>(state: &AppState<C>, event: LoadEvent<E, R>) -> (action: LoadAction<
    C,
    E,
    R,
>)
    ensures
        action@ == load_step(state@, event),
{
    match event {
        LoadEvent::Start => LoadAction::LoadEmbedding(share(&state.config), state.backend),
        LoadEvent::EmbeddingLoaded(Err(_)) => LoadAction::Done(
            Err(failure(503, "embedding model unavailable")),
        ),
        LoadEvent::EmbeddingLoaded(Ok(embedding)) => {
            if state.reranker_available {
                LoadAction::LoadReranker(embedding, share(&state.config), state.backend)
            } else {
                LoadAction::Done(Ok(Providers { embedding: Arc::new(embedding), reranker: None }))
            }
        },
        LoadEvent::RerankerLoaded(embedding, loaded) => {
            let reranker = match loaded {
                Ok(Some(reranker)) => Some(Arc::new(reranker)),
                Ok(None) => None,
                Err(_) => None,
            };
            LoadAction::Done(Ok(Providers { embedding: Arc::new(embedding), reranker }))
        },
    }
}

/// What has happened while a request acquires its models.
#[derive(Debug)]
pub enum AcquireEvent<E, R> {
    /// The request asks for models.
    Start,
    /// The cache is locked for the request.
    CacheLocked,
    /// Models were loaded, or could not be. Where the cache is locked, it still is.
    Loaded(Result<Providers<E, R>, Failure>),
}

/// What to do next while a request acquires its models.
#[derive(Debug)]
pub enum AcquireAction<E, R> {
    /// Wait for the cache's lock.
    LockCache,
    /// Load models.
    Load,
    /// The request has its models, or is refused. The lock can be given back.
    Done(Result<Providers<E, R>, Failure>),
}

/// What the cache holds after a step of `acquire_providers`, and the step's action. `caching`
/// says whether models outlive a request.
pub open spec fn acquire_step<E, R>(
    caching: bool,
    cache: Option<CachedProviders<E, R>>,
    now: Span,
    event: AcquireEvent<E, R>,
) -> (Option<CachedProviders<E, R>>, AcquireAction<E, R>) {
    match event {
        AcquireEvent::Start => if caching {
            (cache, AcquireAction::LockCache)
        } else {
            (cache, AcquireAction::Load)
        },
        AcquireEvent::CacheLocked => match cache {
            Some(cached) if caching => (
                Some(cached.providers().used_at(now)),
                AcquireAction::Done(Ok(cached.providers())),
            ),
            _ => (cache, AcquireAction::Load),
        },
        AcquireEvent::Loaded(Ok(providers)) => (
            if caching {
                Some(providers.used_at(now))
            } else {
                cache
            },
            AcquireAction::Done(Ok(providers)),
        ),
        AcquireEvent::Loaded(Err(failure)) => (cache, AcquireAction::Done(Err(failure))),
    }
}

/// One step of acquiring models at `now`: from the cache, which is filled where it is empty, or,
/// where the server has no idle timeout, loaded for this request alone.
pub fn acquire_providers<C, E, R>(
    state: &AppState<C>,
    cache: &mut Option<CachedProviders<E, R>>,
    now: Span,
    event: AcquireEvent<E, R>,
) -> (action: AcquireAction<E, R>)
    ensures
        (*final(cache), action) == acquire_step(
            state@.idle_timeout is Some,
            *old(cache),
            now,
            event,
        ),
{
    let caching = state.idle_timeout.is_some();
    match event {
        AcquireEvent::Start => if caching {
            AcquireAction::LockCache
        } else {
            AcquireAction::Load
        },
        AcquireEvent::CacheLocked => {
            if !caching {
                return AcquireAction::Load;
            }
            match cache.take() {
                Some(cached) => {
                    let embedding = share(&cached.embedding);
                    let reranker = share_optional(&cached.reranker);
                    *cache = Some(
                        CachedProviders {
                            embedding: cached.embedding,
                            reranker: cached.reranker,
                            last_used: now,
                        },
                    );
                    AcquireAction::Done(Ok(Providers { embedding, reranker }))
                },
                None => AcquireAction::Load,
            }
        },
        AcquireEvent::Loaded(Ok(providers)) => {
            if caching {
                *cache = Some(
                    CachedProviders {
                        embedding: share(&providers.embedding),
                        reranker: share_optional(&providers.reranker),
                        last_used: now,
                    },
                );
            }
            AcquireAction::Done(Ok(providers))
        },
        AcquireEvent::Loaded(Err(failure)) => AcquireAction::Done(Err(failure)),
    }
}

/// When the cache is looked after: how long models may go unused, and how often that is checked.
#[derive(Clone, Copy, Debug, PartialEq, Eq, Structural)]
pub struct Eviction {
    pub timeout: Span,
    pub check_interval: Span,
}

/// How often a cache with that timeout is checked, in nanoseconds: four times per timeout, and
/// at most once a second.
pub open spec fn check_interval(timeout: nat) -> nat {
    if timeout / 4 >= 1_000_000_000 {
        timeout / 4
    } else {
        1_000_000_000
    }
}

/// Whether models with that idle timeout are ever dropped from the cache for going unused: there
/// is a cache, and a limit to it.
pub open spec fn evicting(idle_timeout: Option<nat>) -> bool {
    idle_timeout is Some && idle_timeout->0 != max_nanos()
}

/// When the cache is to be looked after; `None` where nothing is ever dropped from it.
pub fn eviction(idle_timeout: &Option<Span>) -> (res: Option<Eviction>)
    ensures
        res is Some <==> evicting(timeout_nanos(*idle_timeout)),
        res is Some ==> {
            &&& res->0.timeout@ == timeout_nanos(*idle_timeout)->0
            &&& res->0.check_interval@ == check_interval(timeout_nanos(*idle_timeout)->0)
        },
{
    match idle_timeout {
        Some(timeout) => {
            if timeout.is_max() {
                None
            } else {
                let check_interval = timeout.quarter().longer(Span::from_secs(1));
                Some(Eviction { timeout: *timeout, check_interval })
            }
        },
        None => None,
    }
}

/// Whether models that were used last at `last_used` have gone unused for the timeout.
pub open spec fn idle(last_used: nat, timeout: nat, now: nat) -> bool {
    if now >= last_used {
        now - last_used >= timeout
    } else {
        timeout == 0
    }
}

/// What is left in the cache after it was looked after at `now`.
pub open spec fn after_eviction<E, R>(
    cache: Option<CachedProviders<E, R>>,
    timeout: nat,
    now: nat,
) -> Option<CachedProviders<E, R>> {
    match cache {
        Some(cached) if !idle(cached.last_used@, timeout, now) => Some(cached),
        _ => None,
    }
}

/// Drops the models of the cache if they have gone unused for `timeout`. Says whether any were.
pub fn evict_idle<E, R>(
    cache: &mut Option<CachedProviders<E, R>>,
    timeout: &Span,
    now: &Span,
) -> (evicted: bool)
    ensures
        *final(cache) == after_eviction(*old(cache), timeout@, now@),
        evicted == (*old(cache) is Some && *final(cache) is None),
{
    let due = match cache {
        Some(cached) => now.saturating_sub(&cached.last_used).at_least(timeout),
        None => false,
    };
    if due {
        *cache = None;
    }
    due
}

/// Without an idle timeout every request has its models loaded, and the cache is never touched.
pub proof fn law_per_request_models_are_not_kept<E, R>(
    cache: Option<CachedProviders<E, R>>,
    now: Span,
    event: AcquireEvent<E, R>,
)
    ensures
        acquire_step(false, cache, now, event).0 == cache,
        !(event is Loaded) ==> acquire_step(false, cache, now, event).1 is Load,
        !evicting(None),
{
}

/// A request that finds models in the cache gets those, without any being loaded, and they count
/// as used at that moment.
pub proof fn law_cached_models_are_shared<E, R>(cached: CachedProviders<E, R>, now: Span)
    ensures
        ({
            let (after, action) = acquire_step(
                true,
                Some(cached),
                now,
                AcquireEvent::CacheLocked,
            );
            &&& action == AcquireAction::<E, R>::Done(Ok(cached.providers()))
            &&& after is Some
            &&& after->0.providers() == cached.providers()
            &&& after->0.last_used == now
        }),
{
}

/// Models that one request had loaded are those that the next request gets.
pub proof fn law_loaded_models_are_kept<E, R>(
    cache: Option<CachedProviders<E, R>>,
    loaded: Providers<E, R>,
    now: Span,
    later: Span,
)
    ensures
        ({
            let (filled, action) = acquire_step(
                true,
                cache,
                now,
                AcquireEvent::Loaded(Ok(loaded)),
            );
            &&& action == AcquireAction::<E, R>::Done(Ok(loaded))
            &&& acquire_step(true, filled, later, AcquireEvent::CacheLocked).1
                == AcquireAction::<E, R>::Done(Ok(loaded))
        }),
{
}

/// A failure to load refuses the request that needed the models and no other: the cache stays
/// empty, and the next request has them loaded again.
pub proof fn law_failed_load_is_tried_again<E, R>(failure: Failure, now: Span, later: Span)
    ensures
        ({
            let (after, action) = acquire_step(
                true,
                None::<CachedProviders<E, R>>,
                now,
                AcquireEvent::Loaded(Err(failure)),
            );
            &&& action == AcquireAction::<E, R>::Done(Err(failure))
            &&& after is None
            &&& acquire_step(true, after, later, AcquireEvent::CacheLocked).1 is Load
        }),
{
}

/// After models were dropped, the next request has them loaded again.
pub proof fn law_dropped_models_are_loaded_again<E, R>(
    cached: CachedProviders<E, R>,
    timeout: nat,
    now: nat,
    later: Span,
)
    requires
        cached.last_used@ + timeout <= now,
    ensures
        after_eviction(Some(cached), timeout, now) is None,
        acquire_step(
            true,
            after_eviction(Some(cached), timeout, now),
            later,
            AcquireEvent::CacheLocked,
        ).1 is Load,
{
}

/// Models are never dropped before they have gone unused for the timeout, whatever it is, but for
/// a timeout of nothing.
pub proof fn law_used_models_stay<E, R>(cached: CachedProviders<E, R>, timeout: nat, now: nat)
    requires
        timeout > 0,
        now < cached.last_used@ + timeout,
    ensures
        after_eviction(Some(cached), timeout, now) == Some(cached),
{
}

/// Once they have gone unused for the timeout, models are dropped by the next check: if one check
/// leaves them and the next comes `gap` later, then at the next they are dropped, or have gone
/// unused for less than the timeout.
pub proof fn law_unused_models_are_dropped_by_the_next_check<E, R>(
    cached: CachedProviders<E, R>,
    timeout: nat,
    check: nat,
    gap: nat,
)
    requires
        cached.last_used@ <= check,
        after_eviction(Some(cached), timeout, check) is Some,
    ensures
        check - cached.last_used@ < timeout,
        after_eviction(Some(cached), timeout, check + gap) is None <==> check + gap
            - cached.last_used@ >= timeout,
        check + gap - cached.last_used@ < timeout + gap,
{
}

/// The cache is checked no more than once a second, and four times per timeout, to the nanosecond,
/// where that is not more often.
pub proof fn law_check_interval_bounds(timeout: nat)
    ensures
        check_interval(timeout) >= 1_000_000_000,
        timeout >= 4_000_000_000 ==> check_interval(timeout) * 4 <= timeout < check_interval(
            timeout,
        ) * 4 + 4,
        timeout < 4_000_000_000 ==> check_interval(timeout) == 1_000_000_000,
{
}

/// With the longest timeout the cache is on and nothing is ever dropped from it.
pub proof fn law_longest_timeout_keeps_models()
    ensures
        !evicting(Some(max_nanos())),
{
}

/// A request for models, from the moment it asks for them to the moment it has them. Where the
/// cache has to be locked for it, the lock is held until it is done.
pub struct Acquisition<E, R> {
    /// When the request asks for models.
    pub asked: Span,
    /// When it has the cache's lock, if it needs it.
    pub locked: Span,
    /// What loading models gives, if it comes to that.
    pub loaded: Result<Providers<E, R>, Failure>,
    /// When that is known.
    pub filled: Span,
}

/// What came of a request for models.
pub struct Acquired<E, R> {
    /// What the cache holds afterwards.
    pub cache: Option<CachedProviders<E, R>>,
    /// Whether models were loaded for the request, or tried to be.
    pub loads: bool,
    /// What the request got.
    pub result: Result<Providers<E, R>, Failure>,
}

/// The end of a request for which models are loaded.
pub open spec fn after_load<E, R>(
    caching: bool,
    cache: Option<CachedProviders<E, R>>,
    request: Acquisition<E, R>,
) -> Option<Acquired<E, R>> {
    match acquire_step(caching, cache, request.filled, AcquireEvent::Loaded(request.loaded)) {
        (after, AcquireAction::Done(result)) => Some(
            Acquired { cache: after, loads: true, result },
        ),
        _ => None,
    }
}

/// What comes of a request for models that finds `cache`: what the steps of `acquire_providers`
/// lead to.
pub open spec fn acquire_call<E, R>(
    caching: bool,
    cache: Option<CachedProviders<E, R>>,
    request: Acquisition<E, R>,
) -> Option<Acquired<E, R>> {
    match acquire_step(caching, cache, request.asked, AcquireEvent::Start) {
        (asked, AcquireAction::Load) => after_load(caching, asked, request),
        (asked, AcquireAction::LockCache) => match acquire_step(
            caching,
            asked,
            request.locked,
            AcquireEvent::CacheLocked,
        ) {
            (after, AcquireAction::Done(result)) => Some(
                Acquired { cache: after, loads: false, result },
            ),
            (locked, AcquireAction::Load) => after_load(caching, locked, request),
            _ => None,
        },
        _ => None,
    }
}

/// Every request for models is done in the end. It has none loaded if and only if it finds some in
/// a cache that is in use, and then it gets those; else it gets what loading gives, which the
/// cache keeps if it is in use and there is anything to keep.
pub proof fn law_every_request_gets_models_or_a_refusal<E, R>(
    caching: bool,
    cache: Option<CachedProviders<E, R>>,
    request: Acquisition<E, R>,
)
    ensures
        acquire_call(caching, cache, request) matches Some(done) && {
            &&& done.loads <==> !(caching && cache is Some)
            &&& done.loads ==> done.result == request.loaded
            &&& !done.loads ==> done.result == Ok::<Providers<E, R>, Failure>(
                cache->0.providers(),
            )
            &&& caching && done.result is Ok ==> done.cache is Some && done.cache->0.providers()
                == done.result->Ok_0
            &&& !caching || done.result is Err ==> done.cache == cache
        },
{
}

/// What can befall the cache. One thing is over before the next begins: what touches the cache
/// holds its lock.
pub enum CacheOp<E, R> {
    /// A request for models.
    Request(Acquisition<E, R>),
    /// A check for models that have gone unused.
    Check(nat),
}

/// What the cache of a server with that idle timeout holds after an operation that finds `cache`.
pub open spec fn cache_after_op<E, R>(
    idle_timeout: Option<nat>,
    cache: Option<CachedProviders<E, R>>,
    op: CacheOp<E, R>,
) -> Option<CachedProviders<E, R>> {
    match op {
        CacheOp::Request(request) => acquire_call(
            idle_timeout is Some,
            cache,
            request,
        )->0.cache,
        CacheOp::Check(now) => if evicting(idle_timeout) {
            after_eviction(cache, idle_timeout->0, now)
        } else {
            cache
        },
    }
}

/// Whether models are loaded in an operation that finds `cache`.
pub open spec fn loads<E, R>(
    idle_timeout: Option<nat>,
    cache: Option<CachedProviders<E, R>>,
    op: CacheOp<E, R>,
) -> bool {
    match op {
        CacheOp::Request(request) => {
            let done = acquire_call(idle_timeout is Some, cache, request)->0;
            done.loads && done.result is Ok
        },
        CacheOp::Check(_) => false,
    }
}

/// Whether an operation that finds `cache` drops the models that it holds.
pub open spec fn drops<E, R>(
    idle_timeout: Option<nat>,
    cache: Option<CachedProviders<E, R>>,
    op: CacheOp<E, R>,
) -> bool {
    cache is Some && cache_after_op(idle_timeout, cache, op) is None
}

/// What the cache holds after these operations, in their order, the first of which finds `cache`.
pub open spec fn cache_from<E, R>(
    idle_timeout: Option<nat>,
    cache: Option<CachedProviders<E, R>>,
    ops: Seq<CacheOp<E, R>>,
) -> Option<CachedProviders<E, R>>
    decreases ops.len(),
{
    if ops.len() == 0 {
        cache
    } else {
        cache_after_op(
            idle_timeout,
            cache_from(idle_timeout, cache, ops.drop_last()),
            ops.last(),
        )
    }
}

/// What the cache of a server holds after these operations since the server has started.
pub open spec fn cache_after<E, R>(
    idle_timeout: Option<nat>,
    ops: Seq<CacheOp<E, R>>,
) -> Option<CachedProviders<E, R>> {
    cache_from(idle_timeout, None, ops)
}

/// The cache of a server that has just started: it holds no models.
pub fn empty_cache<E, R>() -> (cache: Option<CachedProviders<E, R>>)
    ensures
        cache is None,
        forall|idle_timeout: Option<nat>|
            cache == #[trigger] cache_after::<E, R>(idle_timeout, Seq::empty()),
{
    None
}

/// How often models were loaded in these operations since the server has started.
pub open spec fn load_count<E, R>(idle_timeout: Option<nat>, ops: Seq<CacheOp<E, R>>) -> nat
    decreases ops.len(),
{
    if ops.len() == 0 {
        0
    } else {
        load_count(idle_timeout, ops.drop_last()) + if loads(
            idle_timeout,
            cache_after(idle_timeout, ops.drop_last()),
            ops.last(),
        ) {
            1nat
        } else {
            0nat
        }
    }
}

/// How often models were dropped in these operations since the server has started.
pub open spec fn drop_count<E, R>(idle_timeout: Option<nat>, ops: Seq<CacheOp<E, R>>) -> nat
    decreases ops.len(),
{
    if ops.len() == 0 {
        0
    } else {
        drop_count(idle_timeout, ops.drop_last()) + if drops(
            idle_timeout,
            cache_after(idle_timeout, ops.drop_last()),
            ops.last(),
        ) {
            1nat
        } else {
            0nat
        }
    }
}

/// The models that were loaded last in these operations since the server has started.
pub open spec fn last_loaded<E, R>(
    idle_timeout: Option<nat>,
    ops: Seq<CacheOp<E, R>>,
) -> Option<Providers<E, R>>
    decreases ops.len(),
{
    if ops.len() == 0 {
        None
    } else if loads(idle_timeout, cache_after(idle_timeout, ops.drop_last()), ops.last()) {
        Some(ops.last()->Request_0.loaded->Ok_0)
    } else {
        last_loaded(idle_timeout, ops.drop_last())
    }
}

/// Whatever has befallen the cache, it holds the models that were loaded last, or none; and none
/// where models are loaded for each request.
pub proof fn law_cache_holds_what_was_loaded_last<E, R>(
    idle_timeout: Option<nat>,
    ops: Seq<CacheOp<E, R>>,
)
    ensures
        cache_after(idle_timeout, ops) is Some ==> {
            &&& idle_timeout is Some
            &&& last_loaded(idle_timeout, ops) == Some(
                cache_after(idle_timeout, ops)->0.providers(),
            )
        },
    decreases ops.len(),
{
    if ops.len() > 0 {
        law_cache_holds_what_was_loaded_last(idle_timeout, ops.drop_last());
    }
}

/// Where models are cached, they are loaded once, and once more each time after they were dropped,
/// however many requests use them.
pub proof fn law_one_load_until_dropped<E, R>(
    idle_timeout: Option<nat>,
    ops: Seq<CacheOp<E, R>>,
)
    requires
        idle_timeout is Some,
    ensures
        load_count(idle_timeout, ops) == drop_count(idle_timeout, ops) + if cache_after(
            idle_timeout,
            ops,
        ) is Some {
            1nat
        } else {
            0nat
        },
    decreases ops.len(),
{
    if ops.len() > 0 {
        law_one_load_until_dropped(idle_timeout, ops.drop_last());
    }
}

/// Where models are loaded for each request, a request gets what was loaded for it, and the cache
/// stays empty.
pub proof fn law_each_request_has_its_own_models<E, R>(
    ops: Seq<CacheOp<E, R>>,
    request: Acquisition<E, R>,
)
    ensures
        cache_after(None, ops) is None,
        acquire_call(false, cache_after(None, ops), request) matches Some(done) && done.loads
            && done.result == request.loaded,
    decreases ops.len(),
{
    if ops.len() > 0 {
        law_each_request_has_its_own_models(ops.drop_last(), request);
    }
}

/// From the moment the cache holds models until they are dropped, every request gets those models,
/// and none has any loaded.
pub proof fn law_models_are_shared_until_dropped<E, R>(
    idle_timeout: Option<nat>,
    cached: CachedProviders<E, R>,
    ops: Seq<CacheOp<E, R>>,
)
    requires
        idle_timeout is Some,
        forall|i: int|
            0 <= i < ops.len() ==> !drops(
                idle_timeout,
                cache_from(idle_timeout, Some(cached), #[trigger] ops.take(i)),
                ops[i],
            ),
    ensures
        cache_from(idle_timeout, Some(cached), ops) matches Some(after) && after.providers()
            == cached.providers(),
        forall|i: int|
            0 <= i < ops.len() ==> (ops[i] matches CacheOp::Request(request) ==> acquire_call(
                true,
                cache_from(idle_timeout, Some(cached), #[trigger] ops.take(i)),
                request,
            ) matches Some(done) && !done.loads && done.result == Ok::<Providers<E, R>, Failure>(
                cached.providers(),
            )),
    decreases ops.len(),
{
    if ops.len() > 0 {
        let rest = ops.drop_last();
        let last = ops.len() - 1;
        assert forall|i: int| 0 <= i < rest.len() implies !drops(
            idle_timeout,
            cache_from(idle_timeout, Some(cached), #[trigger] rest.take(i)),
            rest[i],
        ) by {
            assert(rest.take(i) =~= ops.take(i));
        }
        law_models_are_shared_until_dropped(idle_timeout, cached, rest);
        assert(ops.take(last) =~= rest);
        assert forall|i: int| 0 <= i < ops.len() implies (ops[i] matches CacheOp::Request(request)
            ==> acquire_call(
            true,
            cache_from(idle_timeout, Some(cached), #[trigger] ops.take(i)),
            request,
        ) matches Some(done) && !done.loads && done.result == Ok::<Providers<E, R>, Failure>(
            cached.providers(),
        )) by {
            if i < last {
                assert(rest.take(i) =~= ops.take(i));
                assert(rest[i] == ops[i]);
            }
        }
    }
}

/// The models that a request had loaded into the empty cache are those that every later request
/// gets, and no later request has any loaded, until they are dropped.
pub proof fn law_first_load_serves_later_requests<E, R>(
    idle_timeout: Option<nat>,
    first: Acquisition<E, R>,
    later: Seq<CacheOp<E, R>>,
)
    requires
        idle_timeout is Some,
        first.loaded is Ok,
        forall|i: int|
            0 <= i < later.len() ==> !drops(
                idle_timeout,
                cache_from(
                    idle_timeout,
                    acquire_call(true, None, first)->0.cache,
                    #[trigger] later.take(i),
                ),
                later[i],
            ),
    ensures
        acquire_call(true, None, first) matches Some(done) && {
            &&& done.loads
            &&& done.result == first.loaded
            &&& forall|i: int|
                0 <= i < later.len() ==> (later[i] matches CacheOp::Request(request)
                    ==> acquire_call(
                    true,
                    cache_from(idle_timeout, done.cache, #[trigger] later.take(i)),
                    request,
                ) matches Some(next) && !next.loads && next.result == first.loaded)
        },
{
    let filled = first.loaded->Ok_0.used_at(first.filled);
    assert(acquire_call(true, None, first)->0.cache == Some(filled));
    law_models_are_shared_until_dropped(idle_timeout, filled, later);
}

/// Where models are kept for ever, they are never dropped: they are loaded at most once, and the
/// cache holds them from then on.
pub proof fn law_kept_for_ever<E, R>(ops: Seq<CacheOp<E, R>>)
    ensures
        drop_count(Some(max_nanos()), ops) == 0,
        load_count(Some(max_nanos()), ops) <= 1,
        cache_after(Some(max_nanos()), ops) is Some <==> last_loaded(
            Some(max_nanos()),
            ops,
        ) is Some,
    decreases ops.len(),
{
    law_one_load_until_dropped(Some(max_nanos()), ops);
    if ops.len() > 0 {
        law_kept_for_ever(ops.drop_last());
    }
}

/// Only the want of an embedding model refuses a request while models are loaded; that of a
/// reranker never does.
pub proof fn law_only_a_missing_embedding_model_refuses<C, E, R>(
    state: AppStateView<C>,
    event: LoadEvent<E, R>,
)
    ensures
        load_step(state, event) matches LoadActionView::Done(Err(failure)) ==> {
            &&& failure == embedding_unavailable()
            &&& event matches LoadEvent::EmbeddingLoaded(Err(_))
        },
{
}

/// No reranker is loaded for a server that found none when it started.
pub proof fn law_no_reranker_is_loaded_where_there_is_none<C, E, R>(
    state: AppStateView<C>,
    event: LoadEvent<E, R>,
)
    requires
        !state.reranker_available,
    ensures
        !(load_step(state, event) is LoadReranker),
{
}

/// Every model is loaded with the config and for the backend of the server, the embedding model
/// first and once, and then the reranker, if it comes to that, once.
pub proof fn law_models_are_loaded_as_configured<C, E, R>(
    state: AppStateView<C>,
    event: LoadEvent<E, R>,
)
    ensures
        load_step(state, event) is LoadEmbedding <==> event is Start,
        load_step(state, event) is LoadReranker ==> event is EmbeddingLoaded,
        load_step(state, event) matches LoadActionView::LoadEmbedding(config, backend) ==> {
            &&& config == state.config
            &&& backend == state.backend
        },
        load_step(state, event) matches LoadActionView::LoadReranker(embedding, config, backend)
            ==> {
            &&& event == LoadEvent::<E, R>::EmbeddingLoaded(Ok(embedding))
            &&& config == state.config
            &&& backend == state.backend
        },
{
}

/// Models that were loaded are handed out, on every server: the embedding model always, and the
/// reranker if and only if there is one.
pub proof fn law_loaded_models_are_handed_out<C, E, R>(
    state: AppStateView<C>,
    embedding: E,
    reranker: R,
)
    ensures
        load_step(state, LoadEvent::RerankerLoaded(embedding, Ok(Some(reranker)))) matches
            LoadActionView::Done(Ok(both)) && *both.embedding == embedding && (
        both.reranker matches Some(shared) && *shared == reranker),
        load_step(state, LoadEvent::<E, R>::RerankerLoaded(embedding, Ok(None))) matches
            LoadActionView::Done(Ok(one)) && *one.embedding == embedding && one.reranker is None,
        load_step(state, LoadEvent::<E, R>::RerankerLoaded(embedding, Err(LoadFailed))) matches
            LoadActionView::Done(Ok(one)) && *one.embedding == embedding && one.reranker is None,
        !state.reranker_available ==> (load_step(
            state,
            LoadEvent::<E, R>::EmbeddingLoaded(Ok(embedding)),
        ) matches LoadActionView::Done(Ok(one)) && *one.embedding == embedding
            && one.reranker is None),
{
}

/// A server that found a reranker has it loaded after the embedding model, which is kept
/// meanwhile; and a server that cannot load its embedding model refuses with 503.
pub proof fn law_loading_goes_on_to_the_reranker<C, E, R>(state: AppStateView<C>, embedding: E)
    ensures
        state.reranker_available ==> (load_step(
            state,
            LoadEvent::<E, R>::EmbeddingLoaded(Ok(embedding)),
        ) matches LoadActionView::LoadReranker(kept, config, backend) && kept == embedding
            && config == state.config && backend == state.backend),
        load_step(state, LoadEvent::<E, R>::EmbeddingLoaded(Err(LoadFailed))) matches
            LoadActionView::Done(Err(refusal)) && refusal.status == 503 && refusal.error
            == "embedding model unavailable"@,
{
}

/// The view of what to do while models are loaded holds every field of it.
pub proof fn law_load_action_view_is_complete<C, E, R>(action: LoadAction<C, E, R>)
    ensures
        match action {
            LoadAction::LoadEmbedding(config, backend) => {
                &&& action@ matches LoadActionView::LoadEmbedding(said_config, said_backend)
                &&& said_config == config && said_backend == backend
            },
            LoadAction::LoadReranker(embedding, config, backend) => {
                &&& action@ matches LoadActionView::LoadReranker(kept, said_config, said_backend)
                &&& kept == embedding && said_config == config && said_backend == backend
            },
            LoadAction::Done(Ok(providers)) => {
                &&& action@ matches LoadActionView::Done(Ok(said))
                &&& said.embedding == providers.embedding && said.reranker == providers.reranker
            },
            LoadAction::Done(Err(failure)) => {
                &&& action@ matches LoadActionView::Done(Err(said))
                &&& said.status == failure.status && said.error == failure.body.error@
            },
        },
{
}

/// A request that finds the cache filled gets both models that it holds, and one that had models
/// loaded gets both of those; either way a cache in use then holds just these two, as used at that
/// moment.
pub proof fn law_cache_keeps_both_models_and_the_time<E, R>(
    cache: Option<CachedProviders<E, R>>,
    cached: CachedProviders<E, R>,
    loaded: Providers<E, R>,
    now: Span,
)
    ensures
        ({
            let (after, action) = acquire_step(true, Some(cached), now, AcquireEvent::CacheLocked);
            &&& action matches AcquireAction::Done(Ok(got)) && got.embedding == cached.embedding
                && got.reranker == cached.reranker
            &&& after matches Some(kept) && kept.embedding == cached.embedding && kept.reranker
                == cached.reranker && kept.last_used == now
        }),
        ({
            let (after, action) = acquire_step(
                true,
                cache,
                now,
                AcquireEvent::Loaded(Ok(loaded)),
            );
            &&& action matches AcquireAction::Done(Ok(got)) && got.embedding == loaded.embedding
                && got.reranker == loaded.reranker
            &&& after matches Some(kept) && kept.embedding == loaded.embedding && kept.reranker
                == loaded.reranker && kept.last_used == now
        }),
        acquire_step(false, cache, now, AcquireEvent::Loaded(Ok(loaded))).1 matches
            AcquireAction::Done(Ok(got)) && got.embedding == loaded.embedding && got.reranker
            == loaded.reranker,
{
}

/// Where there is a cache, a request waits for its lock, whatever it holds, and has models loaded
/// only if it finds none; neither changes what the cache holds. A failure to load is handed on as
/// it is, and leaves the cache as it was.
pub proof fn law_cache_changes_only_by_use<E, R>(
    caching: bool,
    cache: Option<CachedProviders<E, R>>,
    now: Span,
    failure: Failure,
)
    ensures
        acquire_step(true, cache, now, AcquireEvent::<E, R>::Start).0 == cache,
        acquire_step(true, cache, now, AcquireEvent::<E, R>::Start).1 is LockCache,
        acquire_step(true, None, now, AcquireEvent::<E, R>::CacheLocked).0 is None,
        acquire_step(true, None, now, AcquireEvent::<E, R>::CacheLocked).1 is Load,
        acquire_step(caching, cache, now, AcquireEvent::<E, R>::Loaded(Err(failure))).0 == cache,
        acquire_step(caching, cache, now, AcquireEvent::<E, R>::Loaded(Err(failure))).1 matches
            AcquireAction::Done(Err(said)) && said == failure,
{
}

/// Models are dropped from a cache for going unused just where there is an idle timeout short of
/// the longest span.
pub proof fn law_which_caches_are_looked_after(idle_timeout: Option<nat>)
    ensures
        evicting(idle_timeout) <==> (idle_timeout matches Some(timeout) && timeout + 1
            != 0x1_0000_0000_0000_0000int * 1_000_000_000),
{
}

/// A check drops models if and only if the time since their last use, which is nothing while the
/// clock is before it, is the timeout or more. What it does not drop it leaves as it is, and an
/// empty cache empty.
pub proof fn law_check_drops_just_what_is_unused<E, R>(
    cached: CachedProviders<E, R>,
    timeout: nat,
    now: nat,
)
    ensures
        after_eviction(Some(cached), timeout, now) is None <==> timeout == 0
            || cached.last_used@ + timeout <= now,
        after_eviction(Some(cached), timeout, now) matches Some(kept) ==> kept.embedding
            == cached.embedding && kept.reranker == cached.reranker && kept.last_used
            == cached.last_used,
        after_eviction(None::<CachedProviders<E, R>>, timeout, now) is None,
{
}

} // verus!
