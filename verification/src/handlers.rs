//! The endpoints of the API.
//!
//! An endpoint that needs a model answers in steps. Acquiring the models and running them is left
//! to the caller: a function here takes what has happened to a request, an event, and says what
//! to do next, an action; the caller does it, and comes back with the next event until the action
//! is `Reply`. `E` is the type of an embedding model, `R` that of a reranker, `V` that of an
//! embedding vector, and `C` that of what models are configured by.

use std::sync::Arc;
use axum::http::HeaderMap;
use vstd::prelude::*;
use vstd::utf8::*;

use crate::auth::{authorized, check_auth};
use crate::http::{
    answer_inference_error, embedding_unavailable, empty_input, failure, header_fields,
    inference_failure, reply_view, reranker_unavailable, unauthorized, Failure, FailureView,
    InferenceError,
};
use crate::providers::{load_step, LoadActionView, LoadEvent, LoadFailed, Providers};
use crate::ranking::{
    law_limit_keeps_the_highest, law_ranking_rearranges, law_ranking_visits_every_place_once,
    rank_scores, ranking, top, RerankScore,
};
use crate::state::{AppState, AppStateView};
use crate::types::{
    EmbeddingObject, EmbeddingObjectView, EmbeddingsRequest, EmbeddingsResponse,
    EmbeddingsResponseView, EmbeddingsUsage, HealthResponse, HealthResponseView, RerankRequest,
    RerankResponse, RerankResult,
};

verus! {

/// The length of the texts, in bytes.
pub open spec fn total_chars(input: Seq<String>) -> nat
    decreases input.len(),
{
    if input.len() == 0 {
        0
    } else {
        total_chars(input.drop_last()) + encode_utf8(input.last()@).len()
    }
}

proof fn lemma_total_chars_grows(input: Seq<String>, n: int)
    requires
        0 <= n <= input.len(),
    ensures
        total_chars(input.take(n)) <= total_chars(input),
    decreases input.len(),
{
    if n < input.len() {
        lemma_total_chars_grows(input.drop_last(), n);
        assert(input.drop_last().take(n) =~= input.take(n));
    } else {
        assert(input.take(n) =~= input);
    }
}

/// The length of the texts, in bytes; `None` where it is no `usize`.
pub fn count_chars(input: &Vec<String>) -> (total: Option<usize>)
    ensures
        total is Some <==> total_chars(input@) <= usize::MAX,
        total is Some ==> total->0 == total_chars(input@),
{
    let mut total: usize = 0;
    let mut i: usize = 0;
    while i < input.len()
        invariant
            i <= input.len(),
            total == total_chars(input@.take(i as int)),
        decreases input.len() - i,
    {
        let length: usize = input[i].as_str().as_bytes().len();
        proof {
            assert(input@.take(i + 1).drop_last() =~= input@.take(i as int));
            lemma_total_chars_grows(input@, i + 1);
        }
        match total.checked_add(length) {
            Some(sum) => {
                total = sum;
            },
            None => {
                return None;
            },
        }
        i = i + 1;
    }
    assert(input@.take(i as int) =~= input@);
    Some(total)
}

/// What has happened to a request for embeddings.
#[derive(Debug)]
pub enum EmbeddingsEvent<E, R, V> {
    /// The request has come in.
    Received,
    /// Models were acquired for it, or could not be.
    Acquired(Result<Providers<E, R>, Failure>),
    /// The model has embedded the texts, or gave no answer.
    Embedded(Result<Vec<V>, InferenceError>),
}

/// What to do next for a request for embeddings.
#[derive(Debug)]
pub enum EmbeddingsAction<'a, E, V> {
    /// Acquire models.
    Acquire,
    /// Have the model embed the texts.
    Embed(Arc<E>, &'a Vec<String>),
    /// Send the reply.
    Reply(Result<EmbeddingsResponse<V>, Failure>),
}

/// What an `EmbeddingsAction` says.
pub enum EmbeddingsActionView<E, V> {
    Acquire,
    Embed(Arc<E>, Seq<String>),
    Reply(Result<EmbeddingsResponseView<V>, FailureView>),
}

impl<'a, E, V> View for EmbeddingsAction<'a, E, V> {
    type V = EmbeddingsActionView<E, V>;

    open spec fn view(&self) -> EmbeddingsActionView<E, V> {
        match *self {
            EmbeddingsAction::Acquire => EmbeddingsActionView::Acquire,
            EmbeddingsAction::Embed(model, input) => EmbeddingsActionView::Embed(model, input@),
            EmbeddingsAction::Reply(reply) => EmbeddingsActionView::Reply(reply_view(reply)),
        }
    }
}

/// The response that gives out `vectors`: each under the number of its text, with the server's
/// model, and a token counted for every four bytes of text.
pub open spec fn embeddings_response<V>(
    model_name: Seq<char>,
    input: Seq<String>,
    vectors: Seq<V>,
) -> EmbeddingsResponseView<V> {
    EmbeddingsResponseView {
        object: "list"@,
        data: Seq::new(
            vectors.len(),
            |i: int|
                EmbeddingObjectView { object: "embedding"@, embedding: vectors[i], index: i },
        ),
        model: model_name,
        usage: EmbeddingsUsage {
            prompt_tokens: (total_chars(input) / 4) as usize,
            total_tokens: (total_chars(input) / 4) as usize,
        },
    }
}

/// The step that `embeddings` takes for a request with these headers.
pub open spec fn embeddings_step<C, E, R, V>(
    state: AppStateView<C>,
    fields: Map<Seq<char>, Seq<Seq<u8>>>,
    req: EmbeddingsRequest,
    event: EmbeddingsEvent<E, R, V>,
) -> EmbeddingsActionView<E, V> {
    match event {
        EmbeddingsEvent::Received => if !authorized(state.api_key, fields) {
            EmbeddingsActionView::Reply(Err(unauthorized()))
        } else if req.input@.len() == 0 {
            EmbeddingsActionView::Reply(Err(empty_input()))
        } else {
            EmbeddingsActionView::Acquire
        },
        EmbeddingsEvent::Acquired(Ok(providers)) => EmbeddingsActionView::Embed(
            providers.embedding,
            req.input@,
        ),
        EmbeddingsEvent::Acquired(Err(failure)) => EmbeddingsActionView::Reply(Err(failure@)),
        EmbeddingsEvent::Embedded(Ok(vectors)) => EmbeddingsActionView::Reply(
            Ok(embeddings_response(state.model_name, req.input@, vectors@)),
        ),
        EmbeddingsEvent::Embedded(Err(error)) => EmbeddingsActionView::Reply(
            Err(inference_failure(error)),
        ),
    }
}

/// Each vector under the number of its text.
fn number_vectors<V>(vectors: Vec<V>) -> (data: Vec<EmbeddingObject<V>>)
    ensures
        data@.len() == vectors@.len(),
        forall|i: int|
            0 <= i < data@.len() ==> (#[trigger] data@[i])@ == (EmbeddingObjectView {
                object: "embedding"@,
                embedding: vectors@[i],
                index: i,
            }),
{
    let mut data: Vec<EmbeddingObject<V>> = Vec::new();
    let ghost all = vectors@;
    for embedding in it: vectors
        invariant
            it.seq() == all,
            data@.len() == it.index(),
            forall|i: int|
                0 <= i < data@.len() ==> (#[trigger] data@[i])@ == (EmbeddingObjectView {
                    object: "embedding"@,
                    embedding: all[i],
                    index: i,
                }),
    {
        let index: usize = data.len();
        data.push(EmbeddingObject { object: "embedding", embedding, index });
    }
    data
}

/// One step of answering `POST /v1/embeddings`.
pub fn embeddings<'a, C, E, R, V>(
    state: &AppState<C>,
    headers: &HeaderMap,
    req: &'a EmbeddingsRequest,
    event: EmbeddingsEvent<E, R, V>,
) -> (action: EmbeddingsAction<'a, E, V>)
    requires
        event is Embedded && event->Embedded_0 is Ok ==> total_chars(req.input@) <= usize::MAX,
    ensures
        action@ == embeddings_step(state@, header_fields(*headers), *req, event),
{
    match event {
        EmbeddingsEvent::Received => {
            if let Some(refusal) = check_auth(state, headers) {
                return EmbeddingsAction::Reply(Err(refusal));
            }
            if req.input.is_empty() {
                return EmbeddingsAction::Reply(Err(failure(400, "input must not be empty")));
            }
            EmbeddingsAction::Acquire
        },
        EmbeddingsEvent::Acquired(Ok(providers)) => EmbeddingsAction::Embed(
            providers.embedding,
            &req.input,
        ),
        EmbeddingsEvent::Acquired(Err(failure)) => EmbeddingsAction::Reply(Err(failure)),
        EmbeddingsEvent::Embedded(Ok(vectors)) => {
            let total: usize = count_chars(&req.input).unwrap();
            let ghost given = vectors@;
            let response = EmbeddingsResponse {
                object: "list",
                data: number_vectors(vectors),
                model: state.model_name.clone(),
                usage: EmbeddingsUsage { prompt_tokens: total / 4, total_tokens: total / 4 },
            };
            assert(response@.data =~= embeddings_response(
                state@.model_name,
                req.input@,
                given,
            ).data);
            EmbeddingsAction::Reply(Ok(response))
        },
        EmbeddingsEvent::Embedded(Err(error)) => EmbeddingsAction::Reply(
            Err(answer_inference_error(error)),
        ),
    }
}

/// What has happened to a request to rank documents.
#[derive(Debug)]
pub enum RerankEvent<E, R> {
    /// The request has come in.
    Received,
    /// Models were acquired for it, or could not be.
    Acquired(Result<Providers<E, R>, Failure>),
    /// The model has scored the documents, or gave no answer.
    Scored(Result<Vec<RerankScore>, InferenceError>),
}

/// What to do next for a request to rank documents.
#[derive(Debug)]
pub enum RerankAction<'a, R> {
    /// Acquire models.
    Acquire,
    /// Have the model score the documents by their relevance to the query.
    Score(Arc<R>, &'a String, &'a Vec<String>),
    /// Send the reply.
    Reply(Result<RerankResponse, Failure>),
}

/// What a `RerankAction` says.
pub enum RerankActionView<R> {
    Acquire,
    Score(Arc<R>, Seq<char>, Seq<String>),
    Reply(Result<Seq<RerankResult>, FailureView>),
}

impl<'a, R> View for RerankAction<'a, R> {
    type V = RerankActionView<R>;

    open spec fn view(&self) -> RerankActionView<R> {
        match *self {
            RerankAction::Acquire => RerankActionView::Acquire,
            RerankAction::Score(model, query, documents) => RerankActionView::Score(
                model,
                query@,
                documents@,
            ),
            RerankAction::Reply(reply) => RerankActionView::Reply(reply_view(reply)),
        }
    }
}

/// The results that give out the scores, in their order.
pub open spec fn results(scores: Seq<RerankScore>) -> Seq<RerankResult> {
    Seq::new(
        scores.len(),
        |i: int|
            RerankResult { index: scores[i].index, relevance_score: scores[i].relevance_score },
    )
}

/// The step that `rerank` takes for a request with these headers.
pub open spec fn rerank_step<C, E, R>(
    state: AppStateView<C>,
    fields: Map<Seq<char>, Seq<Seq<u8>>>,
    req: RerankRequest,
    event: RerankEvent<E, R>,
) -> RerankActionView<R> {
    match event {
        RerankEvent::Received => if !authorized(state.api_key, fields) {
            RerankActionView::Reply(Err(unauthorized()))
        } else if !state.reranker_available {
            RerankActionView::Reply(Err(reranker_unavailable()))
        } else {
            RerankActionView::Acquire
        },
        RerankEvent::Acquired(Ok(providers)) => match providers.reranker {
            Some(reranker) => RerankActionView::Score(reranker, req.query@, req.documents@),
            None => RerankActionView::Reply(Err(reranker_unavailable())),
        },
        RerankEvent::Acquired(Err(failure)) => RerankActionView::Reply(Err(failure@)),
        RerankEvent::Scored(Ok(scores)) => RerankActionView::Reply(
            Ok(results(top(ranking(scores@), req.top_n))),
        ),
        RerankEvent::Scored(Err(error)) => RerankActionView::Reply(
            Err(inference_failure(error)),
        ),
    }
}

/// The results that give out the scores, in their order.
fn give_results(scores: &Vec<RerankScore>) -> (list: Vec<RerankResult>)
    ensures
        list@ == results(scores@),
{
    let mut list: Vec<RerankResult> = Vec::new();
    let mut i: usize = 0;
    while i < scores.len()
        invariant
            i <= scores.len(),
            list@ =~= results(scores@).take(i as int),
        decreases scores.len() - i,
    {
        list.push(
            RerankResult { index: scores[i].index, relevance_score: scores[i].relevance_score },
        );
        i = i + 1;
    }
    list
}

/// One step of answering `POST /v1/rerank`.
pub fn rerank<'a, C, E, R>(
    state: &AppState<C>,
    headers: &HeaderMap,
    req: &'a RerankRequest,
    event: RerankEvent<E, R>,
) -> (action: RerankAction<'a, R>)
    ensures
        action@ == rerank_step(state@, header_fields(*headers), *req, event),
{
    match event {
        RerankEvent::Received => {
            if let Some(refusal) = check_auth(state, headers) {
                return RerankAction::Reply(Err(refusal));
            }
            if !state.reranker_available {
                return RerankAction::Reply(
                    Err(failure(503, "reranker not available on this server")),
                );
            }
            RerankAction::Acquire
        },
        RerankEvent::Acquired(Ok(providers)) => match providers.reranker {
            Some(reranker) => RerankAction::Score(reranker, &req.query, &req.documents),
            None => RerankAction::Reply(Err(failure(503, "reranker not available on this server"))),
        },
        RerankEvent::Acquired(Err(failure)) => RerankAction::Reply(Err(failure)),
        RerankEvent::Scored(Ok(scores)) => {
            let ranked = rank_scores(&scores, req.top_n);
            RerankAction::Reply(Ok(RerankResponse { results: give_results(&ranked) }))
        },
        RerankEvent::Scored(Err(error)) => RerankAction::Reply(Err(answer_inference_error(error))),
    }
}

/// The reply of `health` to a request with these headers.
pub open spec fn health_reply<C>(
    state: AppStateView<C>,
    fields: Map<Seq<char>, Seq<Seq<u8>>>,
    version: Seq<char>,
    backend: Seq<char>,
) -> Result<HealthResponseView, FailureView> {
    if authorized(state.api_key, fields) {
        Ok(HealthResponseView { status: "ok"@, version, model: state.model_name, backend })
    } else {
        Err(unauthorized())
    }
}

/// Answers `GET /v1/health`. `version` is the server's version, and `backend` what its backend is
/// called.
pub fn health<C>(
    state: &AppState<C>,
    headers: &HeaderMap,
    version: &'static str,
    backend: String,
) -> (reply: Result<HealthResponse, Failure>)
    ensures
        reply_view(reply) == health_reply(state@, header_fields(*headers), version@, backend@),
{
    if let Some(refusal) = check_auth(state, headers) {
        return Err(refusal);
    }
    Ok(HealthResponse { status: "ok", version, model: state.model_name.clone(), backend })
}

/// A request that does not present the server's key is refused at once, at every endpoint: no
/// model is acquired for it.
pub proof fn law_refused_before_any_work<C, E, R, V>(
    state: AppStateView<C>,
    fields: Map<Seq<char>, Seq<Seq<u8>>>,
    embed: EmbeddingsRequest,
    rank: RerankRequest,
    version: Seq<char>,
    backend: Seq<char>,
)
    requires
        !authorized(state.api_key, fields),
    ensures
        embeddings_step::<C, E, R, V>(state, fields, embed, EmbeddingsEvent::Received)
            == EmbeddingsActionView::<E, V>::Reply(Err(unauthorized())),
        rerank_step::<C, E, R>(state, fields, rank, RerankEvent::Received)
            == RerankActionView::<R>::Reply(Err(unauthorized())),
        health_reply(state, fields, version, backend) == Err::<HealthResponseView, FailureView>(
            unauthorized(),
        ),
{
}

/// On a server without a reranker, every request to rank that is let in is refused, and no model
/// is acquired for it.
pub proof fn law_no_reranker_no_ranking<C, E, R>(
    state: AppStateView<C>,
    fields: Map<Seq<char>, Seq<Seq<u8>>>,
    req: RerankRequest,
)
    requires
        authorized(state.api_key, fields),
        !state.reranker_available,
    ensures
        rerank_step::<C, E, R>(state, fields, req, RerankEvent::Received)
            == RerankActionView::<R>::Reply(Err(reranker_unavailable())),
{
}

/// The model that a request names has no effect, nor has its wish for the documents themselves.
pub proof fn law_requested_model_has_no_effect<C, E, R, V>(
    state: AppStateView<C>,
    fields: Map<Seq<char>, Seq<Seq<u8>>>,
    embed: EmbeddingsRequest,
    embed_event: EmbeddingsEvent<E, R, V>,
    rank: RerankRequest,
    rank_event: RerankEvent<E, R>,
    model: Option<String>,
    return_documents: Option<bool>,
)
    ensures
        embeddings_step(state, fields, EmbeddingsRequest { model, ..embed }, embed_event)
            == embeddings_step(state, fields, embed, embed_event),
        rerank_step(state, fields, RerankRequest { model, return_documents, ..rank }, rank_event)
            == rerank_step(state, fields, rank, rank_event),
{
}

/// Embeddings come with the name of the server's model, which the health check reports too.
pub proof fn law_one_model_name<C, E, R, V>(
    state: AppStateView<C>,
    fields: Map<Seq<char>, Seq<Seq<u8>>>,
    req: EmbeddingsRequest,
    event: EmbeddingsEvent<E, R, V>,
    version: Seq<char>,
    backend: Seq<char>,
)
    ensures
        embeddings_step(state, fields, req, event) matches EmbeddingsActionView::Reply(
            Ok(response),
        ) ==> response.model == state.model_name,
        health_reply(state, fields, version, backend) matches Ok(report) ==> report.model
            == state.model_name,
{
}

/// Every vector is given out once, under its own number, and nothing else is.
pub proof fn law_vectors_keep_their_numbers<V>(
    model_name: Seq<char>,
    input: Seq<String>,
    vectors: Seq<V>,
    i: int,
)
    requires
        0 <= i < vectors.len(),
    ensures
        embeddings_response(model_name, input, vectors).data.len() == vectors.len(),
        embeddings_response(model_name, input, vectors).data[i].index == i,
        embeddings_response(model_name, input, vectors).data[i].embedding == vectors[i],
{
}

/// The reply to a request for embeddings for which acquiring models gives `acquired`, and the
/// model, if it comes to that, gives `embedded`: what the steps of `embeddings` lead to.
pub open spec fn embeddings_call<C, E, R, V>(
    state: AppStateView<C>,
    fields: Map<Seq<char>, Seq<Seq<u8>>>,
    req: EmbeddingsRequest,
    acquired: Result<Providers<E, R>, Failure>,
    embedded: Result<Vec<V>, InferenceError>,
) -> Option<Result<EmbeddingsResponseView<V>, FailureView>> {
    match embeddings_step::<C, E, R, V>(state, fields, req, EmbeddingsEvent::Received) {
        EmbeddingsActionView::Reply(reply) => Some(reply),
        EmbeddingsActionView::Acquire => match embeddings_step::<C, E, R, V>(
            state,
            fields,
            req,
            EmbeddingsEvent::Acquired(acquired),
        ) {
            EmbeddingsActionView::Reply(reply) => Some(reply),
            EmbeddingsActionView::Embed(_, _) => match embeddings_step::<C, E, R, V>(
                state,
                fields,
                req,
                EmbeddingsEvent::Embedded(embedded),
            ) {
                EmbeddingsActionView::Reply(reply) => Some(reply),
                _ => None,
            },
            _ => None,
        },
        _ => None,
    }
}

/// Every request for embeddings is replied to, and with embeddings if and only if it is let in,
/// gives a text, models were acquired for it, and the model embedded its texts.
pub proof fn law_embeddings_call_is_answered<C, E, R, V>(
    state: AppStateView<C>,
    fields: Map<Seq<char>, Seq<Seq<u8>>>,
    req: EmbeddingsRequest,
    acquired: Result<Providers<E, R>, Failure>,
    embedded: Result<Vec<V>, InferenceError>,
)
    ensures
        embeddings_call(state, fields, req, acquired, embedded) is Some,
        embeddings_call(state, fields, req, acquired, embedded)->0 is Ok <==> {
            &&& authorized(state.api_key, fields)
            &&& req.input@.len() > 0
            &&& acquired is Ok
            &&& embedded is Ok
        },
{
}

/// The reply to a request to rank for which acquiring models gives `acquired`, and the model, if
/// it comes to that, gives `scored`: what the steps of `rerank` lead to.
pub open spec fn rerank_call<C, E, R>(
    state: AppStateView<C>,
    fields: Map<Seq<char>, Seq<Seq<u8>>>,
    req: RerankRequest,
    acquired: Result<Providers<E, R>, Failure>,
    scored: Result<Vec<RerankScore>, InferenceError>,
) -> Option<Result<Seq<RerankResult>, FailureView>> {
    match rerank_step::<C, E, R>(state, fields, req, RerankEvent::Received) {
        RerankActionView::Reply(reply) => Some(reply),
        RerankActionView::Acquire => match rerank_step::<C, E, R>(
            state,
            fields,
            req,
            RerankEvent::Acquired(acquired),
        ) {
            RerankActionView::Reply(reply) => Some(reply),
            RerankActionView::Score(_, _, _) => match rerank_step::<C, E, R>(
                state,
                fields,
                req,
                RerankEvent::Scored(scored),
            ) {
                RerankActionView::Reply(reply) => Some(reply),
                _ => None,
            },
            _ => None,
        },
        _ => None,
    }
}

/// Every request to rank is replied to, and with results if and only if it is let in, the server
/// has a reranker, models were acquired for the request with a reranker among them, and the
/// reranker scored the documents.
pub proof fn law_rerank_call_is_answered<C, E, R>(
    state: AppStateView<C>,
    fields: Map<Seq<char>, Seq<Seq<u8>>>,
    req: RerankRequest,
    acquired: Result<Providers<E, R>, Failure>,
    scored: Result<Vec<RerankScore>, InferenceError>,
)
    ensures
        rerank_call(state, fields, req, acquired, scored) is Some,
        rerank_call(state, fields, req, acquired, scored)->0 is Ok <==> {
            &&& authorized(state.api_key, fields)
            &&& state.reranker_available
            &&& acquired is Ok
            &&& acquired->Ok_0.reranker is Some
            &&& scored is Ok
        },
{
}

/// The results of a request to rank come with the highest score first, as many as the request
/// allows or all there are, and each is the score of a document.
pub proof fn law_results_are_the_best<C, E, R>(
    state: AppStateView<C>,
    fields: Map<Seq<char>, Seq<Seq<u8>>>,
    req: RerankRequest,
    scores: Vec<RerankScore>,
)
    ensures
        rerank_step::<C, E, R>(state, fields, req, RerankEvent::Scored(Ok(scores))) matches
            RerankActionView::Reply(Ok(list)) && {
            &&& list.len() == match req.top_n {
                Some(n) => if n < scores@.len() {
                    n as nat
                } else {
                    scores@.len()
                },
                None => scores@.len(),
            }
            &&& forall|i: int, j: int|
                0 <= i <= j < list.len() ==> (#[trigger] list[i]).relevance_score.rank() >= (
                #[trigger] list[j]).relevance_score.rank()
            &&& forall|i: int|
                0 <= i < list.len() ==> scores@.contains(
                    RerankScore {
                        index: (#[trigger] list[i]).index,
                        relevance_score: list[i].relevance_score,
                    },
                )
        },
{
    broadcast use vstd::seq_lib::group_to_multiset_ensures;

    law_ranking_rearranges(scores@);
    law_limit_keeps_the_highest(scores@, req.top_n);
    let ranked = ranking(scores@);
    let kept = top(ranked, req.top_n);
    let list = results(kept);
    assert forall|i: int, j: int| 0 <= i <= j < list.len() implies (
    #[trigger] list[i]).relevance_score.rank() >= (
    #[trigger] list[j]).relevance_score.rank() by {
        assert(ranked[i].rank() >= ranked[j].rank());
    }
    assert forall|i: int| 0 <= i < list.len() implies scores@.contains(
        RerankScore {
            index: (#[trigger] list[i]).index,
            relevance_score: list[i].relevance_score,
        },
    ) by {
        let score = ranked[i];
        assert(ranked.contains(score));
        assert(ranked.to_multiset().count(score) > 0);
        assert(scores@.to_multiset().count(score) > 0);
    }
}

/// Where the reranker that the server found when it started cannot be loaded for a request, the
/// request is refused as on a server without one, while requests for embeddings are served.
pub proof fn law_lost_reranker_only_stops_ranking<C, E, R, V>(
    state: AppStateView<C>,
    fields: Map<Seq<char>, Seq<Seq<u8>>>,
    embedding: E,
    embed: EmbeddingsRequest,
    rank: RerankRequest,
)
    ensures
        load_step::<C, E, R>(
            state,
            LoadEvent::RerankerLoaded(embedding, Err(LoadFailed)),
        ) matches LoadActionView::Done(Ok(providers)) && {
            &&& rerank_step(state, fields, rank, RerankEvent::Acquired(Ok(providers)))
                == RerankActionView::<R>::Reply(Err(reranker_unavailable()))
            &&& embeddings_step::<C, E, R, V>(
                state,
                fields,
                embed,
                EmbeddingsEvent::Acquired(Ok(providers)),
            ) == EmbeddingsActionView::<E, V>::Embed(Arc::new(embedding), embed.input@)
        },
{
}

/// Every refusal that an endpoint makes itself has the status of an HTTP error.
pub proof fn law_refusals_are_http_errors<C, E, R, V>(
    state: AppStateView<C>,
    fields: Map<Seq<char>, Seq<Seq<u8>>>,
    embed: EmbeddingsRequest,
    embed_event: EmbeddingsEvent<E, R, V>,
    rank: RerankRequest,
    rank_event: RerankEvent<E, R>,
)
    ensures
        !(embed_event matches EmbeddingsEvent::Acquired(Err(_))) ==> (embeddings_step(
            state,
            fields,
            embed,
            embed_event,
        ) matches EmbeddingsActionView::Reply(Err(failure)) ==> 400 <= failure.status < 600),
        !(rank_event matches RerankEvent::Acquired(Err(_))) ==> (rerank_step(
            state,
            fields,
            rank,
            rank_event,
        ) matches RerankActionView::Reply(Err(failure)) ==> 400 <= failure.status < 600),
        400 <= embedding_unavailable().status < 600,
{
}

/// The length of texts is additive, that of one text is the number of bytes it is encoded in, and
/// that of none is nothing.
pub proof fn law_lengths_add_up(a: Seq<String>, b: Seq<String>, text: String)
    ensures
        total_chars(a + b) == total_chars(a) + total_chars(b),
        total_chars(seq![text]) == encode_utf8(text@).len(),
        total_chars(Seq::<String>::empty()) == 0,
    decreases b.len(),
{
    assert(seq![text].drop_last() =~= Seq::<String>::empty());
    assert(total_chars(seq![text].drop_last()) == 0);
    if b.len() == 0 {
        assert(a + b =~= a);
    } else {
        law_lengths_add_up(a, b.drop_last(), text);
        assert((a + b).drop_last() =~= a + b.drop_last());
    }
}

/// A request for embeddings that is let in goes on to the models if and only if it gives a text,
/// and is refused with 400 if it gives none.
pub proof fn law_texts_are_needed<C, E, R, V>(
    state: AppStateView<C>,
    fields: Map<Seq<char>, Seq<Seq<u8>>>,
    req: EmbeddingsRequest,
)
    requires
        authorized(state.api_key, fields),
    ensures
        embeddings_step::<C, E, R, V>(state, fields, req, EmbeddingsEvent::Received) is Acquire
            <==> req.input@.len() > 0,
        req.input@.len() == 0 ==> (embeddings_step::<C, E, R, V>(
            state,
            fields,
            req,
            EmbeddingsEvent::Received,
        ) matches EmbeddingsActionView::Reply(Err(refusal)) && refusal.status == 400
            && refusal.error == "input must not be empty"@),
{
}

/// All texts of a request go to the embedding model that was acquired for it, whatever else was;
/// and where none was, the request is refused for the reason given.
pub proof fn law_all_texts_go_to_the_acquired_model<C, E, R, V>(
    state: AppStateView<C>,
    fields: Map<Seq<char>, Seq<Seq<u8>>>,
    req: EmbeddingsRequest,
    providers: Providers<E, R>,
    failure: Failure,
)
    ensures
        embeddings_step::<C, E, R, V>(
            state,
            fields,
            req,
            EmbeddingsEvent::Acquired(Ok(providers)),
        ) matches EmbeddingsActionView::Embed(model, input) && model == providers.embedding
            && input.len() == req.input@.len() && (forall|i: int|
            0 <= i < input.len() ==> #[trigger] input[i] == req.input@[i]),
        embeddings_step::<C, E, R, V>(
            state,
            fields,
            req,
            EmbeddingsEvent::Acquired(Err(failure)),
        ) matches EmbeddingsActionView::Reply(Err(refusal)) && refusal.status == failure.status
            && refusal.error == failure.body.error@,
{
}

/// The reply gives out every vector that the model gave, in its place and under its number, and
/// counts a token for every four bytes of all texts of the request.
pub proof fn law_reply_gives_every_vector<C, E, R, V>(
    state: AppStateView<C>,
    fields: Map<Seq<char>, Seq<Seq<u8>>>,
    req: EmbeddingsRequest,
    vectors: Vec<V>,
)
    requires
        total_chars(req.input@) <= usize::MAX,
    ensures
        embeddings_step::<C, E, R, V>(
            state,
            fields,
            req,
            EmbeddingsEvent::Embedded(Ok(vectors)),
        ) matches EmbeddingsActionView::Reply(Ok(response)) && {
            &&& response.object == "list"@
            &&& response.model == state.model_name
            &&& response.data.len() == vectors@.len()
            &&& forall|i: int|
                0 <= i < vectors@.len() ==> {
                    &&& (#[trigger] response.data[i]).embedding == vectors@[i]
                    &&& response.data[i].index == i
                    &&& response.data[i].object == "embedding"@
                }
            &&& response.usage.prompt_tokens * 4 <= total_chars(req.input@)
                < response.usage.prompt_tokens * 4 + 4
            &&& response.usage.total_tokens == response.usage.prompt_tokens
        },
{
}

/// A model that gives no answer is answered for: with 499 where the request was given up, and with
/// 500 where the model failed, for embeddings and for ranking alike.
pub proof fn law_model_errors_are_answered<C, E, R, V>(
    state: AppStateView<C>,
    fields: Map<Seq<char>, Seq<Seq<u8>>>,
    embed: EmbeddingsRequest,
    rank: RerankRequest,
    error: InferenceError,
)
    ensures
        embeddings_step::<C, E, R, V>(
            state,
            fields,
            embed,
            EmbeddingsEvent::Embedded(Err(error)),
        ) matches EmbeddingsActionView::Reply(Err(refusal)) && match error {
            InferenceError::Cancelled => refusal.status == 499 && refusal.error
                == "request cancelled"@,
            InferenceError::Failed => refusal.status == 500 && refusal.error
                == "internal server error"@,
        },
        rerank_step::<C, E, R>(state, fields, rank, RerankEvent::Scored(Err(error))) matches
            RerankActionView::Reply(Err(refusal)) && match error {
            InferenceError::Cancelled => refusal.status == 499 && refusal.error
                == "request cancelled"@,
            InferenceError::Failed => refusal.status == 500 && refusal.error
                == "internal server error"@,
        },
{
}

/// A request without the server's key is refused with 401 at every endpoint, before anything else
/// is looked at.
pub proof fn law_refusal_without_key_is_unauthorized<C, E, R, V>(
    state: AppStateView<C>,
    fields: Map<Seq<char>, Seq<Seq<u8>>>,
    embed: EmbeddingsRequest,
    rank: RerankRequest,
    version: Seq<char>,
    backend: Seq<char>,
)
    requires
        !authorized(state.api_key, fields),
    ensures
        embeddings_step::<C, E, R, V>(state, fields, embed, EmbeddingsEvent::Received) matches
            EmbeddingsActionView::Reply(Err(refusal)) && refusal.status == 401 && refusal.error
            == "invalid or missing API key"@,
        rerank_step::<C, E, R>(state, fields, rank, RerankEvent::Received) matches
            RerankActionView::Reply(Err(refusal)) && refusal.status == 401 && refusal.error
            == "invalid or missing API key"@,
        health_reply(state, fields, version, backend) matches Err(refusal) && refusal.status == 401
            && refusal.error == "invalid or missing API key"@,
{
}

/// A request to rank that is let in goes on to the models if and only if the server has a
/// reranker, and is refused with 503 if it has none.
pub proof fn law_a_reranker_is_needed<C, E, R>(
    state: AppStateView<C>,
    fields: Map<Seq<char>, Seq<Seq<u8>>>,
    req: RerankRequest,
)
    requires
        authorized(state.api_key, fields),
    ensures
        rerank_step::<C, E, R>(state, fields, req, RerankEvent::Received) is Acquire
            <==> state.reranker_available,
        !state.reranker_available ==> (rerank_step::<C, E, R>(
            state,
            fields,
            req,
            RerankEvent::Received,
        ) matches RerankActionView::Reply(Err(refusal)) && refusal.status == 503 && refusal.error
            == "reranker not available on this server"@),
{
}

/// The query and all documents of a request go to the reranker that was acquired for it; where no
/// reranker was, or nothing, the request is refused.
pub proof fn law_all_documents_go_to_the_acquired_reranker<C, E, R>(
    state: AppStateView<C>,
    fields: Map<Seq<char>, Seq<Seq<u8>>>,
    req: RerankRequest,
    providers: Providers<E, R>,
    failure: Failure,
)
    ensures
        providers.reranker matches Some(reranker) ==> (rerank_step::<C, E, R>(
            state,
            fields,
            req,
            RerankEvent::Acquired(Ok(providers)),
        ) matches RerankActionView::Score(model, query, documents) && model == reranker && query
            == req.query@ && documents.len() == req.documents@.len() && (forall|i: int|
            0 <= i < documents.len() ==> #[trigger] documents[i] == req.documents@[i])),
        providers.reranker is None ==> (rerank_step::<C, E, R>(
            state,
            fields,
            req,
            RerankEvent::Acquired(Ok(providers)),
        ) matches RerankActionView::Reply(Err(refusal)) && refusal.status == 503 && refusal.error
            == "reranker not available on this server"@),
        rerank_step::<C, E, R>(state, fields, req, RerankEvent::Acquired(Err(failure))) matches
            RerankActionView::Reply(Err(refusal)) && refusal.status == failure.status
            && refusal.error == failure.body.error@,
{
}

/// A reranker that was loaded for a request is the one that scores its documents, on every server.
pub proof fn law_loaded_reranker_scores<C, E, R>(
    state: AppStateView<C>,
    fields: Map<Seq<char>, Seq<Seq<u8>>>,
    req: RerankRequest,
    embedding: E,
    reranker: R,
)
    ensures
        load_step(state, LoadEvent::RerankerLoaded(embedding, Ok(Some(reranker)))) matches
            LoadActionView::Done(Ok(providers)) && (rerank_step::<C, E, R>(
            state,
            fields,
            req,
            RerankEvent::Acquired(Ok(providers)),
        ) matches RerankActionView::Score(model, query, documents) && *model == reranker && query
            == req.query@ && documents == req.documents@),
{
}

/// The reply gives out the scores of the model in an order that visits each of them once, from the
/// highest to the lowest, and equal ones as they came: result `i` is the `i`-th score in that
/// order. There are as many results as the request allows, or as many as scores; without a limit
/// the results hold the very scores, each as often as the model gave it.
pub proof fn law_result_is_the_score_of_its_place<C, E, R>(
    state: AppStateView<C>,
    fields: Map<Seq<char>, Seq<Seq<u8>>>,
    req: RerankRequest,
    scores: Vec<RerankScore>,
) -> (order: Seq<int>)
    ensures
        order.len() == scores@.len(),
        order.no_duplicates(),
        forall|k: int| 0 <= k < scores@.len() ==> #[trigger] order.contains(k),
        forall|i: int| 0 <= i < scores@.len() ==> 0 <= #[trigger] order[i] < scores@.len(),
        forall|i: int, j: int|
            0 <= i < j < scores@.len() ==> {
                let earlier = scores@[#[trigger] order[i]].relevance_score.rank();
                let later = scores@[#[trigger] order[j]].relevance_score.rank();
                earlier > later || (earlier == later && order[i] < order[j])
            },
        rerank_step::<C, E, R>(state, fields, req, RerankEvent::Scored(Ok(scores))) matches
            RerankActionView::Reply(Ok(list)) && {
            &&& req.top_n is None ==> list.len() == scores@.len()
            &&& req.top_n matches Some(n) ==> list.len() == if n < scores@.len() {
                n as nat
            } else {
                scores@.len()
            }
            &&& forall|i: int|
                0 <= i < list.len() ==> {
                    &&& (#[trigger] list[i]).index == scores@[order[i]].index
                    &&& list[i].relevance_score.bits == scores@[order[i]].relevance_score.bits
                }
            &&& req.top_n is None ==> Seq::new(
                list.len(),
                |i: int|
                    RerankScore {
                        index: list[i].index,
                        relevance_score: list[i].relevance_score,
                    },
            ).to_multiset() == scores@.to_multiset()
        },
{
    let order = law_ranking_visits_every_place_once(scores@);
    law_ranking_rearranges(scores@);
    let ranked = ranking(scores@);
    let list = results(top(ranked, req.top_n));
    assert forall|i: int| 0 <= i < list.len() implies (#[trigger] list[i]).index
        == scores@[order[i]].index && list[i].relevance_score.bits
        == scores@[order[i]].relevance_score.bits by {
        assert(ranked[i] == scores@[order[i]]);
    }
    if req.top_n is None {
        assert(Seq::new(
            list.len(),
            |i: int|
                RerankScore { index: list[i].index, relevance_score: list[i].relevance_score },
        ) =~= ranked);
    }
    order
}

/// The health report of a server that lets the request in says that it is up, and gives its
/// version, its model and its backend as they are.
pub proof fn law_health_tells_of_the_server<C>(
    state: AppStateView<C>,
    fields: Map<Seq<char>, Seq<Seq<u8>>>,
    version: Seq<char>,
    backend: Seq<char>,
)
    requires
        authorized(state.api_key, fields),
    ensures
        health_reply(state, fields, version, backend) matches Ok(report) && report.status == "ok"@
            && report.version == version && report.model == state.model_name && report.backend
            == backend,
{
}

/// The views of what to do for a request hold every field of it.
pub proof fn law_action_views_are_complete<'a, E, R, V>(
    embed: EmbeddingsAction<'a, E, V>,
    rank: RerankAction<'a, R>,
)
    ensures
        match embed {
            EmbeddingsAction::Acquire => embed@ is Acquire,
            EmbeddingsAction::Embed(model, input) => {
                &&& embed@ matches EmbeddingsActionView::Embed(said_model, said_input)
                &&& said_model == model && said_input == input@
            },
            EmbeddingsAction::Reply(Ok(response)) => {
                &&& embed@ matches EmbeddingsActionView::Reply(Ok(said))
                &&& said == response@
            },
            EmbeddingsAction::Reply(Err(failure)) => {
                &&& embed@ matches EmbeddingsActionView::Reply(Err(said))
                &&& said.status == failure.status && said.error == failure.body.error@
            },
        },
        match rank {
            RerankAction::Acquire => rank@ is Acquire,
            RerankAction::Score(model, query, documents) => {
                &&& rank@ matches RerankActionView::Score(said_model, said_query, said_documents)
                &&& said_model == model && said_query == query@ && said_documents == documents@
            },
            RerankAction::Reply(Ok(response)) => {
                &&& rank@ matches RerankActionView::Reply(Ok(said))
                &&& said == response@
            },
            RerankAction::Reply(Err(failure)) => {
                &&& rank@ matches RerankActionView::Reply(Err(said))
                &&& said.status == failure.status && said.error == failure.body.error@
            },
        },
{
}

} // verus!
