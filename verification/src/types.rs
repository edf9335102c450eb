//! Request and response types of the API.
//!
//! ```text
//! POST /v1/embeddings   the format of OpenAI's /v1/embeddings
//! POST /v1/rerank       the format of Cohere's and Jina's /v1/rerank
//! GET  /v1/health       liveness check
//! ```

use vstd::prelude::*;

use crate::ranking::Score;

verus! {

/// A request for embeddings.
#[derive(Debug)]
pub struct EmbeddingsRequest {
    /// Model identifier; the server uses the model it has loaded, whatever stands here.
    pub model: Option<String>,
    /// The texts to embed.
    pub input: Vec<String>,
}

/// The texts of a request, as a client may write them: a bare string, or a list of strings.
#[derive(Debug)]
pub enum OneOrMany {
    One(String),
    Many(Vec<String>),
}

/// The list of texts that either form stands for.
pub open spec fn texts(input: OneOrMany) -> Seq<String> {
    match input {
        OneOrMany::One(text) => seq![text],
        OneOrMany::Many(list) => list@,
    }
}

/// The texts of a request as a list; a bare string is a list of one.
pub fn string_or_seq(input: OneOrMany) -> (list: Vec<String>)
    ensures
        list@ == texts(input),
{
    match input {
        OneOrMany::One(text) => {
            let mut list: Vec<String> = Vec::new();
            list.push(text);
            list
        },
        OneOrMany::Many(list) => list,
    }
}

/// The embeddings of a request's texts. `V` is the type of an embedding vector.
#[derive(Debug)]
pub struct EmbeddingsResponse<V> {
    pub object: &'static str,
    pub data: Vec<EmbeddingObject<V>>,
    pub model: String,
    pub usage: EmbeddingsUsage,
}

/// What an `EmbeddingsResponse` says.
pub struct EmbeddingsResponseView<V> {
    pub object: Seq<char>,
    pub data: Seq<EmbeddingObjectView<V>>,
    pub model: Seq<char>,
    pub usage: EmbeddingsUsage,
}

impl<V> View for EmbeddingsResponse<V> {
    type V = EmbeddingsResponseView<V>;

    open spec fn view(&self) -> EmbeddingsResponseView<V> {
        EmbeddingsResponseView {
            object: self.object@,
            data: self.data@.map_values(|object: EmbeddingObject<V>| object@),
            model: self.model@,
            usage: self.usage,
        }
    }
}

/// The embedding of one text.
#[derive(Debug)]
pub struct EmbeddingObject<V> {
    pub object: &'static str,
    pub embedding: V,
    /// Which of the request's texts the embedding is of.
    pub index: usize,
}

/// What an `EmbeddingObject` says.
pub struct EmbeddingObjectView<V> {
    pub object: Seq<char>,
    pub embedding: V,
    pub index: int,
}

impl<V> View for EmbeddingObject<V> {
    type V = EmbeddingObjectView<V>;

    open spec fn view(&self) -> EmbeddingObjectView<V> {
        EmbeddingObjectView {
            object: self.object@,
            embedding: self.embedding,
            index: self.index as int,
        }
    }
}

/// What a request is counted as.
#[derive(Clone, Copy, Debug, PartialEq, Eq, Structural)]
pub struct EmbeddingsUsage {
    pub prompt_tokens: usize,
    pub total_tokens: usize,
}

/// A request to rank documents by their relevance to a query.
#[derive(Debug)]
pub struct RerankRequest {
    /// Model identifier; the server uses the model it has loaded, whatever stands here.
    pub model: Option<String>,
    pub query: String,
    pub documents: Vec<String>,
    /// How many documents to return at most.
    pub top_n: Option<usize>,
    /// Accepted and without effect: the response refers to documents by their index.
    pub return_documents: Option<bool>,
}

/// The documents of a request, the most relevant first.
#[derive(Debug)]
pub struct RerankResponse {
    pub results: Vec<RerankResult>,
}

impl View for RerankResponse {
    type V = Seq<RerankResult>;

    open spec fn view(&self) -> Seq<RerankResult> {
        self.results@
    }
}

/// How relevant one document is.
#[derive(Clone, Copy, Debug, PartialEq, Eq, Structural)]
pub struct RerankResult {
    /// Which of the request's documents this is.
    pub index: usize,
    pub relevance_score: Score,
}

/// The answer of a server that is up.
#[derive(Debug)]
pub struct HealthResponse {
    pub status: &'static str,
    pub version: &'static str,
    pub model: String,
    pub backend: String,
}

/// What a `HealthResponse` says.
pub struct HealthResponseView {
    pub status: Seq<char>,
    pub version: Seq<char>,
    pub model: Seq<char>,
    pub backend: Seq<char>,
}

impl View for HealthResponse {
    type V = HealthResponseView;

    open spec fn view(&self) -> HealthResponseView {
        HealthResponseView {
            status: self.status@,
            version: self.version@,
            model: self.model@,
            backend: self.backend@,
        }
    }
}

/// The body of a refusal.
#[derive(Debug)]
pub struct ApiError {
    pub error: String,
}

/// A request whose input is a bare string asks for the same as one whose input is a list of that
/// string alone.
pub proof fn law_bare_string_is_list_of_one(text: String, list: Vec<String>)
    requires
        list@ == seq![text],
    ensures
        texts(OneOrMany::One(text)) == texts(OneOrMany::Many(list)),
{
}

/// A list of texts is taken as it is, of whatever length, and a bare text is taken alone.
pub proof fn law_no_text_is_lost(text: String, list: Vec<String>)
    ensures
        texts(OneOrMany::Many(list)).len() == list@.len(),
        forall|i: int|
            0 <= i < list@.len() ==> #[trigger] texts(OneOrMany::Many(list))[i] == list@[i],
        texts(OneOrMany::One(text)).len() == 1,
        texts(OneOrMany::One(text))[0] == text,
{
}

/// The view of a response with embeddings holds every field of it, and every object of its data
/// in its place.
pub proof fn law_embeddings_response_view_is_complete<V>(response: EmbeddingsResponse<V>)
    ensures
        response@.object == response.object@,
        response@.model == response.model@,
        response@.usage.prompt_tokens == response.usage.prompt_tokens,
        response@.usage.total_tokens == response.usage.total_tokens,
        response@.data.len() == response.data@.len(),
        forall|i: int|
            0 <= i < response.data@.len() ==> {
                &&& (#[trigger] response@.data[i]).object == response.data@[i].object@
                &&& response@.data[i].embedding == response.data@[i].embedding
                &&& response@.data[i].index == response.data@[i].index
            },
{
}

/// The view of a response with ranked documents holds each of its results, in its place.
pub proof fn law_rerank_response_view_is_complete(response: RerankResponse)
    ensures
        response@.len() == response.results@.len(),
        forall|i: int|
            0 <= i < response.results@.len() ==> {
                &&& (#[trigger] response@[i]).index == response.results@[i].index
                &&& response@[i].relevance_score.bits == response.results@[i].relevance_score.bits
            },
{
}

/// The view of a health report holds every field of it.
pub proof fn law_health_response_view_is_complete(report: HealthResponse)
    ensures
        report@.status == report.status@,
        report@.version == report.version@,
        report@.model == report.model@,
        report@.backend == report.backend@,
{
}

} // verus!
