use vstd::prelude::*;

use crate::error::GatewayError;

verus! {

/// The daemon's HTTP endpoints that the gateway calls.
#[derive(Clone, Copy, Debug, PartialEq, Eq, Structural)]
pub enum Endpoint {
    /// `GET /api/tags`: the installed models; also the liveness probe.
    Tags,
    /// `POST /api/generate`: one text generation.
    Generate,
    /// `POST /api/pull`: start a model download.
    Pull,
}

/// The HTTP method of a request.
#[derive(Clone, Copy, Debug, PartialEq, Eq, Structural)]
pub enum Method {
    Get,
    Post,
}

pub open spec fn base_url_spec() -> Seq<char> {
    "http://localhost:11434"@
}

pub open spec fn path_spec(e: Endpoint) -> Seq<char> {
    match e {
        Endpoint::Tags => "/api/tags"@,
        Endpoint::Generate => "/api/generate"@,
        Endpoint::Pull => "/api/pull"@,
    }
}

pub open spec fn method_spec(e: Endpoint) -> Method {
    match e {
        Endpoint::Tags => Method::Get,
        Endpoint::Generate | Endpoint::Pull => Method::Post,
    }
}

impl Endpoint {
    /// The endpoint's path below the daemon's base address.
    pub fn path(&self) -> (r: &'static str)
        ensures
            r@ == path_spec(*self),
    {
        match self {
            Endpoint::Tags => "/api/tags",
            Endpoint::Generate => "/api/generate",
            Endpoint::Pull => "/api/pull",
        }
    }

    /// The full address of the endpoint on the local daemon.
    pub fn url(&self) -> (r: String)
        ensures
            r@ == base_url_spec() + path_spec(*self),
    {
        String::from_str("http://localhost:11434").concat(self.path())
    }

    /// The method the endpoint is called with.
    pub fn method(&self) -> (r: Method)
        ensures
            r == method_spec(*self),
    {
        match self {
            Endpoint::Tags => Method::Get,
            Endpoint::Generate | Endpoint::Pull => Method::Post,
        }
    }
}

/// A caller's request for one generation. Neither field is validated:
/// empty strings are forwarded as they are.
#[derive(Clone, Debug, PartialEq, Eq)]
pub struct GenerationRequest {
    pub prompt: String,
    pub model: String,
}

/// The body posted to the generation endpoint.
#[derive(Clone, Debug, PartialEq, Eq)]
pub struct GenerateBody {
    pub model: String,
    pub prompt: String,
    pub stream: bool,
}

/// The part of the daemon's generation reply that is consumed.
#[derive(Clone, Debug, PartialEq, Eq)]
pub struct GenerationResponse {
    pub response: String,
}

/// The body posted to the pull endpoint.
#[derive(Clone, Debug, PartialEq, Eq)]
pub struct PullBody {
    pub name: String,
}

/// What one request to the daemon came to.
#[derive(Clone, Debug, PartialEq, Eq)]
pub enum Exchange<T> {
    /// The request could not be completed; the transport's description.
    Unreachable(String),
    /// The daemon answered, but the body could not be decoded; the decoder's
    /// description.
    Undecodable(String),
    /// The daemon answered with this decoded body.
    Received(T),
}

/// The body for a generation: the caller's model and prompt, unchanged, and
/// streaming switched off so that one reply carries the whole text.
pub fn generation_body(request: GenerationRequest) -> (r: GenerateBody)
    ensures
        r.model == request.model,
        r.prompt == request.prompt,
        !r.stream,
{
    GenerateBody { model: request.model, prompt: request.prompt, stream: false }
}

/// The body that asks the daemon to download the named model.
pub fn pull_body(model_name: String) -> (r: PullBody)
    ensures
        r.name == model_name,
{
    PullBody { name: model_name }
}

/// The result of a generation: the reply's `response` text exactly; a
/// request that could not be completed and a reply of the wrong shape fail
/// with distinct errors.
pub fn generate_result(exchange: Exchange<GenerationResponse>) -> (r: Result<String, GatewayError>)
    ensures
        match exchange {
            Exchange::Unreachable(d) => r == Err::<String, GatewayError>(
                GatewayError::RequestFailed(d),
            ),
            Exchange::Undecodable(d) => r == Err::<String, GatewayError>(
                GatewayError::ParseFailed(d),
            ),
            Exchange::Received(reply) => r == Ok::<String, GatewayError>(reply.response),
        },
{
    match exchange {
        Exchange::Unreachable(d) => Err(GatewayError::RequestFailed(d)),
        Exchange::Undecodable(d) => Err(GatewayError::ParseFailed(d)),
        Exchange::Received(reply) => Ok(reply.response),
    }
}

/// The result of listing the models: the reply body exactly as it came.
pub fn list_result(exchange: Exchange<String>) -> (r: Result<String, GatewayError>)
    ensures
        match exchange {
            Exchange::Unreachable(d) => r == Err::<String, GatewayError>(
                GatewayError::RequestFailed(d),
            ),
            Exchange::Undecodable(d) => r == Err::<String, GatewayError>(
                GatewayError::ReadFailed(d),
            ),
            Exchange::Received(body) => r == Ok::<String, GatewayError>(body),
        },
{
    match exchange {
        Exchange::Unreachable(d) => Err(GatewayError::RequestFailed(d)),
        Exchange::Undecodable(d) => Err(GatewayError::ReadFailed(d)),
        Exchange::Received(body) => Ok(body),
    }
}

pub open spec fn pull_started_spec() -> Seq<char> {
    "Model pull started"@
}

/// The result of starting a model download. It depends only on whether the
/// initiating request was sent (`Err` holds the transport's description):
/// the download's own progress and outcome are never consulted.
pub fn pull_result(sent: Result<(), String>) -> (r: Result<String, GatewayError>)
    ensures
        sent is Ok <==> r is Ok,
        r is Ok ==> r->Ok_0@ == pull_started_spec(),
        sent is Err ==> r == Err::<String, GatewayError>(GatewayError::PullFailed(sent->Err_0)),
{
    match sent {
        Ok(()) => Ok(String::from_str("Model pull started")),
        Err(d) => Err(GatewayError::PullFailed(d)),
    }
}

} // verus!
