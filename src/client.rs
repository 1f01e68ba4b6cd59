use vstd::prelude::*;

use crate::chat::{chat_body, OpenAIChatOptions};
use crate::completions::{completion_body, CompletionOptions};
use crate::edits::{edit_body, EditOptions};
use crate::embeddings::{embeddings_body, CreateEmbeddingsOptions};
use crate::images::{
    create_img_body, edit_parts, parts_view, variation_parts, CreateImgOptions,
    CreateImgVariationsOptions, EditImgOptions, FormPart, PartView,
};
use crate::wire::{BodyField, ValidationError};

verus! {

/// How a transport exchange failed.
#[derive(Debug, Clone, PartialEq, Eq)]
pub enum TransportError {
    /// The server answered with a status outside 200..=299.
    Status(u16),
    /// No answer was obtained (connection, TLS, ...).
    Network(String),
}

/// Every way a client operation can fail.
#[derive(Debug, Clone, PartialEq, Eq)]
pub enum ClientError {
    Validation(ValidationError),
    Transport(TransportError),
    Decode(String),
}

#[derive(Debug, Clone, Copy, PartialEq, Eq, Structural)]
pub enum HttpMethod {
    Get,
    Post,
}

/// The body of an outgoing request.
#[derive(Debug)]
pub enum RequestBody {
    Empty,
    Json(Vec<BodyField>),
    Multipart(Vec<FormPart>),
}

/// A request ready for the transport: method, full URL, the value of the
/// `Authorization` header, and the body.
#[derive(Debug)]
pub struct ApiRequest {
    pub method: HttpMethod,
    pub url: String,
    pub authorization: String,
    pub body: RequestBody,
}

pub open spec fn json_body_is(b: RequestBody, fields: Seq<BodyField>) -> bool {
    match b {
        RequestBody::Json(v) => v@ == fields,
        _ => false,
    }
}

pub open spec fn multipart_body_is(b: RequestBody, parts: Seq<PartView>) -> bool {
    match b {
        RequestBody::Multipart(v) => parts_view(v@) == parts,
        _ => false,
    }
}

/// Credentials and base address of the API.
#[derive(Debug)]
pub struct OpenAIClient {
    api_key: String,
    base_uri: String,
}

impl OpenAIClient {
    pub closed spec fn key(&self) -> Seq<char> {
        self.api_key@
    }

    pub closed spec fn base(&self) -> Seq<char> {
        self.base_uri@
    }

    pub fn new(api_key: &str, base_uri: &str) -> (r: Self)
        ensures
            r.key() == api_key@,
            r.base() == base_uri@,
    {
        OpenAIClient { api_key: api_key.to_owned(), base_uri: base_uri.to_owned() }
    }

    pub fn api_key(&self) -> (r: &str)
        ensures
            r@ == self.key(),
    {
        self.api_key.as_str()
    }

    pub fn base_uri(&self) -> (r: &str)
        ensures
            r@ == self.base(),
    {
        self.base_uri.as_str()
    }

    /// `q` is a request with this method to the base address followed by
    /// `path`, authorized by this client's key as a bearer token.
    pub open spec fn addressed(&self, q: ApiRequest, method: HttpMethod, path: Seq<char>) -> bool {
        &&& q.method == method
        &&& q.url@ == self.base() + path
        &&& q.authorization@ == "Bearer "@ + self.key()
    }

    fn request(&self, method: HttpMethod, path: &str, body: RequestBody) -> (r: ApiRequest)
        ensures
            self.addressed(r, method, path@),
            r.body == body,
    {
        let url = self.base_uri.clone().concat(path);
        let authorization = String::from_str("Bearer ").concat(self.api_key.as_str());
        ApiRequest { method, url, authorization, body }
    }

    /// `GET {base}/models`.
    pub fn get_models_request(&self) -> (r: ApiRequest)
        ensures
            self.addressed(r, HttpMethod::Get, "/models"@),
            r.body is Empty,
    {
        self.request(HttpMethod::Get, "/models", RequestBody::Empty)
    }

    /// `GET {base}/models/{model}`.
    pub fn get_model_request(&self, model: &str) -> (r: ApiRequest)
        ensures
            self.addressed(r, HttpMethod::Get, "/models/"@ + model@),
            r.body is Empty,
    {
        let path = String::from_str("/models/").concat(model);
        self.request(HttpMethod::Get, path.as_str(), RequestBody::Empty)
    }

    /// `POST {base}/chat/completions` with the options as JSON, once they
    /// are valid.
    pub fn get_chat_completion_request(&self, opts: OpenAIChatOptions) -> (r: Result<
        ApiRequest,
        ValidationError,
    >)
        ensures
            match opts.check() {
                Err(e) => r == Err::<ApiRequest, ValidationError>(e),
                Ok(_) => r is Ok && self.addressed(
                    r->Ok_0,
                    HttpMethod::Post,
                    "/chat/completions"@,
                ) && json_body_is(r->Ok_0.body, chat_body(opts)),
            },
    {
        opts.validate()?;
        let body = RequestBody::Json(opts.into_body());
        Ok(self.request(HttpMethod::Post, "/chat/completions", body))
    }

    /// `POST {base}/completions` with the options as JSON, once they are
    /// valid.
    pub fn get_completion_request(&self, opts: CompletionOptions) -> (r: Result<
        ApiRequest,
        ValidationError,
    >)
        ensures
            match opts.check() {
                Err(e) => r == Err::<ApiRequest, ValidationError>(e),
                Ok(_) => r is Ok && self.addressed(r->Ok_0, HttpMethod::Post, "/completions"@)
                    && json_body_is(r->Ok_0.body, completion_body(opts)),
            },
    {
        opts.validate()?;
        let body = RequestBody::Json(opts.into_body());
        Ok(self.request(HttpMethod::Post, "/completions", body))
    }

    /// `POST {base}/embeddings` with the edit options as JSON, once they
    /// are valid.
    pub fn create_edit_request(&self, opts: EditOptions) -> (r: Result<
        ApiRequest,
        ValidationError,
    >)
        ensures
            match opts.check() {
                Err(e) => r == Err::<ApiRequest, ValidationError>(e),
                Ok(_) => r is Ok && self.addressed(r->Ok_0, HttpMethod::Post, "/embeddings"@)
                    && json_body_is(r->Ok_0.body, edit_body(opts)),
            },
    {
        opts.validate()?;
        let body = RequestBody::Json(opts.into_body());
        Ok(self.request(HttpMethod::Post, "/embeddings", body))
    }

    /// `POST {base}/embeddings` with the options as JSON, once they are
    /// valid.
    pub fn create_embeddings_request(&self, opts: CreateEmbeddingsOptions) -> (r: Result<
        ApiRequest,
        ValidationError,
    >)
        ensures
            match opts.check() {
                Err(e) => r == Err::<ApiRequest, ValidationError>(e),
                Ok(_) => r is Ok && self.addressed(r->Ok_0, HttpMethod::Post, "/embeddings"@)
                    && json_body_is(r->Ok_0.body, embeddings_body(opts)),
            },
    {
        opts.validate()?;
        let body = RequestBody::Json(opts.into_body());
        Ok(self.request(HttpMethod::Post, "/embeddings", body))
    }

    /// `POST {base}/images/generations` with the options as JSON, once they
    /// are valid.
    pub fn create_image_request(&self, opts: CreateImgOptions) -> (r: Result<
        ApiRequest,
        ValidationError,
    >)
        ensures
            match opts.check() {
                Err(e) => r == Err::<ApiRequest, ValidationError>(e),
                Ok(_) => r is Ok && self.addressed(
                    r->Ok_0,
                    HttpMethod::Post,
                    "/images/generations"@,
                ) && json_body_is(r->Ok_0.body, create_img_body(opts)),
            },
    {
        opts.validate()?;
        let body = RequestBody::Json(opts.into_body());
        Ok(self.request(HttpMethod::Post, "/images/generations", body))
    }

    /// `POST {base}/images/edits` with the options as a multipart body, once
    /// they are valid.
    pub fn edit_img_request(&self, opts: EditImgOptions) -> (r: Result<ApiRequest, ValidationError>)
        ensures
            match opts.check() {
                Err(e) => r == Err::<ApiRequest, ValidationError>(e),
                Ok(_) => r is Ok && self.addressed(r->Ok_0, HttpMethod::Post, "/images/edits"@)
                    && multipart_body_is(r->Ok_0.body, edit_parts(opts)),
            },
    {
        opts.validate()?;
        let body = RequestBody::Multipart(opts.into_parts());
        Ok(self.request(HttpMethod::Post, "/images/edits", body))
    }

    /// `POST {base}/images/variations` with the options as a multipart body,
    /// once they are valid.
    pub fn create_img_variations_request(&self, opts: CreateImgVariationsOptions) -> (r: Result<
        ApiRequest,
        ValidationError,
    >)
        ensures
            match opts.check() {
                Err(e) => r == Err::<ApiRequest, ValidationError>(e),
                Ok(_) => r is Ok && self.addressed(
                    r->Ok_0,
                    HttpMethod::Post,
                    "/images/variations"@,
                ) && multipart_body_is(r->Ok_0.body, variation_parts(opts)),
            },
    {
        opts.validate()?;
        let body = RequestBody::Multipart(opts.into_parts());
        Ok(self.request(HttpMethod::Post, "/images/variations", body))
    }
}

pub open spec fn is_success(status: u16) -> bool {
    200 <= status <= 299
}

/// The outcome of an exchange whose reply came back with `status` and whose
/// body decoded as `decoded`: a status outside 200..=299 is a transport
/// error whatever the body held; otherwise a body that did not decode is a
/// decode error.
pub fn finish_reply<T>(status: u16, decoded: Result<T, String>) -> (r: Result<T, ClientError>)
    ensures
        !is_success(status) ==> r == Err::<T, ClientError>(
            ClientError::Transport(TransportError::Status(status)),
        ),
        is_success(status) ==> r == match decoded {
            Ok(v) => Ok::<T, ClientError>(v),
            Err(m) => Err::<T, ClientError>(ClientError::Decode(m)),
        },
{
    if status < 200 || status > 299 {
        return Err(ClientError::Transport(TransportError::Status(status)));
    }
    match decoded {
        Ok(v) => Ok(v),
        Err(m) => Err(ClientError::Decode(m)),
    }
}

} // verus!
