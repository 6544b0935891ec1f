//! The transport: what is sent to the search engine, and what its answer
//! means.
//!
//! Nothing here touches the network. `HttpClient::request` says what to send,
//! the caller performs the exchange, and `HttpClient::outcome` judges what
//! came back.

use crate::error::GoogleApiError;
use crate::{Payload, SendData};
use vstd::prelude::*;

verus! {

/// A request, ready to be sent.
#[derive(Debug)]
pub struct HttpRequest {
    /// The request method.
    pub method: String,
    /// The address that the request goes to.
    pub url: String,
    /// The value of the `Host` header.
    pub host: String,
    /// The value of the `Content-Type` header.
    pub content_type: String,
    /// The body: the notification as JSON text.
    pub body: String,
}

/// A request as a value of the model.
pub struct RequestView {
    pub method: Seq<char>,
    pub url: Seq<char>,
    pub host: Seq<char>,
    pub content_type: Seq<char>,
    pub body: Seq<char>,
}

impl View for HttpRequest {
    type V = RequestView;

    open spec fn view(&self) -> RequestView {
        RequestView {
            method: self.method@,
            url: self.url@,
            host: self.host@,
            content_type: self.content_type@,
            body: self.body@,
        }
    }
}

/// How an exchange ended.
#[derive(Debug)]
pub enum HttpReply {
    /// No answer was obtained. The text describes what went wrong.
    Failed(String),
    /// The search engine answered.
    Answered {
        /// The status code of the answer.
        status: u16,
        /// The body of the answer, as text.
        body: String,
    },
}

/// The request that carries `payload` to `url`: a POST with a JSON body.
///
/// The `Host` header names the IndexNow service whatever `url` is: a request
/// to another provider carries it too.
pub open spec fn request_for(url: Seq<char>, payload: Payload) -> RequestView {
    RequestView {
        method: "POST"@,
        url,
        host: "api.indexnow.org"@,
        content_type: "application/json"@,
        body: payload.json_text(),
    }
}

/// Whether a status code means that the notification was accepted.
pub open spec fn accepted(status: u16) -> bool {
    status == 200
}

/// The transport's rules.
#[derive(Default, Debug)]
pub struct HttpClient {}

impl HttpClient {
    /// Builds the request that posts `params` to `url`.
    pub fn request(url: &str, params: &SendData) -> (request: HttpRequest)
        ensures
            request@ == request_for(url@, params@),
    {
        HttpRequest {
            method: String::from_str("POST"),
            url: String::from_str(url),
            host: String::from_str("api.indexnow.org"),
            content_type: String::from_str("application/json"),
            body: params.to_json(),
        }
    }

    /// Whether a status code means that the notification was accepted.
    pub fn accepts(status: u16) -> (ok: bool)
        ensures
            ok == accepted(status),
    {
        status == 200
    }

    /// Judges how an exchange ended.
    ///
    /// Only an answer with status 200 is a success, whatever its body holds.
    /// Every other answer is reported as `GoogleApiError::Connection` with the
    /// answer's body as its text, and so is a failed exchange, with the
    /// transport's description. `GoogleApiError::Status` is never returned.
    pub fn outcome(reply: HttpReply) -> (result: Result<(), GoogleApiError>)
        ensures
            reply matches HttpReply::Failed(description) ==> result == Err::<(), GoogleApiError>(
                GoogleApiError::Connection(description),
            ),
            reply matches HttpReply::Answered { status, body } ==> if accepted(status) {
                result == Ok::<(), GoogleApiError>(())
            } else {
                result == Err::<(), GoogleApiError>(GoogleApiError::Connection(body))
            },
            result is Ok <==> (reply matches HttpReply::Answered { status, .. } && accepted(
                status,
            )),
    {
        match reply {
            HttpReply::Failed(description) => Err(GoogleApiError::Connection(description)),
            HttpReply::Answered { status, body } => {
                if HttpClient::accepts(status) {
                    Ok(())
                } else {
                    Err(GoogleApiError::Connection(body))
                }
            },
        }
    }
}

} // verus!
