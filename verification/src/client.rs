//! Client implementation.
//!
//! The blocking client lives in [`blocking`]. The pieces shared with any
//! other scheduling of the same pipeline stand here: the trusted wrappers
//! around the transport library, and the verified decoding of a response
//! body into the envelope.

use vstd::prelude::*;

use crate::json::{json_error_text, json_of, json_parse, JVal};
use crate::model::ApiModel;
use crate::resources::errors::{is_client_err, ErrorBody};
use crate::resources::{decode_envelope, is_error_doc, Method, Response};

pub mod blocking;

verus! {

/// The outside pooled blocking transport of reqwest, opaque to this library.
#[verifier::external_type_specification]
#[verifier::external_body]
pub struct ExHttpClient(reqwest::blocking::Client);

/// The outside builder for the blocking transport, opaque to this library.
#[verifier::external_type_specification]
#[verifier::external_body]
pub struct ExHttpClientBuilder(reqwest::blocking::ClientBuilder);

/// Relies on `reqwest::blocking::Client::builder` to start configuring a
/// transport.
#[verifier::external_body]
pub(crate) fn client_builder() -> reqwest::blocking::ClientBuilder {
    reqwest::blocking::Client::builder()
}

/// Relies on `reqwest::blocking::ClientBuilder::user_agent` to set the
/// identifying user-agent header of every request the transport sends.
#[verifier::external_body]
pub(crate) fn builder_user_agent(
    b: reqwest::blocking::ClientBuilder,
    ua: &str,
) -> reqwest::blocking::ClientBuilder {
    b.user_agent(ua)
}

/// Relies on `reqwest::blocking::ClientBuilder::build` to finish the
/// transport, reporting failure as the transport library's own error.
#[verifier::external_body]
pub(crate) fn builder_build(
    b: reqwest::blocking::ClientBuilder,
) -> Result<reqwest::blocking::Client, reqwest::Error> {
    b.build()
}

/// Relies on the `Default` transport of reqwest; its documentation notes
/// that constructing it panics when the TLS backend cannot be initialized.
#[verifier::external_body]
pub(crate) fn client_default() -> reqwest::blocking::Client {
    reqwest::blocking::Client::default()
}

/// Relies on `Clone` for the transport: the clone shares the connection
/// pool rather than opening a new one.
#[verifier::external_body]
pub(crate) fn client_clone(c: &reqwest::blocking::Client) -> reqwest::blocking::Client {
    c.clone()
}

/// Relies on reqwest's blocking pipeline: `Client::request` with the
/// matching `reqwest::Method` constant and the given absolute URL,
/// `RequestBuilder::header` for `Content-Type: application/json`,
/// `RequestBuilder::body` when a body is given, `RequestBuilder::send`, and
/// `Response::text` for the full response body. What comes back depends on
/// the network, so nothing is promised of it.
#[verifier::external_body]
pub(crate) fn send_request(
    c: &reqwest::blocking::Client,
    verb: &Method,
    url: &str,
    body: Option<String>,
) -> Result<String, reqwest::Error> {
    let m = match verb {
        Method::Get => reqwest::Method::GET,
        Method::Post => reqwest::Method::POST,
        Method::Put => reqwest::Method::PUT,
        Method::Patch => reqwest::Method::PATCH,
        Method::Delete => reqwest::Method::DELETE,
    };
    let rb = c.request(m, url).header("Content-Type", "application/json");
    let rb = match body {
        Some(b) => rb.body(b),
        None => rb,
    };
    rb.send().and_then(|resp| resp.text())
}

/// What the caller's result must be for one parsed response tree: on an
/// error-shaped tree, the vendor body the tree carries, or the synthesized
/// client error exactly when no error body matches; on any other tree, the
/// model it carries, or the synthesized client error exactly when no value
/// of the model matches.
pub open spec fn body_result_spec<M: ApiModel>(t: JVal, r: Result<M, ErrorBody>) -> bool {
    if is_error_doc(t) {
        match r {
            Err(e) => e.matches_tree(t) || (is_client_err(e) && (forall|b: ErrorBody|
                !b.matches_tree(t))),
            Ok(_) => false,
        }
    } else {
        match r {
            Ok(m) => m.matches_tree(t) && m.inv(),
            Err(e) => is_client_err(e) && (forall|m: M| !m.matches_tree(t)),
        }
    }
}

/// What decoding one received body text yields, as a function of that text:
/// the synthesized client error when the text is not JSON, and otherwise
/// exactly what its parsed tree decodes to.
pub open spec fn response_outcome<M: ApiModel>(b: Seq<char>, r: Result<M, ErrorBody>) -> bool {
    match json_of(b) {
        None => r matches Err(e) && is_client_err(e),
        Some(t) => body_result_spec::<M>(t, r),
    }
}

/// Maps a decoded envelope to the caller's result: the model on success,
/// the vendor's own error body on a vendor error, and the synthesized
/// transport-failure body when the response decoded as neither.
pub fn extract_body<M: ApiModel>(decoded: Option<Response<M>>) -> (r: Result<M, ErrorBody>)
    ensures
        match decoded {
            Some(Response::Success(m)) => r == Ok::<M, ErrorBody>(m),
            Some(Response::Failure(e)) => r == Err::<M, ErrorBody>(e),
            None => r matches Err(e) && is_client_err(e),
        },
{
    match decoded {
        Some(Response::Success(m)) => Ok(m),
        Some(Response::Failure(e)) => Err(e),
        None => Err(
            ErrorBody::client_err(
                String::from_str(
                    "the response body matched neither the expected model nor an error body",
                ),
            ),
        ),
    }
}

/// Decodes a transport-success response body.
///
/// The body is parsed as JSON and decoded as the envelope: a document whose
/// `object` member is `"error"` yields the vendor's error body, any other
/// document yields the expected model. A body that is not JSON, or that
/// matches neither shape, yields the synthesized `CLIENT_ERR`/599 body.
pub fn decode_body<M: ApiModel>(body: &str) -> (r: Result<M, ErrorBody>)
    ensures
        response_outcome::<M>(body@, r),
{
    match json_parse(body) {
        Err(e) => {
            let mut details = String::from_str("could not parse the response body as JSON: ");
            details.append(json_error_text(&e).as_str());
            Err(ErrorBody::client_err(details))
        },
        Ok(tree) => {
            let decoded = decode_envelope::<M>(&tree);
            let ghost envelope = decoded;
            let r = extract_body(decoded);
            proof {
                match &envelope {
                    Some(Response::Success(m)) => {
                        assert(!is_error_doc(tree@) && m.matches_tree(tree@) && m.inv());
                    },
                    Some(Response::Failure(e)) => {
                        assert(is_error_doc(tree@) && e.matches_tree(tree@));
                    },
                    None => {},
                }
                assert(body_result_spec::<M>(tree@, r));
            }
            r
        },
    }
}

} // verus!
