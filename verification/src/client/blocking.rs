//! Blocking client implementation.
//!
//! The call occupies the calling thread for the full round trip. The
//! client is cheap to share: the transport is cloned per use and the clone
//! shares the underlying connection pool.

use vstd::prelude::*;

use crate::client::{
    builder_build, builder_user_agent, client_builder, client_clone, client_default, decode_body,
    response_outcome, send_request,
};
use crate::model::ApiModel;
use crate::resources::errors::{is_client_err, ErrorBody};
use crate::resources::{HttpResource, Method};

verus! {

/// Scryfall blocking client: a base URL and a pooled transport.
pub struct Scryfall<'a> {
    base_url: &'a str,
    http_client: reqwest::blocking::Client,
}

impl<'a> Scryfall<'a> {
    /// The base URL every request path is appended to.
    pub closed spec fn spec_base_url(&self) -> Seq<char> {
        self.base_url@
    }

    /// Creates a client from a URL.
    ///
    /// One transport is built with a fixed identifying user-agent. When
    /// building it fails, the default transport takes its place; the
    /// failure is never surfaced, a deliberate simplification of this
    /// non-critical setup path.
    pub fn from_url(url: &'a str) -> (c: Self)
        ensures
            c.spec_base_url() == url@,
    {
        let configured = builder_user_agent(client_builder(), "Rust-SDK: sync-client");
        let transport = match builder_build(configured) {
            Ok(t) => t,
            Err(_) => client_default(),
        };
        Scryfall { base_url: url, http_client: transport }
    }

    /// Gets a clone of the wrapped transport.
    ///
    /// Cloning the transport shares its connection pool.
    pub fn http_client(&self) -> reqwest::blocking::Client {
        client_clone(&self.http_client)
    }

    /// Builds the plain pieces of the HTTP request for a resource: its
    /// verb, the absolute URL `base_url + "/" + resource.path()`, and its
    /// body when the resource carries one. The transport adds the
    /// `Content-Type: application/json` header to every request.
    fn build_request<M: ApiModel, R: HttpResource<M>>(&self, resource: &R) -> (req: (
        Method,
        String,
        Option<String>,
    ))
        ensures
            req.0 == resource.spec_method(),
            req.1@ == self.spec_base_url() + "/"@ + resource.spec_path(),
            match req.2 {
                Some(b) => resource.spec_body() == Some(b@),
                None => resource.spec_body() is None,
            },
    {
        let path = resource.path();
        let url = self.base_url.to_owned().concat("/").concat(path.as_str());
        proof {
            assert(url@ =~= self.spec_base_url() + "/"@ + resource.spec_path());
        }
        (resource.method(), url, resource.json())
    }

    /// Makes an HTTP request to an endpoint.
    ///
    /// Either the transport failed and the result is the synthesized
    /// `CLIENT_ERR`/599 body, or a response body came back and the result
    /// is exactly what decoding that body yields: the model it carries, a
    /// vendor error body passed on as the vendor sent it, or the
    /// synthesized body when it is not JSON or matches neither shape.
    pub fn request<M: ApiModel, R: HttpResource<M>>(&self, resource: &R) -> (r: Result<
        M,
        ErrorBody,
    >)
        ensures
            (r matches Err(e) && is_client_err(e)) || (exists|b: Seq<char>|
                #[trigger] response_outcome::<M>(b, r)),
    {
        let req = self.build_request(resource);
        match send_request(&self.http_client, &req.0, req.1.as_str(), req.2) {
            Ok(text) => {
                let res = decode_body::<M>(text.as_str());
                proof {
                    assert(response_outcome::<M>(text@, res));
                }
                res
            },
            Err(e) => Err(ErrorBody::from_reqwest_error(e)),
        }
    }
}

impl<'a> Default for Scryfall<'a> {
    /// The client for the production vendor endpoint.
    fn default() -> (c: Scryfall<'a>)
        ensures
            c.spec_base_url() == "https://api.scryfall.com"@,
    {
        Scryfall::from_url("https://api.scryfall.com")
    }
}

} // verus!
