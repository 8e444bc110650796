//! Definitions for the error object(s).

use vstd::prelude::*;

use crate::json::{jpairs_of, JVal, JsonValue, lemma_jpairs_of_index, lemma_jpairs_of_len};
use crate::model::{opt_field_like, opt_inv, opt_to_tree, opt_tree, read_field, read_opt, ApiModel,
    field_like};
use crate::resources::ResourceKind;

verus! {

broadcast use lemma_jpairs_of_len, lemma_jpairs_of_index;

/// Error response body, as the vendor sends it for failed calls.
///
/// A body with `code` `"CLIENT_ERR"` and `status` 599 is synthesized
/// locally instead for transport-level failures: connection errors, and
/// response bodies that decode as neither the expected model nor this shape.
#[derive(Debug)]
pub struct ErrorBody {
    pub code: String,
    pub details: String,
    pub error_type: Option<String>,
    pub kind: ResourceKind,
    pub status: i16,
    pub warnings: Option<Vec<String>>,
}

/// The members of the tree an error body encodes to, in wire order.
pub open spec fn error_body_pairs(e: ErrorBody) -> Seq<(Seq<char>, JVal)> {
    seq![
        ("code"@, e.code.tree_spec()),
        ("details"@, e.details.tree_spec()),
        ("error_type"@, opt_tree(e.error_type)),
        ("object"@, e.kind.tree_spec()),
        ("status"@, e.status.tree_spec()),
        ("warnings"@, opt_tree(e.warnings)),
    ]
}

impl ApiModel for ErrorBody {
    open spec fn inv(&self) -> bool {
        true
    }

    open spec fn matches_tree(&self, t: JVal) -> bool {
        &&& t matches JVal::Obj(ps)
        &&& field_like(ps, "code"@, self.code)
        &&& field_like(ps, "details"@, self.details)
        &&& opt_field_like(ps, "error_type"@, self.error_type)
        &&& field_like(ps, "object"@, self.kind)
        &&& field_like(ps, "status"@, self.status)
        &&& opt_field_like(ps, "warnings"@, self.warnings)
    }

    open spec fn tree_spec(&self) -> JVal {
        JVal::Obj(error_body_pairs(*self))
    }

    fn from_tree(t: &JsonValue) -> (r: Option<Self>) {
        match t {
            JsonValue::Obj(ps) => {
                let code = match read_field::<String>(ps, "code") {
                    Some(x) => x,
                    None => {
                        return None;
                    },
                };
                let details = match read_field::<String>(ps, "details") {
                    Some(x) => x,
                    None => {
                        return None;
                    },
                };
                let error_type = match read_opt::<String>(ps, "error_type") {
                    Some(x) => x,
                    None => {
                        return None;
                    },
                };
                let kind = match read_field::<ResourceKind>(ps, "object") {
                    Some(x) => x,
                    None => {
                        return None;
                    },
                };
                let status = match read_field::<i16>(ps, "status") {
                    Some(x) => x,
                    None => {
                        return None;
                    },
                };
                let warnings = match read_opt::<Vec<String>>(ps, "warnings") {
                    Some(x) => x,
                    None => {
                        return None;
                    },
                };
                Some(ErrorBody { code, details, error_type, kind, status, warnings })
            },
            _ => None,
        }
    }

    fn to_tree(&self) -> (t: JsonValue) {
        let mut ps: Vec<(String, JsonValue)> = Vec::new();
        ps.push(("code".to_owned(), self.code.to_tree()));
        ps.push(("details".to_owned(), self.details.to_tree()));
        ps.push(("error_type".to_owned(), opt_to_tree(&self.error_type)));
        ps.push(("object".to_owned(), self.kind.to_tree()));
        ps.push(("status".to_owned(), self.status.to_tree()));
        ps.push(("warnings".to_owned(), opt_to_tree(&self.warnings)));
        let r = JsonValue::Obj(ps);
        proof {
            assert(jpairs_of(ps@) =~= error_body_pairs(*self));
        }
        r
    }
}

/// A locally synthesized transport-failure body: code `CLIENT_ERR`,
/// status 599, kind `error`, and no secondary classifier or warnings.
pub open spec fn is_client_err(e: ErrorBody) -> bool {
    &&& e.code@ == "CLIENT_ERR"@
    &&& e.status == 599i16
    &&& e.kind == ResourceKind::Error
    &&& e.error_type is None
    &&& e.warnings is None
}

/// The outside error type of reqwest, opaque to this library.
#[verifier::external_type_specification]
#[verifier::external_body]
pub struct ExReqwestError(reqwest::Error);

/// Relies on `reqwest::Error`'s `Display` implementation for a
/// human-readable description of a transport failure.
#[verifier::external_body]
fn reqwest_error_text(e: &reqwest::Error) -> String {
    e.to_string()
}

impl ErrorBody {
    /// The locally synthesized error body for a transport-level failure.
    pub fn client_err(details: String) -> (e: ErrorBody)
        ensures
            is_client_err(e),
            e.details == details,
    {
        ErrorBody {
            code: String::from_str("CLIENT_ERR"),
            details,
            error_type: None,
            kind: ResourceKind::Error,
            status: 599,
            warnings: None,
        }
    }

    /// Transforms a `reqwest::Error` into an `ErrorBody`.
    ///
    /// Such errors include connection errors and body-read failures. They
    /// all map to the synthesized `CLIENT_ERR`/599 body, with the transport
    /// library's own description as the details.
    pub fn from_reqwest_error(e: reqwest::Error) -> (r: Self)
        ensures
            is_client_err(r),
    {
        ErrorBody::client_err(reqwest_error_text(&e))
    }
}

} // verus!
