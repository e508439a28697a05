//! The decision half of the HTTP transport: one shared status-code policy
//! and the per-operation response handlers built on it.
//!
//! The caller performs the network round trip and hands each response back
//! as a plain status code and body text; everything decided about that
//! response is decided here.
use vstd::prelude::*;
use vstd::string::StringExecFns;

use crate::api::{v3, v3_url, RefreshToken};
use crate::error::ApiError;

verus! {

/// A transport response event: the HTTP status code and the raw body text.
pub struct Response {
    pub status: u16,
    pub body: String,
}

/// What the status policy decides for a response: reject it as one of the
/// error kinds, or go on and parse the body as the target type.
#[derive(Debug, PartialEq, Eq, Structural, Clone, Copy)]
pub enum StatusAction {
    RejectUnauthorized,
    RejectBadRequest,
    Parse,
}

/// The single status-code policy shared by every transport operation:
/// 401 is always rejected as Unauthorized; 400 is rejected as BadRequest
/// only for the operations that map it; any other status — 2xx or not —
/// goes on to body parsing.
pub open spec fn spec_classify_status(status: u16, map_bad_request: bool) -> StatusAction {
    if status == 401 {
        StatusAction::RejectUnauthorized
    } else if status == 400 && map_bad_request {
        StatusAction::RejectBadRequest
    } else {
        StatusAction::Parse
    }
}

/// Classify a status code under the shared policy.
pub fn classify_status(status: u16, map_bad_request: bool) -> (r: StatusAction)
    ensures
        r == spec_classify_status(status, map_bad_request),
{
    if status == 401 {
        StatusAction::RejectUnauthorized
    } else if status == 400 && map_bad_request {
        StatusAction::RejectBadRequest
    } else {
        StatusAction::Parse
    }
}

/// Whatever the operation, a 401 response is rejected as Unauthorized — its
/// body is never handed on for parsing — because every transport operation
/// goes through the one shared status policy.
pub proof fn lemma_unauthorized_is_uniform(status: u16, map_bad_request: bool)
    requires
        status == 401,
    ensures
        spec_classify_status(status, map_bad_request) == StatusAction::RejectUnauthorized,
{
}

/// Decide a GET response: a 401 status is the Unauthorized error and the
/// body is dropped unparsed; any other status hands the body on to be
/// parsed as the target type.
pub fn handle_get_response(response: Response) -> (r: Result<String, ApiError>)
    ensures
        response.status == 401 ==> r == Err::<String, ApiError>(ApiError::Unauthorized),
        response.status != 401 ==> (r matches Ok(b) && b@ == response.body@),
{
    match classify_status(response.status, false) {
        StatusAction::RejectUnauthorized => Err(ApiError::Unauthorized),
        StatusAction::RejectBadRequest => unreached(),
        StatusAction::Parse => Ok(response.body),
    }
}

/// Decide a POST response: 401 is the Unauthorized error, 400 is the
/// BadRequest error carrying the raw body as its message, and any other
/// status hands the body on to be parsed as the target type.
pub fn handle_post_response(response: Response) -> (r: Result<String, ApiError>)
    ensures
        response.status == 401 ==> r == Err::<String, ApiError>(ApiError::Unauthorized),
        response.status == 400 ==> (r matches Err(e) && e matches ApiError::BadRequest(m)
            && m@ == response.body@),
        response.status != 401 && response.status != 400 ==> (r matches Ok(b)
            && b@ == response.body@),
{
    match classify_status(response.status, true) {
        StatusAction::RejectUnauthorized => Err(ApiError::Unauthorized),
        StatusAction::RejectBadRequest => Err(ApiError::BadRequest(response.body)),
        StatusAction::Parse => Ok(response.body),
    }
}

/// One form-encoded parameter of the token-refresh request.
pub struct FormParam {
    pub name: String,
    pub value: String,
}

impl View for FormParam {
    type V = (Seq<char>, Seq<char>);

    open spec fn view(&self) -> (Seq<char>, Seq<char>) {
        (self.name@, self.value@)
    }
}

/// The views of a list of form parameters, in order.
pub open spec fn params_view(params: Seq<FormParam>) -> Seq<(Seq<char>, Seq<char>)> {
    params.map_values(|p: FormParam| p@)
}

/// The four OAuth parameters of the token-refresh exchange, in the order
/// they are submitted.
pub open spec fn spec_refresh_params(rt: RefreshToken) -> Seq<(Seq<char>, Seq<char>)> {
    seq![
        ("client_id"@, rt.client_id@),
        ("client_secret"@, rt.client_secret@),
        ("grant_type"@, "refresh_token"@),
        ("refresh_token"@, rt.refresh_token@),
    ]
}

/// Assemble the token-refresh request: the unauthenticated oauth/token URL
/// and the form-encoded OAuth parameters, exactly as the remote expects
/// them. The caller POSTs the form and hands the response to
/// `handle_post_response`.
pub fn refresh_request(refresh_token: &RefreshToken) -> (r: (String, Vec<FormParam>))
    ensures
        r.0@ == v3_url(None, "oauth/token"@),
        params_view(r.1@) == spec_refresh_params(*refresh_token),
{
    let url = v3(None, String::from_str("oauth/token"));
    let mut params: Vec<FormParam> = Vec::new();
    params.push(
        FormParam {
            name: String::from_str("client_id"),
            value: refresh_token.client_id.clone(),
        },
    );
    params.push(
        FormParam {
            name: String::from_str("client_secret"),
            value: refresh_token.client_secret.clone(),
        },
    );
    params.push(
        FormParam {
            name: String::from_str("grant_type"),
            value: String::from_str("refresh_token"),
        },
    );
    params.push(
        FormParam {
            name: String::from_str("refresh_token"),
            value: refresh_token.refresh_token.clone(),
        },
    );
    proof {
        assert(params_view(params@) =~= spec_refresh_params(*refresh_token));
    }
    (url, params)
}

} // verus!
