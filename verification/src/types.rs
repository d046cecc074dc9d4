//! The request and response bodies of the HTTP endpoints.
use vstd::prelude::*;

verus! {

/// Body of `POST /register` (and, in this server, of `POST /auth`).
#[derive(Debug, Clone, PartialEq, Eq)]
pub struct RegisterRequest {
    pub tablename: String,
    pub password: String,
}

/// Body of an authentication request.
#[derive(Debug, Clone, PartialEq, Eq)]
pub struct AuthRequest {
    pub tablename: String,
    pub password: String,
}

/// The JSON reply of the register and auth endpoints.
#[derive(Debug, Clone, PartialEq, Eq)]
pub struct ApiResponse {
    pub status: String,
    pub message: String,
    pub token: Option<String>,
}

/// An `ApiResponse` as plain text values.
pub struct ApiResponseView {
    pub status: Seq<char>,
    pub message: Seq<char>,
    pub token: Option<Seq<char>>,
}

/// The view of an optional string.
pub open spec fn opt_text_view(o: Option<String>) -> Option<Seq<char>> {
    match o {
        Some(s) => Some(s@),
        None => None,
    }
}

impl View for ApiResponse {
    type V = ApiResponseView;

    open spec fn view(&self) -> ApiResponseView {
        ApiResponseView { status: self.status@, message: self.message@, token: opt_text_view(self.token) }
    }
}

/// A successful reply carrying a session token.
pub open spec fn success_view(message: Seq<char>, token: Seq<char>) -> ApiResponseView {
    ApiResponseView { status: "success"@, message, token: Some(token) }
}

/// An error reply, which carries no token.
pub open spec fn error_view(message: Seq<char>) -> ApiResponseView {
    ApiResponseView { status: "error"@, message, token: None }
}

impl ApiResponseView {
    /// A reply carries a token exactly when its status is `success`.
    pub open spec fn token_iff_success(self) -> bool {
        (self.status == "success"@) <==> self.token is Some
    }
}

impl ApiResponse {
    /// Builds `{status: "success", message, token: Some(token)}`.
    pub fn success(message: &str, token: String) -> (r: ApiResponse)
        ensures
            r@ == success_view(message@, token@),
    {
        ApiResponse {
            status: String::from_str("success"),
            message: String::from_str(message),
            token: Some(token),
        }
    }

    /// Builds `{status: "error", message, token: None}`.
    pub fn error(message: &str) -> (r: ApiResponse)
        ensures
            r@ == error_view(message@),
    {
        ApiResponse { status: String::from_str("error"), message: String::from_str(message), token: None }
    }
}

/// Success and error replies are told apart by their status, and only a
/// success reply carries a token.
pub proof fn lemma_reply_status_decides_token(message: Seq<char>, token: Seq<char>)
    ensures
        success_view(message, token).token_iff_success(),
        error_view(message).token_iff_success(),
        success_view(message, token).status != error_view(message).status,
{
    reveal_strlit("success");
    reveal_strlit("error");
    assert("success"@.len() != "error"@.len());
}

} // verus!
