//! `POST /auth`: check a table's password and open a session for it.
use vstd::prelude::*;
use crate::keys::{session_key, session_key_of, table_key, table_key_of};
use crate::outside::{argon2_verification, is_uuid_v4_text, new_v4_string, verify_encoded};
use crate::store::{Command, CommandView, Reply};
use crate::types::{error_view, success_view, ApiResponse, ApiResponseView, RegisterRequest};

verus! {

/// Which answer the authentication waits for.
#[derive(Debug, Clone, PartialEq, Eq)]
pub enum AuthStep {
    AwaitTableExists,
    AwaitPasswordHash,
    AwaitSessionStored { token: String },
}

pub enum AuthStepView {
    AwaitTableExists,
    AwaitPasswordHash,
    AwaitSessionStored { token: Seq<char> },
}

impl View for AuthStep {
    type V = AuthStepView;

    open spec fn view(&self) -> AuthStepView {
        match self {
            AuthStep::AwaitTableExists => AuthStepView::AwaitTableExists,
            AuthStep::AwaitPasswordHash => AuthStepView::AwaitPasswordHash,
            AuthStep::AwaitSessionStored { token } => AuthStepView::AwaitSessionStored { token: token@ },
        }
    }
}

/// What to do next: run a command and resume, or reply to the client.
#[derive(Debug, Clone, PartialEq, Eq)]
pub enum AuthAction {
    Run(AuthStep, Command),
    Respond(ApiResponse),
}

pub enum AuthActionView {
    Run(AuthStepView, CommandView),
    Respond(ApiResponseView),
}

impl View for AuthAction {
    type V = AuthActionView;

    open spec fn view(&self) -> AuthActionView {
        match self {
            AuthAction::Run(step, cmd) => AuthActionView::Run(step@, cmd@),
            AuthAction::Respond(r) => AuthActionView::Respond(r@),
        }
    }
}

/// The reply to a good password.
pub open spec fn authorized_view(token: Seq<char>) -> ApiResponseView {
    success_view("Authorized"@, token)
}

/// The reply to an unknown table or a wrong password.
pub open spec fn password_invalid_view() -> ApiResponseView {
    error_view("Password is not valid"@)
}

/// Whether argon2 accepts `password` against the stored encoded hash.
pub open spec fn password_accepted(hash: Seq<char>, password: Seq<char>) -> bool {
    argon2_verification(hash, password) == Some(true)
}

/// The key of a freshly opened session: `session:` and the text of a random
/// (version 4) UUID.
pub open spec fn is_fresh_session_key(token: Seq<char>) -> bool {
    exists|id: Seq<char>| is_uuid_v4_text(id) && token == session_key_of(id)
}

/// The authentication protocol: what may follow each step, given Redis's
/// answer. A session key is random, so after the password check any fresh
/// session key may be chosen.
pub open spec fn auth_next(
    tablename: Seq<char>,
    password: Seq<char>,
    step: AuthStepView,
    reply: Reply,
    next: AuthActionView,
) -> bool {
    match step {
        AuthStepView::AwaitTableExists => if reply.flag_value() {
            next == AuthActionView::Run(
                AuthStepView::AwaitPasswordHash,
                CommandView::HGet { key: table_key_of(tablename), field: "hashed_password"@ },
            )
        } else {
            next == AuthActionView::Respond(password_invalid_view())
        },
        AuthStepView::AwaitPasswordHash => if password_accepted(reply.text_value(), password) {
            exists|token: Seq<char>|
                #![trigger is_fresh_session_key(token)]
                is_fresh_session_key(token) && next == AuthActionView::Run(
                    AuthStepView::AwaitSessionStored { token },
                    CommandView::SetString { key: token, value: table_key_of(tablename) },
                )
        } else {
            next == AuthActionView::Respond(password_invalid_view())
        },
        AuthStepView::AwaitSessionStored { token } => if token.len() > 0 {
            next == AuthActionView::Respond(authorized_view(token))
        } else {
            next == AuthActionView::Respond(password_invalid_view())
        },
    }
}

/// Checks a password against a stored argon2 hash; a hash argon2 cannot
/// read counts as a mismatch.
pub fn check_password(hash: &str, password: &str) -> (valid: bool)
    ensures
        valid == password_accepted(hash@, password@),
{
    match verify_encoded(hash, password) {
        Some(b) => b,
        None => false,
    }
}

/// Opens a new session key, `session:<uuid>`, from a random UUID.
pub fn new_session_token() -> (token: String)
    ensures
        is_fresh_session_key(token@),
{
    let id = new_v4_string();
    let token = session_key(id.as_str());
    assert(is_uuid_v4_text(id@) && token@ == session_key_of(id@));
    token
}

/// The first command: does the table exist?
pub fn auth_start(req: &RegisterRequest) -> (first: (AuthStep, Command))
    ensures
        first.0@ == AuthStepView::AwaitTableExists,
        first.1@ == (CommandView::Exists { key: table_key_of(req.tablename@) }),
{
    (AuthStep::AwaitTableExists, Command::Exists { key: table_key(req.tablename.as_str()) })
}

/// Advances the authentication with Redis's answer to the last command.
pub fn auth_resume(req: &RegisterRequest, step: AuthStep, reply: &Reply) -> (next: AuthAction)
    ensures
        auth_next(req.tablename@, req.password@, step@, *reply, next@),
{
    match step {
        AuthStep::AwaitTableExists => {
            if reply.flag() {
                AuthAction::Run(
                    AuthStep::AwaitPasswordHash,
                    Command::HGet {
                        key: table_key(req.tablename.as_str()),
                        field: String::from_str("hashed_password"),
                    },
                )
            } else {
                AuthAction::Respond(ApiResponse::error("Password is not valid"))
            }
        },
        AuthStep::AwaitPasswordHash => {
            let hash = reply.text();
            if check_password(hash.as_str(), req.password.as_str()) {
                let token = new_session_token();
                let key = token.clone();
                let next = AuthAction::Run(
                    AuthStep::AwaitSessionStored { token },
                    Command::SetString { key, value: table_key(req.tablename.as_str()) },
                );
                assert(is_fresh_session_key(key@));
                next
            } else {
                AuthAction::Respond(ApiResponse::error("Password is not valid"))
            }
        },
        AuthStep::AwaitSessionStored { token } => {
            if !token.as_str().is_empty() {
                AuthAction::Respond(ApiResponse::success("Authorized", token))
            } else {
                AuthAction::Respond(ApiResponse::error("Password is not valid"))
            }
        },
    }
}

/// A session key the authentication opens is never empty, so the client is
/// told it is authorized once the session is stored.
pub proof fn lemma_fresh_session_is_authorized(tablename: Seq<char>, password: Seq<char>, token: Seq<char>, reply: Reply, next: AuthActionView)
    requires
        is_fresh_session_key(token),
        auth_next(tablename, password, AuthStepView::AwaitSessionStored { token }, reply, next),
    ensures
        next == AuthActionView::Respond(authorized_view(token)),
{
    let id = choose|id: Seq<char>| is_uuid_v4_text(id) && token == session_key_of(id);
    reveal_strlit("session:");
    assert(token.len() > 0);
}

/// With a stored hash that accepts the password, the password check opens a
/// session for the table rather than refusing.
pub proof fn lemma_accepted_password_opens_session(tablename: Seq<char>, password: Seq<char>, reply: Reply, next: AuthActionView)
    requires
        password_accepted(reply.text_value(), password),
        auth_next(tablename, password, AuthStepView::AwaitPasswordHash, reply, next),
    ensures
        exists|token: Seq<char>|
            #![trigger is_fresh_session_key(token)]
            is_fresh_session_key(token) && next == AuthActionView::Run(
                AuthStepView::AwaitSessionStored { token },
                CommandView::SetString { key: token, value: table_key_of(tablename) },
            ),
{
}

/// A session is stored only right after the password check passed, and a
/// reply never follows a refused check with anything but the refusal.
pub proof fn lemma_session_needs_accepted_password(
    tablename: Seq<char>,
    password: Seq<char>,
    step: AuthStepView,
    reply: Reply,
    next: AuthActionView,
)
    requires
        auth_next(tablename, password, step, reply, next),
    ensures
        next matches AuthActionView::Run(_, CommandView::SetString { .. }) ==> step is AwaitPasswordHash
            && password_accepted(reply.text_value(), password),
        step is AwaitPasswordHash && !password_accepted(reply.text_value(), password) ==> next
            == AuthActionView::Respond(password_invalid_view()),
{
}

} // verus!
