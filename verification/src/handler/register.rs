//! `POST /register`: create a table with a hashed password and open a session.
use vstd::prelude::*;
use crate::handler::auth::{auth_next, is_fresh_session_key, new_session_token, password_accepted, AuthActionView, AuthStepView};
use crate::keys::{table_key, table_key_of};
use crate::outside::{argon2_encoded_hash, hash_encoded, utf8_len};
use crate::store::{Command, CommandView, Reply};
use crate::types::{error_view, success_view, ApiResponse, ApiResponseView, RegisterRequest};

verus! {

/// How long, in seconds, a registered table lives in Redis.
pub const TTL_SECONDS: usize = 86400;

/// Which answer the registration waits for.
#[derive(Debug, Clone, PartialEq, Eq)]
pub enum RegisterStep {
    AwaitTableExists { hashed: String },
    AwaitHashStored,
    AwaitExpirySet,
    AwaitSessionStored { token: String },
}

pub enum RegisterStepView {
    AwaitTableExists { hashed: Seq<char> },
    AwaitHashStored,
    AwaitExpirySet,
    AwaitSessionStored { token: Seq<char> },
}

impl View for RegisterStep {
    type V = RegisterStepView;

    open spec fn view(&self) -> RegisterStepView {
        match self {
            RegisterStep::AwaitTableExists { hashed } => RegisterStepView::AwaitTableExists { hashed: hashed@ },
            RegisterStep::AwaitHashStored => RegisterStepView::AwaitHashStored,
            RegisterStep::AwaitExpirySet => RegisterStepView::AwaitExpirySet,
            RegisterStep::AwaitSessionStored { token } => RegisterStepView::AwaitSessionStored { token: token@ },
        }
    }
}

/// What to do next: run a command and resume, or reply to the client.
#[derive(Debug, Clone, PartialEq, Eq)]
pub enum RegisterAction {
    Run(RegisterStep, Command),
    Respond(ApiResponse),
}

pub enum RegisterActionView {
    Run(RegisterStepView, CommandView),
    Respond(ApiResponseView),
}

impl View for RegisterAction {
    type V = RegisterActionView;

    open spec fn view(&self) -> RegisterActionView {
        match self {
            RegisterAction::Run(step, cmd) => RegisterActionView::Run(step@, cmd@),
            RegisterAction::Respond(r) => RegisterActionView::Respond(r@),
        }
    }
}

/// The reply when the table name is taken.
pub open spec fn table_taken_view() -> ApiResponseView {
    error_view("Table with such name already exists"@)
}

/// The reply once the table is created.
pub open spec fn registered_view(token: Seq<char>) -> ApiResponseView {
    success_view("Table registered"@, token)
}

/// The registration protocol: what may follow each step, given Redis's
/// answer (any fresh session key may be chosen at the last command).
pub open spec fn register_next(tablename: Seq<char>, step: RegisterStepView, reply: Reply, next: RegisterActionView) -> bool {
    match step {
        RegisterStepView::AwaitTableExists { hashed } => if reply.flag_value() {
            next == RegisterActionView::Respond(table_taken_view())
        } else {
            next == RegisterActionView::Run(
                RegisterStepView::AwaitHashStored,
                CommandView::HSet { key: table_key_of(tablename), field: "hashed_password"@, value: hashed },
            )
        },
        RegisterStepView::AwaitHashStored => next == RegisterActionView::Run(
            RegisterStepView::AwaitExpirySet,
            CommandView::Expire { key: table_key_of(tablename), seconds: TTL_SECONDS },
        ),
        RegisterStepView::AwaitExpirySet => exists|token: Seq<char>|
            #![trigger is_fresh_session_key(token)]
            is_fresh_session_key(token) && next == RegisterActionView::Run(
                RegisterStepView::AwaitSessionStored { token },
                CommandView::SetString { key: token, value: table_key_of(tablename) },
            ),
        RegisterStepView::AwaitSessionStored { token } => next == RegisterActionView::Respond(
            registered_view(token),
        ),
    }
}

/// The salt every password is hashed with: the bytes of `randomsalt`.
pub open spec fn password_salt_bytes() -> Seq<u8> {
    seq![114u8, 97u8, 110u8, 100u8, 111u8, 109u8, 115u8, 97u8, 108u8, 116u8]
}

/// Builds the salt every password is hashed with.
pub fn password_salt() -> (salt: Vec<u8>)
    ensures
        salt@ == password_salt_bytes(),
{
    let salt: Vec<u8> = vec![114u8, 97u8, 110u8, 100u8, 111u8, 109u8, 115u8, 97u8, 108u8, 116u8];
    assert(salt@ =~= password_salt_bytes());
    salt
}

/// Hashes a password with argon2 (default configuration, the fixed salt).
/// The hash accepts the same password when checked.
pub fn hash_password(password: &str) -> (hash: String)
    requires
        utf8_len(password@) <= 0xFFFF_FFFF,
    ensures
        hash@ == argon2_encoded_hash(password@, password_salt_bytes()),
        password_accepted(hash@, password@),
{
    let salt = password_salt();
    match hash_encoded(password, salt.as_slice()) {
        Some(h) => h,
        None => {
            assert(false);
            String::new()
        },
    }
}

/// Hashes the password, then asks whether the table exists. The password must
/// fit argon2's limit of `0xFFFF_FFFF` bytes.
pub fn register_start(req: &RegisterRequest) -> (first: (RegisterStep, Command))
    requires
        utf8_len(req.password@) <= 0xFFFF_FFFF,
    ensures
        first.0@ == (RegisterStepView::AwaitTableExists { hashed: argon2_encoded_hash(req.password@, password_salt_bytes()) }),
        first.1@ == (CommandView::Exists { key: table_key_of(req.tablename@) }),
        password_accepted(argon2_encoded_hash(req.password@, password_salt_bytes()), req.password@),
{
    let hashed = hash_password(req.password.as_str());
    (RegisterStep::AwaitTableExists { hashed }, Command::Exists { key: table_key(req.tablename.as_str()) })
}

/// Advances the registration with Redis's answer to the last command.
pub fn register_resume(req: &RegisterRequest, step: RegisterStep, reply: &Reply) -> (next: RegisterAction)
    ensures
        register_next(req.tablename@, step@, *reply, next@),
{
    match step {
        RegisterStep::AwaitTableExists { hashed } => {
            if reply.flag() {
                RegisterAction::Respond(ApiResponse::error("Table with such name already exists"))
            } else {
                RegisterAction::Run(
                    RegisterStep::AwaitHashStored,
                    Command::HSet {
                        key: table_key(req.tablename.as_str()),
                        field: String::from_str("hashed_password"),
                        value: hashed,
                    },
                )
            }
        },
        RegisterStep::AwaitHashStored => RegisterAction::Run(
            RegisterStep::AwaitExpirySet,
            Command::Expire { key: table_key(req.tablename.as_str()), seconds: TTL_SECONDS },
        ),
        RegisterStep::AwaitExpirySet => {
            let token = new_session_token();
            let key = token.clone();
            let next = RegisterAction::Run(
                RegisterStep::AwaitSessionStored { token },
                Command::SetString { key, value: table_key(req.tablename.as_str()) },
            );
            assert(is_fresh_session_key(key@));
            next
        },
        RegisterStep::AwaitSessionStored { token } => RegisterAction::Respond(
            ApiResponse::success("Table registered", token),
        ),
    }
}

/// A table registered with a password accepts that password: when the
/// authentication reads back the hash that the registration stored, it opens
/// a session instead of refusing.
pub proof fn lemma_registered_password_authenticates(
    tablename: Seq<char>,
    password: Seq<char>,
    exists_reply: Reply,
    stored: RegisterActionView,
    hash_reply: Reply,
    next: AuthActionView,
)
    requires
        password_accepted(argon2_encoded_hash(password, password_salt_bytes()), password),
        register_next(
            tablename,
            RegisterStepView::AwaitTableExists { hashed: argon2_encoded_hash(password, password_salt_bytes()) },
            exists_reply,
            stored,
        ),
        stored matches RegisterActionView::Run(_, CommandView::HSet { value, .. }) && hash_reply.text_value() == value,
        auth_next(tablename, password, AuthStepView::AwaitPasswordHash, hash_reply, next),
    ensures
        exists|token: Seq<char>|
            #![trigger is_fresh_session_key(token)]
            is_fresh_session_key(token) && next == AuthActionView::Run(
                AuthStepView::AwaitSessionStored { token },
                CommandView::SetString { key: token, value: table_key_of(tablename) },
            ),
{
}

/// Registering under a name that is taken writes nothing: the client is
/// told the table exists and the handling ends.
pub proof fn lemma_taken_table_untouched(tablename: Seq<char>, hashed: Seq<char>, reply: Reply, next: RegisterActionView)
    requires
        reply.flag_value(),
        register_next(tablename, RegisterStepView::AwaitTableExists { hashed }, reply, next),
    ensures
        next == RegisterActionView::Respond(table_taken_view()),
{
}

/// Once the password hash is stored, whatever Redis answered, registration
/// gives the table's key `table:<tablename>` a lifetime of one day (86400
/// seconds), for every table name.
pub proof fn lemma_registration_sets_one_day_lifetime(tablename: Seq<char>, reply: Reply, next: RegisterActionView)
    requires
        register_next(tablename, RegisterStepView::AwaitHashStored, reply, next),
    ensures
        next == RegisterActionView::Run(
            RegisterStepView::AwaitExpirySet,
            CommandView::Expire { key: "table:"@ + tablename, seconds: 86400 },
        ),
{
}

} // verus!
