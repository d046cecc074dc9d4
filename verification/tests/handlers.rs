use wsredis::handler::auth::{auth_resume, auth_start, check_password, new_session_token, AuthAction, AuthStep};
use wsredis::handler::register::{hash_password, register_resume, register_start, RegisterAction, RegisterStep, TTL_SECONDS};
use wsredis::handler::table_list::{list_resume, list_start, ListAction, ListError};
use wsredis::store::{Command, Reply};
use wsredis::types::{ApiResponse, RegisterRequest};

fn request(name: &str, password: &str) -> RegisterRequest {
    RegisterRequest { tablename: name.to_string(), password: password.to_string() }
}

fn text(s: &str) -> Reply {
    Reply::Text(Some(s.to_string()))
}

fn is_uuid_shape(s: &str) -> bool {
    s.len() == 36
        && s.chars().enumerate().all(|(i, c)| {
            if [8, 13, 18, 23].contains(&i) { c == '-' } else { c.is_ascii_digit() || ('a'..='f').contains(&c) }
        })
        && s.as_bytes()[14] == b'4'
        && [b'8', b'9', b'a', b'b'].contains(&s.as_bytes()[19])
}

#[test]
fn auth_starts_with_table_check() {
    let (step, cmd) = auth_start(&request("t1", "pw"));
    assert_eq!(step, AuthStep::AwaitTableExists);
    assert_eq!(cmd, Command::Exists { key: "table:t1".to_string() });
}

#[test]
fn auth_unknown_table_is_refused() {
    let req = request("t1", "pw");
    for reply in [Reply::Flag(false), Reply::Failed("boom".to_string()), Reply::Ack] {
        let next = auth_resume(&req, AuthStep::AwaitTableExists, &reply);
        assert_eq!(next, AuthAction::Respond(ApiResponse::error("Password is not valid")));
    }
}

#[test]
fn auth_known_table_reads_hash() {
    let next = auth_resume(&request("t1", "pw"), AuthStep::AwaitTableExists, &Reply::Flag(true));
    assert_eq!(
        next,
        AuthAction::Run(
            AuthStep::AwaitPasswordHash,
            Command::HGet { key: "table:t1".to_string(), field: "hashed_password".to_string() }
        )
    );
}

#[test]
fn auth_wrong_or_unreadable_hash_is_refused() {
    let req = request("t1", "pw");
    let hashed = hash_password("other");
    for reply in [text(&hashed), text("not a hash"), Reply::Text(None), Reply::Failed("boom".to_string())] {
        let next = auth_resume(&req, AuthStep::AwaitPasswordHash, &reply);
        assert_eq!(next, AuthAction::Respond(ApiResponse::error("Password is not valid")));
    }
}

#[test]
fn auth_good_password_opens_session() {
    let req = request("t1", "pw");
    let hashed = hash_password("pw");
    match auth_resume(&req, AuthStep::AwaitPasswordHash, &text(&hashed)) {
        AuthAction::Run(AuthStep::AwaitSessionStored { token }, Command::SetString { key, value }) => {
            assert_eq!(key, token);
            assert_eq!(value, "table:t1");
            assert!(token.starts_with("session:"));
            assert!(is_uuid_shape(&token["session:".len()..]));
        }
        other => panic!("unexpected {:?}", other),
    }
}

#[test]
fn auth_reports_token_after_storing() {
    let req = request("t1", "pw");
    let step = AuthStep::AwaitSessionStored { token: "session:abc".to_string() };
    assert_eq!(
        auth_resume(&req, step, &Reply::Ack),
        AuthAction::Respond(ApiResponse::success("Authorized", "session:abc".to_string()))
    );
    let empty = AuthStep::AwaitSessionStored { token: String::new() };
    assert_eq!(
        auth_resume(&req, empty, &Reply::Failed("boom".to_string())),
        AuthAction::Respond(ApiResponse::error("Password is not valid"))
    );
}

#[test]
fn password_check_uses_argon2() {
    let hashed = hash_password("secret");
    assert!(hashed.starts_with("$argon2id$"));
    assert!(check_password(&hashed, "secret"));
    assert!(!check_password(&hashed, "Secret"));
    assert!(!check_password("garbage", "secret"));
}

#[test]
fn session_tokens_are_fresh() {
    let a = new_session_token();
    let b = new_session_token();
    assert_ne!(a, b);
    assert!(a.starts_with("session:") && is_uuid_shape(&a[8..]));
}

#[test]
fn register_hashes_then_checks_table() {
    let req = request("t2", "pw2");
    let (step, cmd) = register_start(&req);
    assert_eq!(cmd, Command::Exists { key: "table:t2".to_string() });
    match step {
        RegisterStep::AwaitTableExists { hashed } => assert!(check_password(&hashed, "pw2")),
        other => panic!("unexpected {:?}", other),
    }
}

#[test]
fn register_taken_table_is_refused() {
    let req = request("t2", "pw2");
    let step = RegisterStep::AwaitTableExists { hashed: "h".to_string() };
    assert_eq!(
        register_resume(&req, step, &Reply::Flag(true)),
        RegisterAction::Respond(ApiResponse::error("Table with such name already exists"))
    );
}

#[test]
fn register_full_run() {
    let req = request("t2", "pw2");
    let step = RegisterStep::AwaitTableExists { hashed: "h".to_string() };
    let next = register_resume(&req, step, &Reply::Failed("boom".to_string()));
    assert_eq!(
        next,
        RegisterAction::Run(
            RegisterStep::AwaitHashStored,
            Command::HSet { key: "table:t2".to_string(), field: "hashed_password".to_string(), value: "h".to_string() }
        )
    );
    let next = register_resume(&req, RegisterStep::AwaitHashStored, &Reply::Ack);
    assert_eq!(
        next,
        RegisterAction::Run(
            RegisterStep::AwaitExpirySet,
            Command::Expire { key: "table:t2".to_string(), seconds: TTL_SECONDS }
        )
    );
    let token = match register_resume(&req, RegisterStep::AwaitExpirySet, &Reply::Ack) {
        RegisterAction::Run(RegisterStep::AwaitSessionStored { token }, Command::SetString { key, value }) => {
            assert_eq!(key, token);
            assert_eq!(value, "table:t2");
            assert!(token.starts_with("session:") && is_uuid_shape(&token[8..]));
            token
        }
        other => panic!("unexpected {:?}", other),
    };
    assert_eq!(
        register_resume(&req, RegisterStep::AwaitSessionStored { token: token.clone() }, &Reply::Ack),
        RegisterAction::Respond(ApiResponse::success("Table registered", token))
    );
}

#[test]
fn registered_password_authenticates() {
    let req = request("t3", "open sesame");
    let (step, _) = register_start(&req);
    let stored = match register_resume(&req, step, &Reply::Flag(false)) {
        RegisterAction::Run(_, Command::HSet { value, .. }) => value,
        other => panic!("unexpected {:?}", other),
    };
    match auth_resume(&req, AuthStep::AwaitPasswordHash, &text(&stored)) {
        AuthAction::Run(AuthStep::AwaitSessionStored { .. }, Command::SetString { value, .. }) => {
            assert_eq!(value, "table:t3")
        }
        other => panic!("unexpected {:?}", other),
    }
}

fn page(cursor: u64, keys: &[&str]) -> Reply {
    Reply::Page { cursor, keys: keys.iter().map(|k| k.to_string()).collect() }
}

fn run_listing(replies: Vec<Reply>) -> (Vec<Command>, Result<Vec<String>, ListError>) {
    let (mut step, first) = list_start();
    let mut commands = vec![first];
    for reply in replies {
        match list_resume(step, &reply) {
            ListAction::Run(next, cmd) => {
                commands.push(cmd);
                step = next;
            }
            ListAction::Finish(result) => return (commands, result),
        }
    }
    panic!("listing did not finish");
}

#[test]
fn listing_collects_hash_keys_across_pages() {
    let (commands, result) = run_listing(vec![
        page(5, &["table:a", "table:b"]),
        text("hash"),
        text("string"),
        page(0, &["table:c"]),
        text("hash"),
    ]);
    assert_eq!(result, Ok(vec!["table:a".to_string(), "table:c".to_string()]));
    assert_eq!(
        commands,
        vec![
            Command::Scan { cursor: 0, pattern: "table:*".to_string() },
            Command::KeyType { key: "table:a".to_string() },
            Command::KeyType { key: "table:b".to_string() },
            Command::Scan { cursor: 5, pattern: "table:*".to_string() },
            Command::KeyType { key: "table:c".to_string() },
        ]
    );
}

#[test]
fn listing_empty_pages() {
    let (_, result) = run_listing(vec![page(0, &[])]);
    assert_eq!(result, Ok(vec![]));
    let (commands, result) = run_listing(vec![page(9, &[]), page(0, &["table:z"]), text("hash")]);
    assert_eq!(result, Ok(vec!["table:z".to_string()]));
    assert_eq!(commands[1], Command::Scan { cursor: 9, pattern: "table:*".to_string() });
}

#[test]
fn listing_stops_on_error() {
    let (_, result) = run_listing(vec![Reply::Failed("boom".to_string())]);
    assert_eq!(result, Err(ListError::Redis("boom".to_string())));
    let (commands, result) = run_listing(vec![page(0, &["table:a", "table:b"]), Reply::Failed("type failed".to_string())]);
    assert_eq!(result, Err(ListError::Redis("type failed".to_string())));
    assert_eq!(commands.len(), 2);
}
