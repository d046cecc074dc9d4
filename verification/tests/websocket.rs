use wsredis::connections::{Connected, Disconnected, Hub};
use wsredis::handler::ws_connection::{
    connection_id, connection_keys, greeting, greeting_queries, message_resume, message_start, open_connection, open_connection_at,
    time_text, MessageAction, MessageContext, MessageStep,
};
use wsredis::store::{Command, Reply};

fn ctx(text: &str) -> MessageContext {
    MessageContext {
        session_key: "session:s1".to_string(),
        table_key: "table:t".to_string(),
        text: text.to_string(),
    }
}

fn text(s: &str) -> Reply {
    Reply::Text(Some(s.to_string()))
}

fn run_message(c: &MessageContext, replies: Vec<Reply>) -> (Vec<Command>, MessageAction) {
    let (mut step, first) = message_start(c);
    let mut commands = vec![first];
    for reply in replies {
        match message_resume(c, step, &reply) {
            MessageAction::Run(next, cmd) => {
                commands.push(cmd);
                step = next;
            }
            done => return (commands, done),
        }
    }
    panic!("message handling did not finish");
}

fn hset(field: &str, value: &str) -> Command {
    Command::HSet { key: "table:t".to_string(), field: field.to_string(), value: value.to_string() }
}

fn publish(message: &str) -> Command {
    Command::Publish { channel: "table:t".to_string(), message: message.to_string() }
}

#[test]
fn missing_session_is_rejected() {
    let (commands, done) = run_message(&ctx("hello"), vec![Reply::Flag(false)]);
    assert_eq!(commands, vec![Command::Exists { key: "session:s1".to_string() }]);
    assert_eq!(done, MessageAction::Rejected);
}

#[test]
fn session_of_other_table_is_rejected() {
    let (commands, done) = run_message(&ctx("hello"), vec![Reply::Flag(true), text("table:other")]);
    assert_eq!(commands[1], Command::Get { key: "session:s1".to_string() });
    assert_eq!(done, MessageAction::Rejected);
    let (_, done) = run_message(&ctx("hello"), vec![Reply::Flag(true), Reply::Failed("boom".to_string())]);
    assert_eq!(done, MessageAction::Rejected);
}

#[test]
fn plain_message_is_published_and_saved() {
    let (commands, done) =
        run_message(&ctx("hello"), vec![Reply::Flag(true), text("table:t"), Reply::Ack, Reply::Ack]);
    assert_eq!(commands[2..], [publish("hello"), hset("action", "hello")]);
    assert_eq!(done, MessageAction::Delivered { outgoing: "hello".to_string() });
}

#[test]
fn time_message_increments_counter() {
    let (commands, done) = run_message(
        &ctx("time"),
        vec![Reply::Flag(true), text("table:t"), Reply::Flag(true), Reply::Number(5), Reply::Ack, Reply::Ack],
    );
    assert_eq!(
        commands[2..],
        [
            Command::HExists { key: "table:t".to_string(), field: "time".to_string() },
            Command::HIncrBy { key: "table:t".to_string(), field: "time".to_string(), delta: 1 },
            publish("time 5"),
            hset("action", "time"),
        ]
    );
    assert_eq!(done, MessageAction::Delivered { outgoing: "time 5".to_string() });
}

#[test]
fn time_message_starts_counter() {
    let (commands, done) = run_message(
        &ctx("time"),
        vec![Reply::Flag(true), text("table:t"), Reply::Flag(false), Reply::Ack, Reply::Ack, Reply::Ack],
    );
    assert_eq!(commands[3..], [hset("time", "0"), publish("time"), hset("action", "time")]);
    assert_eq!(done, MessageAction::Delivered { outgoing: "time".to_string() });
}

#[test]
fn time_counter_not_positive_is_not_shown() {
    assert_eq!(time_text(&"time".to_string(), 0), "time");
    assert_eq!(time_text(&"time".to_string(), -3), "time");
    assert_eq!(time_text(&"time".to_string(), 12), "time 12");
    let step = MessageStep::AwaitCounterIncrement;
    assert_eq!(message_resume(&ctx("time"), step, &Reply::Failed("boom".to_string())), MessageAction::Run(
        MessageStep::AwaitPublish { outgoing: "time".to_string() },
        publish("time"),
    ));
}

#[test]
fn no_action_clears_counter() {
    let (commands, done) = run_message(
        &ctx("no action"),
        vec![Reply::Flag(true), text("table:t"), Reply::Flag(true), Reply::Ack, Reply::Ack, Reply::Ack],
    );
    assert_eq!(
        commands[2..],
        [
            Command::HExists { key: "table:t".to_string(), field: "time".to_string() },
            Command::HDel { key: "table:t".to_string(), field: "time".to_string() },
            publish("no action"),
            hset("action", "no action"),
        ]
    );
    assert_eq!(done, MessageAction::Delivered { outgoing: "no action".to_string() });
}

#[test]
fn no_action_without_counter() {
    let (commands, _) = run_message(
        &ctx("no action"),
        vec![Reply::Flag(true), text("table:t"), Reply::Flag(false), Reply::Ack, Reply::Ack],
    );
    assert_eq!(commands[3], publish("no action"));
}

#[test]
fn greeting_reads_action_and_time() {
    let (a, t) = greeting_queries(&"table:t".to_string());
    assert_eq!(a, Command::HGet { key: "table:t".to_string(), field: "action".to_string() });
    assert_eq!(t, Command::HGet { key: "table:t".to_string(), field: "time".to_string() });
}

#[test]
fn greeting_cases() {
    assert_eq!(greeting(&text("time"), &text("3")), Some("time 3".to_string()));
    assert_eq!(greeting(&text("time"), &text("0")), Some("time".to_string()));
    assert_eq!(greeting(&text("time"), &Reply::Text(None)), Some("time".to_string()));
    assert_eq!(greeting(&text("pause"), &text("3")), Some("pause".to_string()));
    assert_eq!(greeting(&Reply::Text(None), &text("3")), None);
    assert_eq!(greeting(&Reply::Failed("boom".to_string()), &text("3")), None);
}

#[test]
fn connection_ids() {
    assert_eq!(connection_id("table:t", 42), "conn_table:t_42");
    assert_eq!(connection_id("c", -7), "conn_c_-7");
}

#[test]
fn missing_query_parameters_read_empty() {
    assert_eq!(connection_keys(None, Some("table:t".to_string())), (String::new(), "table:t".to_string()));
    assert_eq!(connection_keys(Some("s".to_string()), None), ("s".to_string(), String::new()));
}

#[test]
fn hub_connect_registers_senders() {
    let mut hub = Hub::new();
    let a = "table:a".to_string();
    let b = "table:b".to_string();
    assert_eq!(hub.connect(&a, &"conn_1".to_string()), Some(Connected { sender: 0, spawn_listener: true }));
    assert_eq!(hub.connect(&a, &"conn_2".to_string()), Some(Connected { sender: 1, spawn_listener: true }));
    assert_eq!(hub.connect(&b, &"conn_3".to_string()), Some(Connected { sender: 2, spawn_listener: true }));
    assert_eq!(hub.recipients(&a), vec![0, 1]);
    assert_eq!(hub.recipients(&b), vec![2]);
    assert_eq!(hub.recipients(&"table:c".to_string()), Vec::<u64>::new());
    assert_eq!(hub.all_recipients(), vec![0, 1, 2]);
}

#[test]
fn hub_listener_keyed_by_channel_name_blocks_spawn() {
    let mut hub = Hub::new();
    let c = "x".to_string();
    assert_eq!(hub.connect(&c, &"conn_x_1".to_string()).unwrap().spawn_listener, true);
    let weird = "conn_x_1".to_string();
    assert_eq!(hub.connect(&weird, &"conn_conn_x_1_2".to_string()).unwrap().spawn_listener, false);
}

#[test]
fn hub_disconnect_keeps_senders_and_stops_listener() {
    let mut hub = Hub::new();
    let a = "table:a".to_string();
    hub.connect(&a, &"conn_1".to_string());
    hub.connect(&a, &"conn_2".to_string());
    assert_eq!(
        hub.disconnect(&a, &"conn_1".to_string()),
        Disconnected { remaining: Some(2), abort_listener: true }
    );
    assert_eq!(
        hub.disconnect(&a, &"conn_1".to_string()),
        Disconnected { remaining: Some(2), abort_listener: false }
    );
    assert_eq!(hub.recipients(&a), vec![0, 1]);
    assert_eq!(
        hub.disconnect(&"table:none".to_string(), &"conn_2".to_string()),
        Disconnected { remaining: None, abort_listener: false }
    );
}

#[test]
fn open_connection_registers_with_time_key() {
    let mut hub = Hub::new();
    let chan = "table:t".to_string();
    let opened = open_connection(&mut hub, &chan).expect("clock in range");
    assert!(opened.conn_id.starts_with("conn_table:t_"));
    assert!(opened.conn_id["conn_table:t_".len()..].parse::<i64>().is_ok());
    assert_eq!(opened.sender, 0);
    assert!(opened.spawn_listener);
    assert_eq!(hub.recipients(&chan), vec![0]);
}

#[test]
fn greeting_after_time_message_repeats_it() {
    let (_, done) = run_message(
        &ctx("time"),
        vec![Reply::Flag(true), text("table:t"), Reply::Flag(true), Reply::Number(4), Reply::Ack, Reply::Ack],
    );
    let delivered = match done {
        MessageAction::Delivered { outgoing } => outgoing,
        other => panic!("unexpected {:?}", other),
    };
    assert_eq!(greeting(&text("time"), &text("4")), Some(delivered));
}

#[test]
fn open_connection_at_given_time() {
    let mut hub = Hub::new();
    let chan = "table:t".to_string();
    let opened = open_connection_at(&mut hub, &chan, 99).expect("numbers left");
    assert_eq!(opened.conn_id, "conn_table:t_99");
    assert_eq!(opened.sender, 0);
    assert!(opened.spawn_listener);
    let again = open_connection_at(&mut hub, &chan, 100).expect("numbers left");
    assert_eq!(again.sender, 1);
    assert!(again.spawn_listener);
    assert_eq!(hub.recipients(&chan), vec![0, 1]);
}
