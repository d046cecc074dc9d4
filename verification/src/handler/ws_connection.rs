//! What a websocket connection does with Redis: the greeting sent on connect,
//! and the handling of each text message a client sends.
use vstd::prelude::*;
use crate::store::{Command, CommandView, Reply};
use crate::text::{int_decimal, i64_to_decimal};
use crate::types::opt_text_view;
use crate::config::{setting, setting_or};
use crate::connections::{connect_rel, Connected, Hub};
use crate::outside::utc_now_timestamp_nanos;

verus! {

/// The query parameters of a connection and one text message it sent.
#[derive(Debug, Clone, PartialEq, Eq)]
pub struct MessageContext {
    /// The `session` query parameter: the key of the client's session.
    pub session_key: String,
    /// The `tablename` query parameter: the table's key, also its channel.
    pub table_key: String,
    /// The text of the message.
    pub text: String,
}

pub struct MessageContextView {
    pub session_key: Seq<char>,
    pub table_key: Seq<char>,
    pub text: Seq<char>,
}

impl View for MessageContext {
    type V = MessageContextView;

    open spec fn view(&self) -> MessageContextView {
        MessageContextView { session_key: self.session_key@, table_key: self.table_key@, text: self.text@ }
    }
}

/// Where the handling of a message stands: which answer it waits for.
#[derive(Debug, Clone, PartialEq, Eq)]
pub enum MessageStep {
    AwaitSessionExists,
    AwaitSessionValue,
    AwaitCounterExists,
    AwaitCounterIncrement,
    AwaitCounterReset,
    AwaitClearCheck,
    AwaitClear,
    AwaitPublish { outgoing: String },
    AwaitActionSaved { outgoing: String },
}

pub enum MessageStepView {
    AwaitSessionExists,
    AwaitSessionValue,
    AwaitCounterExists,
    AwaitCounterIncrement,
    AwaitCounterReset,
    AwaitClearCheck,
    AwaitClear,
    AwaitPublish { outgoing: Seq<char> },
    AwaitActionSaved { outgoing: Seq<char> },
}

impl View for MessageStep {
    type V = MessageStepView;

    open spec fn view(&self) -> MessageStepView {
        match self {
            MessageStep::AwaitSessionExists => MessageStepView::AwaitSessionExists,
            MessageStep::AwaitSessionValue => MessageStepView::AwaitSessionValue,
            MessageStep::AwaitCounterExists => MessageStepView::AwaitCounterExists,
            MessageStep::AwaitCounterIncrement => MessageStepView::AwaitCounterIncrement,
            MessageStep::AwaitCounterReset => MessageStepView::AwaitCounterReset,
            MessageStep::AwaitClearCheck => MessageStepView::AwaitClearCheck,
            MessageStep::AwaitClear => MessageStepView::AwaitClear,
            MessageStep::AwaitPublish { outgoing } => MessageStepView::AwaitPublish { outgoing: outgoing@ },
            MessageStep::AwaitActionSaved { outgoing } => MessageStepView::AwaitActionSaved {
                outgoing: outgoing@,
            },
        }
    }
}

/// What to do next with a message.
#[derive(Debug, Clone, PartialEq, Eq)]
pub enum MessageAction {
    /// Run the command and resume at the step with its answer.
    Run(MessageStep, Command),
    /// The session does not belong to the table: nothing is published.
    Rejected,
    /// The text was published on the table's channel and stored as its action.
    Delivered { outgoing: String },
}

pub enum MessageActionView {
    Run(MessageStepView, CommandView),
    Rejected,
    Delivered { outgoing: Seq<char> },
}

impl View for MessageAction {
    type V = MessageActionView;

    open spec fn view(&self) -> MessageActionView {
        match self {
            MessageAction::Run(step, cmd) => MessageActionView::Run(step@, cmd@),
            MessageAction::Rejected => MessageActionView::Rejected,
            MessageAction::Delivered { outgoing } => MessageActionView::Delivered { outgoing: outgoing@ },
        }
    }
}

/// The text published for a `time` message once the counter is known: the
/// counter is appended when it is positive.
pub open spec fn counter_text(text: Seq<char>, counter: i64) -> Seq<char> {
    if counter > 0 {
        text + " "@ + int_decimal(counter as int)
    } else {
        text
    }
}

/// Publish `outgoing` on the table's channel.
pub open spec fn publish_next(ctx: MessageContextView, outgoing: Seq<char>) -> MessageActionView {
    MessageActionView::Run(
        MessageStepView::AwaitPublish { outgoing },
        CommandView::Publish { channel: ctx.table_key, message: outgoing },
    )
}

/// What follows once the session is confirmed: `time` reads the counter,
/// `no action` checks for a counter to clear, any other text is published.
pub open spec fn confirmed_next(ctx: MessageContextView) -> MessageActionView {
    if ctx.text == "time"@ {
        MessageActionView::Run(
            MessageStepView::AwaitCounterExists,
            CommandView::HExists { key: ctx.table_key, field: "time"@ },
        )
    } else if ctx.text == "no action"@ {
        MessageActionView::Run(
            MessageStepView::AwaitClearCheck,
            CommandView::HExists { key: ctx.table_key, field: "time"@ },
        )
    } else {
        publish_next(ctx, ctx.text)
    }
}

/// The message protocol: the next action at each step, given Redis's answer.
pub open spec fn message_next(ctx: MessageContextView, step: MessageStepView, reply: Reply) -> MessageActionView {
    match step {
        MessageStepView::AwaitSessionExists => if reply.flag_value() {
            MessageActionView::Run(MessageStepView::AwaitSessionValue, CommandView::Get { key: ctx.session_key })
        } else {
            MessageActionView::Rejected
        },
        MessageStepView::AwaitSessionValue => if reply.text_value() == ctx.table_key {
            confirmed_next(ctx)
        } else {
            MessageActionView::Rejected
        },
        MessageStepView::AwaitCounterExists => if reply.flag_value() {
            MessageActionView::Run(
                MessageStepView::AwaitCounterIncrement,
                CommandView::HIncrBy { key: ctx.table_key, field: "time"@, delta: 1 },
            )
        } else {
            MessageActionView::Run(
                MessageStepView::AwaitCounterReset,
                CommandView::HSet { key: ctx.table_key, field: "time"@, value: "0"@ },
            )
        },
        MessageStepView::AwaitCounterIncrement => publish_next(ctx, counter_text(ctx.text, reply.number_value())),
        MessageStepView::AwaitCounterReset => publish_next(ctx, ctx.text),
        MessageStepView::AwaitClearCheck => if reply.flag_value() {
            MessageActionView::Run(
                MessageStepView::AwaitClear,
                CommandView::HDel { key: ctx.table_key, field: "time"@ },
            )
        } else {
            publish_next(ctx, ctx.text)
        },
        MessageStepView::AwaitClear => publish_next(ctx, ctx.text),
        MessageStepView::AwaitPublish { outgoing } => MessageActionView::Run(
            MessageStepView::AwaitActionSaved { outgoing },
            CommandView::HSet { key: ctx.table_key, field: "action"@, value: ctx.text },
        ),
        MessageStepView::AwaitActionSaved { outgoing } => MessageActionView::Delivered { outgoing },
    }
}

fn text_is(s: &String, literal: &str) -> (b: bool)
    ensures
        b == (s@ == literal@),
{
    let t = String::from_str(literal);
    *s == t
}

/// The first command for a message: does the session key exist?
pub fn message_start(ctx: &MessageContext) -> (first: (MessageStep, Command))
    ensures
        first.0@ == MessageStepView::AwaitSessionExists,
        first.1@ == (CommandView::Exists { key: ctx.session_key@ }),
{
    (MessageStep::AwaitSessionExists, Command::Exists { key: ctx.session_key.clone() })
}

fn publish(ctx: &MessageContext, outgoing: String) -> (next: MessageAction)
    ensures
        next@ == publish_next(ctx@, outgoing@),
{
    let message = outgoing.clone();
    MessageAction::Run(
        MessageStep::AwaitPublish { outgoing },
        Command::Publish { channel: ctx.table_key.clone(), message },
    )
}

/// Builds the text published for a `time` message from the counter's value.
pub fn time_text(text: &String, counter: i64) -> (outgoing: String)
    ensures
        outgoing@ == counter_text(text@, counter),
{
    if counter > 0 {
        let number = i64_to_decimal(counter);
        text.clone().concat(" ").concat(number.as_str())
    } else {
        text.clone()
    }
}

/// Advances the handling of a message with Redis's answer to the last command.
pub fn message_resume(ctx: &MessageContext, step: MessageStep, reply: &Reply) -> (next: MessageAction)
    ensures
        next@ == message_next(ctx@, step@, *reply),
{
    let table = ctx.table_key.clone();
    match step {
        MessageStep::AwaitSessionExists => {
            if reply.flag() {
                MessageAction::Run(MessageStep::AwaitSessionValue, Command::Get { key: ctx.session_key.clone() })
            } else {
                MessageAction::Rejected
            }
        },
        MessageStep::AwaitSessionValue => {
            let session = reply.text();
            if session == table {
                if text_is(&ctx.text, "time") {
                    MessageAction::Run(
                        MessageStep::AwaitCounterExists,
                        Command::HExists { key: table, field: String::from_str("time") },
                    )
                } else if text_is(&ctx.text, "no action") {
                    MessageAction::Run(
                        MessageStep::AwaitClearCheck,
                        Command::HExists { key: table, field: String::from_str("time") },
                    )
                } else {
                    publish(ctx, ctx.text.clone())
                }
            } else {
                MessageAction::Rejected
            }
        },
        MessageStep::AwaitCounterExists => {
            if reply.flag() {
                MessageAction::Run(
                    MessageStep::AwaitCounterIncrement,
                    Command::HIncrBy { key: table, field: String::from_str("time"), delta: 1 },
                )
            } else {
                MessageAction::Run(
                    MessageStep::AwaitCounterReset,
                    Command::HSet { key: table, field: String::from_str("time"), value: String::from_str("0") },
                )
            }
        },
        MessageStep::AwaitCounterIncrement => {
            let outgoing = time_text(&ctx.text, reply.number());
            publish(ctx, outgoing)
        },
        MessageStep::AwaitCounterReset => publish(ctx, ctx.text.clone()),
        MessageStep::AwaitClearCheck => {
            if reply.flag() {
                MessageAction::Run(
                    MessageStep::AwaitClear,
                    Command::HDel { key: table, field: String::from_str("time") },
                )
            } else {
                publish(ctx, ctx.text.clone())
            }
        },
        MessageStep::AwaitClear => publish(ctx, ctx.text.clone()),
        MessageStep::AwaitPublish { outgoing } => MessageAction::Run(
            MessageStep::AwaitActionSaved { outgoing },
            Command::HSet { key: table, field: String::from_str("action"), value: ctx.text.clone() },
        ),
        MessageStep::AwaitActionSaved { outgoing } => MessageAction::Delivered { outgoing },
    }
}

/// The message sent to a client when it connects: the table's stored action,
/// followed by the counter when the action is `time` and the counter is
/// present and not `0`; nothing when no action is stored.
pub open spec fn greeting_of(action: Option<Seq<char>>, time: Option<Seq<char>>) -> Option<Seq<char>> {
    match action {
        None => None,
        Some(m) => if m == "time"@ && time is Some && time->0 != "0"@ {
            Some(m + " "@ + time->0)
        } else {
            Some(m)
        },
    }
}

/// The two reads made on connect: the table's `action` and `time` fields.
pub fn greeting_queries(table_key: &String) -> (queries: (Command, Command))
    ensures
        queries.0@ == (CommandView::HGet { key: table_key@, field: "action"@ }),
        queries.1@ == (CommandView::HGet { key: table_key@, field: "time"@ }),
{
    (
        Command::HGet { key: table_key.clone(), field: String::from_str("action") },
        Command::HGet { key: table_key.clone(), field: String::from_str("time") },
    )
}

/// Builds the greeting from the answers to the two reads.
pub fn greeting(action: &Reply, time: &Reply) -> (message: Option<String>)
    ensures
        opt_text_view(message) == greeting_of(action.opt_text_value(), time.opt_text_value()),
{
    match action.opt_text() {
        None => None,
        Some(m) => {
            if text_is(&m, "time") {
                match time.opt_text() {
                    Some(t) => {
                        if !text_is(&t, "0") {
                            Some(m.concat(" ").concat(t.as_str()))
                        } else {
                            Some(m)
                        }
                    },
                    None => Some(m),
                }
            } else {
                Some(m)
            }
        },
    }
}

/// The identifier of a connection: `conn_<channel>_<nanos>`.
pub open spec fn connection_id_of(channel: Seq<char>, nanos: i64) -> Seq<char> {
    "conn_"@ + channel + "_"@ + int_decimal(nanos as int)
}

/// Builds a connection identifier from its channel and a time in nanoseconds.
pub fn connection_id(channel: &str, nanos: i64) -> (id: String)
    ensures
        id@ == connection_id_of(channel@, nanos),
{
    let number = i64_to_decimal(nanos);
    String::from_str("conn_").concat(channel).concat("_").concat(number.as_str())
}

/// A session that stores the table's key lets the table's messages through:
/// once the session's value is read back, the message is not rejected.
pub proof fn lemma_stored_session_admits_messages(ctx: MessageContextView, reply: Reply)
    requires
        reply.text_value() == ctx.table_key,
    ensures
        message_next(ctx, MessageStepView::AwaitSessionValue, reply) != MessageActionView::Rejected,
{
}

/// A session whose stored value is not the table's key never gets a message
/// published: the handling stops there.
pub proof fn lemma_foreign_session_rejected(ctx: MessageContextView, reply: Reply)
    requires
        reply.text_value() != ctx.table_key,
    ensures
        message_next(ctx, MessageStepView::AwaitSessionValue, reply) == MessageActionView::Rejected,
{
}

/// Whether a command changes Redis (publishing included).
pub open spec fn is_write(cmd: CommandView) -> bool {
    match cmd {
        CommandView::SetString { .. } | CommandView::Expire { .. } | CommandView::HSet { .. }
        | CommandView::HIncrBy { .. } | CommandView::HDel { .. } | CommandView::Publish { .. } => true,
        _ => false,
    }
}

/// The steps reached only once the session was confirmed.
pub open spec fn after_confirmation(step: MessageStepView) -> bool {
    !(step is AwaitSessionExists || step is AwaitSessionValue)
}

/// The keys a command reads or writes (the channel, for a publish).
pub open spec fn command_key(cmd: CommandView) -> Seq<char> {
    match cmd {
        CommandView::Exists { key } => key,
        CommandView::Get { key } => key,
        CommandView::SetString { key, .. } => key,
        CommandView::Expire { key, .. } => key,
        CommandView::HGet { key, .. } => key,
        CommandView::HSet { key, .. } => key,
        CommandView::HExists { key, .. } => key,
        CommandView::HIncrBy { key, .. } => key,
        CommandView::HDel { key, .. } => key,
        CommandView::Publish { channel, .. } => channel,
        CommandView::Scan { pattern, .. } => pattern,
        CommandView::KeyType { key } => key,
    }
}

/// Handling a message only touches the connection's session key and table
/// key, and changes Redis, or delivers, only after the session's stored value
/// was read back as the table's key: starting from the first step, no write
/// and no delivery happens for a session that does not belong to the table.
pub proof fn lemma_writes_need_confirmed_session(ctx: MessageContextView, step: MessageStepView, reply: Reply)
    ensures
        match message_next(ctx, step, reply) {
            MessageActionView::Run(next, cmd) => {
                &&& command_key(cmd) == ctx.session_key || command_key(cmd) == ctx.table_key
                &&& (after_confirmation(next) || is_write(cmd)) ==> (after_confirmation(step) || (
                step is AwaitSessionValue && reply.text_value() == ctx.table_key))
                &&& !after_confirmation(next) ==> !is_write(cmd)
            },
            MessageActionView::Delivered { .. } => after_confirmation(step),
            MessageActionView::Rejected => !after_confirmation(step),
        },
{
}

/// The session key and table key a connection gives in its query (`session`
/// and `tablename`); a missing parameter reads as the empty text.
pub fn connection_keys(session: Option<String>, tablename: Option<String>) -> (keys: (String, String))
    ensures
        keys.0@ == setting_or(opt_text_view(session), ""@),
        keys.1@ == setting_or(opt_text_view(tablename), ""@),
{
    (setting(session, ""), setting(tablename, ""))
}

/// A connection registered in the hub.
#[derive(Debug, Clone, PartialEq, Eq)]
pub struct OpenedConnection {
    /// The connection's key, `conn_<channel>_<nanos>`.
    pub conn_id: String,
    /// The number of its sender in the hub.
    pub sender: u64,
    /// Whether a Redis listener must be started for the channel.
    pub spawn_listener: bool,
}

/// Registers a new connection on `channel`, keyed by the time `nanos`: it
/// succeeds exactly when the hub still has a sender number to hand out, and
/// then does what `Hub::connect` does under the key `conn_<channel>_<nanos>`;
/// otherwise the hub is unchanged.
pub fn open_connection_at(hub: &mut Hub, channel: &String, nanos: i64) -> (opened: Option<OpenedConnection>)
    requires
        old(hub).wf(),
    ensures
        final(hub).wf(),
        opened is Some <==> old(hub)@.next_sender < u64::MAX,
        opened is None ==> final(hub)@ == old(hub)@,
        opened matches Some(o) ==> {
            &&& o.conn_id@ == connection_id_of(channel@, nanos)
            &&& connect_rel(
                old(hub)@,
                channel@,
                o.conn_id@,
                Some(Connected { sender: o.sender, spawn_listener: o.spawn_listener }),
                final(hub)@,
            )
        },
{
    let conn_id = connection_id(channel.as_str(), nanos);
    match hub.connect(channel, &conn_id) {
        None => None,
        Some(c) => Some(OpenedConnection { conn_id, sender: c.sender, spawn_listener: c.spawn_listener }),
    }
}

/// Registers a new connection on `channel`, keyed by the current time. `None`,
/// with the hub unchanged, when the hub has handed out every sender number,
/// and also when the clock reads past what nanoseconds in an `i64` can
/// express (which the clock alone decides; a clock before 1970 makes the
/// clock call panic); otherwise as `open_connection_at` with the clock's
/// reading.
pub fn open_connection(hub: &mut Hub, channel: &String) -> (opened: Option<OpenedConnection>)
    requires
        old(hub).wf(),
    ensures
        final(hub).wf(),
        old(hub)@.next_sender == u64::MAX ==> opened is None,
        opened is None ==> final(hub)@ == old(hub)@,
        opened matches Some(o) ==> {
            &&& exists|nanos: i64| o.conn_id@ == connection_id_of(channel@, nanos)
            &&& connect_rel(
                old(hub)@,
                channel@,
                o.conn_id@,
                Some(Connected { sender: o.sender, spawn_listener: o.spawn_listener }),
                final(hub)@,
            )
        },
{
    match utc_now_timestamp_nanos() {
        None => None,
        Some(nanos) => open_connection_at(hub, channel, nanos),
    }
}

} // verus!
