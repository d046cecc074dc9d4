//! The Redis commands the handlers issue and the replies they read back.
//!
//! The handlers are written as state machines: each step returns the next
//! command to run, and the caller hands back what Redis answered. A reply of
//! the wrong kind, or an error, reads as the default the server uses.
use vstd::prelude::*;
use crate::types::opt_text_view;
use crate::text::int_decimal;

verus! {

/// A Redis command, with its arguments.
#[derive(Debug, Clone, PartialEq, Eq)]
pub enum Command {
    Exists { key: String },
    Get { key: String },
    SetString { key: String, value: String },
    Expire { key: String, seconds: usize },
    HGet { key: String, field: String },
    HSet { key: String, field: String, value: String },
    HExists { key: String, field: String },
    HIncrBy { key: String, field: String, delta: i64 },
    HDel { key: String, field: String },
    Publish { channel: String, message: String },
    Scan { cursor: u64, pattern: String },
    KeyType { key: String },
}

/// A `Command` with its text arguments as plain text.
pub enum CommandView {
    Exists { key: Seq<char> },
    Get { key: Seq<char> },
    SetString { key: Seq<char>, value: Seq<char> },
    Expire { key: Seq<char>, seconds: usize },
    HGet { key: Seq<char>, field: Seq<char> },
    HSet { key: Seq<char>, field: Seq<char>, value: Seq<char> },
    HExists { key: Seq<char>, field: Seq<char> },
    HIncrBy { key: Seq<char>, field: Seq<char>, delta: i64 },
    HDel { key: Seq<char>, field: Seq<char> },
    Publish { channel: Seq<char>, message: Seq<char> },
    Scan { cursor: u64, pattern: Seq<char> },
    KeyType { key: Seq<char> },
}

impl View for Command {
    type V = CommandView;

    open spec fn view(&self) -> CommandView {
        match self {
            Command::Exists { key } => CommandView::Exists { key: key@ },
            Command::Get { key } => CommandView::Get { key: key@ },
            Command::SetString { key, value } => CommandView::SetString { key: key@, value: value@ },
            Command::Expire { key, seconds } => CommandView::Expire { key: key@, seconds: *seconds },
            Command::HGet { key, field } => CommandView::HGet { key: key@, field: field@ },
            Command::HSet { key, field, value } => CommandView::HSet {
                key: key@,
                field: field@,
                value: value@,
            },
            Command::HExists { key, field } => CommandView::HExists { key: key@, field: field@ },
            Command::HIncrBy { key, field, delta } => CommandView::HIncrBy {
                key: key@,
                field: field@,
                delta: *delta,
            },
            Command::HDel { key, field } => CommandView::HDel { key: key@, field: field@ },
            Command::Publish { channel, message } => CommandView::Publish {
                channel: channel@,
                message: message@,
            },
            Command::Scan { cursor, pattern } => CommandView::Scan { cursor: *cursor, pattern: pattern@ },
            Command::KeyType { key } => CommandView::KeyType { key: key@ },
        }
    }
}

/// What Redis answered to a command.
#[derive(Debug, Clone, PartialEq, Eq)]
pub enum Reply {
    /// A yes/no answer (`EXISTS`, `HEXISTS`).
    Flag(bool),
    /// A text answer, `None` for nil (`GET`, `HGET`, `TYPE`).
    Text(Option<String>),
    /// An integer answer (`HINCRBY`).
    Number(i64),
    /// One page of a `SCAN`: the next cursor and the keys found.
    Page { cursor: u64, keys: Vec<String> },
    /// The command was carried out and its answer is not read.
    Ack,
    /// Redis reported an error; its description.
    Failed(String),
}

/// The texts of a vector of strings.
pub open spec fn texts(v: Seq<String>) -> Seq<Seq<char>> {
    v.map_values(|s: String| s@)
}

impl Reply {
    /// A yes/no answer; anything else reads as `false`.
    pub open spec fn flag_value(self) -> bool {
        match self {
            Reply::Flag(b) => b,
            _ => false,
        }
    }

    /// A text answer; nil, an error or another kind reads as the empty text.
    pub open spec fn text_value(self) -> Seq<char> {
        match self {
            Reply::Text(Some(s)) => s@,
            _ => Seq::empty(),
        }
    }

    /// A text answer that may be absent; an error or another kind reads as absent.
    pub open spec fn opt_text_value(self) -> Option<Seq<char>> {
        match self {
            Reply::Text(Some(s)) => Some(s@),
            _ => None,
        }
    }

    /// The description of an error answer; empty for any other answer.
    pub open spec fn failure_text(self) -> Seq<char> {
        match self {
            Reply::Failed(e) => e@,
            _ => Seq::empty(),
        }
    }

    /// An integer answer; anything else reads as 0.
    pub open spec fn number_value(self) -> i64 {
        match self {
            Reply::Number(n) => n,
            _ => 0,
        }
    }

    /// Reads a yes/no answer.
    pub fn flag(&self) -> (b: bool)
        ensures
            b == self.flag_value(),
    {
        match self {
            Reply::Flag(b) => *b,
            _ => false,
        }
    }

    /// Reads a text answer.
    pub fn text(&self) -> (t: String)
        ensures
            t@ == self.text_value(),
    {
        match self {
            Reply::Text(Some(s)) => s.clone(),
            _ => String::new(),
        }
    }

    /// Reads a text answer that may be absent.
    pub fn opt_text(&self) -> (t: Option<String>)
        ensures
            opt_text_view(t) == self.opt_text_value(),
    {
        match self {
            Reply::Text(Some(s)) => Some(s.clone()),
            _ => None,
        }
    }

    /// Reads the description of an error answer.
    pub fn failure(&self) -> (e: String)
        ensures
            e@ == self.failure_text(),
    {
        match self {
            Reply::Failed(e) => e.clone(),
            _ => String::new(),
        }
    }

    /// Reads an integer answer.
    pub fn number(&self) -> (n: i64)
        ensures
            n == self.number_value(),
    {
        match self {
            Reply::Number(n) => *n,
            _ => 0,
        }
    }
}

/// What Redis holds under a key, as far as these commands see it: a string,
/// or a hash of fields.
pub enum Entry {
    Text(Seq<char>),
    Fields(Map<Seq<char>, Seq<char>>),
}

/// A model of the Redis keyspace (expiry times are not followed).
pub type StoreModel = Map<Seq<char>, Entry>;

/// The fields of the hash under `key` (none when the key is absent).
pub open spec fn fields_of(store: StoreModel, key: Seq<char>) -> Map<Seq<char>, Seq<char>> {
    if store.contains_key(key) {
        match store[key] {
            Entry::Fields(f) => f,
            Entry::Text(_) => Map::empty(),
        }
    } else {
        Map::empty()
    }
}

/// Whether the key holds a string (a hash command on it fails).
pub open spec fn holds_text(store: StoreModel, key: Seq<char>) -> bool {
    store.contains_key(key) && store[key] is Text
}

/// How a command changes the keyspace, as Redis documents it. `EXPIRE` and
/// `PUBLISH` leave the contents as they are; `HDEL` drops a hash left empty;
/// `HINCRBY` on a field holding an integer's decimal text adds to it.
pub open spec fn apply(store: StoreModel, cmd: CommandView) -> StoreModel {
    match cmd {
        CommandView::SetString { key, value } => store.insert(key, Entry::Text(value)),
        CommandView::HSet { key, field, value } => if holds_text(store, key) {
            store
        } else {
            store.insert(key, Entry::Fields(fields_of(store, key).insert(field, value)))
        },
        CommandView::HDel { key, field } => if holds_text(store, key) || !store.contains_key(key) {
            store
        } else if fields_of(store, key).remove(field).len() == 0 {
            store.remove(key)
        } else {
            store.insert(key, Entry::Fields(fields_of(store, key).remove(field)))
        },
        CommandView::HIncrBy { key, field, delta } => match incremented(store, key, field, delta) {
            Some(n) => store.insert(key, Entry::Fields(fields_of(store, key).insert(field, int_decimal(n)))),
            None => store,
        },
        _ => store,
    }
}

/// The value `HINCRBY` stores, or `None` when it fails (a string key, a
/// field that is not an integer, or a result outside `i64`).
pub open spec fn incremented(store: StoreModel, key: Seq<char>, field: Seq<char>, delta: i64) -> Option<int> {
    if holds_text(store, key) {
        None
    } else if !fields_of(store, key).contains_key(field) {
        Some(delta as int)
    } else if exists|n: int| i64::MIN <= n <= i64::MAX && int_decimal(n) == fields_of(store, key)[field] {
        let n = choose|n: int| i64::MIN <= n <= i64::MAX && int_decimal(n) == fields_of(store, key)[field];
        if i64::MIN <= n + delta <= i64::MAX {
            Some(n + delta)
        } else {
            None
        }
    } else {
        None
    }
}

/// Whether `reply` is what Redis answers to `cmd` in this keyspace. `SCAN`'s
/// paging is not followed (any page or an error).
pub open spec fn answers(store: StoreModel, cmd: CommandView, reply: Reply) -> bool {
    match cmd {
        CommandView::Exists { key } => reply == Reply::Flag(store.contains_key(key)),
        CommandView::Get { key } => if !store.contains_key(key) {
            reply == Reply::Text(None)
        } else {
            match store[key] {
                Entry::Text(v) => reply matches Reply::Text(Some(s)) && s@ == v,
                Entry::Fields(_) => reply is Failed,
            }
        },
        CommandView::HGet { key, field } => if holds_text(store, key) {
            reply is Failed
        } else if fields_of(store, key).contains_key(field) {
            reply matches Reply::Text(Some(s)) && s@ == fields_of(store, key)[field]
        } else {
            reply == Reply::Text(None)
        },
        CommandView::HExists { key, field } => if holds_text(store, key) {
            reply is Failed
        } else {
            reply == Reply::Flag(fields_of(store, key).contains_key(field))
        },
        CommandView::HIncrBy { key, field, delta } => match incremented(store, key, field, delta) {
            Some(n) => reply == Reply::Number(n as i64),
            None => reply is Failed,
        },
        CommandView::HSet { key, .. } | CommandView::HDel { key, .. } => if holds_text(store, key) {
            reply is Failed
        } else {
            reply == Reply::Ack
        },
        CommandView::SetString { .. } | CommandView::Expire { .. } | CommandView::Publish { .. } => reply
            == Reply::Ack,
        CommandView::KeyType { key } => reply matches Reply::Text(Some(t)) && t@ == if !store.contains_key(
            key,
        ) {
            "none"@
        } else if holds_text(store, key) {
            "string"@
        } else {
            "hash"@
        },
        CommandView::Scan { .. } => reply is Page || reply is Failed,
    }
}

} // verus!
