//! How the handlers work together on one Redis keyspace: registering a table,
//! logging in to it, and sending messages with the session obtained.
use vstd::prelude::*;
use crate::handler::auth::{auth_next, is_fresh_session_key, password_accepted, AuthActionView, AuthStepView};
use crate::handler::register::{password_salt_bytes, register_next, registered_view, RegisterActionView, RegisterStepView};
use crate::handler::ws_connection::{confirmed_next, counter_text, greeting_of, message_next, MessageActionView, MessageContextView, MessageStepView};
use crate::keys::{lemma_session_and_table_keys_disjoint, session_key_of, table_key_of};
use crate::outside::argon2_encoded_hash;
use crate::store::{answers, apply, fields_of, holds_text, incremented, CommandView, Entry, Reply, StoreModel};
use crate::text::{digit_char, int_decimal, nat_decimal};

verus! {

/// The command a registration step runs (an arbitrary one once it replies).
pub open spec fn register_command(a: RegisterActionView) -> CommandView {
    match a {
        RegisterActionView::Run(_, cmd) => cmd,
        RegisterActionView::Respond(_) => CommandView::Exists { key: Seq::empty() },
    }
}

/// The step a registration resumes at (an arbitrary one once it replies).
pub open spec fn register_step(a: RegisterActionView) -> RegisterStepView {
    match a {
        RegisterActionView::Run(step, _) => step,
        RegisterActionView::Respond(_) => RegisterStepView::AwaitHashStored,
    }
}

/// The command an authentication step runs (an arbitrary one once it replies).
pub open spec fn auth_command(a: AuthActionView) -> CommandView {
    match a {
        AuthActionView::Run(_, cmd) => cmd,
        AuthActionView::Respond(_) => CommandView::Exists { key: Seq::empty() },
    }
}

/// The step an authentication resumes at (an arbitrary one once it replies).
pub open spec fn auth_step(a: AuthActionView) -> AuthStepView {
    match a {
        AuthActionView::Run(step, _) => step,
        AuthActionView::Respond(_) => AuthStepView::AwaitTableExists,
    }
}

/// Registering a name that Redis does not hold yet, with Redis answering as
/// it documents, ends with a success reply carrying a fresh session token and
/// leaves Redis holding the password hash under the table's key and the
/// table's key under the token. Logging in afterwards with the same password
/// opens a new session, and a message sent with the registration's token (on
/// the table's key) passes the session check, even after that login.
pub proof fn lemma_register_then_login_and_message(
    name: Seq<char>,
    password: Seq<char>,
    s0: StoreModel,
    r1: Reply,
    a1: RegisterActionView,
    r2: Reply,
    a2: RegisterActionView,
    r3: Reply,
    a3: RegisterActionView,
    r4: Reply,
    a4: RegisterActionView,
    q1: Reply,
    b1: AuthActionView,
    q2: Reply,
    b2: AuthActionView,
    text: Seq<char>,
    m1: Reply,
    m2: Reply,
)
    requires
        password_accepted(argon2_encoded_hash(password, password_salt_bytes()), password),
        !s0.contains_key(table_key_of(name)),
        answers(s0, CommandView::Exists { key: table_key_of(name) }, r1),
        register_next(name, RegisterStepView::AwaitTableExists { hashed: argon2_encoded_hash(password, password_salt_bytes()) }, r1, a1),
        answers(s0, register_command(a1), r2),
        register_next(name, register_step(a1), r2, a2),
        answers(apply(s0, register_command(a1)), register_command(a2), r3),
        register_next(name, register_step(a2), r3, a3),
        answers(apply(apply(s0, register_command(a1)), register_command(a2)), register_command(a3), r4),
        register_next(name, register_step(a3), r4, a4),
        answers(
            apply(apply(apply(s0, register_command(a1)), register_command(a2)), register_command(a3)),
            CommandView::Exists { key: table_key_of(name) },
            q1,
        ),
        auth_next(name, password, AuthStepView::AwaitTableExists, q1, b1),
        answers(
            apply(apply(apply(s0, register_command(a1)), register_command(a2)), register_command(a3)),
            auth_command(b1),
            q2,
        ),
        auth_next(name, password, auth_step(b1), q2, b2),
        answers(
            apply(
                apply(apply(apply(s0, register_command(a1)), register_command(a2)), register_command(a3)),
                auth_command(b2),
            ),
            CommandView::Exists { key: session_key_of_step(register_step(a3)) },
            m1,
        ),
        answers(
            apply(
                apply(apply(apply(s0, register_command(a1)), register_command(a2)), register_command(a3)),
                auth_command(b2),
            ),
            CommandView::Get { key: session_key_of_step(register_step(a3)) },
            m2,
        ),
    ensures
        ({
            let token = session_key_of_step(register_step(a3));
            let s3 = apply(apply(apply(s0, register_command(a1)), register_command(a2)), register_command(a3));
            let ctx = MessageContextView { session_key: token, table_key: table_key_of(name), text };
            &&& is_fresh_session_key(token)
            &&& a4 == RegisterActionView::Respond(registered_view(token))
            &&& fields_of(s3, table_key_of(name)).contains_key("hashed_password"@)
            &&& fields_of(s3, table_key_of(name))["hashed_password"@] == argon2_encoded_hash(password, password_salt_bytes())
            &&& s3.contains_key(token) && s3[token] == Entry::Text(table_key_of(name))
            &&& exists|t: Seq<char>|
                #![trigger is_fresh_session_key(t)]
                is_fresh_session_key(t) && b2 == AuthActionView::Run(
                    AuthStepView::AwaitSessionStored { token: t },
                    CommandView::SetString { key: t, value: table_key_of(name) },
                )
            &&& message_next(ctx, MessageStepView::AwaitSessionExists, m1) == MessageActionView::Run(
                MessageStepView::AwaitSessionValue,
                CommandView::Get { key: token },
            )
            &&& message_next(ctx, MessageStepView::AwaitSessionValue, m2) == confirmed_next(ctx)
        }),
{
    let tk = table_key_of(name);
    let h = argon2_encoded_hash(password, password_salt_bytes());
    // The table is absent, so registration stores the hash.
    assert(r1 == Reply::Flag(false));
    assert(a1 == RegisterActionView::Run(
        RegisterStepView::AwaitHashStored,
        CommandView::HSet { key: tk, field: "hashed_password"@, value: h },
    ));
    let s1 = apply(s0, register_command(a1));
    assert(fields_of(s0, tk) =~= Map::<Seq<char>, Seq<char>>::empty());
    assert(s1 == s0.insert(tk, Entry::Fields(Map::<Seq<char>, Seq<char>>::empty().insert("hashed_password"@, h))));
    let s2 = apply(s1, register_command(a2));
    assert(s2 == s1);
    let token = choose|token: Seq<char>|
        #![trigger is_fresh_session_key(token)]
        is_fresh_session_key(token) && a3 == RegisterActionView::Run(
            RegisterStepView::AwaitSessionStored { token },
            CommandView::SetString { key: token, value: tk },
        );
    assert(session_key_of_step(register_step(a3)) == token);
    let id = choose|id: Seq<char>| crate::outside::is_uuid_v4_text(id) && token == session_key_of(id);
    lemma_session_and_table_keys_disjoint(id, name);
    let s3 = apply(s2, register_command(a3));
    assert(s3 == s2.insert(token, Entry::Text(tk)));
    assert(s3.contains_key(tk) && s3[tk] == s1[tk]);
    assert(fields_of(s3, tk) == Map::<Seq<char>, Seq<char>>::empty().insert("hashed_password"@, h));
    // Logging in finds the table and its hash.
    assert(q1 == Reply::Flag(true));
    assert(b1 == AuthActionView::Run(
        AuthStepView::AwaitPasswordHash,
        CommandView::HGet { key: tk, field: "hashed_password"@ },
    ));
    assert(q2.text_value() == h);
    let t2 = choose|t: Seq<char>|
        #![trigger is_fresh_session_key(t)]
        is_fresh_session_key(t) && b2 == AuthActionView::Run(
            AuthStepView::AwaitSessionStored { token: t },
            CommandView::SetString { key: t, value: tk },
        );
    // The login's session write leaves the registration's session in place.
    let s4 = apply(s3, auth_command(b2));
    assert(s4 == s3.insert(t2, Entry::Text(tk)));
    assert(s4.contains_key(token) && s4[token] == Entry::Text(tk));
    assert(m1 == Reply::Flag(true));
    assert(m2.text_value() == tk);
}

/// The session key a step waiting for its session to be stored carries.
pub open spec fn session_key_of_step(step: RegisterStepView) -> Seq<char> {
    match step {
        RegisterStepView::AwaitSessionStored { token } => token,
        _ => Seq::empty(),
    }
}

/// The table's counter field, when its key holds a hash with one.
pub open spec fn time_field(store: StoreModel, table_key: Seq<char>) -> Option<Seq<char>> {
    if fields_of(store, table_key).contains_key("time"@) {
        Some(fields_of(store, table_key)["time"@])
    } else {
        None
    }
}

/// The command run while the handling of a message waits at `step`.
pub open spec fn message_command(ctx: MessageContextView, step: MessageStepView) -> CommandView {
    match step {
        MessageStepView::AwaitSessionExists => CommandView::Exists { key: ctx.session_key },
        MessageStepView::AwaitSessionValue => CommandView::Get { key: ctx.session_key },
        MessageStepView::AwaitCounterExists => CommandView::HExists { key: ctx.table_key, field: "time"@ },
        MessageStepView::AwaitCounterIncrement => CommandView::HIncrBy {
            key: ctx.table_key,
            field: "time"@,
            delta: 1,
        },
        MessageStepView::AwaitCounterReset => CommandView::HSet { key: ctx.table_key, field: "time"@, value: "0"@ },
        MessageStepView::AwaitClearCheck => CommandView::HExists { key: ctx.table_key, field: "time"@ },
        MessageStepView::AwaitClear => CommandView::HDel { key: ctx.table_key, field: "time"@ },
        MessageStepView::AwaitPublish { outgoing } => CommandView::Publish { channel: ctx.table_key, message: outgoing },
        MessageStepView::AwaitActionSaved { .. } => CommandView::HSet {
            key: ctx.table_key,
            field: "action"@,
            value: ctx.text,
        },
    }
}

/// A run of the message protocol against a Redis that answers as it
/// documents: `steps[i]` runs `cmds[i]` in `stores[i]` and gets `replies[i]`;
/// the command's effect gives `stores[i + 1]`; the run ends with `end`.
pub open spec fn message_run(
    ctx: MessageContextView,
    steps: Seq<MessageStepView>,
    cmds: Seq<CommandView>,
    replies: Seq<Reply>,
    stores: Seq<StoreModel>,
    end: MessageActionView,
) -> bool {
    &&& steps.len() >= 1
    &&& cmds.len() == steps.len()
    &&& replies.len() == steps.len()
    &&& stores.len() == steps.len() + 1
    &&& steps[0] == MessageStepView::AwaitSessionExists
    &&& cmds[0] == CommandView::Exists { key: ctx.session_key }
    &&& forall|i: int|
        0 <= i < steps.len() ==> answers(#[trigger] stores[i], cmds[i], replies[i]) && stores[i + 1] == apply(
            stores[i],
            cmds[i],
        )
    &&& forall|i: int|
        0 <= i < steps.len() - 1 ==> message_next(ctx, #[trigger] steps[i], replies[i]) == MessageActionView::Run(
            steps[i + 1],
            cmds[i + 1],
        )
    &&& message_next(ctx, steps[steps.len() - 1], replies[steps.len() - 1]) == end
}

/// The state of the keyspace at each step of a message's handling, relative
/// to the keyspace `s0` it started in.
pub open spec fn message_progress(ctx: MessageContextView, s0: StoreModel, step: MessageStepView, store: StoreModel) -> bool {
    match step {
        MessageStepView::AwaitSessionExists | MessageStepView::AwaitSessionValue => store == s0,
        MessageStepView::AwaitCounterExists => store == s0 && ctx.text == "time"@,
        MessageStepView::AwaitCounterIncrement => store == s0 && ctx.text == "time"@ && fields_of(
            s0,
            ctx.table_key,
        ).contains_key("time"@),
        MessageStepView::AwaitCounterReset => store == s0 && ctx.text == "time"@,
        MessageStepView::AwaitClearCheck | MessageStepView::AwaitClear => store == s0 && ctx.text
            == "no action"@,
        MessageStepView::AwaitPublish { outgoing } | MessageStepView::AwaitActionSaved { outgoing } => {
            &&& !holds_text(store, ctx.table_key)
            &&& greeting_of(Some(ctx.text), time_field(store, ctx.table_key)) == Some(outgoing)
        },
    }
}

/// What the keyspace must hold for the greeting to repeat the last message:
/// the table's key is a hash (or absent), and a counter it holds increments to
/// a positive value.
pub open spec fn counter_well_kept(s0: StoreModel, table_key: Seq<char>) -> bool {
    &&& !holds_text(s0, table_key)
    &&& fields_of(s0, table_key).contains_key("time"@) ==> (incremented(s0, table_key, "time"@, 1) matches Some(
        m,
    ) && m > 0)
}

proof fn lemma_nat_decimal_nonempty(n: nat)
    ensures
        nat_decimal(n).len() >= 1,
    decreases n,
{
    if n >= 10 {
        lemma_nat_decimal_nonempty(n / 10);
    }
}

proof fn lemma_positive_decimal_not_zero(m: int)
    requires
        m > 0,
    ensures
        int_decimal(m) != "0"@,
{
    reveal_strlit("0");
    assert("0"@.len() == 1 && "0"@[0] == '0');
    assert(int_decimal(m) == nat_decimal(m as nat));
    if m < 10 {
        assert(nat_decimal(m as nat) == seq![digit_char(m)]);
        assert(digit_char(m) != '0');
        assert(nat_decimal(m as nat)[0] != "0"@[0]);
    } else {
        lemma_nat_decimal_nonempty((m / 10) as nat);
        assert(nat_decimal(m as nat).len() >= 2);
    }
}

proof fn lemma_message_step(
    ctx: MessageContextView,
    s0: StoreModel,
    step: MessageStepView,
    store: StoreModel,
    reply: Reply,
)
    requires
        counter_well_kept(s0, ctx.table_key),
        message_progress(ctx, s0, step, store),
        answers(store, message_command(ctx, step), reply),
    ensures
        match message_next(ctx, step, reply) {
            MessageActionView::Run(next, cmd) => cmd == message_command(ctx, next) && message_progress(
                ctx,
                s0,
                next,
                apply(store, message_command(ctx, step)),
            ),
            MessageActionView::Delivered { outgoing } => step == (MessageStepView::AwaitActionSaved { outgoing }),
            MessageActionView::Rejected => true,
        },
{
    reveal_strlit("time");
    reveal_strlit("no action");
    reveal_strlit("action");
    reveal_strlit("0");
    assert("time"@.len() == 4 && "no action"@.len() == 9 && "action"@.len() == 6);
    assert("time"@ != "no action"@);
    assert("time"@ != "action"@);
    let tk = ctx.table_key;
    match step {
        MessageStepView::AwaitSessionValue => {
            if reply.text_value() == tk && ctx.text != "time"@ && ctx.text != "no action"@ {
                assert(greeting_of(Some(ctx.text), time_field(store, tk)) == Some(ctx.text));
            }
        },
        MessageStepView::AwaitCounterIncrement => {
            let m = incremented(s0, tk, "time"@, 1)->0;
            assert(reply == Reply::Number(m as i64));
            lemma_positive_decimal_not_zero(m);
            let after = apply(store, message_command(ctx, step));
            assert(fields_of(after, tk) == fields_of(s0, tk).insert("time"@, int_decimal(m)));
            assert(counter_text(ctx.text, reply.number_value()) == ctx.text + " "@ + int_decimal(m));
        },
        MessageStepView::AwaitCounterReset => {
            let after = apply(store, message_command(ctx, step));
            assert(fields_of(after, tk) == fields_of(s0, tk).insert("time"@, "0"@));
        },
        MessageStepView::AwaitClearCheck => {
            assert(greeting_of(Some(ctx.text), time_field(store, tk)) == Some(ctx.text));
        },
        MessageStepView::AwaitClear => {
            let after = apply(store, message_command(ctx, step));
            assert(!holds_text(after, tk));
            assert(greeting_of(Some(ctx.text), time_field(after, tk)) == Some(ctx.text));
        },
        _ => {},
    }
}

/// Along a run started in a well-kept keyspace, every step sees the
/// keyspace `message_progress` describes and runs the command for its step.
proof fn lemma_message_run_progress(
    ctx: MessageContextView,
    steps: Seq<MessageStepView>,
    cmds: Seq<CommandView>,
    replies: Seq<Reply>,
    stores: Seq<StoreModel>,
    end: MessageActionView,
    i: int,
)
    requires
        counter_well_kept(stores[0], ctx.table_key),
        message_run(ctx, steps, cmds, replies, stores, end),
        0 <= i < steps.len(),
    ensures
        cmds[i] == message_command(ctx, steps[i]),
        message_progress(ctx, stores[0], steps[i], stores[i]),
    decreases i,
{
    if i > 0 {
        lemma_message_run_progress(ctx, steps, cmds, replies, stores, end, i - 1);
        assert(answers(stores[i - 1], cmds[i - 1], replies[i - 1]));
        lemma_message_step(ctx, stores[0], steps[i - 1], stores[i - 1], replies[i - 1]);
        assert(message_next(ctx, steps[i - 1], replies[i - 1]) == MessageActionView::Run(steps[i], cmds[i]));
        assert(stores[i] == apply(stores[i - 1], cmds[i - 1]));
    }
}

/// A client that connects after a message was delivered is greeted with the
/// text that was published for it: the table's stored action and counter
/// reproduce it (given a counter that increments to a positive value, when
/// there is one).
pub proof fn lemma_greeting_repeats_last_message(
    ctx: MessageContextView,
    steps: Seq<MessageStepView>,
    cmds: Seq<CommandView>,
    replies: Seq<Reply>,
    stores: Seq<StoreModel>,
    outgoing: Seq<char>,
    action_reply: Reply,
    time_reply: Reply,
)
    requires
        counter_well_kept(stores[0], ctx.table_key),
        message_run(ctx, steps, cmds, replies, stores, MessageActionView::Delivered { outgoing }),
        answers(stores[steps.len() as int], CommandView::HGet { key: ctx.table_key, field: "action"@ }, action_reply),
        answers(stores[steps.len() as int], CommandView::HGet { key: ctx.table_key, field: "time"@ }, time_reply),
    ensures
        greeting_of(action_reply.opt_text_value(), time_reply.opt_text_value()) == Some(outgoing),
{
    let k = steps.len() as int;
    let s0 = stores[0];
    lemma_message_run_progress(ctx, steps, cmds, replies, stores, MessageActionView::Delivered { outgoing }, k - 1);
    assert(answers(stores[k - 1], cmds[k - 1], replies[k - 1]));
    lemma_message_step(ctx, s0, steps[k - 1], stores[k - 1], replies[k - 1]);
    let last = stores[k - 1];
    let tk = ctx.table_key;
    let fin = stores[k];
    reveal_strlit("time");
    reveal_strlit("action");
    assert("time"@.len() == 4 && "action"@.len() == 6);
    assert("time"@ != "action"@);
    assert(fin == apply(last, cmds[k - 1]));
    assert(fields_of(fin, tk) == fields_of(last, tk).insert("action"@, ctx.text));
    assert(time_field(fin, tk) == time_field(last, tk));
    assert(action_reply.opt_text_value() == Some(ctx.text));
    assert(time_reply.opt_text_value() == time_field(fin, tk));
}

} // verus!
