//! `GET /tables`: list the keys of all tables stored as Redis hashes, by
//! walking `SCAN ... MATCH table:*` and asking `TYPE` of each key found.
use vstd::prelude::*;
use crate::store::{texts, Command, CommandView, Reply};

verus! {

/// A key found by the scan, with what `TYPE` answered for it.
pub type Examined = Seq<(Seq<char>, Seq<char>)>;

/// The keys, in order, whose type was reported as `hash`.
pub open spec fn hash_keys(examined: Examined) -> Seq<Seq<char>>
    decreases examined.len(),
{
    if examined.len() == 0 {
        Seq::empty()
    } else {
        let rest = hash_keys(examined.drop_last());
        if examined.last().1 == "hash"@ {
            rest.push(examined.last().0)
        } else {
            rest
        }
    }
}

/// Where the listing stands. `examined` records every key whose type was
/// read so far (it exists only for the proofs).
pub enum ListStep {
    AwaitPage { found: Vec<String>, examined: Ghost<Examined> },
    AwaitKeyType {
        found: Vec<String>,
        cursor: u64,
        page: Vec<String>,
        index: usize,
        examined: Ghost<Examined>,
    },
}

pub enum ListStepView {
    AwaitPage { found: Seq<Seq<char>>, examined: Examined },
    AwaitKeyType {
        found: Seq<Seq<char>>,
        cursor: u64,
        page: Seq<Seq<char>>,
        index: int,
        examined: Examined,
    },
}

impl View for ListStep {
    type V = ListStepView;

    open spec fn view(&self) -> ListStepView {
        match self {
            ListStep::AwaitPage { found, examined } => ListStepView::AwaitPage {
                found: texts(found@),
                examined: examined@,
            },
            ListStep::AwaitKeyType { found, cursor, page, index, examined } => ListStepView::AwaitKeyType {
                found: texts(found@),
                cursor: *cursor,
                page: texts(page@),
                index: *index as int,
                examined: examined@,
            },
        }
    }
}

impl ListStepView {
    /// The keys kept so far are exactly the hash keys among those examined,
    /// and a type is awaited only for a key of the current page.
    pub open spec fn wf(self) -> bool {
        match self {
            ListStepView::AwaitPage { found, examined } => found == hash_keys(examined),
            ListStepView::AwaitKeyType { found, page, index, examined, .. } => {
                &&& found == hash_keys(examined)
                &&& 0 <= index < page.len()
            },
        }
    }
}

/// Why a listing failed.
#[derive(Debug, Clone, PartialEq, Eq)]
pub enum ListError {
    /// Redis answered a command with an error; its description.
    Redis(String),
}

/// What to do next: run a command and resume, or finish with the list.
pub enum ListAction {
    Run(ListStep, Command),
    Finish(Result<Vec<String>, ListError>),
}

pub enum ListActionView {
    Run(ListStepView, CommandView),
    /// The listed keys, or the description of the error Redis answered.
    Finish(Result<Seq<Seq<char>>, Seq<char>>),
}

impl View for ListAction {
    type V = ListActionView;

    open spec fn view(&self) -> ListActionView {
        match self {
            ListAction::Run(step, cmd) => ListActionView::Run(step@, cmd@),
            ListAction::Finish(Ok(keys)) => ListActionView::Finish(Ok(texts(keys@))),
            ListAction::Finish(Err(ListError::Redis(e))) => ListActionView::Finish(Err(e@)),
        }
    }
}

/// The match pattern of the scan.
pub open spec fn table_pattern() -> Seq<char> {
    "table:*"@
}

/// At the end of a page: done when the cursor is back at 0, else fetch the
/// next page.
pub open spec fn after_page(found: Seq<Seq<char>>, examined: Examined, cursor: u64) -> ListActionView {
    if cursor == 0 {
        ListActionView::Finish(Ok(found))
    } else {
        ListActionView::Run(
            ListStepView::AwaitPage { found, examined },
            CommandView::Scan { cursor, pattern: table_pattern() },
        )
    }
}

/// The listing protocol: the next action at each step, given Redis's answer.
pub open spec fn list_next(step: ListStepView, reply: Reply) -> ListActionView {
    match step {
        ListStepView::AwaitPage { found, examined } => match reply {
            Reply::Page { cursor, keys } => if keys@.len() == 0 {
                after_page(found, examined, cursor)
            } else {
                ListActionView::Run(
                    ListStepView::AwaitKeyType { found, cursor, page: texts(keys@), index: 0, examined },
                    CommandView::KeyType { key: keys@[0]@ },
                )
            },
            _ => ListActionView::Finish(Err(reply.failure_text())),
        },
        ListStepView::AwaitKeyType { found, cursor, page, index, examined } => match reply {
            Reply::Text(Some(t)) => {
                let examined2 = examined.push((page[index], t@));
                let found2 = if t@ == "hash"@ {
                    found.push(page[index])
                } else {
                    found
                };
                if index + 1 < page.len() {
                    ListActionView::Run(
                        ListStepView::AwaitKeyType { found: found2, cursor, page, index: index + 1, examined: examined2 },
                        CommandView::KeyType { key: page[index + 1] },
                    )
                } else {
                    after_page(found2, examined2, cursor)
                }
            },
            _ => ListActionView::Finish(Err(reply.failure_text())),
        },
    }
}

/// The first command: scan from cursor 0 for `table:*`.
pub fn list_start() -> (first: (ListStep, Command))
    ensures
        first.0@ == (ListStepView::AwaitPage { found: Seq::empty(), examined: Seq::empty() }),
        first.0@.wf(),
        first.1@ == (CommandView::Scan { cursor: 0, pattern: table_pattern() }),
{
    let found: Vec<String> = Vec::new();
    assert(texts(found@) =~= Seq::empty());
    (
        ListStep::AwaitPage { found, examined: Ghost(Seq::empty()) },
        Command::Scan { cursor: 0, pattern: String::from_str("table:*") },
    )
}

fn copy_texts(v: &Vec<String>) -> (copy: Vec<String>)
    ensures
        texts(copy@) == texts(v@),
        copy@.len() == v@.len(),
{
    let mut copy: Vec<String> = Vec::new();
    let mut i: usize = 0;
    while i < v.len()
        invariant
            i <= v@.len(),
            texts(copy@) =~= texts(v@).take(i as int),
        decreases v@.len() - i,
    {
        let ghost before = copy@;
        copy.push(v[i].clone());
        assert(texts(copy@) =~= texts(before).push(v@[i as int]@));
        assert(texts(v@).take(i as int + 1) =~= texts(v@).take(i as int).push(texts(v@)[i as int]));
        i = i + 1;
    }
    assert(texts(v@).take(v@.len() as int) =~= texts(v@));
    copy
}

fn finish_page(found: Vec<String>, examined: Ghost<Examined>, cursor: u64) -> (next: ListAction)
    ensures
        next@ == after_page(texts(found@), examined@, cursor),
{
    if cursor == 0 {
        ListAction::Finish(Ok(found))
    } else {
        ListAction::Run(
            ListStep::AwaitPage { found, examined },
            Command::Scan { cursor, pattern: String::from_str("table:*") },
        )
    }
}

/// Advances the listing with Redis's answer to the last command.
pub fn list_resume(step: ListStep, reply: &Reply) -> (next: ListAction)
    requires
        step@.wf(),
    ensures
        next@ == list_next(step@, *reply),
        next matches ListAction::Run(s, _) ==> s@.wf(),
{
    match step {
        ListStep::AwaitPage { found, examined } => match reply {
            Reply::Page { cursor, keys } => {
                if keys.len() == 0 {
                    finish_page(found, examined, *cursor)
                } else {
                    let page = copy_texts(keys);
                    let first = page[0].clone();
                    assert(texts(page@)[0] == page@[0]@ && texts(keys@)[0] == keys@[0]@);
                    ListAction::Run(
                        ListStep::AwaitKeyType { found, cursor: *cursor, page, index: 0, examined },
                        Command::KeyType { key: first },
                    )
                }
            },
            _ => ListAction::Finish(Err(ListError::Redis(reply.failure()))),
        },
        ListStep::AwaitKeyType { found, cursor, page, index, examined } => match reply {
            Reply::Text(Some(t)) => {
                let mut found = found;
                assert(texts(page@).len() == page@.len());
                let key = page[index].clone();
                let ghost old_found = found@;
                let examined2: Ghost<Examined> = Ghost(examined@.push((key@, t@)));
                let hash = String::from_str("hash");
                if *t == hash {
                    found.push(key);
                    assert(texts(found@) =~= texts(old_found).push(page@[index as int]@));
                }
                proof {
                    let e2 = examined2@;
                    assert(e2.drop_last() =~= examined@);
                }
                let n = page.len();
                if index + 1 < n {
                    let key_next = page[index + 1].clone();
                    ListAction::Run(
                        ListStep::AwaitKeyType { found, cursor, page, index: index + 1, examined: examined2 },
                        Command::KeyType { key: key_next },
                    )
                } else {
                    finish_page(found, examined2, cursor)
                }
            },
            _ => ListAction::Finish(Err(ListError::Redis(reply.failure()))),
        },
    }
}

/// The listing the scan finishes with is exactly the keys, in scan order,
/// that `TYPE` reported as hashes, over every key the scan returned.
pub proof fn lemma_listing_is_hash_keys(step: ListStepView, reply: Reply)
    requires
        step.wf(),
    ensures
        list_next(step, reply) matches ListActionView::Finish(Ok(keys)) ==> keys == hash_keys(
            match step {
                ListStepView::AwaitPage { examined, .. } => examined,
                ListStepView::AwaitKeyType { page, index, examined, .. } => examined.push(
                    (page[index], reply.text_value()),
                ),
            },
        ),
        list_next(step, reply) matches ListActionView::Run(s, _) ==> s.wf(),
{
    match step {
        ListStepView::AwaitPage { .. } => {},
        ListStepView::AwaitKeyType { page, index, examined, .. } => {
            let e2 = examined.push((page[index], reply.text_value()));
            assert(e2.drop_last() =~= examined);
        },
    }
}

/// The keys of every `SCAN` page among `replies`, in order.
pub open spec fn page_keys(replies: Seq<Reply>) -> Seq<Seq<char>>
    decreases replies.len(),
{
    if replies.len() == 0 {
        Seq::empty()
    } else {
        let earlier = page_keys(replies.drop_last());
        match replies.last() {
            Reply::Page { keys, .. } => earlier + texts(keys@),
            _ => earlier,
        }
    }
}

/// The text answers among `replies` (the answers to `TYPE`), in order.
pub open spec fn type_answers(replies: Seq<Reply>) -> Seq<Seq<char>>
    decreases replies.len(),
{
    if replies.len() == 0 {
        Seq::empty()
    } else {
        let earlier = type_answers(replies.drop_last());
        match replies.last() {
            Reply::Text(Some(t)) => earlier.push(t@),
            _ => earlier,
        }
    }
}

/// The cursor of the last `SCAN` page among `replies` (0 if there is none).
pub open spec fn last_page_cursor(replies: Seq<Reply>) -> u64
    decreases replies.len(),
{
    if replies.len() == 0 {
        0
    } else {
        match replies.last() {
            Reply::Page { cursor, .. } => cursor,
            _ => last_page_cursor(replies.drop_last()),
        }
    }
}

/// The keys `keys[i]` whose type answer `types[i]` is `hash`, in order.
pub open spec fn keys_typed_hash(keys: Seq<Seq<char>>, types: Seq<Seq<char>>) -> Seq<Seq<char>>
    decreases types.len(),
{
    if types.len() == 0 {
        Seq::empty()
    } else {
        let earlier = keys_typed_hash(keys, types.drop_last());
        if types.last() == "hash"@ {
            earlier.push(keys[types.len() - 1])
        } else {
            earlier
        }
    }
}

/// The step a listing action resumes at, if it runs a command.
pub open spec fn list_resumes_at(a: ListActionView) -> Option<ListStepView> {
    match a {
        ListActionView::Run(step, _) => Some(step),
        ListActionView::Finish(_) => None,
    }
}

/// A run of the listing from its start: `steps[i]` receives `replies[i]`,
/// each action resumes at the next step, and the last one gives `end`.
pub open spec fn list_run(steps: Seq<ListStepView>, replies: Seq<Reply>, end: ListActionView) -> bool {
    &&& steps.len() >= 1
    &&& replies.len() == steps.len()
    &&& steps[0] == (ListStepView::AwaitPage { found: Seq::empty(), examined: Seq::empty() })
    &&& forall|i: int|
        0 <= i < steps.len() - 1 ==> list_resumes_at(list_next(#[trigger] steps[i], replies[i])) == Some(
            steps[i + 1],
        )
    &&& list_next(steps[steps.len() - 1], replies[steps.len() - 1]) == end
}

/// What holds at a step, given the answers received so far.
pub open spec fn list_progress(step: ListStepView, received: Seq<Reply>) -> bool {
    let keys = page_keys(received);
    let types = type_answers(received);
    match step {
        ListStepView::AwaitPage { found, .. } => {
            &&& types.len() == keys.len()
            &&& found == keys_typed_hash(keys, types)
        },
        ListStepView::AwaitKeyType { found, cursor, page, index, .. } => {
            &&& 0 <= index < page.len()
            &&& types.len() + page.len() - index == keys.len()
            &&& forall|j: int| 0 <= j < page.len() - index ==> keys[types.len() + j] == #[trigger] page[index + j]
            &&& found == keys_typed_hash(keys, types)
            &&& cursor == last_page_cursor(received)
        },
    }
}

proof fn lemma_keys_typed_hash_prefix(a: Seq<Seq<char>>, b: Seq<Seq<char>>, types: Seq<Seq<char>>)
    requires
        types.len() <= a.len(),
        types.len() <= b.len(),
        forall|i: int| 0 <= i < types.len() ==> a[i] == b[i],
    ensures
        keys_typed_hash(a, types) == keys_typed_hash(b, types),
    decreases types.len(),
{
    if types.len() > 0 {
        lemma_keys_typed_hash_prefix(a, b, types.drop_last());
    }
}

proof fn lemma_list_progress_step(step: ListStepView, received: Seq<Reply>, reply: Reply)
    requires
        list_progress(step, received),
    ensures
        ({
            let after = received.push(reply);
            match list_next(step, reply) {
                ListActionView::Run(next, _) => list_progress(next, after),
                ListActionView::Finish(Ok(keys)) => {
                    &&& type_answers(after).len() == page_keys(after).len()
                    &&& keys == keys_typed_hash(page_keys(after), type_answers(after))
                    &&& last_page_cursor(after) == 0
                },
                ListActionView::Finish(Err(_)) => true,
            }
        }),
{
    let after = received.push(reply);
    assert(after.drop_last() =~= received);
    assert(after.last() == reply);
    let keys = page_keys(received);
    let types = type_answers(received);
    match step {
        ListStepView::AwaitPage { found, .. } => {
            if let Reply::Page { cursor, keys: page } = reply {
                let k2 = keys + texts(page@);
                assert(page_keys(after) == k2);
                assert(type_answers(after) == types);
                lemma_keys_typed_hash_prefix(keys, k2, types);
                assert forall|j: int| 0 <= j < texts(page@).len() implies k2[types.len() + j] == #[trigger] texts(
                    page@,
                )[0 + j] by {}
            }
        },
        ListStepView::AwaitKeyType { found, cursor, page, index, .. } => {
            if let Reply::Text(Some(t)) = reply {
                let t2 = types.push(t@);
                assert(page_keys(after) == keys);
                assert(type_answers(after) == t2);
                assert(last_page_cursor(after) == last_page_cursor(received));
                assert(t2.drop_last() =~= types);
                assert(keys[types.len() as int + 0] == page[index + 0]);
                assert(keys_typed_hash(keys, t2) == if t@ == "hash"@ {
                    found.push(page[index])
                } else {
                    found
                });
                if index + 1 < page.len() {
                    assert forall|j: int| 0 <= j < page.len() - (index + 1) implies keys[t2.len() + j]
                        == #[trigger] page[index + 1 + j] by {
                        assert(keys[types.len() as int + (j + 1)] == page[index + (j + 1)]);
                    }
                }
            }
        },
    }
}

proof fn lemma_list_run_progress(steps: Seq<ListStepView>, replies: Seq<Reply>, end: ListActionView, i: int)
    requires
        list_run(steps, replies, end),
        0 <= i < steps.len(),
    ensures
        list_progress(steps[i], replies.take(i)),
    decreases i,
{
    if i == 0 {
        assert(replies.take(0) =~= Seq::<Reply>::empty());
        assert(keys_typed_hash(Seq::empty(), Seq::empty()) == Seq::<Seq<char>>::empty());
    } else {
        lemma_list_run_progress(steps, replies, end, i - 1);
        lemma_list_progress_step(steps[i - 1], replies.take(i - 1), replies[i - 1]);
        assert(replies.take(i - 1).push(replies[i - 1]) =~= replies.take(i));
        assert(list_resumes_at(list_next(steps[i - 1], replies[i - 1])) == Some(steps[i]));
    }
}

/// A listing that finishes with a list has asked `TYPE` of every key of every
/// page `SCAN` returned, stopped on a page whose cursor was 0, and lists
/// exactly the keys whose answer was `hash`, in scan order: no key a page
/// returned is skipped, and no other key is added.
pub proof fn lemma_listing_covers_every_scanned_key(steps: Seq<ListStepView>, replies: Seq<Reply>, keys: Seq<Seq<char>>)
    requires
        list_run(steps, replies, ListActionView::Finish(Ok(keys))),
    ensures
        type_answers(replies).len() == page_keys(replies).len(),
        keys == keys_typed_hash(page_keys(replies), type_answers(replies)),
        last_page_cursor(replies) == 0,
{
    let k = steps.len() as int;
    lemma_list_run_progress(steps, replies, ListActionView::Finish(Ok(keys)), k - 1);
    lemma_list_progress_step(steps[k - 1], replies.take(k - 1), replies[k - 1]);
    assert(replies.take(k - 1).push(replies[k - 1]) =~= replies);
}

} // verus!
