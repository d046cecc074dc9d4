use vstd::prelude::*;

verus! {

/// The Redis key under which a table's hash is stored.
pub open spec fn table_key_of(tablename: Seq<char>) -> Seq<char> {
    "table:"@ + tablename
}

/// The Redis key under which a session is stored.
pub open spec fn session_key_of(session_id: Seq<char>) -> Seq<char> {
    "session:"@ + session_id
}

/// Builds the key `table:<tablename>`.
pub fn table_key(tablename: &str) -> (key: String)
    ensures
        key@ == table_key_of(tablename@),
{
    String::from_str("table:").concat(tablename)
}

/// Builds the key `session:<session_id>`.
pub fn session_key(session_id: &str) -> (key: String)
    ensures
        key@ == session_key_of(session_id@),
{
    String::from_str("session:").concat(session_id)
}

/// Distinct table names give distinct table keys.
pub proof fn lemma_table_key_injective(a: Seq<char>, b: Seq<char>)
    requires
        table_key_of(a) == table_key_of(b),
    ensures
        a == b,
{
    let p = "table:"@;
    assert(a =~= table_key_of(a).subrange(p.len() as int, table_key_of(a).len() as int));
    assert(b =~= table_key_of(b).subrange(p.len() as int, table_key_of(b).len() as int));
}

/// A session key is never a table key: the two namespaces are disjoint.
pub proof fn lemma_session_and_table_keys_disjoint(session_id: Seq<char>, tablename: Seq<char>)
    ensures
        session_key_of(session_id) != table_key_of(tablename),
{
    reveal_strlit("table:");
    reveal_strlit("session:");
    assert(session_key_of(session_id)[0] == 's');
    assert(table_key_of(tablename)[0] == 't');
}

} // verus!
