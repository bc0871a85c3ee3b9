//! Local message store: the schema, the row that an append writes, and the
//! ordering of the rows that a listing returns.

use vstd::multiset::Multiset;
use vstd::prelude::*;

verus! {

/// Creates the messages table; safe to run on every start.
pub const CREATE_MESSAGES_TABLE: &'static str = "CREATE TABLE IF NOT EXISTS messages (
            id INTEGER PRIMARY KEY AUTOINCREMENT,
            session_id TEXT NOT NULL,
            role TEXT NOT NULL,
            content TEXT NOT NULL,
            timestamp INTEGER NOT NULL
        )";

/// Creates the sessions table; safe to run on every start.
pub const CREATE_SESSIONS_TABLE: &'static str = "CREATE TABLE IF NOT EXISTS sessions (
            id TEXT PRIMARY KEY,
            title TEXT NOT NULL,
            created_at INTEGER NOT NULL,
            updated_at INTEGER NOT NULL
        )";

/// Inserts one message; parameters are session id, role, content, timestamp.
pub const INSERT_MESSAGE: &'static str =
    "INSERT INTO messages (session_id, role, content, timestamp) VALUES (?1, ?2, ?3, ?4)";

/// Selects the rows of one session; the parameter is the session id.
/// Columns: id, session_id, role, content, timestamp.
pub const SELECT_SESSION_MESSAGES: &'static str =
    "SELECT id, session_id, role, content, timestamp FROM messages WHERE session_id = ?1 ORDER BY timestamp ASC, id ASC";

/// A message as the messages table holds it. `id` is assigned by the store
/// and grows with each insert, so it records insertion order.
#[derive(Clone, Debug, PartialEq, Eq)]
pub struct MessageRow {
    pub id: i64,
    pub session_id: String,
    pub role: String,
    pub content: String,
    pub timestamp: i64,
}

/// A message as a listing returns it.
#[derive(Clone, Debug, PartialEq, Eq)]
pub struct MessageRecord {
    pub role: String,
    pub content: String,
    pub timestamp: i64,
}

/// What an append writes, before the store assigns the row id.
#[derive(Clone, Debug, PartialEq, Eq)]
pub struct NewMessage {
    pub session_id: String,
    pub role: String,
    pub content: String,
    pub timestamp: i64,
}

/// Listing order: by timestamp, and among equal timestamps by insertion.
pub open spec fn listed_before(a: MessageRow, b: MessageRow) -> bool {
    a.timestamp < b.timestamp || (a.timestamp == b.timestamp && a.id <= b.id)
}

pub open spec fn in_session(session_id: Seq<char>) -> spec_fn(MessageRow) -> bool {
    |row: MessageRow| row.session_id@ == session_id
}

pub open spec fn sorted_for_listing(rows: Seq<MessageRow>) -> bool {
    forall|i: int, j: int| 0 <= i < j < rows.len() ==> listed_before(#[trigger] rows[i], #[trigger] rows[j])
}

/// `listed` is a listing of `session_id` over the stored `rows`: exactly the
/// rows of that session, in listing order.
pub open spec fn is_session_listing(session_id: Seq<char>, rows: Seq<MessageRow>, listed: Seq<MessageRow>) -> bool {
    &&& sorted_for_listing(listed)
    &&& listed.to_multiset() == rows.filter(in_session(session_id)).to_multiset()
}

pub open spec fn record_of(row: MessageRow) -> MessageRecord {
    MessageRecord { role: row.role, content: row.content, timestamp: row.timestamp }
}

pub(crate) fn copy_string(s: &String) -> (r: String)
    ensures
        r == *s,
{
    s.clone()
}

fn copy_row(row: &MessageRow) -> (r: MessageRow)
    ensures
        r == *row,
{
    MessageRow {
        id: row.id,
        session_id: copy_string(&row.session_id),
        role: copy_string(&row.role),
        content: copy_string(&row.content),
        timestamp: row.timestamp,
    }
}


fn listed_before_exec(a: &MessageRow, b: &MessageRow) -> (r: bool)
    ensures
        r == listed_before(*a, *b),
{
    a.timestamp < b.timestamp || (a.timestamp == b.timestamp && a.id <= b.id)
}

/// Inserts `row` into the sorted `out` after every row that is listed
/// before it, so that `out` stays sorted.
fn insert_in_order(out: &mut Vec<MessageRow>, row: MessageRow)
    requires
        sorted_for_listing(old(out)@),
    ensures
        sorted_for_listing(final(out)@),
        final(out)@.to_multiset() == old(out)@.to_multiset().insert(row),
{
    let mut j: usize = 0;
    while j < out.len() && listed_before_exec(&out[j], &row)
        invariant
            j <= out.len(),
            sorted_for_listing(out@),
            forall|k: int| 0 <= k < j ==> listed_before(#[trigger] out@[k], row),
        decreases out.len() - j,
    {
        j = j + 1;
    }
    let ghost before = out@;
    out.insert(j, row);
    proof {
        broadcast use vstd::seq_lib::to_multiset_insert;
        assert forall|a: int, b: int| 0 <= a < b < out@.len() implies listed_before(
            #[trigger] out@[a],
            #[trigger] out@[b],
        ) by {
            if a < j && b == j {
            } else if a == j && b > j {
                assert(out@[b] == before[b - 1]);
                assert(!listed_before(before[j as int], row));
                assert(listed_before(before[j as int], before[b - 1]) || j as int == b - 1);
            } else {
                let a0 = if a < j { a } else { a - 1 };
                let b0 = if b < j { b } else { b - 1 };
                assert(out@[a] == before[a0]);
                assert(out@[b] == before[b0]);
            }
        }
    }
}

/// Orders the rows that the store returned for `session_id` into a listing:
/// the rows of that session and no others, by timestamp, and among equal
/// timestamps by id, that is in insertion order.
pub fn order_session_rows(session_id: &String, rows: &Vec<MessageRow>) -> (r: Vec<MessageRow>)
    ensures
        is_session_listing(session_id@, rows@, r@),
        forall|i: int| 0 <= i < r@.len() ==> (#[trigger] r@[i]).session_id@ == session_id@,
{
    let mut out: Vec<MessageRow> = Vec::new();
    let mut i: usize = 0;
    proof {
        reveal(Seq::filter);
        broadcast use vstd::seq_lib::group_to_multiset_ensures;
        assert(rows@.take(0) =~= Seq::<MessageRow>::empty());
        assert(out@.to_multiset() =~= Multiset::empty());
    }
    while i < rows.len()
        invariant
            i <= rows.len(),
            sorted_for_listing(out@),
            out@.to_multiset() == rows@.take(i as int).filter(in_session(session_id@)).to_multiset(),
        decreases rows.len() - i,
    {
        proof {
            broadcast use Seq::lemma_filter_push;
            assert(rows@.take(i + 1) == rows@.take(i as int).push(rows@[i as int]));
        }
        if rows[i].session_id == *session_id {
            insert_in_order(&mut out, copy_row(&rows[i]));
            proof { broadcast use vstd::seq_lib::to_multiset_build; }
        }
        i = i + 1;
    }
    proof {
        assert(rows@.take(rows@.len() as int) == rows@);
        broadcast use vstd::seq_lib::group_filter_ensures, vstd::seq_lib::to_multiset_contains;
        assert forall|k: int| 0 <= k < out@.len() implies (#[trigger] out@[k]).session_id@ == session_id@ by {
            assert(out@.to_multiset().contains(out@[k]));
            assert(rows@.filter(in_session(session_id@)).contains(out@[k]));
        }
    }
    out
}


/// The records of `rows`, one for each, in the same order.
pub fn records_of(rows: &Vec<MessageRow>) -> (r: Vec<MessageRecord>)
    ensures
        r@ == rows@.map_values(|row: MessageRow| record_of(row)),
{
    let mut out: Vec<MessageRecord> = Vec::new();
    let mut i: usize = 0;
    while i < rows.len()
        invariant
            i <= rows.len(),
            out@ == rows@.take(i as int).map_values(|row: MessageRow| record_of(row)),
        decreases rows.len() - i,
    {
        let row = &rows[i];
        out.push(
            MessageRecord {
                role: copy_string(&row.role),
                content: copy_string(&row.content),
                timestamp: row.timestamp,
            },
        );
        proof {
            assert(rows@.take(i + 1) == rows@.take(i as int).push(rows@[i as int]));
            assert(out@ =~= rows@.take(i + 1).map_values(|row: MessageRow| record_of(row)));
        }
        i = i + 1;
    }
    proof {
        assert(rows@.take(rows@.len() as int) == rows@);
    }
    out
}

/// The listing of `session_id` over the rows that the store returned: the
/// records of that session's rows, by timestamp and then insertion order.
pub fn session_listing(session_id: &String, rows: &Vec<MessageRow>) -> (r: Vec<MessageRecord>)
    ensures
        exists|listed: Seq<MessageRow>|
            is_session_listing(session_id@, rows@, listed)
                && r@ == listed.map_values(|row: MessageRow| record_of(row)),
{
    let listed = order_session_rows(session_id, rows);
    let r = records_of(&listed);
    assert(is_session_listing(session_id@, rows@, listed@));
    r
}

/// Timestamp that an append stores for the wall-clock reading `now_secs`
/// (whole seconds since the Unix epoch), as a signed 64-bit integer.
pub fn epoch_timestamp(now_secs: u64) -> (r: i64)
    ensures
        r == now_secs as i64,
        now_secs <= i64::MAX ==> r == now_secs,
{
    now_secs as i64
}

/// What an append writes for a message of `role` with `content` in
/// `session_id`, made at the wall-clock reading `now_secs`. Neither the
/// session nor the role is checked: any string is stored as given.
pub fn new_message(session_id: String, role: String, content: String, now_secs: u64) -> (r: NewMessage)
    ensures
        r.session_id == session_id,
        r.role == role,
        r.content == content,
        r.timestamp == now_secs as i64,
{
    NewMessage { session_id, role, content, timestamp: epoch_timestamp(now_secs) }
}

/// The row that the store holds for `message` once it has assigned `id`.
pub open spec fn stored_row(message: NewMessage, id: i64) -> MessageRow {
    MessageRow {
        id,
        session_id: message.session_id,
        role: message.role,
        content: message.content,
        timestamp: message.timestamp,
    }
}

/// A message appended to a session is in that session's listing afterwards,
/// and in the listing of no other session.
pub proof fn lemma_appended_message_is_listed(
    rows: Seq<MessageRow>,
    message: NewMessage,
    id: i64,
    listed: Seq<MessageRow>,
    other_session: Seq<char>,
    other_listed: Seq<MessageRow>,
)
    requires
        is_session_listing(message.session_id@, rows.push(stored_row(message, id)), listed),
        other_session != message.session_id@,
        is_session_listing(other_session, rows.push(stored_row(message, id)), other_listed),
    ensures
        listed.contains(stored_row(message, id)),
        !other_listed.contains(stored_row(message, id)),
{
    broadcast use vstd::seq_lib::to_multiset_contains, vstd::seq_lib::group_to_multiset_ensures,
        vstd::seq_lib::group_filter_ensures, Seq::lemma_filter_push;

    let row = stored_row(message, id);
    let all = rows.push(row);
    assert(all.filter(in_session(message.session_id@)) == rows.filter(in_session(message.session_id@)).push(row));
    assert(all.filter(in_session(message.session_id@)).contains(row)) by {
        let f = rows.filter(in_session(message.session_id@));
        assert(f.push(row)[f.len() as int] == row);
    }
    assert(listed.to_multiset().count(row) > 0);
    if other_listed.contains(row) {
        assert(other_listed.to_multiset().count(row) > 0);
        assert(all.filter(in_session(other_session)).to_multiset().count(row) > 0);
        assert(all.filter(in_session(other_session)).contains(row));
        let k = choose|k: int| 0 <= k < all.filter(in_session(other_session)).len()
            && all.filter(in_session(other_session))[k] == row;
        assert(in_session(other_session)(all.filter(in_session(other_session))[k]));
    }
}

/// A session that has no stored messages lists as empty.
pub proof fn lemma_session_without_messages_lists_empty(
    session_id: Seq<char>,
    rows: Seq<MessageRow>,
    listed: Seq<MessageRow>,
)
    requires
        forall|i: int| 0 <= i < rows.len() ==> (#[trigger] rows[i]).session_id@ != session_id,
        is_session_listing(session_id, rows, listed),
    ensures
        listed.len() == 0,
{
    broadcast use vstd::seq_lib::group_to_multiset_ensures, vstd::seq_lib::group_filter_ensures;

    let f = rows.filter(in_session(session_id));
    if f.len() > 0 {
        assert(in_session(session_id)(f[0]));
        assert(f.contains(f[0]));
        rows.lemma_filter_contains_rev(in_session(session_id), f[0]);
        let k = choose|k: int| 0 <= k < rows.len() && rows[k] == f[0];
        assert(rows[k].session_id@ != session_id);
    }
    assert(f.len() == 0);
    assert(listed.to_multiset().len() == 0);
}

} // verus!
