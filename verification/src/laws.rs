//! The engine's laws: properties that tie the cursor-table transitions
//! together, stated and proved over the same predicates the executable
//! methods' contracts use.

use vstd::prelude::*;

use crate::cursor::{
    CursorTable, drained_at, entry_absorbed, entry_drained, fresh_entry, fresh_table_for,
    is_zero_start, reclaim_absorbed_at, spec_read_key, zero_id,
};
use crate::engine::{Consumer, ReadRequest, read_request_for};

verus! {

/// Law: the group-read a consumer asks for reads each stream under its own
/// name and with the key its mode dictates — the "new entries only" marker in
/// LIVE mode, the zero ID when the stream replays its pending list from the
/// start.
pub proof fn lemma_read_request_reflects_modes(c: Consumer, q: ReadRequest, i: int)
    requires
        read_request_for(c, q),
        0 <= i < c.cursors.entries@.len(),
    ensures
        q.stream_names@[i]@ == c.cursors.name_at(i),
        c.cursors.entries@[i].active is NewOnly ==> q.cursors@[i]@ == ">"@,
        is_zero_start(c.cursors.entries@[i].active) ==> q.cursors@[i]@ == zero_id(),
{
}

/// Law: in a freshly built table every stream's reclaim scan starts at the
/// zero ID, and its active cursor starts at the zero ID — backlog replay —
/// unless backlog replay is skipped, in which case it starts at the "new
/// entries only" marker.
pub proof fn lemma_initial_cursors(
    streams: Seq<Seq<char>>,
    skip_backlog: bool,
    t: CursorTable,
    i: int,
)
    requires
        fresh_table_for(streams, skip_backlog, t),
        0 <= i < t.entries@.len(),
    ensures
        t.entries@[i].reclaim@ == zero_id(),
        skip_backlog ==> t.entries@[i].active is NewOnly,
        !skip_backlog ==> is_zero_start(t.entries@[i].active),
{
    assert(fresh_entry(t.entries@[i], skip_backlog));
}

/// Law: after a stream drains its backlog, its mode is LIVE — its next
/// group-read key is the "new entries only" marker — while every other
/// stream's cursors are untouched.
pub proof fn lemma_drained_stream_tails_new_entries(
    pre: CursorTable,
    post: CursorTable,
    n: Seq<char>,
    i: int,
)
    requires
        drained_at(pre, post, n),
        0 <= i < post.entries@.len(),
    ensures
        post.name_at(i) == n ==> post.entries@[i].active is NewOnly && spec_read_key(
            post.entries@[i].active,
        ) == ">"@,
        post.name_at(i) != n ==> post.entries@[i] == pre.entries@[i],
{
    assert(entry_drained(pre.entries@[i], post.entries@[i], n));
}

/// Law: a reclaim that claimed at least one entry sends the stream back to
/// BACKLOG — its active cursor resets to the zero ID — and its reclaim scan
/// position becomes the returned one, whatever non-zero value was claimed.
pub proof fn lemma_reclaim_claimed_resets_cursor(
    pre: CursorTable,
    post: CursorTable,
    n: Seq<char>,
    next: Seq<char>,
    claimed: usize,
    i: int,
)
    requires
        reclaim_absorbed_at(pre, post, n, next, claimed),
        claimed > 0,
        0 <= i < pre.entries@.len(),
        pre.name_at(i) == n,
    ensures
        is_zero_start(post.entries@[i].active),
        post.entries@[i].reclaim@ == next,
        spec_read_key(post.entries@[i].active) == zero_id(),
{
    assert(entry_absorbed(pre.entries@[i], post.entries@[i], n, next, claimed));
}

/// Law: a reclaim that claimed nothing leaves the stream's active cursor
/// unchanged, but its reclaim scan position still advances to the returned
/// one: the scan is a moving window and never restarts on its own.
pub proof fn lemma_reclaim_empty_advances_scan(
    pre: CursorTable,
    post: CursorTable,
    n: Seq<char>,
    next: Seq<char>,
    claimed: usize,
    i: int,
)
    requires
        reclaim_absorbed_at(pre, post, n, next, claimed),
        claimed == 0,
        0 <= i < pre.entries@.len(),
        pre.name_at(i) == n,
    ensures
        post.entries@[i].active == pre.entries@[i].active,
        post.entries@[i].reclaim@ == next,
{
    assert(entry_absorbed(pre.entries@[i], post.entries@[i], n, next, claimed));
}

/// Law: both transitions leave every stream not named in them untouched, and
/// neither adds or removes a stream.
pub proof fn lemma_transitions_touch_only_their_stream(
    pre: CursorTable,
    post: CursorTable,
    n: Seq<char>,
    next: Seq<char>,
    claimed: usize,
    i: int,
)
    requires
        drained_at(pre, post, n) || reclaim_absorbed_at(pre, post, n, next, claimed),
        0 <= i < pre.entries@.len(),
        pre.name_at(i) != n,
    ensures
        post.entries@.len() == pre.entries@.len(),
        post.entries@[i].active == pre.entries@[i].active,
        post.entries@[i].reclaim == pre.entries@[i].reclaim,
        post.name_at(i) == pre.name_at(i),
{
    if drained_at(pre, post, n) {
        assert(entry_drained(pre.entries@[i], post.entries@[i], n));
    } else {
        assert(entry_absorbed(pre.entries@[i], post.entries@[i], n, next, claimed));
    }
}

} // verus!
