//! The per-stream cursor table: for every registered stream, the position the
//! next group-read starts from and the scan position of the broker's reclaim
//! operation. Pure data and transition rules; no I/O happens here.

use vstd::prelude::*;

use crate::error::ConsumerError;
use crate::reply::AutoclaimReply;

verus! {

/// The position from which the next group-read for one stream starts.
///
/// An explicit ID means BACKLOG mode: the read replays this consumer's own
/// pending entries strictly after that ID. `NewOnly` means LIVE mode: the
/// read asks only for entries never before delivered to any group member.
pub enum ReadCursor {
    /// The "new entries only" marker.
    NewOnly,
    /// An explicit last-delivered entry ID.
    Explicit(String),
}

/// The ID from which a scan of the pending list starts at the very beginning.
pub open spec fn zero_id() -> Seq<char> {
    "0-0"@
}

/// The key a group-read sends for a cursor: ">" tails new entries, an
/// explicit ID replays the backlog after that ID.
pub open spec fn spec_read_key(c: ReadCursor) -> Seq<char> {
    match c {
        ReadCursor::NewOnly => ">"@,
        ReadCursor::Explicit(id) => id@,
    }
}

/// True when the cursor replays the pending list from its start.
pub open spec fn is_zero_start(c: ReadCursor) -> bool {
    c matches ReadCursor::Explicit(id) && id@ == zero_id()
}

impl ReadCursor {
    /// Builds the key handed to the broker's group-read for this cursor.
    pub fn read_key(&self) -> (r: String)
        ensures
            r@ == spec_read_key(*self),
    {
        match self {
            ReadCursor::NewOnly => ">".to_owned(),
            ReadCursor::Explicit(id) => id.clone(),
        }
    }
}

/// Cursor state of one registered stream.
pub struct CursorEntry {
    /// The stream's name, fixed for the table's lifetime.
    pub name: String,
    /// Where the next group-read for this stream starts.
    pub active: ReadCursor,
    /// Where the next reclaim scan of this stream's pending list starts.
    pub reclaim: String,
}

/// A fresh entry: reclaim scan at the start of the pending list, and the
/// active cursor replaying the backlog unless backlog replay is skipped.
pub open spec fn fresh_entry(e: CursorEntry, skip_backlog: bool) -> bool {
    &&& e.reclaim@ == zero_id()
    &&& if skip_backlog {
        e.active is NewOnly
    } else {
        is_zero_start(e.active)
    }
}

/// One step of backlog drain: the entries named `n` move to the "new entries
/// only" marker; every other part of every entry is untouched.
pub open spec fn entry_drained(oe: CursorEntry, ne: CursorEntry, n: Seq<char>) -> bool {
    &&& ne.name == oe.name
    &&& ne.reclaim == oe.reclaim
    &&& ne.active == (if oe.name@ == n {
        ReadCursor::NewOnly
    } else {
        oe.active
    })
}

/// `post` is `pre` after the stream named `n` drained its backlog.
pub open spec fn drained_at(pre: CursorTable, post: CursorTable, n: Seq<char>) -> bool {
    &&& post.entries@.len() == pre.entries@.len()
    &&& forall|k: int|
        0 <= k < pre.entries@.len() ==> entry_drained(
            pre.entries@[k],
            #[trigger] post.entries@[k],
            n,
        )
}

/// One step of reclaim absorption on the entry named `n`: its reclaim scan
/// position becomes `next` whatever was claimed, and its active cursor resets
/// to the start of the pending list exactly when at least one entry was
/// claimed. Entries with other names are untouched.
pub open spec fn entry_absorbed(
    oe: CursorEntry,
    ne: CursorEntry,
    n: Seq<char>,
    next: Seq<char>,
    claimed: usize,
) -> bool {
    if oe.name@ == n {
        &&& ne.name == oe.name
        &&& ne.reclaim@ == next
        &&& if claimed > 0 {
            is_zero_start(ne.active)
        } else {
            ne.active == oe.active
        }
    } else {
        ne == oe
    }
}

/// `post` is `pre` after a reclaim result `(next, claimed)` for the stream
/// named `n` was folded in.
pub open spec fn reclaim_absorbed_at(
    pre: CursorTable,
    post: CursorTable,
    n: Seq<char>,
    next: Seq<char>,
    claimed: usize,
) -> bool {
    &&& post.entries@.len() == pre.entries@.len()
    &&& forall|k: int|
        0 <= k < pre.entries@.len() ==> entry_absorbed(
            pre.entries@[k],
            #[trigger] post.entries@[k],
            n,
            next,
            claimed,
        )
}

/// No two configured streams share a name.
pub open spec fn streams_distinct(streams: Seq<Seq<char>>) -> bool {
    forall|i: int, j: int| 0 <= i < j < streams.len() ==> streams[i] != streams[j]
}

/// A freshly built table for the given streams: well-formed, holding exactly
/// the configured names (one entry per name, duplicates collapsed), every
/// entry fresh; when the configured names are distinct, the table lists them
/// in configuration order.
pub open spec fn fresh_table_for(
    streams: Seq<Seq<char>>,
    skip_backlog: bool,
    t: CursorTable,
) -> bool {
    &&& t.wf()
    &&& forall|k: int| 0 <= k < streams.len() ==> t.contains_name(#[trigger] streams[k])
    &&& forall|i: int| 0 <= i < t.entries@.len() ==> streams.contains(#[trigger] t.name_at(i))
    &&& forall|i: int|
        0 <= i < t.entries@.len() ==> fresh_entry(#[trigger] t.entries@[i], skip_backlog)
    &&& streams_distinct(streams) ==> (t.entries@.len() == streams.len() && forall|i: int|
        0 <= i < streams.len() ==> #[trigger] t.name_at(i) == streams[i])
}

/// The table mapping each registered stream name to its cursors. Built once;
/// it never gains or loses a stream afterwards.
pub struct CursorTable {
    /// One entry per registered stream, in registration order.
    pub entries: Vec<CursorEntry>,
}

impl CursorTable {
    /// Well-formed: stream names are distinct, so a name picks one entry.
    pub open spec fn wf(self) -> bool {
        forall|i: int, j: int|
            0 <= i < j < self.entries@.len() ==> self.name_at(i) != self.name_at(j)
    }

    /// The name of the entry at position `i`.
    pub open spec fn name_at(self, i: int) -> Seq<char> {
        self.entries@[i].name@
    }

    /// Whether some entry is named `n`.
    pub open spec fn contains_name(self, n: Seq<char>) -> bool {
        exists|i: int| 0 <= i < self.entries@.len() && self.name_at(i) == n
    }

    /// Builds the table for the configured streams: one fresh entry per
    /// distinct name, in configuration order.
    pub fn new(streams: &Vec<String>, skip_backlog: bool) -> (t: CursorTable)
        ensures
            fresh_table_for(streams.deep_view(), skip_backlog, t),
    {
        let ghost all: Seq<Seq<char>> = streams.deep_view();
        let mut t = CursorTable { entries: Vec::new() };
        let n = streams.len();
        assert(all.len() == n) by {
            assert(all == Seq::new(streams@.len(), |i: int| streams@[i].deep_view()));
        }
        let mut i: usize = 0;
        while i < n
            invariant
                n == streams@.len(),
                all == streams.deep_view(),
                all.len() == n,
                i <= n,
                t.wf(),
                forall|k: int| 0 <= k < i ==> t.contains_name(#[trigger] all[k]),
                forall|p: int|
                    0 <= p < t.entries@.len() ==> all.take(i as int).contains(
                        #[trigger] t.name_at(p),
                    ),
                forall|p: int|
                    0 <= p < t.entries@.len() ==> fresh_entry(#[trigger] t.entries@[p], skip_backlog),
                streams_distinct(all) ==> (t.entries@.len() == i && forall|p: int|
                    0 <= p < i ==> #[trigger] t.name_at(p) == all[p]),
            decreases n - i,
        {
            let name = &streams[i];
            proof {
                assert(name@ == all[i as int]) by {
                    assert(all == Seq::new(streams@.len(), |k: int| streams@[k].deep_view()));
                }
            }
            match t.position_of(name) {
                Some(j) => {
                    proof {
                        // The name is already registered; in the distinct case
                        // this cannot happen.
                        if streams_distinct(all) {
                            assert(all.take(i as int).contains(t.name_at(j as int)));
                            let k = choose|k: int|
                                0 <= k < i && all.take(i as int)[k] == t.name_at(j as int);
                            assert(all[k] == all[i as int]);
                            assert(false);
                        }
                    }
                },
                None => {
                    let active = if skip_backlog {
                        ReadCursor::NewOnly
                    } else {
                        ReadCursor::Explicit("0-0".to_owned())
                    };
                    let entry = CursorEntry { name: name.clone(), active, reclaim: "0-0".to_owned() };
                    let ghost old_t = t;
                    t.entries.push(entry);
                    proof {
                        assert forall|p: int, q: int|
                            0 <= p < q < t.entries@.len() implies t.name_at(p) != t.name_at(
                            q,
                        ) by {
                            if q < old_t.entries@.len() {
                                assert(old_t.name_at(p) != old_t.name_at(q));
                            } else {
                                assert(t.name_at(q) == name@);
                                assert(old_t.name_at(p) != name@);
                            }
                        }
                        assert forall|p: int| 0 <= p < t.entries@.len() implies all.take(
                            i as int + 1,
                        ).contains(#[trigger] t.name_at(p)) by {
                            if p < old_t.entries@.len() {
                                assert(old_t.name_at(p) == t.name_at(p));
                                assert(all.take(i as int).contains(old_t.name_at(p)));
                                let k = choose|k: int|
                                    0 <= k < i && all.take(i as int)[k] == old_t.name_at(p);
                                assert(all.take(i as int + 1)[k] == old_t.name_at(p));
                            } else {
                                assert(t.name_at(p) == all[i as int]);
                                assert(all.take(i as int + 1)[i as int] == all[i as int]);
                            }
                        }
                        assert forall|k: int| 0 <= k < i + 1 implies t.contains_name(
                            #[trigger] all[k],
                        ) by {
                            if k < i {
                                assert(old_t.contains_name(all[k]));
                                let p = choose|p: int|
                                    0 <= p < old_t.entries@.len() && old_t.name_at(p) == all[k];
                                assert(t.name_at(p) == all[k]);
                            } else {
                                assert(t.name_at(t.entries@.len() - 1) == all[i as int]);
                            }
                        }
                    }
                },
            }
            i += 1;
        }
        proof {
            assert(all.take(n as int) == all);
        }
        t
    }

    /// Finds the position of the entry named `name`, if one exists.
    pub fn position_of(&self, name: &String) -> (r: Option<usize>)
        ensures
            match r {
                Some(i) => i < self.entries@.len() && self.name_at(i as int) == name@,
                None => !self.contains_name(name@),
            },
    {
        let n = self.entries.len();
        let mut i: usize = 0;
        while i < n
            invariant
                n == self.entries@.len(),
                i <= n,
                forall|k: int| 0 <= k < i ==> self.name_at(k) != name@,
            decreases n - i,
        {
            if self.entries[i].name == *name {
                return Some(i);
            }
            i += 1;
        }
        None
    }

    /// The snapshot a group-read is built from: the registered names and, in
    /// the same order, the key each stream reads with.
    pub fn get_read_cursors(&self) -> (r: (Vec<String>, Vec<String>))
        ensures
            r.0@.len() == self.entries@.len(),
            r.1@.len() == self.entries@.len(),
            forall|k: int| 0 <= k < self.entries@.len() ==> (#[trigger] r.0@[k])@ == self.name_at(k),
            forall|k: int|
                0 <= k < self.entries@.len() ==> (#[trigger] r.1@[k])@ == spec_read_key(
                    self.entries@[k].active,
                ),
    {
        let n = self.entries.len();
        let mut names: Vec<String> = Vec::new();
        let mut keys: Vec<String> = Vec::new();
        let mut i: usize = 0;
        while i < n
            invariant
                n == self.entries@.len(),
                i <= n,
                names@.len() == i,
                keys@.len() == i,
                forall|k: int| 0 <= k < i ==> (#[trigger] names@[k])@ == self.name_at(k),
                forall|k: int|
                    0 <= k < i ==> (#[trigger] keys@[k])@ == spec_read_key(self.entries@[k].active),
            decreases n - i,
        {
            names.push(self.entries[i].name.clone());
            keys.push(self.entries[i].active.read_key());
            i += 1;
        }
        (names, keys)
    }

    /// Marks the stream's backlog as fully replayed: its active cursor moves
    /// to the "new entries only" marker. An unknown name is a broker/client
    /// desync: it is reported and nothing changes.
    pub fn mark_drained(&mut self, name: &String) -> (r: Result<(), ConsumerError>)
        requires
            old(self).wf(),
        ensures
            final(self).wf(),
            old(self).contains_name(name@) ==> r is Ok && drained_at(
                *old(self),
                *final(self),
                name@,
            ),
            !old(self).contains_name(name@) ==> *final(self) == *old(self) && (
            r matches Err(ConsumerError::InvalidStreamName(s)) && s@ == name@),
    {
        match self.position_of(name) {
            None => Err(ConsumerError::InvalidStreamName(name.clone())),
            Some(idx) => {
                self.entries[idx].active = ReadCursor::NewOnly;
                proof {
                    assert forall|k: int| 0 <= k < old(self).entries@.len() implies entry_drained(
                        old(self).entries@[k],
                        #[trigger] self.entries@[k],
                        name@,
                    ) by {
                        if k != idx {
                            assert(old(self).name_at(k) != name@);
                        }
                    }
                    assert forall|i: int, j: int|
                        0 <= i < j < self.entries@.len() implies self.name_at(i) != self.name_at(
                        j,
                    ) by {
                        assert(self.entries@.len() == old(self).entries@.len());
                        assert(self.entries@[i].name == old(self).entries@[i].name);
                        assert(self.entries@[j].name == old(self).entries@[j].name);
                        assert(old(self).name_at(i) != old(self).name_at(j));
                    }
                }
                Ok(())
            },
        }
    }

    /// Folds one reclaim result into the stream's entry: the scan position is
    /// always adopted, and the active cursor re-enters backlog replay exactly
    /// when at least one entry was claimed. An unknown name is reported and
    /// nothing changes.
    pub fn absorb_reclaim(&mut self, name: &String, reply: &AutoclaimReply) -> (r: Result<
        (),
        ConsumerError,
    >)
        requires
            old(self).wf(),
        ensures
            final(self).wf(),
            old(self).contains_name(name@) ==> r is Ok && reclaim_absorbed_at(
                *old(self),
                *final(self),
                name@,
                reply.next@,
                reply.claimed_items,
            ),
            !old(self).contains_name(name@) ==> *final(self) == *old(self) && (
            r matches Err(ConsumerError::InvalidStreamName(s)) && s@ == name@),
    {
        match self.position_of(name) {
            None => Err(ConsumerError::InvalidStreamName(name.clone())),
            Some(idx) => {
                if reply.claimed_items > 0 {
                    self.entries[idx].active = ReadCursor::Explicit("0-0".to_owned());
                }
                self.entries[idx].reclaim = reply.next.clone();
                proof {
                    assert forall|k: int| 0 <= k < old(self).entries@.len() implies entry_absorbed(
                        old(self).entries@[k],
                        #[trigger] self.entries@[k],
                        name@,
                        reply.next@,
                        reply.claimed_items,
                    ) by {
                        if k != idx {
                            assert(old(self).name_at(k) != name@);
                        }
                    }
                    assert forall|i: int, j: int|
                        0 <= i < j < self.entries@.len() implies self.name_at(i) != self.name_at(
                        j,
                    ) by {
                        assert(self.entries@.len() == old(self).entries@.len());
                        assert(self.entries@[i].name == old(self).entries@[i].name);
                        assert(self.entries@[j].name == old(self).entries@[j].name);
                        assert(old(self).name_at(i) != old(self).name_at(j));
                    }
                }
                Ok(())
            },
        }
    }
}

} // verus!
