//! The poll-loop engine: everything one cycle decides, as functions from the
//! engine's state and the broker's replies (handed in as plain values) to the
//! next state, the events to emit, and the calls to issue next. The caller
//! performs the network calls and feeds each result back.

use vstd::prelude::*;

use crate::config::ConsumerConfiguration;
use crate::cursor::{
    CursorEntry, CursorTable, fresh_table_for, drained_at, reclaim_absorbed_at, spec_read_key,
};
use crate::error::ConsumerError;
use crate::reply::AutoclaimReply;

verus! {

/// One entry delivered by a stream: its ID and its field/value pairs, exactly
/// as the broker returned them. The engine never looks inside the values.
pub struct StreamEntry {
    /// The entry's ID within its stream.
    pub id: String,
    /// The entry's fields, order preserved.
    pub fields: Vec<(String, redis::Value)>,
}

/// A batch of entries one stream delivered in one cycle.
pub struct StreamMessage {
    /// The stream the entries came from.
    pub stream_name: String,
    /// How many entries were delivered.
    pub len: usize,
    /// The entries, in the order the broker returned them.
    pub items: Vec<StreamEntry>,
}

/// What one stream contributes to one poll cycle.
pub enum ConsumerMessage {
    /// The stream produced zero entries this cycle.
    EmptyStream(String),
    /// The stream delivered entries.
    Message(StreamMessage),
}

/// Everything one multiplexed group-read call needs. Position `k` of
/// `stream_names` reads from position `k` of `cursors`.
pub struct ReadRequest {
    /// The registered stream names.
    pub stream_names: Vec<String>,
    /// The key each stream reads with, parallel to `stream_names`.
    pub cursors: Vec<String>,
    /// The consumer-group name.
    pub group: String,
    /// This consumer's name.
    pub consumer: String,
    /// How many items to ask for at most.
    pub count: usize,
    /// How many milliseconds the read blocks for (0 = no blocking).
    pub block_ms: usize,
}

/// Everything one reclaim call for one stream needs.
pub struct ReclaimRequest {
    /// The stream whose pending list is scanned.
    pub stream_name: String,
    /// The consumer-group name.
    pub group: String,
    /// This consumer's name: the new owner of whatever is claimed.
    pub consumer: String,
    /// Only entries idle at least this many milliseconds qualify.
    pub min_idle_ms: usize,
    /// Where the scan of the pending list starts.
    pub scan_cursor: String,
    /// How many entries to claim at most.
    pub count: usize,
}

/// What the engine decides for one per-stream reply: the event to emit, and
/// whether a reclaim call for that stream should follow.
pub struct ReplyOutcome {
    /// The event to hand to the caller.
    pub event: ConsumerMessage,
    /// True when the stream came back empty and reclaiming is enabled.
    pub reclaim_needed: bool,
}

/// `q` is the group-read request the consumer's current state calls for.
pub open spec fn read_request_for(c: Consumer, q: ReadRequest) -> bool {
    &&& q.group@ == c.config.notification_group@
    &&& q.consumer@ == c.config.name@
    &&& q.count == c.config.item_count
    &&& q.block_ms == c.config.block_time
    &&& q.stream_names@.len() == c.cursors.entries@.len()
    &&& q.cursors@.len() == c.cursors.entries@.len()
    &&& forall|k: int|
        0 <= k < c.cursors.entries@.len() ==> (#[trigger] q.stream_names@[k])@ == c.cursors.name_at(
            k,
        )
    &&& forall|k: int|
        0 <= k < c.cursors.entries@.len() ==> (#[trigger] q.cursors@[k])@ == spec_read_key(
            c.cursors.entries@[k].active,
        )
}

/// `q` is the reclaim request the consumer's state calls for on the stream of
/// entry `e`.
pub open spec fn reclaim_request_for_entry(c: Consumer, e: CursorEntry, q: ReclaimRequest) -> bool {
    &&& q.stream_name@ == e.name@
    &&& q.group@ == c.config.notification_group@
    &&& q.consumer@ == c.config.name@
    &&& q.min_idle_ms == c.config.autoclaim_time
    &&& q.scan_cursor@ == e.reclaim@
    &&& q.count == c.config.item_count
}

/// The consumer-group engine: configuration, the broker connector it was
/// built with, the per-stream cursor table, and whether the session is
/// connected. All mutation happens through the poll-cycle methods below.
pub struct Consumer {
    /// The configuration the consumer was built from, frozen.
    pub config: ConsumerConfiguration,
    /// The broker connector; the caller opens the session on it.
    pub client: redis::Client,
    /// The per-stream cursor table.
    pub cursors: CursorTable,
    /// Whether the caller has connected the session.
    pub connected: bool,
}

impl Consumer {
    /// Well-formed: the cursor table's names are distinct.
    pub open spec fn wf(self) -> bool {
        self.cursors.wf()
    }

    /// A consumer as `build` returns it: the configuration kept, not yet
    /// connected, one fresh cursor pair per configured stream.
    pub open spec fn freshly_built(c: Consumer, config: ConsumerConfiguration) -> bool {
        &&& c.config == config
        &&& !c.connected
        &&& fresh_table_for(config.streams.deep_view(), config.skip_backlog_queue, c.cursors)
    }

    /// Assembles a consumer from its configuration and an opened connector.
    pub fn from_parts(config: ConsumerConfiguration, client: redis::Client) -> (c: Consumer)
        ensures
            Consumer::freshly_built(c, config),
            c.client == client,
            c.wf(),
    {
        let cursors = CursorTable::new(&config.streams, config.skip_backlog_queue);
        Consumer { config, client, cursors, connected: false }
    }

    /// This consumer's name inside the group.
    pub fn name(&self) -> (r: &str)
        ensures
            r@ == self.config.name@,
    {
        self.config.name.as_str()
    }

    /// The broker connector the caller opens the session on.
    pub fn client(&self) -> (r: &redis::Client)
        ensures
            *r == self.client,
    {
        &self.client
    }

    /// Records that the session is connected; reads and reclaims may follow.
    pub fn mark_connected(&mut self)
        ensures
            final(self).connected,
            final(self).config == old(self).config,
            final(self).cursors == old(self).cursors,
            final(self).client == old(self).client,
    {
        self.connected = true;
    }

    /// Whether reclaim calls are enabled for this consumer.
    pub fn autoclaim_enabled(&self) -> (r: bool)
        ensures
            r == !self.config.skip_autoclaim,
    {
        !self.config.skip_autoclaim
    }

    /// The group-read call the next poll cycle issues: every registered
    /// stream with its current read key, this consumer's identity, and the
    /// configured batch size and block timeout. Fails with `NotConnected`
    /// exactly when the session was never connected.
    pub fn read_request(&self) -> (r: Result<ReadRequest, ConsumerError>)
        ensures
            self.connected ==> (r matches Ok(q) && read_request_for(*self, q)),
            !self.connected ==> (r matches Err(e) && e is NotConnected),
    {
        if !self.connected {
            return Err(ConsumerError::NotConnected);
        }
        let (names, keys) = self.cursors.get_read_cursors();
        Ok(
            ReadRequest {
                stream_names: names,
                cursors: keys,
                group: self.config.notification_group.clone(),
                consumer: self.config.name.clone(),
                count: self.config.item_count,
                block_ms: self.config.block_time,
            },
        )
    }

    /// The reclaim calls to issue after a cycle in which the read timed out
    /// with no streams at all: one per registered stream, in configuration
    /// order — or none at all, whatever the state, when reclaiming is
    /// skipped. Fails with `NotConnected` exactly when reclaiming is wanted
    /// but the session was never connected.
    pub fn reclaim_requests(&self) -> (r: Result<Vec<ReclaimRequest>, ConsumerError>)
        ensures
            self.config.skip_autoclaim ==> (r matches Ok(v) && v@.len() == 0),
            !self.config.skip_autoclaim && !self.connected ==> (r matches Err(e)
                && e is NotConnected),
            self.connected && !self.config.skip_autoclaim ==> (r matches Ok(v) && v@.len()
                == self.cursors.entries@.len() && forall|k: int|
                0 <= k < v@.len() ==> reclaim_request_for_entry(
                    *self,
                    self.cursors.entries@[k],
                    #[trigger] v@[k],
                )),
    {
        let mut v: Vec<ReclaimRequest> = Vec::new();
        if self.config.skip_autoclaim {
            return Ok(v);
        }
        if !self.connected {
            return Err(ConsumerError::NotConnected);
        }
        let n = self.cursors.entries.len();
        let mut i: usize = 0;
        while i < n
            invariant
                n == self.cursors.entries@.len(),
                i <= n,
                v@.len() == i,
                forall|k: int|
                    0 <= k < i ==> reclaim_request_for_entry(
                        *self,
                        self.cursors.entries@[k],
                        #[trigger] v@[k],
                    ),
            decreases n - i,
        {
            let e = &self.cursors.entries[i];
            v.push(
                ReclaimRequest {
                    stream_name: e.name.clone(),
                    group: self.config.notification_group.clone(),
                    consumer: self.config.name.clone(),
                    min_idle_ms: self.config.autoclaim_time,
                    scan_cursor: e.reclaim.clone(),
                    count: self.config.item_count,
                },
            );
            i += 1;
        }
        Ok(v)
    }

    /// The reclaim call for one stream, read off its current scan cursor.
    /// Fails with `NotConnected` before a connect, and with
    /// `InvalidStreamName` on a name outside the configured set.
    pub fn reclaim_request_for(&self, stream_name: &String) -> (r: Result<
        ReclaimRequest,
        ConsumerError,
    >)
        ensures
            !self.connected ==> (r matches Err(e) && e is NotConnected),
            self.connected && !self.cursors.contains_name(stream_name@) ==> (
            r matches Err(ConsumerError::InvalidStreamName(s)) && s@ == stream_name@),
            self.connected && self.cursors.contains_name(stream_name@) ==> (r matches Ok(q)
                && q.stream_name@ == stream_name@ && exists|k: int|
                0 <= k < self.cursors.entries@.len() && #[trigger] self.cursors.name_at(k)
                    == stream_name@ && reclaim_request_for_entry(
                    *self,
                    self.cursors.entries@[k],
                    q,
                )),
    {
        if !self.connected {
            return Err(ConsumerError::NotConnected);
        }
        match self.cursors.position_of(stream_name) {
            None => Err(ConsumerError::InvalidStreamName(stream_name.clone())),
            Some(i) => {
                let e = &self.cursors.entries[i];
                Ok(
                    ReclaimRequest {
                        stream_name: e.name.clone(),
                        group: self.config.notification_group.clone(),
                        consumer: self.config.name.clone(),
                        min_idle_ms: self.config.autoclaim_time,
                        scan_cursor: e.reclaim.clone(),
                        count: self.config.item_count,
                    },
                )
            },
        }
    }

    /// Folds one reclaim result into the stream's cursor pair: the scan
    /// position is always adopted, and the stream re-enters backlog replay
    /// exactly when at least one entry was claimed. An unknown name changes
    /// nothing and is reported.
    pub fn absorb_reclaim(&mut self, stream_name: &String, reply: &AutoclaimReply) -> (r: Result<
        (),
        ConsumerError,
    >)
        requires
            old(self).wf(),
        ensures
            final(self).wf(),
            final(self).config == old(self).config,
            final(self).connected == old(self).connected,
            final(self).client == old(self).client,
            old(self).cursors.contains_name(stream_name@) ==> (r is Ok && reclaim_absorbed_at(
                old(self).cursors,
                final(self).cursors,
                stream_name@,
                reply.next@,
                reply.claimed_items,
            )),
            !old(self).cursors.contains_name(stream_name@) ==> *final(self) == *old(self) && (
            r matches Err(ConsumerError::InvalidStreamName(s)) && s@ == stream_name@),
    {
        self.cursors.absorb_reclaim(stream_name, reply)
    }

    /// Decides one per-stream reply of a group-read. An empty entry list
    /// drains the stream's backlog (its next read tails new entries only),
    /// emits `EmptyStream`, and asks for a reclaim unless reclaiming is
    /// skipped. A non-empty list is passed through unmodified, in order, and
    /// moves no cursor. A name outside the configured set changes nothing
    /// and is reported.
    pub fn handle_stream_reply(&mut self, stream_name: String, entries: Vec<StreamEntry>) -> (r:
        Result<ReplyOutcome, ConsumerError>)
        requires
            old(self).wf(),
        ensures
            final(self).wf(),
            final(self).config == old(self).config,
            final(self).connected == old(self).connected,
            final(self).client == old(self).client,
            !old(self).cursors.contains_name(stream_name@) ==> *final(self) == *old(self) && (
            r matches Err(ConsumerError::InvalidStreamName(s)) && s@ == stream_name@),
            old(self).cursors.contains_name(stream_name@) && entries@.len() == 0 ==> ((
            r matches Ok(out) && (out.event matches ConsumerMessage::EmptyStream(s) && s@
                == stream_name@) && out.reclaim_needed == !old(self).config.skip_autoclaim)
                && drained_at(old(self).cursors, final(self).cursors, stream_name@)),
            old(self).cursors.contains_name(stream_name@) && entries@.len() > 0 ==> (final(self).cursors
                == old(self).cursors && (r matches Ok(out) && !out.reclaim_needed
                && (out.event matches ConsumerMessage::Message(m) && m.stream_name@ == stream_name@
                && m.len == entries@.len() && m.items == entries))),
    {
        if entries.len() == 0 {
            match self.cursors.mark_drained(&stream_name) {
                Ok(()) => {
                    let reclaim_needed = !self.config.skip_autoclaim;
                    Ok(
                        ReplyOutcome {
                            event: ConsumerMessage::EmptyStream(stream_name),
                            reclaim_needed,
                        },
                    )
                },
                Err(e) => Err(e),
            }
        } else {
            match self.cursors.position_of(&stream_name) {
                Some(_) => {
                    let len = entries.len();
                    Ok(
                        ReplyOutcome {
                            event: ConsumerMessage::Message(
                                StreamMessage { stream_name, len, items: entries },
                            ),
                            reclaim_needed: false,
                        },
                    )
                },
                None => Err(ConsumerError::InvalidStreamName(stream_name)),
            }
        }
    }

    /// The events a cycle emits when the read timed out with no streams at
    /// all: `EmptyStream` for every registered stream, in configuration
    /// order. No cursor moves.
    pub fn timeout_events(&self) -> (r: Vec<ConsumerMessage>)
        ensures
            r@.len() == self.cursors.entries@.len(),
            forall|k: int|
                0 <= k < r@.len() ==> ((#[trigger] r@[k]) matches ConsumerMessage::EmptyStream(s)
                    && s@ == self.cursors.name_at(k)),
    {
        let n = self.cursors.entries.len();
        let mut r: Vec<ConsumerMessage> = Vec::new();
        let mut i: usize = 0;
        while i < n
            invariant
                n == self.cursors.entries@.len(),
                i <= n,
                r@.len() == i,
                forall|k: int|
                    0 <= k < i ==> ((#[trigger] r@[k]) matches ConsumerMessage::EmptyStream(s) && s@
                        == self.cursors.name_at(k)),
            decreases n - i,
        {
            r.push(ConsumerMessage::EmptyStream(self.cursors.entries[i].name.clone()));
            i += 1;
        }
        r
    }
}

} // verus!
