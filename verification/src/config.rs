//! The configuration a consumer is built from. It is frozen once the consumer
//! is constructed.

use vstd::prelude::*;

verus! {

/// Configuration of one consumer, immutable after construction.
pub struct ConsumerConfiguration {
    /// Consumer name inside the group. Consumers sharing a name count as one
    /// group member to the broker, so every process should pick its own.
    pub name: String,
    /// Broker connection URL.
    pub redis_url: String,
    /// Streams to monitor.
    pub streams: Vec<String>,
    /// Consumer-group name.
    pub notification_group: String,
    /// How many items one read or reclaim asks for at most.
    pub item_count: usize,
    /// How many milliseconds a group-read blocks for (0 = no blocking).
    pub block_time: usize,
    /// How old, in milliseconds, a pending entry must be before a reclaim
    /// may move it to this consumer.
    pub autoclaim_time: usize,
    /// If true, start tailing new entries only, skipping the backlog of
    /// entries delivered to this consumer before it went offline.
    pub skip_backlog_queue: bool,
    /// If true, never reclaim entries abandoned by other consumers.
    pub skip_autoclaim: bool,
}

/// The mathematical content of a configuration.
pub ghost struct ConfigView {
    pub name: Seq<char>,
    pub redis_url: Seq<char>,
    pub streams: Seq<Seq<char>>,
    pub notification_group: Seq<char>,
    pub item_count: usize,
    pub block_time: usize,
    pub autoclaim_time: usize,
    pub skip_backlog_queue: bool,
    pub skip_autoclaim: bool,
}

impl View for ConsumerConfiguration {
    type V = ConfigView;

    open spec fn view(&self) -> ConfigView {
        ConfigView {
            name: self.name@,
            redis_url: self.redis_url@,
            streams: self.streams.deep_view(),
            notification_group: self.notification_group@,
            item_count: self.item_count,
            block_time: self.block_time,
            autoclaim_time: self.autoclaim_time,
            skip_backlog_queue: self.skip_backlog_queue,
            skip_autoclaim: self.skip_autoclaim,
        }
    }
}

/// The configuration a fresh builder starts from: a fixed placeholder
/// consumer name (no name generator is bundled, so callers wanting a unique
/// identity must set their own), one placeholder stream, a local broker,
/// single-item reads that do not block, reclaim of entries idle for a
/// minute, and both skip flags off.
pub open spec fn is_default_config(c: ConfigView) -> bool {
    &&& c.name == "consumer"@
    &&& c.redis_url == "redis://127.0.0.1:6379"@
    &&& c.streams == seq!["redis_stream"@]
    &&& c.notification_group == "notification_group"@
    &&& c.item_count == 1usize
    &&& c.block_time == 0usize
    &&& c.autoclaim_time == 60000usize
    &&& c.skip_backlog_queue == false
    &&& c.skip_autoclaim == false
}

impl Default for ConsumerConfiguration {
    /// The default configuration, as [`is_default_config`] describes it.
    fn default() -> (c: ConsumerConfiguration)
        ensures
            is_default_config(c@),
    {
        let mut streams: Vec<String> = Vec::new();
        streams.push("redis_stream".to_owned());
        let c = ConsumerConfiguration {
            name: "consumer".to_owned(),
            redis_url: "redis://127.0.0.1:6379".to_owned(),
            streams,
            notification_group: "notification_group".to_owned(),
            item_count: 1,
            block_time: 0,
            autoclaim_time: 60000,
            skip_backlog_queue: false,
            skip_autoclaim: false,
        };
        proof {
            assert(c@.streams =~= seq!["redis_stream"@]);
        }
        c
    }
}

} // verus!
