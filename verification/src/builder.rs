//! Step-by-step construction of a [`Consumer`].

use vstd::prelude::*;

use crate::config::{ConfigView, ConsumerConfiguration, is_default_config};
use crate::engine::Consumer;
use crate::error::ConsumerError;

verus! {

/// Collects a configuration and builds the consumer from it.
pub struct ConsumerBuilder {
    /// The configuration collected so far.
    pub config: ConsumerConfiguration,
}

impl ConsumerBuilder {
    /// A builder holding the default configuration.
    pub fn new() -> (r: ConsumerBuilder)
        ensures
            is_default_config(r.config@),
    {
        ConsumerBuilder { config: ConsumerConfiguration::default() }
    }

    /// Builds the consumer: opens a broker connector for the configured URL
    /// and registers one fresh cursor pair per configured stream. Fails with
    /// `ConnectionError` exactly when the connector rejects the URL.
    pub fn build(self) -> (r: Result<Consumer, ConsumerError>)
        ensures
            r is Ok <==> crate::broker::url_accepted(self.config.redis_url@),
            r matches Ok(c) ==> Consumer::freshly_built(c, self.config) && c.wf(),
            r matches Err(e) ==> e is ConnectionError,
    {
        let url = self.config.redis_url.clone();
        match crate::broker::open_client(url.as_str()) {
            Ok(client) => Ok(Consumer::from_parts(self.config, client)),
            Err(e) => Err(ConsumerError::from_redis_error(&e)),
        }
    }

    /// Sets whether reclaiming entries abandoned by other consumers is skipped.
    pub fn skip_autoclaim(self, value: bool) -> (r: ConsumerBuilder)
        ensures
            r.config@ == (ConfigView { skip_autoclaim: value, ..self.config@ }),
    {
        ConsumerBuilder {
            config: ConsumerConfiguration { skip_autoclaim: value, ..self.config },
        }
    }

    /// Sets whether the backlog of previously delivered entries is skipped at
    /// start, tailing new entries only.
    pub fn skip_backlog_queue(self, value: bool) -> (r: ConsumerBuilder)
        ensures
            r.config@ == (ConfigView { skip_backlog_queue: value, ..self.config@ }),
    {
        ConsumerBuilder {
            config: ConsumerConfiguration { skip_backlog_queue: value, ..self.config },
        }
    }

    /// Sets the consumer's name inside the group.
    pub fn name(self, name: &str) -> (r: ConsumerBuilder)
        ensures
            r.config@ == (ConfigView { name: name@, ..self.config@ }),
    {
        ConsumerBuilder {
            config: ConsumerConfiguration { name: name.to_owned(), ..self.config },
        }
    }

    /// Sets the broker connection URL.
    pub fn redis_url(self, redis_url: &str) -> (r: ConsumerBuilder)
        ensures
            r.config@ == (ConfigView { redis_url: redis_url@, ..self.config@ }),
    {
        ConsumerBuilder {
            config: ConsumerConfiguration { redis_url: redis_url.to_owned(), ..self.config },
        }
    }

    /// Registers one more stream to monitor.
    pub fn add_stream(self, stream_name: &str) -> (r: ConsumerBuilder)
        ensures
            r.config@ == (ConfigView {
                streams: self.config@.streams.push(stream_name@),
                ..self.config@
            }),
    {
        let mut config = self.config;
        config.streams.push(stream_name.to_owned());
        proof {
            assert(config@.streams =~= self.config@.streams.push(stream_name@));
        }
        ConsumerBuilder { config }
    }

    /// Sets the consumer-group name.
    pub fn notification_group(self, notification_group: &str) -> (r: ConsumerBuilder)
        ensures
            r.config@ == (ConfigView {
                notification_group: notification_group@,
                ..self.config@
            }),
    {
        ConsumerBuilder {
            config: ConsumerConfiguration {
                notification_group: notification_group.to_owned(),
                ..self.config
            },
        }
    }

    /// Sets how many items one read or reclaim asks for at most.
    pub fn item_count(self, item_count: usize) -> (r: ConsumerBuilder)
        ensures
            r.config@ == (ConfigView { item_count, ..self.config@ }),
    {
        ConsumerBuilder {
            config: ConsumerConfiguration { item_count, ..self.config },
        }
    }

    /// Sets how many milliseconds a group-read blocks for (0 = no blocking).
    pub fn block_time(self, block_time: usize) -> (r: ConsumerBuilder)
        ensures
            r.config@ == (ConfigView { block_time, ..self.config@ }),
    {
        ConsumerBuilder {
            config: ConsumerConfiguration { block_time, ..self.config },
        }
    }

    /// Sets how old, in milliseconds, a pending entry must be before a
    /// reclaim may move it to this consumer.
    pub fn autoclaim_time(self, autoclaim_time: usize) -> (r: ConsumerBuilder)
        ensures
            r.config@ == (ConfigView { autoclaim_time, ..self.config@ }),
    {
        ConsumerBuilder {
            config: ConsumerConfiguration { autoclaim_time, ..self.config },
        }
    }
}

} // verus!
