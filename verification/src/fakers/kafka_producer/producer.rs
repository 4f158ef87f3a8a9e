//! Parameters of the faker that sends messages to the broker, and what it
//! decides while it sends them.

use vstd::prelude::*;
use rdkafka::ClientConfig;
use serde_yaml::Mapping;
use crate::faker::ParamError;
use crate::text::{join, joined};
use crate::utils::kafka::{
    config_entries, config_log_level, create_config, level_of, no_entries, options_usable,
    parse_log_level, set_log_level, set_options, with_options,
};
use crate::utils::yaml::text_entries;

verus! {

/// The log level used when the parameters name none.
pub fn default_loglevel() -> (level: String)
    ensures
        level@ == "info"@,
{
    "info".to_owned()
}

/// One message to send.
#[derive(Debug)]
pub struct Message {
    pub topic: String,
    /// Sent along unless empty.
    pub key: String,
    pub message: String,
}

/// What the producer is asked to do.
#[derive(Debug)]
pub struct KafkaProducer {
    pub brokers: Vec<String>,
    /// Free-form client parameters; those with a text for value are applied.
    pub options: Mapping,
    pub messages: Vec<Message>,
    pub log_level: String,
}

/// What the producer does next.
#[derive(Debug, Clone, Copy, PartialEq, Eq, Structural)]
pub enum Progress {
    /// Send the message at `index`.
    Send { index: usize },
    /// Everything was delivered: publish on the termination bus and end.
    Publish,
    /// A delivery failed: end with that error, without publishing.
    Fail,
}

impl Message {
    /// Whether the message names its topic and has a payload.
    pub open spec fn complete(&self) -> bool {
        self.topic@.len() > 0 && self.message@.len() > 0
    }

    /// The key to send with the message: none where the key is empty.
    pub fn record_key(&self) -> (key: Option<&str>)
        ensures
            match key {
                Some(text) => text@ == self.key@ && self.key@.len() > 0,
                None => self.key@.len() == 0,
            },
    {
        if self.key.as_str().is_empty() {
            None
        } else {
            Some(self.key.as_str())
        }
    }
}

impl KafkaProducer {
    /// What is wrong with the parameters, the first fault first.
    pub open spec fn fault(&self) -> Option<ParamError> {
        if self.brokers@.len() == 0 {
            Some(ParamError::BrokersEmpty)
        } else if self.messages@.len() == 0 {
            Some(ParamError::MessagesEmpty)
        } else if exists|i: int| 0 <= i < self.messages@.len() && !self.messages@[i].complete() {
            Some(ParamError::TopicOrMessageEmpty)
        } else {
            None
        }
    }

    /// Accepts parameters with at least one broker and at least one message,
    /// each message with a topic and a payload.
    pub fn validate_params(&self) -> (checked: Result<(), ParamError>)
        ensures
            match self.fault() {
                Some(error) => checked == Err::<(), ParamError>(error),
                None => checked is Ok,
            },
    {
        if self.brokers.len() == 0 {
            return Err(ParamError::BrokersEmpty);
        }
        if self.messages.len() == 0 {
            return Err(ParamError::MessagesEmpty);
        }
        let mut i: usize = 0;
        while i < self.messages.len()
            invariant
                i <= self.messages.len(),
                self.brokers@.len() > 0,
                forall|k: int| 0 <= k < i ==> self.messages@[k].complete(),
            decreases self.messages.len() - i,
        {
            let message = &self.messages[i];
            if message.topic.as_str().is_empty() || message.message.as_str().is_empty() {
                proof {
                    assert(!self.messages@[i as int].complete());
                }
                return Err(ParamError::TopicOrMessageEmpty);
            }
            i = i + 1;
        }
        Ok(())
    }

    /// The parameters that the client starts from, before the options.
    pub open spec fn base_entries(&self) -> Map<Seq<char>, Seq<char>> {
        no_entries().insert("bootstrap.servers"@, joined(self.brokers@, ","@))
    }

    /// The configuration of the broker client: the brokers joined by commas,
    /// the log level, then the options in order. Refused where an option has
    /// a text for its value but none for its key.
    pub fn client_config(&self) -> (built: Result<ClientConfig, ParamError>)
        ensures
            match built {
                Ok(config) => {
                    &&& options_usable(text_entries(self.options))
                    &&& config_entries(config) == with_options(
                        self.base_entries(),
                        text_entries(self.options),
                    )
                    &&& config_log_level(config) == level_of(self.log_level@)
                },
                Err(error) => {
                    &&& error == ParamError::OptionKeyNotText
                    &&& !options_usable(text_entries(self.options))
                },
            },
    {
        let brokers = join(&self.brokers, ",");
        let mut config = create_config(brokers.as_str());
        set_log_level(&mut config, parse_log_level(self.log_level.as_str()));
        set_options(config, &self.options)
    }

    /// What to do once `sent` messages were handed to the broker, the last of
    /// them `delivered` or not: go on in order while deliveries succeed,
    /// publish after the last one, give up at the first failure.
    pub fn next_step(&self, sent: usize, delivered: bool) -> (progress: Progress)
        ensures
            progress == (if !delivered {
                Progress::Fail
            } else if sent < self.messages@.len() {
                Progress::Send { index: sent }
            } else {
                Progress::Publish
            }),
    {
        if !delivered {
            Progress::Fail
        } else if sent < self.messages.len() {
            Progress::Send { index: sent }
        } else {
            Progress::Publish
        }
    }
}

} // verus!
