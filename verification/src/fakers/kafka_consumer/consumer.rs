//! Parameters of the faker that reads messages from the broker, and what it
//! makes of each message.

use vstd::prelude::*;
use vstd::string::StringExecFns;
use rdkafka::ClientConfig;
use serde_yaml::Mapping;
use crate::faker::ParamError;
use crate::text::{join, joined};
use crate::utils::json::{object_text, write_object};
use crate::utils::kafka::{
    config_entries, config_log_level, level_of, new_config, no_entries, options_usable,
    parse_log_level, set_log_level, set_parameter, set_options, with_options,
};
use crate::utils::yaml::{empty_mapping, text_entries};

verus! {

/// The consumer group joined when the parameters name none.
pub fn default_group_id() -> (id: String)
    ensures
        id@ == "consumer-group-1"@,
{
    "consumer-group-1".to_owned()
}

/// Where a new consumer group starts reading when the parameters do not say.
pub fn default_offset() -> (offset: String)
    ensures
        offset@ == "earliest"@,
{
    "earliest".to_owned()
}

/// The log level used when the parameters name none.
pub fn default_loglevel() -> (level: String)
    ensures
        level@ == "info"@,
{
    "info".to_owned()
}

/// How the consumer subscribes.
#[derive(Debug)]
pub struct Config {
    pub group_id: String,
    /// Where a group without a committed offset starts: `earliest` or `latest`.
    pub offset: String,
    pub topics: Vec<String>,
    /// Free-form client parameters; those with a text for value are applied.
    pub options: Mapping,
    pub log_level: String,
}

/// What the consumer is asked to do.
#[derive(Debug)]
pub struct KafkaConsumer {
    pub brokers: Vec<String>,
    pub config: Config,
    /// Where to append each message received, one JSON object per line.
    pub output_file: Option<String>,
}

/// What a received message carries.
#[derive(Debug, Clone, Copy)]
pub enum Payload<'a> {
    /// No payload at all.
    Missing,
    /// Bytes that are not UTF-8.
    NotText,
    Text(&'a str),
}

/// Why the consumer gives up on a message, and with it on its run.
#[derive(Debug, Clone, Copy, PartialEq, Eq, Structural)]
pub enum ConsumeError {
    /// The message has no payload.
    NoContent,
    /// The payload is not UTF-8.
    NotText,
}

impl Default for Config {
    /// A configuration without topics that reads from the latest offset.
    fn default() -> (config: Self)
        ensures
            config.group_id@ == "consumer-group-1"@,
            config.offset@ == "latest"@,
            config.topics@.len() == 0,
            text_entries(config.options).len() == 0,
            config.log_level@ == "info"@,
    {
        Config {
            group_id: "consumer-group-1".to_owned(),
            offset: "latest".to_owned(),
            topics: Vec::new(),
            options: empty_mapping(),
            log_level: "info".to_owned(),
        }
    }
}

/// The fields of the object written for a message.
pub open spec fn record_fields(topic: Seq<char>, message: Seq<char>) -> Seq<(Seq<char>, Seq<char>)> {
    seq![("topic"@, topic), ("message"@, message)]
}

impl KafkaConsumer {
    /// What is wrong with the parameters, the first fault first.
    pub open spec fn fault(&self) -> Option<ParamError> {
        if self.brokers@.len() == 0 {
            Some(ParamError::BrokersEmpty)
        } else if self.config.topics@.len() == 0 {
            Some(ParamError::TopicsEmpty)
        } else {
            None
        }
    }

    /// Accepts parameters with at least one broker and at least one topic.
    pub fn validate_params(&self) -> (checked: Result<(), ParamError>)
        ensures
            match self.fault() {
                Some(error) => checked == Err::<(), ParamError>(error),
                None => checked is Ok,
            },
    {
        if self.brokers.len() == 0 {
            return Err(ParamError::BrokersEmpty);
        }
        if self.config.topics.len() == 0 {
            return Err(ParamError::TopicsEmpty);
        }
        Ok(())
    }

    /// The parameters that the client starts from, before the options.
    pub open spec fn base_entries(&self) -> Map<Seq<char>, Seq<char>> {
        no_entries().insert("group.id"@, self.config.group_id@).insert(
            "bootstrap.servers"@,
            joined(self.brokers@, ","@),
        ).insert("auto.offset.reset"@, self.config.offset@)
    }

    /// The configuration of the broker client: the group, the brokers joined
    /// by commas and the offset policy, the log level, then the options in
    /// order. Refused where an option has a text for its value but none for
    /// its key.
    pub fn client_config(&self) -> (built: Result<ClientConfig, ParamError>)
        ensures
            match built {
                Ok(config) => {
                    &&& options_usable(text_entries(self.config.options))
                    &&& config_entries(config) == with_options(
                        self.base_entries(),
                        text_entries(self.config.options),
                    )
                    &&& config_log_level(config) == level_of(self.config.log_level@)
                },
                Err(error) => {
                    &&& error == ParamError::OptionKeyNotText
                    &&& !options_usable(text_entries(self.config.options))
                },
            },
    {
        let brokers = join(&self.brokers, ",");
        let mut config = new_config();
        set_parameter(&mut config, "group.id", self.config.group_id.as_str());
        set_parameter(&mut config, "bootstrap.servers", brokers.as_str());
        set_parameter(&mut config, "auto.offset.reset", self.config.offset.as_str());
        set_log_level(&mut config, parse_log_level(self.config.log_level.as_str()));
        set_options(config, &self.config.options)
    }

    /// What to make of a message received on `topic`: with a text payload,
    /// the line to append to the output file, if there is one, and the
    /// message is then to be committed; without one, the error that ends the
    /// consumer.
    pub fn on_message(&self, topic: &str, payload: Payload) -> (line: Result<
        Option<String>,
        ConsumeError,
    >)
        ensures
            match payload {
                Payload::Missing => line == Err::<Option<String>, ConsumeError>(
                    ConsumeError::NoContent,
                ),
                Payload::NotText => line == Err::<Option<String>, ConsumeError>(
                    ConsumeError::NotText,
                ),
                Payload::Text(text) => match self.output_file {
                    Some(_) => {
                        &&& line matches Ok(Some(written))
                        &&& written@ == object_text(record_fields(topic@, text@)) + "\n"@
                    },
                    None => line matches Ok(None),
                },
            },
    {
        match payload {
            Payload::Missing => Err(ConsumeError::NoContent),
            Payload::NotText => Err(ConsumeError::NotText),
            Payload::Text(text) => match &self.output_file {
                Some(_) => {
                    let mut fields: Vec<(String, String)> = Vec::new();
                    fields.push(("topic".to_owned(), topic.to_owned()));
                    fields.push(("message".to_owned(), text.to_owned()));
                    proof {
                        assert(fields.deep_view() =~= record_fields(topic@, text@));
                    }
                    let mut written = write_object(&fields);
                    written.append("\n");
                    Ok(Some(written))
                },
                None => Ok(None),
            },
        }
    }
}

} // verus!
