//! Client configurations for the message broker, and the steps that reset
//! its topics.

use vstd::prelude::*;
use rdkafka::config::RDKafkaLogLevel;
use rdkafka::ClientConfig;
use serde_yaml::Mapping;
use crate::faker::ParamError;
use crate::text::str_eq;
use crate::utils::yaml::{string_entries, text_entries, TextEntry};

verus! {

/// How much the broker client logs.
#[derive(Debug, Clone, Copy, PartialEq, Eq, Structural)]
pub enum LogLevel {
    Emerg,
    Alert,
    Critical,
    Error,
    Warning,
    Notice,
    Info,
    Debug,
}

/// `rdkafka::ClientConfig`, carried as an opaque value.
#[verifier::external_type_specification]
#[verifier::external_body]
pub struct ExClientConfig(ClientConfig);

/// The parameters that a client configuration holds, by name.
pub uninterp spec fn config_entries(config: ClientConfig) -> Map<Seq<char>, Seq<char>>;

/// The log level that a client configuration asks for.
pub uninterp spec fn config_log_level(config: ClientConfig) -> LogLevel;

/// A configuration without any parameter.
pub open spec fn no_entries() -> Map<Seq<char>, Seq<char>> {
    Map::empty()
}

/// `ClientConfig::new`: trusted to return a configuration without any
/// parameter. Its log level follows the process's logger and is left open.
#[verifier::external_body]
pub(crate) fn new_config() -> (config: ClientConfig)
    ensures
        config_entries(config) == no_entries(),
{
    ClientConfig::new()
}

/// `ClientConfig::set`: trusted to store `value` under `key`, replacing what
/// was there, and to leave every other parameter and the log level alone.
#[verifier::external_body]
pub(crate) fn set_parameter(config: &mut ClientConfig, key: &str, value: &str)
    ensures
        config_entries(*final(config)) == config_entries(*old(config)).insert(key@, value@),
        config_log_level(*final(config)) == config_log_level(*old(config)),
{
    config.set(key, value);
}

/// `ClientConfig::set_log_level`: trusted to store the level and to leave
/// the parameters alone.
#[verifier::external_body]
pub(crate) fn set_log_level(config: &mut ClientConfig, level: LogLevel)
    ensures
        config_log_level(*final(config)) == level,
        config_entries(*final(config)) == config_entries(*old(config)),
{
    config.set_log_level(
        match level {
            LogLevel::Emerg => RDKafkaLogLevel::Emerg,
            LogLevel::Alert => RDKafkaLogLevel::Alert,
            LogLevel::Critical => RDKafkaLogLevel::Critical,
            LogLevel::Error => RDKafkaLogLevel::Error,
            LogLevel::Warning => RDKafkaLogLevel::Warning,
            LogLevel::Notice => RDKafkaLogLevel::Notice,
            LogLevel::Info => RDKafkaLogLevel::Info,
            LogLevel::Debug => RDKafkaLogLevel::Debug,
        },
    );
}

/// A configuration that names the brokers to contact and nothing else.
pub fn create_config(brokers: &str) -> (config: ClientConfig)
    ensures
        config_entries(config) == no_entries().insert("bootstrap.servers"@, brokers@),
{
    let mut config = new_config();
    set_parameter(&mut config, "bootstrap.servers", brokers);
    config
}

/// The level that a name stands for. An unknown name stands for `Info`.
pub open spec fn level_of(name: Seq<char>) -> LogLevel {
    if name == "debug"@ {
        LogLevel::Debug
    } else if name == "info"@ {
        LogLevel::Info
    } else if name == "notice"@ {
        LogLevel::Notice
    } else if name == "warning"@ {
        LogLevel::Warning
    } else if name == "error"@ {
        LogLevel::Error
    } else if name == "critical"@ {
        LogLevel::Critical
    } else if name == "alert"@ {
        LogLevel::Alert
    } else if name == "emerg"@ {
        LogLevel::Emerg
    } else {
        LogLevel::Info
    }
}

/// Reads a log level by its lower-case name.
pub fn parse_log_level(name: &str) -> (level: LogLevel)
    ensures
        level == level_of(name@),
{
    if str_eq(name, "debug") {
        LogLevel::Debug
    } else if str_eq(name, "info") {
        LogLevel::Info
    } else if str_eq(name, "notice") {
        LogLevel::Notice
    } else if str_eq(name, "warning") {
        LogLevel::Warning
    } else if str_eq(name, "error") {
        LogLevel::Error
    } else if str_eq(name, "critical") {
        LogLevel::Critical
    } else if str_eq(name, "alert") {
        LogLevel::Alert
    } else if str_eq(name, "emerg") {
        LogLevel::Emerg
    } else {
        LogLevel::Info
    }
}

/// Whether every option that has a text for its value has one for its key.
pub open spec fn options_usable(options: Seq<TextEntry>) -> bool {
    forall|i: int| 0 <= i < options.len() ==> ((#[trigger] options[i]).1 is Some ==> options[i].0 is Some)
}

/// The parameters after the options were applied in order: each option whose
/// value is a text is stored under its key, a later one over an earlier one;
/// the others are passed over.
pub open spec fn with_options(base: Map<Seq<char>, Seq<char>>, options: Seq<TextEntry>) -> Map<
    Seq<char>,
    Seq<char>,
>
    decreases options.len(),
{
    if options.len() == 0 {
        base
    } else {
        let before = with_options(base, options.drop_last());
        match options.last() {
            (Some(key), Some(value)) => before.insert(key, value),
            _ => before,
        }
    }
}

/// Applies a plugin's free-form options to a client configuration. An option
/// whose value is a text but whose key is not cannot be applied and is
/// refused; so is then the whole set.
pub fn set_options(config: ClientConfig, options: &Mapping) -> (applied: Result<
    ClientConfig,
    ParamError,
>)
    ensures
        match applied {
            Ok(after) => {
                &&& options_usable(text_entries(*options))
                &&& config_entries(after) == with_options(
                    config_entries(config),
                    text_entries(*options),
                )
                &&& config_log_level(after) == config_log_level(config)
            },
            Err(e) => e == ParamError::OptionKeyNotText && !options_usable(text_entries(*options)),
        },
{
    let entries = string_entries(options);
    let ghost all = text_entries(*options);
    let ghost base = config_entries(config);
    let ghost level = config_log_level(config);
    let mut config = config;
    let mut i: usize = 0;
    while i < entries.len()
        invariant
            i <= entries.len(),
            entries.deep_view() == all,
            all == text_entries(*options),
            options_usable(all.take(i as int)),
            config_entries(config) == with_options(base, all.take(i as int)),
            config_log_level(config) == level,
        decreases entries.len() - i,
    {
        proof {
            assert(all.take(i + 1).drop_last() =~= all.take(i as int));
            assert(all[i as int] == entries@[i as int].deep_view());
        }
        match &entries[i].1 {
            Some(value) => match &entries[i].0 {
                Some(key) => {
                    set_parameter(&mut config, key.as_str(), value.as_str());
                },
                None => {
                    proof {
                        assert(all.len() == entries.len());
                        assert(all[i as int].1 is Some && all[i as int].0 is None);
                    }
                    return Err(ParamError::OptionKeyNotText);
                },
            },
            None => {},
        }
        proof {
            assert forall|j: int|
                0 <= j < i + 1 && (#[trigger] all.take(i + 1)[j]).1 is Some implies all.take(
                i + 1,
            )[j].0 is Some by {
                if j < i {
                    assert(all.take(i as int)[j] == all.take(i + 1)[j]);
                }
            }
        }
        i = i + 1;
    }
    proof {
        assert(all.take(entries.len() as int) =~= all);
    }
    Ok(config)
}

/// Seconds to let the broker settle after each step of a reset.
pub const RESET_SETTLE_SECS: u64 = 3;

/// Seconds after which an administrative request is given up.
pub const ADMIN_TIMEOUT_SECS: u64 = 1;

/// One step of a topic reset.
#[derive(Debug, Clone, Copy, PartialEq, Eq, Structural)]
pub enum ResetStep {
    /// Delete every topic of the list in one request.
    DeleteAll,
    /// Create the topic at this position of the list.
    Create { topic: usize },
    /// Sleep so that the broker catches up.
    Settle { secs: u64 },
}

/// The steps that reset `count` topics: delete them all and settle, then
/// create each in order and settle after each.
pub open spec fn reset_steps(count: nat) -> Seq<ResetStep> {
    Seq::new(
        2 + 2 * count,
        |k: int|
            if k == 0 {
                ResetStep::DeleteAll
            } else if k % 2 == 1 {
                ResetStep::Settle { secs: RESET_SETTLE_SECS }
            } else {
                ResetStep::Create { topic: ((k - 2) / 2) as usize }
            },
    )
}

/// Plans the reset of the given topics. A failure of any step is fatal to
/// the scenario that asked for the reset.
pub fn reinit_topics(topics: &Vec<String>) -> (steps: Vec<ResetStep>)
    ensures
        steps@ == reset_steps(topics@.len()),
{
    let mut steps: Vec<ResetStep> = Vec::new();
    steps.push(ResetStep::DeleteAll);
    steps.push(ResetStep::Settle { secs: RESET_SETTLE_SECS });
    let mut i: usize = 0;
    while i < topics.len()
        invariant
            i <= topics.len(),
            steps@ == reset_steps(i as nat),
        decreases topics.len() - i,
    {
        steps.push(ResetStep::Create { topic: i });
        steps.push(ResetStep::Settle { secs: RESET_SETTLE_SECS });
        proof {
            assert(steps@ =~= reset_steps((i + 1) as nat));
        }
        i = i + 1;
    }
    proof {
        assert(steps@ =~= reset_steps(topics@.len()));
    }
    steps
}

} // verus!
