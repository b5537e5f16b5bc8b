//! The settings of the service, resolved from the values that the
//! environment provides.

use vstd::prelude::*;
use crate::models::option_text;
use crate::text::to_chars;

verus! {

/// The settings that the rest of the service reads.
#[derive(Debug, Clone, PartialEq, Eq)]
pub struct Config {
    /// The base URL of the search engine.
    pub elasticsearch_url: String,
    /// The index that holds the documents.
    pub elasticsearch_index: String,
    /// Whether log events are mirrored into the engine.
    pub elasticsearch_logging_enabled: bool,
    /// The index, before its date suffix, that mirrored log events go to.
    pub elasticsearch_logging_index: String,
}

/// The model of a [`Config`].
pub struct ConfigView {
    pub elasticsearch_url: Seq<char>,
    pub elasticsearch_index: Seq<char>,
    pub elasticsearch_logging_enabled: bool,
    pub elasticsearch_logging_index: Seq<char>,
}

impl View for Config {
    type V = ConfigView;

    open spec fn view(&self) -> ConfigView {
        ConfigView {
            elasticsearch_url: self.elasticsearch_url@,
            elasticsearch_index: self.elasticsearch_index@,
            elasticsearch_logging_enabled: self.elasticsearch_logging_enabled,
            elasticsearch_logging_index: self.elasticsearch_logging_index@,
        }
    }
}

/// Whether `s` is the word `true` in any mix of upper and lower case.
pub open spec fn is_true_text(s: Seq<char>) -> bool {
    &&& s.len() == 4
    &&& (s[0] == 't' || s[0] == 'T')
    &&& (s[1] == 'r' || s[1] == 'R')
    &&& (s[2] == 'u' || s[2] == 'U')
    &&& (s[3] == 'e' || s[3] == 'E')
}

/// The value of a setting: the given one, or `fallback` where none is given.
pub open spec fn setting(given: Option<Seq<char>>, fallback: Seq<char>) -> Seq<char> {
    match given {
        Some(value) => value,
        None => fallback,
    }
}

/// The settings that four optional values resolve to.
pub open spec fn resolved(
    url: Option<Seq<char>>,
    index: Option<Seq<char>>,
    logging_enabled: Option<Seq<char>>,
    logging_index: Option<Seq<char>>,
) -> ConfigView {
    ConfigView {
        elasticsearch_url: setting(url, "http://host.docker.internal:9200"@),
        elasticsearch_index: setting(index, "posts"@),
        elasticsearch_logging_enabled: match logging_enabled {
            Some(value) => is_true_text(value),
            None => false,
        },
        elasticsearch_logging_index: setting(logging_index, "okblog-search-logs"@),
    }
}

/// Reads a switch: on for the word `true` in any mix of upper and lower case,
/// off for every other text.
pub fn parse_flag(value: &str) -> (on: bool)
    ensures
        on == is_true_text(value@),
{
    let chars = to_chars(value);
    chars.len() == 4 && (chars[0] == 't' || chars[0] == 'T') && (chars[1] == 'r' || chars[1]
        == 'R') && (chars[2] == 'u' || chars[2] == 'U') && (chars[3] == 'e' || chars[3] == 'E')
}

/// The given value of a setting, or `fallback` where none is given.
fn setting_or(given: Option<String>, fallback: &str) -> (value: String)
    ensures
        value@ == setting(option_text(given), fallback@),
{
    match given {
        Some(value) => value,
        None => String::from_str(fallback),
    }
}

impl Config {
    /// Resolves the settings from the values of the four environment
    /// variables: the engine's URL, the document index, the switch for log
    /// mirroring, and the log index. A variable that is not set is `None`.
    pub fn from_env(
        url: Option<String>,
        index: Option<String>,
        logging_enabled: Option<String>,
        logging_index: Option<String>,
    ) -> (config: Config)
        ensures
            config@ == resolved(
                option_text(url),
                option_text(index),
                option_text(logging_enabled),
                option_text(logging_index),
            ),
    {
        let enabled = match &logging_enabled {
            Some(value) => parse_flag(value.as_str()),
            None => false,
        };
        Config {
            elasticsearch_url: setting_or(url, "http://host.docker.internal:9200"),
            elasticsearch_index: setting_or(index, "posts"),
            elasticsearch_logging_enabled: enabled,
            elasticsearch_logging_index: setting_or(logging_index, "okblog-search-logs"),
        }
    }
}

} // verus!
