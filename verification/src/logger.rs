//! The log mirror: what a log event becomes, and whether and where it is
//! written. The writing itself is left to the caller.

use vstd::prelude::*;
use crate::config::{Config, ConfigView};
use crate::json::{member_views, Json, JsonValue};
use crate::models::option_text;
use crate::text::{parse_u32, parse_u32_text, str_eq};
use crate::timestamp::{render_utc, rendered_utc};

verus! {

/// Collects the fields of one log event that the mirror keeps.
#[derive(Debug, PartialEq, Eq)]
pub struct FieldVisitor {
    pub message: Option<String>,
    pub target: Option<String>,
    pub module: Option<String>,
    pub file: Option<String>,
    pub line: Option<u32>,
}

/// The model of a [`FieldVisitor`].
pub struct FieldVisitorView {
    pub message: Option<Seq<char>>,
    pub target: Option<Seq<char>>,
    pub module: Option<Seq<char>>,
    pub file: Option<Seq<char>>,
    pub line: Option<u32>,
}

impl View for FieldVisitor {
    type V = FieldVisitorView;

    open spec fn view(&self) -> FieldVisitorView {
        FieldVisitorView {
            message: option_text(self.message),
            target: option_text(self.target),
            module: option_text(self.module),
            file: option_text(self.file),
            line: self.line,
        }
    }
}

impl FieldVisitorView {
    /// The fields after the text `value` was recorded under `name`: it
    /// replaces the field of that name, if it is one of the four text fields.
    pub open spec fn with_text(self, name: Seq<char>, value: Seq<char>) -> FieldVisitorView {
        if name == "message"@ {
            FieldVisitorView { message: Some(value), ..self }
        } else if name == "target"@ {
            FieldVisitorView { target: Some(value), ..self }
        } else if name == "module_path"@ {
            FieldVisitorView { module: Some(value), ..self }
        } else if name == "file"@ {
            FieldVisitorView { file: Some(value), ..self }
        } else {
            self
        }
    }

    /// The fields after the number `value` was recorded under `name`: it
    /// replaces the line, if `name` is `line`.
    pub open spec fn with_number(self, name: Seq<char>, value: u32) -> FieldVisitorView {
        if name == "line"@ {
            FieldVisitorView { line: Some(value), ..self }
        } else {
            self
        }
    }

    /// The fields after a value with the debug rendering `rendered` was
    /// recorded under `name`. Under `line` the rendering counts only where it
    /// is the notation of a number.
    pub open spec fn with_debug(self, name: Seq<char>, rendered: Seq<char>) -> FieldVisitorView {
        if name == "line"@ {
            match parse_u32_text(rendered) {
                Some(n) => FieldVisitorView { line: Some(n), ..self },
                None => self,
            }
        } else {
            self.with_text(name, rendered)
        }
    }
}

impl FieldVisitor {
    /// A visitor that has seen no field.
    pub fn new() -> (visitor: FieldVisitor)
        ensures
            visitor@ == (FieldVisitorView {
                message: None,
                target: None,
                module: None,
                file: None,
                line: None,
            }),
    {
        FieldVisitor { message: None, target: None, module: None, file: None, line: None }
    }

    /// Records a text field.
    pub fn record_str(&mut self, name: &str, value: &str)
        ensures
            final(self)@ == old(self)@.with_text(name@, value@),
    {
        if str_eq(name, "message") {
            self.message = Some(String::from_str(value));
        } else if str_eq(name, "target") {
            self.target = Some(String::from_str(value));
        } else if str_eq(name, "module_path") {
            self.module = Some(String::from_str(value));
        } else if str_eq(name, "file") {
            self.file = Some(String::from_str(value));
        }
    }

    /// Records a field of any kind by its debug rendering.
    pub fn record_debug(&mut self, name: &str, rendered: &str)
        ensures
            final(self)@ == old(self)@.with_debug(name@, rendered@),
    {
        if str_eq(name, "line") {
            match parse_u32(rendered) {
                Some(n) => {
                    self.line = Some(n);
                },
                None => {},
            }
        } else {
            self.record_str(name, rendered);
        }
    }

    /// Records a signed number; as a line it is cut to its low 32 bits.
    pub fn record_i64(&mut self, name: &str, value: i64)
        ensures
            final(self)@ == old(self)@.with_number(name@, value as u32),
    {
        if str_eq(name, "line") {
            self.line = Some(#[verifier::truncate] (value as u32));
        }
    }

    /// Records an unsigned number; as a line it is cut to its low 32 bits.
    pub fn record_u64(&mut self, name: &str, value: u64)
        ensures
            final(self)@ == old(self)@.with_number(name@, value as u32),
    {
        if str_eq(name, "line") {
            self.line = Some(#[verifier::truncate] (value as u32));
        }
    }
}

/// One log event as it is mirrored.
#[derive(Debug, PartialEq, Eq)]
pub struct LogEntry {
    pub timestamp: String,
    pub level: String,
    pub message: String,
    pub target: String,
    pub module: Option<String>,
    pub file: Option<String>,
    pub line: Option<u32>,
}

/// The model of a [`LogEntry`].
pub struct LogEntryView {
    pub timestamp: Seq<char>,
    pub level: Seq<char>,
    pub message: Seq<char>,
    pub target: Seq<char>,
    pub module: Option<Seq<char>>,
    pub file: Option<Seq<char>>,
    pub line: Option<u32>,
}

impl View for LogEntry {
    type V = LogEntryView;

    open spec fn view(&self) -> LogEntryView {
        LogEntryView {
            timestamp: self.timestamp@,
            level: self.level@,
            message: self.message@,
            target: self.target@,
            module: option_text(self.module),
            file: option_text(self.file),
            line: self.line,
        }
    }
}

/// The pattern of the timestamp of a log entry: date and time of day with
/// the fraction of a second in as many groups of three digits as it needs,
/// and `Z` for UTC.
pub open spec fn entry_time_pattern() -> Seq<char> {
    "%Y-%m-%dT%H:%M:%S%.fZ"@
}

/// The pattern of the date that ends the name of a log index.
pub open spec fn index_day_pattern() -> Seq<char> {
    "%Y-%m-%d"@
}

/// The entry for an event of severity `level` that was seen at `timestamp`:
/// the message it recorded, or none; the target it recorded, or the one of
/// its call site, `target`; and what it recorded of its place in the source.
pub open spec fn entry_of(
    level: Seq<char>,
    target: Seq<char>,
    fields: FieldVisitorView,
    timestamp: Seq<char>,
) -> LogEntryView {
    LogEntryView {
        timestamp,
        level,
        message: match fields.message {
            Some(m) => m,
            None => Seq::empty(),
        },
        target: match fields.target {
            Some(t) => t,
            None => target,
        },
        module: fields.module,
        file: fields.file,
        line: fields.line,
    }
}

/// The member for an optional text: none where the text is absent.
pub open spec fn optional_text(key: Seq<char>, value: Option<Seq<char>>) -> Seq<
    (Seq<char>, JsonValue),
> {
    match value {
        Some(v) => seq![(key, JsonValue::Str(v))],
        None => Seq::empty(),
    }
}

/// The member for an optional line number: none where the number is absent.
pub open spec fn optional_line(key: Seq<char>, value: Option<u32>) -> Seq<
    (Seq<char>, JsonValue),
> {
    match value {
        Some(n) => seq![(key, JsonValue::Int(n as int))],
        None => Seq::empty(),
    }
}

/// The document that a log entry is written as: its timestamp, level,
/// message and target, and of module path, file and line those it has.
pub open spec fn log_document(entry: LogEntryView) -> JsonValue {
    JsonValue::Object(
        seq![
            ("timestamp"@, JsonValue::Str(entry.timestamp)),
            ("level"@, JsonValue::Str(entry.level)),
            ("message"@, JsonValue::Str(entry.message)),
            ("target"@, JsonValue::Str(entry.target)),
        ] + optional_text("module_path"@, entry.module) + optional_text("file"@, entry.file)
            + optional_line("line"@, entry.line),
    )
}

impl LogEntry {
    /// Builds the entry for an event from its severity, the target of its
    /// call site, the fields it recorded and the text of the time it was
    /// seen at.
    pub fn from_event(level: &str, target: &str, fields: FieldVisitor, timestamp: String) -> (entry:
        LogEntry)
        ensures
            entry@ == entry_of(level@, target@, fields@, timestamp@),
    {
        let FieldVisitor { message, target: recorded_target, module, file, line } = fields;
        LogEntry {
            timestamp,
            level: String::from_str(level),
            message: match message {
                Some(m) => m,
                None => String::new(),
            },
            target: match recorded_target {
                Some(t) => t,
                None => String::from_str(target),
            },
            module,
            file,
            line,
        }
    }

    /// Builds the entry for an event that was seen `secs` seconds and `nanos`
    /// nanoseconds after the Unix epoch.
    pub fn at(level: &str, target: &str, fields: FieldVisitor, secs: i64, nanos: u32) -> (entry:
        LogEntry)
        ensures
            entry@ == entry_of(
                level@,
                target@,
                fields@,
                rendered_utc(secs, nanos, entry_time_pattern()),
            ),
    {
        let timestamp = render_utc(secs, nanos, "%Y-%m-%dT%H:%M:%S%.fZ");
        LogEntry::from_event(level, target, fields, timestamp)
    }

    /// The document that this entry is written as.
    pub fn to_json(&self) -> (doc: Json)
        ensures
            doc@ == log_document(self@),
    {
        let mut members: Vec<(String, Json)> = vec![
            Json::member("timestamp", Json::text(self.timestamp.as_str())),
            Json::member("level", Json::text(self.level.as_str())),
            Json::member("message", Json::text(self.message.as_str())),
            Json::member("target", Json::text(self.target.as_str())),
        ];
        let ghost fixed = seq![
            ("timestamp"@, JsonValue::Str(self@.timestamp)),
            ("level"@, JsonValue::Str(self@.level)),
            ("message"@, JsonValue::Str(self@.message)),
            ("target"@, JsonValue::Str(self@.target)),
        ];
        proof {
            assert(member_views(members@) =~= fixed);
        }
        match &self.module {
            Some(path) => {
                members.push(Json::member("module_path", Json::text(path.as_str())));
            },
            None => {},
        }
        proof {
            assert(member_views(members@) =~= fixed + optional_text(
                "module_path"@,
                self@.module,
            ));
        }
        match &self.file {
            Some(file) => {
                members.push(Json::member("file", Json::text(file.as_str())));
            },
            None => {},
        }
        proof {
            assert(member_views(members@) =~= fixed + optional_text(
                "module_path"@,
                self@.module,
            ) + optional_text("file"@, self@.file));
        }
        match self.line {
            Some(n) => {
                members.push(Json::member("line", Json::UInt(n as u64)));
            },
            None => {},
        }
        proof {
            assert(member_views(members@) =~= log_document(self@)->Object_0);
        }
        Json::object(members)
    }
}

/// One write that the mirror asks for: the document and the index it goes to.
#[derive(Debug, PartialEq)]
pub struct LogWrite {
    pub index: String,
    pub document: Json,
}

/// The name of the index that holds the log entries of one day.
pub open spec fn index_text(base: Seq<char>, day: Seq<char>) -> Seq<char> {
    base + seq!['-'] + day
}

/// The name of the index for the log entries of the day `day`.
pub fn index_name(base: &str, day: &str) -> (name: String)
    ensures
        name@ == index_text(base@, day@),
{
    let mut name = String::from_str(base);
    name.append("-");
    name.append(day);
    proof {
        reveal_strlit("-");
        assert("-"@ =~= seq!['-']);
    }
    name
}

/// Decides what the log mirror writes.
pub struct ElasticsearchLogger {
    config: Config,
}

impl View for ElasticsearchLogger {
    type V = ConfigView;

    closed spec fn view(&self) -> ConfigView {
        self.config@
    }
}

impl ElasticsearchLogger {
    /// A mirror that follows `config`.
    pub fn new(config: Config) -> (logger: ElasticsearchLogger)
        ensures
            logger@ == config@,
    {
        ElasticsearchLogger { config }
    }

    /// The settings that the mirror follows.
    pub fn config(&self) -> (config: &Config)
        ensures
            config@ == self@,
    {
        &self.config
    }

    /// Whether the mirror writes at all.
    pub fn is_enabled(&self) -> (on: bool)
        ensures
            on == self@.elasticsearch_logging_enabled,
    {
        self.config.elasticsearch_logging_enabled
    }

    /// Decides what to write for `entry` at the instant of `secs` seconds and
    /// `nanos` nanoseconds after the Unix epoch.
    ///
    /// A mirror that is switched off writes nothing. One that is switched on
    /// writes the entry's document into the log index of the day of that
    /// instant.
    pub fn plan_write(&self, entry: &LogEntry, secs: i64, nanos: u32) -> (write: Option<LogWrite>)
        ensures
            write is Some <==> self@.elasticsearch_logging_enabled,
            write matches Some(w) ==> {
                &&& w.index@ == index_text(
                    self@.elasticsearch_logging_index,
                    rendered_utc(secs, nanos, index_day_pattern()),
                )
                &&& w.document@ == log_document(entry@)
            },
    {
        if !self.config.elasticsearch_logging_enabled {
            return None;
        }
        let day = render_utc(secs, nanos, "%Y-%m-%d");
        let index = index_name(self.config.elasticsearch_logging_index.as_str(), day.as_str());
        Some(LogWrite { index, document: entry.to_json() })
    }
}

} // verus!
