//! Log records as the drain sees them.

use vstd::prelude::*;

verus! {

/// The tag that marks a record as a flush signal rather than a log event.
pub const FLUSH_TAG: &'static str = "__slog_loggly_flush";

/// How severe a log event is.
#[derive(Clone, Copy, Debug, PartialEq, Eq, Structural)]
pub enum Level {
    Critical,
    Error,
    Warning,
    Info,
    Debug,
    Trace,
}

/// One structured log event, as handed over by a call site.
#[derive(Debug, PartialEq, Eq)]
pub struct LogRecord {
    /// The rendered message.
    pub message: String,
    /// How severe the event is.
    pub level: Level,
    /// Key-value attributes, in the order in which they were attached.
    pub attributes: Vec<(String, String)>,
    /// When the event happened, in milliseconds on the caller's clock.
    pub timestamp: u64,
    /// A free-form tag; [`FLUSH_TAG`] marks a flush signal.
    pub tag: String,
}

impl LogRecord {
    /// An informational record with the given message and nothing else: no
    /// attributes, no tag, time zero.
    pub fn new(message: String) -> (record: Self)
        ensures
            record.message@ == message@,
            record.level == Level::Info,
            record.attributes@.len() == 0,
            record.timestamp == 0,
            record.tag@.len() == 0,
            !record.is_flush_signal(),
    {
        proof {
            reveal_strlit("__slog_loggly_flush");
        }
        LogRecord {
            message,
            level: Level::Info,
            attributes: Vec::new(),
            timestamp: 0,
            tag: String::new(),
        }
    }

    /// A record that stands for a flush signal: it is tagged [`FLUSH_TAG`]
    /// and carries nothing else.
    pub fn flush_signal() -> (record: Self)
        ensures
            record.is_flush_signal(),
            record.message@.len() == 0,
            record.level == Level::Trace,
            record.attributes@.len() == 0,
            record.timestamp == 0,
    {
        LogRecord {
            message: String::new(),
            level: Level::Trace,
            attributes: Vec::new(),
            timestamp: 0,
            tag: FLUSH_TAG.to_owned(),
        }
    }

    /// Whether the record is a flush signal in disguise: its tag is
    /// [`FLUSH_TAG`].
    pub open spec fn spec_is_flush_signal(&self) -> bool {
        self.tag@ == FLUSH_TAG@
    }

    /// Whether the record is a flush signal in disguise: its tag is
    /// [`FLUSH_TAG`].
    #[verifier::when_used_as_spec(spec_is_flush_signal)]
    pub fn is_flush_signal(&self) -> (flush: bool)
        ensures
            flush == self.spec_is_flush_signal(),
    {
        let marker = FLUSH_TAG.to_owned();
        self.tag == marker
    }
}

} // verus!
