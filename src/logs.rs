//! The log shown by the live display: levels, and a buffer that keeps the
//! newest entries.

use vstd::prelude::*;
use std::collections::VecDeque;

verus! {

/// Most entries that the buffer keeps.
pub const MAX_LOG_ENTRIES: usize = 1000;

#[derive(PartialEq, Eq, Structural, Clone, Copy, Debug)]
pub enum LogLevel {
    Info,
    Warn,
    Error,
    Debug,
}

impl LogLevel {
    /// The level's label.
    pub fn icon(&self) -> (r: &'static str)
        ensures
            *self == LogLevel::Info ==> r@ == "INFO"@,
            *self == LogLevel::Warn ==> r@ == "WARN"@,
            *self == LogLevel::Error ==> r@ == "ERROR"@,
            *self == LogLevel::Debug ==> r@ == "DEBUG"@,
    {
        match self {
            LogLevel::Info => "INFO",
            LogLevel::Warn => "WARN",
            LogLevel::Error => "ERROR",
            LogLevel::Debug => "DEBUG",
        }
    }

    /// The level's colour, as red, green and blue.
    pub fn color(&self) -> (r: (u8, u8, u8))
        ensures
            *self == LogLevel::Info ==> r == (70u8, 130u8, 180u8),
            *self == LogLevel::Warn ==> r == (255u8, 165u8, 0u8),
            *self == LogLevel::Error ==> r == (220u8, 20u8, 60u8),
            *self == LogLevel::Debug ==> r == (128u8, 128u8, 128u8),
    {
        match self {
            LogLevel::Info => (70, 130, 180),
            LogLevel::Warn => (255, 165, 0),
            LogLevel::Error => (220, 20, 60),
            LogLevel::Debug => (128, 128, 128),
        }
    }

    /// Whether an entry of this level is shown; debug entries only on
    /// request.
    pub fn is_visible(&self, show_debug: bool) -> (r: bool)
        ensures
            r == (show_debug || *self != LogLevel::Debug),
    {
        show_debug || *self != LogLevel::Debug
    }
}

/// One log line, stamped in milliseconds since the Unix epoch.
pub struct LogEntry {
    pub timestamp_ms: i64,
    pub level: LogLevel,
    pub message: String,
}

/// The entries on display, oldest first.
pub struct LogBuffer {
    pub entries: VecDeque<LogEntry>,
}

/// `s` without its oldest entry when it holds more than the buffer keeps.
pub open spec fn trimmed(s: Seq<LogEntry>) -> Seq<LogEntry> {
    if s.len() > MAX_LOG_ENTRIES {
        s.drop_first()
    } else {
        s
    }
}

impl LogBuffer {
    pub fn new() -> (r: LogBuffer)
        ensures
            r.entries@.len() == 0,
    {
        LogBuffer { entries: VecDeque::new() }
    }

    /// Appends an entry; when the buffer is full the oldest one goes.
    pub fn add_log_entry(&mut self, entry: LogEntry)
        ensures
            final(self).entries@ == trimmed(old(self).entries@.push(entry)),
            old(self).entries@.len() <= MAX_LOG_ENTRIES ==> final(self).entries@.len()
                <= MAX_LOG_ENTRIES,
    {
        self.entries.push_back(entry);
        if self.entries.len() > MAX_LOG_ENTRIES {
            let _ = self.entries.pop_front();
        }
        proof {
            let s = old(self).entries@.push(entry);
            if s.len() > MAX_LOG_ENTRIES {
                assert(self.entries@ =~= s.drop_first());
            }
        }
    }
}

} // verus!
