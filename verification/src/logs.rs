//! The log builder: the records taken, in the order of their taking.
use crate::buffer::buffer_bytes;
use crate::clock::current_time_unix_nano;
use crate::envelope::logs::{logs_data, logs_payload};
use crate::record::{LogEntry, LogEntryView, Severity};
use crate::schema::logs::encode_logs;
use bytes::BytesMut;
use vstd::prelude::*;

verus! {

/// The records after one more was taken at the time `now`: those before,
/// then the new one.
pub open spec fn logged(
    entries: Seq<LogEntryView>,
    severity: Severity,
    time_unix_nano: u64,
    now: u64,
    body: Seq<char>,
) -> Seq<LogEntryView> {
    entries.push(LogEntryView { time_unix_nano, observed_time_unix_nano: now, severity, body })
}

/// The records after a notice was taken at the time `now`. A notice is an
/// informational record.
pub open spec fn noticed(
    entries: Seq<LogEntryView>,
    time_unix_nano: u64,
    now: u64,
    body: Seq<char>,
) -> Seq<LogEntryView> {
    logged(entries, Severity::Info, time_unix_nano, now, body)
}

/// The log builder.
pub struct Logs {
    entries: Vec<LogEntry>,
}

impl View for Logs {
    type V = Seq<LogEntryView>;

    closed spec fn view(&self) -> Seq<LogEntryView> {
        self.entries.deep_view()
    }
}

impl Logs {
    /// A builder with no records.
    pub fn new() -> (logs: Logs)
        ensures
            logs@ == Seq::<LogEntryView>::empty(),
    {
        let logs = Logs { entries: Vec::new() };
        assert(logs.entries.deep_view() =~= Seq::empty());
        logs
    }

    /// Appends `entry` after the records taken so far.
    pub fn record(&mut self, entry: LogEntry)
        ensures
            final(self)@ == old(self)@.push(entry@),
    {
        self.entries.push(entry);
        assert(self.entries.deep_view() =~= old(self).entries.deep_view().push(entry@));
    }

    /// Takes a record of the given severity, observed at the current time.
    fn record_now(&mut self, severity: Severity, time_unix_nano: u64, message: &str)
        ensures
            exists|now: u64|
                final(self)@ == #[trigger] logged(
                    old(self)@,
                    severity,
                    time_unix_nano,
                    now,
                    message@,
                ),
    {
        let now = current_time_unix_nano();
        self.record(
            LogEntry {
                time_unix_nano,
                observed_time_unix_nano: now,
                severity,
                body: message.to_string(),
            },
        );
        assert(self@ == logged(old(self)@, severity, time_unix_nano, now, message@));
    }

    /// Takes an informational record of an event at `time_unix_nano`.
    pub fn add_info_log(&mut self, time_unix_nano: u64, message: &str)
        ensures
            exists|now: u64|
                final(self)@ == #[trigger] logged(
                    old(self)@,
                    Severity::Info,
                    time_unix_nano,
                    now,
                    message@,
                ),
    {
        self.record_now(Severity::Info, time_unix_nano, message);
    }

    /// Takes a notice of an event at `time_unix_nano`. A notice is an
    /// informational record.
    pub fn add_notice_log(&mut self, time_unix_nano: u64, message: &str)
        ensures
            exists|now: u64|
                final(self)@ == #[trigger] noticed(old(self)@, time_unix_nano, now, message@),
    {
        self.add_info_log(time_unix_nano, message);
        let ghost now = choose|now: u64|
            self@ == #[trigger] logged(old(self)@, Severity::Info, time_unix_nano, now, message@);
        assert(self@ == noticed(old(self)@, time_unix_nano, now, message@));
    }

    /// Takes a warning of an event at `time_unix_nano`.
    pub fn add_warning_log(&mut self, time_unix_nano: u64, message: &str)
        ensures
            exists|now: u64|
                final(self)@ == #[trigger] logged(
                    old(self)@,
                    Severity::Warning,
                    time_unix_nano,
                    now,
                    message@,
                ),
    {
        self.record_now(Severity::Warning, time_unix_nano, message);
    }

    /// Takes an error record of an event at `time_unix_nano`.
    pub fn add_error_log(&mut self, time_unix_nano: u64, message: &str)
        ensures
            exists|now: u64|
                final(self)@ == #[trigger] logged(
                    old(self)@,
                    Severity::Error,
                    time_unix_nano,
                    now,
                    message@,
                ),
    {
        self.record_now(Severity::Error, time_unix_nano, message);
    }

    /// Takes a fatal record of an event at `time_unix_nano`.
    pub fn add_fatal_log(&mut self, time_unix_nano: u64, message: &str)
        ensures
            exists|now: u64|
                final(self)@ == #[trigger] logged(
                    old(self)@,
                    Severity::Fatal,
                    time_unix_nano,
                    now,
                    message@,
                ),
    {
        self.record_now(Severity::Fatal, time_unix_nano, message);
    }

    /// Appends to `buf` the payload that carries the records, and ends the
    /// builder.
    pub fn get_serialized(self, buf: &mut BytesMut)
        ensures
            buffer_bytes(*final(buf)) == buffer_bytes(*old(buf)) + logs_payload(self@),
    {
        let data = logs_data(&self.entries);
        let bytes = encode_logs(&data);
        buf.extend_from_slice(bytes.as_slice());
    }
}

} // verus!
