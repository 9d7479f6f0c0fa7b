//! The boundary of the log builder.
use crate::boundary::utils::{
    payload_written, reports_invalid_text, validate_text, write_payload,
};
use crate::boundary::{STATUS_INVALID_TEXT, STATUS_OK};
use crate::envelope::logs::logs_payload;
use crate::logs::{logged, Logs};
use crate::record::{LogEntryView, Severity};
use bytes::BytesMut;
use vstd::prelude::*;
use vstd::utf8::{decode_utf8, valid_utf8};

verus! {

/// What a call that takes a record leaves behind. Given a message that is
/// UTF-8, the record is taken, with the current time as the time of
/// observation, and the error buffer stays as it is. Given any other, no
/// record is taken and the error buffer holds the report.
pub open spec fn log_outcome(
    before: Seq<LogEntryView>,
    after: Seq<LogEntryView>,
    err_before: Seq<u8>,
    err_after: Seq<u8>,
    status: i32,
    severity: Severity,
    time_unix_nano: u64,
    message: Seq<u8>,
) -> bool {
    if valid_utf8(message) {
        &&& status == STATUS_OK
        &&& err_after == err_before
        &&& exists|now: u64|
            after == #[trigger] logged(before, severity, time_unix_nano, now, decode_utf8(message))
    } else {
        &&& status == STATUS_INVALID_TEXT
        &&& after == before
        &&& reports_invalid_text(err_before, err_after, "message"@)
    }
}

/// A new log builder.
pub fn lua_resty_protobuf_logs_new() -> (logs: Logs)
    ensures
        logs@ == Seq::<LogEntryView>::empty(),
{
    Logs::new()
}

/// Writes the payload of `logs` to the start of `buf` and gives its length,
/// or gives zero and leaves `buf` as it is where the payload does not fit.
/// Either way the builder is gone.
pub fn lua_resty_protobuf_logs_get_serialized(logs: Logs, buf: &mut [u8]) -> (written: u32)
    requires
        old(buf)@.len() <= u32::MAX,
        old(buf)@.len() <= isize::MAX,
    ensures
        payload_written(old(buf)@, final(buf)@, written, logs_payload(logs@)),
{
    let mut serialized = BytesMut::with_capacity(buf.len());
    logs.get_serialized(&mut serialized);
    write_payload(&serialized, buf)
}

/// Takes an informational record with the message `message`.
pub fn lua_resty_protobuf_logs_add_info(
    logs: &mut Logs,
    time_unix_nano: u64,
    message: &[u8],
    err_buf: &mut [u8],
) -> (status: i32)
    ensures
        log_outcome(
            old(logs)@,
            final(logs)@,
            old(err_buf)@,
            final(err_buf)@,
            status,
            Severity::Info,
            time_unix_nano,
            message@,
        ),
{
    match validate_text(message, "message", err_buf) {
        None => STATUS_INVALID_TEXT,
        Some(message) => {
            logs.add_info_log(time_unix_nano, message);
            STATUS_OK
        },
    }
}

/// Takes a warning with the message `message`.
pub fn lua_resty_protobuf_logs_add_warn(
    logs: &mut Logs,
    time_unix_nano: u64,
    message: &[u8],
    err_buf: &mut [u8],
) -> (status: i32)
    ensures
        log_outcome(
            old(logs)@,
            final(logs)@,
            old(err_buf)@,
            final(err_buf)@,
            status,
            Severity::Warning,
            time_unix_nano,
            message@,
        ),
{
    match validate_text(message, "message", err_buf) {
        None => STATUS_INVALID_TEXT,
        Some(message) => {
            logs.add_warning_log(time_unix_nano, message);
            STATUS_OK
        },
    }
}

/// Takes an error record with the message `message`.
pub fn lua_resty_protobuf_logs_add_error(
    logs: &mut Logs,
    time_unix_nano: u64,
    message: &[u8],
    err_buf: &mut [u8],
) -> (status: i32)
    ensures
        log_outcome(
            old(logs)@,
            final(logs)@,
            old(err_buf)@,
            final(err_buf)@,
            status,
            Severity::Error,
            time_unix_nano,
            message@,
        ),
{
    match validate_text(message, "message", err_buf) {
        None => STATUS_INVALID_TEXT,
        Some(message) => {
            logs.add_error_log(time_unix_nano, message);
            STATUS_OK
        },
    }
}

/// Takes a fatal record with the message `message`.
pub fn lua_resty_protobuf_logs_add_fatal(
    logs: &mut Logs,
    time_unix_nano: u64,
    message: &[u8],
    err_buf: &mut [u8],
) -> (status: i32)
    ensures
        log_outcome(
            old(logs)@,
            final(logs)@,
            old(err_buf)@,
            final(err_buf)@,
            status,
            Severity::Fatal,
            time_unix_nano,
            message@,
        ),
{
    match validate_text(message, "message", err_buf) {
        None => STATUS_INVALID_TEXT,
        Some(message) => {
            logs.add_fatal_log(time_unix_nano, message);
            STATUS_OK
        },
    }
}

} // verus!
