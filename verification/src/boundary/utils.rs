//! The error buffer, and the validation of text.
use crate::buffer::{buffer_bytes, buffer_slice};
use bytes::BytesMut;
use core::str::Utf8Error;
use vstd::prelude::*;
use vstd::string::StringExecFns;
use vstd::utf8::{decode_utf8, encode_utf8, valid_utf8};

verus! {

#[verifier::external_type_specification]
#[verifier::external_body]
pub struct ExUtf8Error(core::str::Utf8Error);

/// `core::str::from_utf8` accepts exactly the well-formed UTF-8 byte
/// sequences, and gives the text that the bytes encode.
pub assume_specification<'a>[ core::str::from_utf8 ](v: &'a [u8]) -> (result: Result<
    &'a str,
    Utf8Error,
>)
    ensures
        result is Ok <==> valid_utf8(v@),
        result is Ok ==> result->Ok_0@ == decode_utf8(v@),
;

/// The number of message bytes that a buffer of `capacity` bytes takes: all
/// of them, or as many as leave room for the terminating NUL.
pub open spec fn written_len(capacity: nat, message_len: nat) -> nat {
    if capacity == 0 {
        0
    } else if message_len <= capacity - 1 {
        message_len
    } else {
        (capacity - 1) as nat
    }
}

/// The error buffer after `message` was written into it: the start of the
/// message, as far as it fits, then a NUL, then what the buffer held before.
/// A buffer without room for the NUL stays as it is.
pub open spec fn error_buffer_after(before: Seq<u8>, message: Seq<u8>) -> Seq<u8> {
    if before.len() == 0 {
        before
    } else {
        let len = written_len(before.len(), message.len()) as int;
        message.take(len) + seq![0u8] + before.skip(len + 1)
    }
}

/// Writing a message keeps the length of the error buffer. Where the buffer
/// has any room, it then starts with as much of the message as fits, a NUL
/// follows that, and the bytes behind the NUL are those from before.
pub proof fn lemma_error_buffer_is_terminated(before: Seq<u8>, message: Seq<u8>)
    ensures
        error_buffer_after(before, message).len() == before.len(),
        before.len() > 0 ==> ({
            let after = error_buffer_after(before, message);
            let len = written_len(before.len(), message.len()) as int;
            &&& len < before.len()
            &&& len <= message.len()
            &&& after[len] == 0
            &&& forall|i: int| 0 <= i < len ==> after[i] == message[i]
            &&& forall|i: int| len < i < before.len() ==> after[i] == before[i]
        }),
{
}

/// Writes `err_msg` into `err_buf`, cut to fit and followed by a NUL.
pub fn write_error_buffer(err_buf: &mut [u8], err_msg: &String)
    ensures
        final(err_buf)@ == error_buffer_after(old(err_buf)@, encode_utf8(err_msg@)),
{
    let capacity = err_buf.len();
    if capacity == 0 {
        return ;
    }
    let message = err_msg.as_str().as_bytes();
    let len = if message.len() <= capacity - 1 {
        message.len()
    } else {
        capacity - 1
    };
    let mut i: usize = 0;
    while i < len
        invariant
            i <= len,
            len < capacity,
            len <= message@.len(),
            old(err_buf)@.len() == capacity,
            err_buf@ == message@.take(i as int) + old(err_buf)@.skip(i as int),
        decreases len - i,
    {
        let ghost before = err_buf@;
        err_buf[i] = message[i];
        assert(err_buf@ == before.update(i as int, message@[i as int]));
        assert(err_buf@ =~= message@.take(i + 1) + old(err_buf)@.skip(i + 1));
        i += 1;
    }
    err_buf[len] = 0;
    assert(err_buf@ =~= error_buffer_after(old(err_buf)@, encode_utf8(err_msg@)));
}

/// The report of text that is not UTF-8: which argument it was, and the
/// decoder's account of what is wrong with it.
pub open spec fn invalid_text_message(argument: Seq<char>, detail: Seq<char>) -> Seq<char> {
    "arguement `"@ + argument + "` is not a valid utf-8 string: "@ + detail
}

/// That `after` is the error buffer `before` with a report of invalid text
/// for `argument` written into it.
pub open spec fn reports_invalid_text(
    before: Seq<u8>,
    after: Seq<u8>,
    argument: Seq<char>,
) -> bool {
    exists|detail: Seq<char>|
        after == error_buffer_after(
            before,
            encode_utf8(#[trigger] invalid_text_message(argument, detail)),
        )
}

/// Writes into `err_buf` the report that `argument` is not UTF-8, with the
/// decoder's account `detail`.
pub fn report_invalid_text(err_buf: &mut [u8], argument: &str, detail: &str)
    ensures
        final(err_buf)@ == error_buffer_after(
            old(err_buf)@,
            encode_utf8(invalid_text_message(argument@, detail@)),
        ),
        reports_invalid_text(old(err_buf)@, final(err_buf)@, argument@),
{
    let mut err_msg = String::new();
    err_msg.append("arguement `");
    err_msg.append(argument);
    err_msg.append("` is not a valid utf-8 string: ");
    err_msg.append(detail);
    assert(err_msg@ =~= invalid_text_message(argument@, detail@));
    write_error_buffer(err_buf, &err_msg);
}

/// Reads `text` as UTF-8. Text that is not UTF-8 is reported in `err_buf`,
/// under the name `argument`; otherwise `err_buf` stays as it is.
pub fn validate_text<'a>(text: &'a [u8], argument: &str, err_buf: &mut [u8]) -> (result: Option<
    &'a str,
>)
    ensures
        valid_utf8(text@) ==> result is Some && result->Some_0@ == decode_utf8(text@),
        valid_utf8(text@) ==> final(err_buf)@ == old(err_buf)@,
        !valid_utf8(text@) ==> result is None && reports_invalid_text(
            old(err_buf)@,
            final(err_buf)@,
            argument@,
        ),
{
    match core::str::from_utf8(text) {
        Ok(valid) => Some(valid),
        Err(e) => {
            let detail = e.to_string();
            report_invalid_text(err_buf, argument, detail.as_str());
            None
        },
    }
}

/// That `after` is the output buffer `before` with `payload` written to its
/// start, and `written` the length of the payload; or, where the payload is
/// longer than the buffer, the buffer as it was, and `written` zero.
pub open spec fn payload_written(
    before: Seq<u8>,
    after: Seq<u8>,
    written: u32,
    payload: Seq<u8>,
) -> bool {
    if payload.len() > before.len() {
        written == 0 && after == before
    } else {
        written == payload.len() && after == payload + before.skip(payload.len() as int)
    }
}

/// Copies the payload in `serialized` to the start of `buf`, if it fits, and
/// gives the number of bytes written.
pub fn write_payload(serialized: &BytesMut, buf: &mut [u8]) -> (written: u32)
    requires
        old(buf)@.len() <= u32::MAX,
    ensures
        payload_written(old(buf)@, final(buf)@, written, buffer_bytes(*serialized)),
{
    let payload = buffer_slice(serialized);
    let expected_len = payload.len();
    if expected_len > buf.len() {
        return 0;
    }
    let mut i: usize = 0;
    while i < expected_len
        invariant
            i <= expected_len,
            expected_len == payload@.len(),
            expected_len <= old(buf)@.len(),
            buf@ == payload@.take(i as int) + old(buf)@.skip(i as int),
        decreases expected_len - i,
    {
        let ghost before = buf@;
        buf[i] = payload[i];
        assert(buf@ == before.update(i as int, payload@[i as int]));
        assert(buf@ =~= payload@.take(i + 1) + old(buf)@.skip(i + 1));
        i += 1;
    }
    assert(payload@.take(expected_len as int) =~= payload@);
    expected_len as u32
}

} // verus!
