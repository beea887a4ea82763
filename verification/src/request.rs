//! The request line that carries a reading to the collector.
//!
//! The node speaks no protocol of its own: it sends one fixed request with
//! the reading in its path and then discards whatever comes back. The line
//! is built in a string of fixed capacity, so that no memory is allocated.

use vstd::prelude::*;
use vstd::utf8::{encode_utf8, is_ascii_chars, is_ascii_chars_encode_utf8};
use arrayvec::{ArrayString, CapacityError};

verus! {

/// Capacity of a request line in bytes.
pub const LINE_CAPACITY: usize = 100;

/// Declares `arrayvec::ArrayString`, a string in an array of fixed
/// capacity, as a type whose inside is not looked into.
#[verifier::external_type_specification]
#[verifier::external_body]
pub struct ExArrayString<const CAP: usize>(ArrayString<CAP>);

/// Declares `arrayvec::CapacityError`, the error of a push that does not
/// fit, as a type whose inside is not looked into.
#[verifier::external_type_specification]
#[verifier::external_body]
#[verifier::reject_recursive_types(T)]
pub struct ExCapacityError<T>(CapacityError<T>);

/// The request does not fit into a line of [`LINE_CAPACITY`] bytes.
#[derive(Clone, Copy, Debug, PartialEq, Eq)]
pub struct LineTooLong;

/// The bytes that a request line holds, in order.
pub uninterp spec fn line_bytes(line: ArrayString<100>) -> Seq<u8>;

/// Calls `ArrayString::new`, which gives a string that holds nothing.
#[verifier::external_body]
fn empty_line() -> (line: ArrayString<100>)
    ensures
        line_bytes(line) == Seq::<u8>::empty(),
{
    ArrayString::new()
}

/// Calls `ArrayString::try_push_str`. The text is appended as a whole when
/// its bytes fit into what is left of the capacity; otherwise the call fails
/// with the error of the crate and the line stays as it was.
#[verifier::external_body]
fn push_text<'a>(line: &mut ArrayString<100>, text: &'a str) -> (pushed: Result<
    (),
    CapacityError<&'a str>,
>)
    ensures
        pushed is Ok <==> line_bytes(*old(line)).len() + encode_utf8(text@).len() <= 100,
        pushed is Ok ==> line_bytes(*final(line)) == line_bytes(*old(line)) + encode_utf8(text@),
        pushed is Err ==> line_bytes(*final(line)) == line_bytes(*old(line)),
{
    line.try_push_str(text)
}

/// Appends `text` to `line`, or says that it does not fit.
fn append(line: &mut ArrayString<100>, text: &str) -> (appended: Result<(), LineTooLong>)
    ensures
        appended is Ok <==> line_bytes(*old(line)).len() + encode_utf8(text@).len() <= 100,
        appended is Ok ==> line_bytes(*final(line)) == line_bytes(*old(line)) + encode_utf8(
            text@,
        ),
        appended is Err ==> line_bytes(*final(line)) == line_bytes(*old(line)),
{
    match push_text(line, text) {
        Ok(()) => Ok(()),
        Err(_) => Err(LineTooLong),
    }
}

/// What stands before the value in a request.
pub open spec fn request_head() -> Seq<u8> {
    encode_utf8("GET /update/"@)
}

/// What stands between the value and the host in a request.
pub open spec fn request_middle() -> Seq<u8> {
    encode_utf8("  HTTP/1.0\r\nHost: "@)
}

/// What ends a request.
pub open spec fn request_tail() -> Seq<u8> {
    encode_utf8("\r\n\r\n"@)
}

/// The request for a value and a host, both given as bytes:
/// `GET /update/<value>  HTTP/1.0\r\nHost: <host>\r\n\r\n`.
pub open spec fn request_bytes(value: Seq<u8>, host: Seq<u8>) -> Seq<u8> {
    request_head() + value + request_middle() + host + request_tail()
}

/// Builds the request that reports `value`, a decimal number as text, to the
/// collector at `host`.
///
/// The result is an error exactly when the request is longer than
/// [`LINE_CAPACITY`] bytes.
pub fn request_line(value: &str, host: &str) -> (line: Result<ArrayString<100>, LineTooLong>)
    ensures
        line is Ok <==> request_bytes(encode_utf8(value@), encode_utf8(host@)).len()
            <= LINE_CAPACITY,
        line matches Ok(text) ==> line_bytes(text) == request_bytes(
            encode_utf8(value@),
            encode_utf8(host@),
        ),
{
    let mut line = empty_line();
    if append(&mut line, "GET /update/").is_err() {
        return Err(LineTooLong);
    }
    if append(&mut line, value).is_err() {
        return Err(LineTooLong);
    }
    if append(&mut line, "  HTTP/1.0\r\nHost: ").is_err() {
        return Err(LineTooLong);
    }
    if append(&mut line, host).is_err() {
        return Err(LineTooLong);
    }
    if append(&mut line, "\r\n\r\n").is_err() {
        return Err(LineTooLong);
    }
    Ok(line)
}

/// The fixed parts of a request take 34 bytes, so a request fits its line
/// exactly when the value and the host together take at most 66 bytes.
pub proof fn lemma_request_length(value: Seq<u8>, host: Seq<u8>)
    ensures
        request_head().len() == 12,
        request_middle().len() == 18,
        request_tail().len() == 4,
        request_bytes(value, host).len() == value.len() + host.len() + 34,
        request_bytes(value, host).len() <= LINE_CAPACITY <==> value.len() + host.len() <= 66,
{
    reveal_strlit("GET /update/");
    reveal_strlit("  HTTP/1.0\r\nHost: ");
    reveal_strlit("\r\n\r\n");
    assert(is_ascii_chars("GET /update/"@));
    assert(is_ascii_chars("  HTTP/1.0\r\nHost: "@));
    assert(is_ascii_chars("\r\n\r\n"@));
    is_ascii_chars_encode_utf8("GET /update/"@);
    is_ascii_chars_encode_utf8("  HTTP/1.0\r\nHost: "@);
    is_ascii_chars_encode_utf8("\r\n\r\n"@);
}

} // verus!
