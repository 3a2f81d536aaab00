use crate::bytes::{dec_digits, fmt_u64, push_all};
use crate::text;
use vstd::prelude::*;

verus! {

/// Failure while framing an HTTP request from a byte stream.
#[derive(Debug, Clone, Copy, PartialEq, Eq, Structural)]
pub enum RequestError {
    /// The stream could not be read at all.
    StreamRead,
    /// An intermediate reply could not be written back to the stream.
    StreamWrite,
    /// The header/body separator never appeared.
    NoMessageBody,
    /// A consumed region was not valid UTF-8.
    BadMessage,
    /// A request that needs a body length did not declare one.
    NoContentLength,
    /// The declared body length and the delivered bytes disagree.
    BadContentLength(usize, usize),
    /// The request had no line to read a method from.
    NoRequestLine,
    /// The request line did not hold both a method and a path.
    RequestLineParse,
}

/// The plain-text rendering of a framing failure.
pub open spec fn spec_request_error_text(e: RequestError) -> Seq<u8> {
    match e {
        RequestError::StreamRead => text::spec_err_stream_read(),
        RequestError::StreamWrite => text::spec_err_stream_write(),
        RequestError::NoMessageBody => text::spec_err_no_message_body(),
        RequestError::BadMessage => text::spec_err_bad_message(),
        RequestError::NoContentLength => text::spec_err_no_content_length(),
        RequestError::BadContentLength(expected, actual) => text::spec_err_bad_content_length_head()
            + dec_digits(expected as nat) + text::spec_err_bad_content_length_mid() + dec_digits(
            actual as nat,
        ) + text::spec_err_bad_content_length_tail(),
        RequestError::NoRequestLine => text::spec_err_no_request_line(),
        RequestError::RequestLineParse => text::spec_err_request_line_parse(),
    }
}

impl RequestError {
    /// Renders the failure as the plain text used in error responses.
    pub fn describe(&self) -> (r: Vec<u8>)
        ensures
            r@ == spec_request_error_text(*self),
    {
        match self {
            RequestError::StreamRead => text::err_stream_read(),
            RequestError::StreamWrite => text::err_stream_write(),
            RequestError::NoMessageBody => text::err_no_message_body(),
            RequestError::BadMessage => text::err_bad_message(),
            RequestError::NoContentLength => text::err_no_content_length(),
            RequestError::BadContentLength(expected, actual) => {
                let mut r = text::err_bad_content_length_head();
                let e_digits = fmt_u64(*expected as u64);
                let a_digits = fmt_u64(*actual as u64);
                push_all(&mut r, e_digits.as_slice());
                let mid = text::err_bad_content_length_mid();
                push_all(&mut r, mid.as_slice());
                push_all(&mut r, a_digits.as_slice());
                let tail = text::err_bad_content_length_tail();
                push_all(&mut r, tail.as_slice());
                r
            },
            RequestError::NoRequestLine => text::err_no_request_line(),
            RequestError::RequestLineParse => text::err_request_line_parse(),
        }
    }
}

} // verus!
