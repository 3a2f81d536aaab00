//! The byte-string constants of the library: every textual token the
//! contracts speak of, each as a spec-level sequence paired with an
//! executable constructor proved to produce exactly that sequence.

use vstd::prelude::*;

verus! {

/// `Failed to read http input stream.`
pub open spec fn spec_err_stream_read() -> Seq<u8> {
    seq![70, 97, 105, 108, 101, 100, 32, 116, 111, 32, 114, 101, 97, 100, 32, 104, 116, 116, 112, 32, 105, 110, 112, 117, 116, 32, 115, 116, 114, 101, 97, 109, 46]
}

/// `Failed to read http input stream.`
pub fn err_stream_read() -> (r: Vec<u8>)
    ensures
        r@ == spec_err_stream_read(),
{
    let r: Vec<u8> = vec![70, 97, 105, 108, 101, 100, 32, 116, 111, 32, 114, 101, 97, 100, 32, 104, 116, 116, 112, 32, 105, 110, 112, 117, 116, 32, 115, 116, 114, 101, 97, 109, 46];
    proof {
        assert(r@ =~= spec_err_stream_read());
    }
    r
}

/// `Failed to write to http input stream.`
pub open spec fn spec_err_stream_write() -> Seq<u8> {
    seq![70, 97, 105, 108, 101, 100, 32, 116, 111, 32, 119, 114, 105, 116, 101, 32, 116, 111, 32, 104, 116, 116, 112, 32, 105, 110, 112, 117, 116, 32, 115, 116, 114, 101, 97, 109, 46]
}

/// `Failed to write to http input stream.`
pub fn err_stream_write() -> (r: Vec<u8>)
    ensures
        r@ == spec_err_stream_write(),
{
    let r: Vec<u8> = vec![70, 97, 105, 108, 101, 100, 32, 116, 111, 32, 119, 114, 105, 116, 101, 32, 116, 111, 32, 104, 116, 116, 112, 32, 105, 110, 112, 117, 116, 32, 115, 116, 114, 101, 97, 109, 46];
    proof {
        assert(r@ =~= spec_err_stream_write());
    }
    r
}

/// `The HTML request did not have an HTML body or was improperly formatted.`
pub open spec fn spec_err_no_message_body() -> Seq<u8> {
    seq![84, 104, 101, 32, 72, 84, 77, 76, 32, 114, 101, 113, 117, 101, 115, 116, 32, 100, 105, 100, 32, 110, 111, 116, 32, 104, 97, 118, 101, 32, 97, 110, 32, 72, 84, 77, 76, 32, 98, 111, 100, 121, 32, 111, 114, 32, 119, 97, 115, 32, 105, 109, 112, 114, 111, 112, 101, 114, 108, 121, 32, 102, 111, 114, 109, 97, 116, 116, 101, 100, 46]
}

/// `The HTML request did not have an HTML body or was improperly formatted.`
pub fn err_no_message_body() -> (r: Vec<u8>)
    ensures
        r@ == spec_err_no_message_body(),
{
    let r: Vec<u8> = vec![84, 104, 101, 32, 72, 84, 77, 76, 32, 114, 101, 113, 117, 101, 115, 116, 32, 100, 105, 100, 32, 110, 111, 116, 32, 104, 97, 118, 101, 32, 97, 110, 32, 72, 84, 77, 76, 32, 98, 111, 100, 121, 32, 111, 114, 32, 119, 97, 115, 32, 105, 109, 112, 114, 111, 112, 101, 114, 108, 121, 32, 102, 111, 114, 109, 97, 116, 116, 101, 100, 46];
    proof {
        assert(r@ =~= spec_err_no_message_body());
    }
    r
}

/// `HTML message body could not be converted to Utf8.`
pub open spec fn spec_err_bad_message() -> Seq<u8> {
    seq![72, 84, 77, 76, 32, 109, 101, 115, 115, 97, 103, 101, 32, 98, 111, 100, 121, 32, 99, 111, 117, 108, 100, 32, 110, 111, 116, 32, 98, 101, 32, 99, 111, 110, 118, 101, 114, 116, 101, 100, 32, 116, 111, 32, 85, 116, 102, 56, 46]
}

/// `HTML message body could not be converted to Utf8.`
pub fn err_bad_message() -> (r: Vec<u8>)
    ensures
        r@ == spec_err_bad_message(),
{
    let r: Vec<u8> = vec![72, 84, 77, 76, 32, 109, 101, 115, 115, 97, 103, 101, 32, 98, 111, 100, 121, 32, 99, 111, 117, 108, 100, 32, 110, 111, 116, 32, 98, 101, 32, 99, 111, 110, 118, 101, 114, 116, 101, 100, 32, 116, 111, 32, 85, 116, 102, 56, 46];
    proof {
        assert(r@ =~= spec_err_bad_message());
    }
    r
}

/// `HTTP Request did not have the content-length header`
pub open spec fn spec_err_no_content_length() -> Seq<u8> {
    seq![72, 84, 84, 80, 32, 82, 101, 113, 117, 101, 115, 116, 32, 100, 105, 100, 32, 110, 111, 116, 32, 104, 97, 118, 101, 32, 116, 104, 101, 32, 99, 111, 110, 116, 101, 110, 116, 45, 108, 101, 110, 103, 116, 104, 32, 104, 101, 97, 100, 101, 114]
}

/// `HTTP Request did not have the content-length header`
pub fn err_no_content_length() -> (r: Vec<u8>)
    ensures
        r@ == spec_err_no_content_length(),
{
    let r: Vec<u8> = vec![72, 84, 84, 80, 32, 82, 101, 113, 117, 101, 115, 116, 32, 100, 105, 100, 32, 110, 111, 116, 32, 104, 97, 118, 101, 32, 116, 104, 101, 32, 99, 111, 110, 116, 101, 110, 116, 45, 108, 101, 110, 103, 116, 104, 32, 104, 101, 97, 100, 101, 114];
    proof {
        assert(r@ =~= spec_err_no_content_length());
    }
    r
}

/// `Sender said they had `
pub open spec fn spec_err_bad_content_length_head() -> Seq<u8> {
    seq![83, 101, 110, 100, 101, 114, 32, 115, 97, 105, 100, 32, 116, 104, 101, 121, 32, 104, 97, 100, 32]
}

/// `Sender said they had `
pub fn err_bad_content_length_head() -> (r: Vec<u8>)
    ensures
        r@ == spec_err_bad_content_length_head(),
{
    let r: Vec<u8> = vec![83, 101, 110, 100, 101, 114, 32, 115, 97, 105, 100, 32, 116, 104, 101, 121, 32, 104, 97, 100, 32];
    proof {
        assert(r@ =~= spec_err_bad_content_length_head());
    }
    r
}

/// ` bytes, but only sent `
pub open spec fn spec_err_bad_content_length_mid() -> Seq<u8> {
    seq![32, 98, 121, 116, 101, 115, 44, 32, 98, 117, 116, 32, 111, 110, 108, 121, 32, 115, 101, 110, 116, 32]
}

/// ` bytes, but only sent `
pub fn err_bad_content_length_mid() -> (r: Vec<u8>)
    ensures
        r@ == spec_err_bad_content_length_mid(),
{
    let r: Vec<u8> = vec![32, 98, 121, 116, 101, 115, 44, 32, 98, 117, 116, 32, 111, 110, 108, 121, 32, 115, 101, 110, 116, 32];
    proof {
        assert(r@ =~= spec_err_bad_content_length_mid());
    }
    r
}

/// ` bytes.`
pub open spec fn spec_err_bad_content_length_tail() -> Seq<u8> {
    seq![32, 98, 121, 116, 101, 115, 46]
}

/// ` bytes.`
pub fn err_bad_content_length_tail() -> (r: Vec<u8>)
    ensures
        r@ == spec_err_bad_content_length_tail(),
{
    let r: Vec<u8> = vec![32, 98, 121, 116, 101, 115, 46];
    proof {
        assert(r@ =~= spec_err_bad_content_length_tail());
    }
    r
}

/// `The HTTP request did not have a request line.`
pub open spec fn spec_err_no_request_line() -> Seq<u8> {
    seq![84, 104, 101, 32, 72, 84, 84, 80, 32, 114, 101, 113, 117, 101, 115, 116, 32, 100, 105, 100, 32, 110, 111, 116, 32, 104, 97, 118, 101, 32, 97, 32, 114, 101, 113, 117, 101, 115, 116, 32, 108, 105, 110, 101, 46]
}

/// `The HTTP request did not have a request line.`
pub fn err_no_request_line() -> (r: Vec<u8>)
    ensures
        r@ == spec_err_no_request_line(),
{
    let r: Vec<u8> = vec![84, 104, 101, 32, 72, 84, 84, 80, 32, 114, 101, 113, 117, 101, 115, 116, 32, 100, 105, 100, 32, 110, 111, 116, 32, 104, 97, 118, 101, 32, 97, 32, 114, 101, 113, 117, 101, 115, 116, 32, 108, 105, 110, 101, 46];
    proof {
        assert(r@ =~= spec_err_no_request_line());
    }
    r
}

/// `The HTTP request-line was not properly formatted.`
pub open spec fn spec_err_request_line_parse() -> Seq<u8> {
    seq![84, 104, 101, 32, 72, 84, 84, 80, 32, 114, 101, 113, 117, 101, 115, 116, 45, 108, 105, 110, 101, 32, 119, 97, 115, 32, 110, 111, 116, 32, 112, 114, 111, 112, 101, 114, 108, 121, 32, 102, 111, 114, 109, 97, 116, 116, 101, 100, 46]
}

/// `The HTTP request-line was not properly formatted.`
pub fn err_request_line_parse() -> (r: Vec<u8>)
    ensures
        r@ == spec_err_request_line_parse(),
{
    let r: Vec<u8> = vec![84, 104, 101, 32, 72, 84, 84, 80, 32, 114, 101, 113, 117, 101, 115, 116, 45, 108, 105, 110, 101, 32, 119, 97, 115, 32, 110, 111, 116, 32, 112, 114, 111, 112, 101, 114, 108, 121, 32, 102, 111, 114, 109, 97, 116, 116, 101, 100, 46];
    proof {
        assert(r@ =~= spec_err_request_line_parse());
    }
    r
}

/// `Failed to queue notification. `
pub open spec fn spec_err_queue_notification() -> Seq<u8> {
    seq![70, 97, 105, 108, 101, 100, 32, 116, 111, 32, 113, 117, 101, 117, 101, 32, 110, 111, 116, 105, 102, 105, 99, 97, 116, 105, 111, 110, 46, 32]
}

/// `Failed to queue notification. `
pub fn err_queue_notification() -> (r: Vec<u8>)
    ensures
        r@ == spec_err_queue_notification(),
{
    let r: Vec<u8> = vec![70, 97, 105, 108, 101, 100, 32, 116, 111, 32, 113, 117, 101, 117, 101, 32, 110, 111, 116, 105, 102, 105, 99, 97, 116, 105, 111, 110, 46, 32];
    proof {
        assert(r@ =~= spec_err_queue_notification());
    }
    r
}

/// `JSON from Grafana could not be parsed. `
pub open spec fn spec_err_bad_json() -> Seq<u8> {
    seq![74, 83, 79, 78, 32, 102, 114, 111, 109, 32, 71, 114, 97, 102, 97, 110, 97, 32, 99, 111, 117, 108, 100, 32, 110, 111, 116, 32, 98, 101, 32, 112, 97, 114, 115, 101, 100, 46, 32]
}

/// `JSON from Grafana could not be parsed. `
pub fn err_bad_json() -> (r: Vec<u8>)
    ensures
        r@ == spec_err_bad_json(),
{
    let r: Vec<u8> = vec![74, 83, 79, 78, 32, 102, 114, 111, 109, 32, 71, 114, 97, 102, 97, 110, 97, 32, 99, 111, 117, 108, 100, 32, 110, 111, 116, 32, 98, 101, 32, 112, 97, 114, 115, 101, 100, 46, 32];
    proof {
        assert(r@ =~= spec_err_bad_json());
    }
    r
}

/// `Wrong method, expected POST but got `
pub open spec fn spec_err_wrong_method() -> Seq<u8> {
    seq![87, 114, 111, 110, 103, 32, 109, 101, 116, 104, 111, 100, 44, 32, 101, 120, 112, 101, 99, 116, 101, 100, 32, 80, 79, 83, 84, 32, 98, 117, 116, 32, 103, 111, 116, 32]
}

/// `Wrong method, expected POST but got `
pub fn err_wrong_method() -> (r: Vec<u8>)
    ensures
        r@ == spec_err_wrong_method(),
{
    let r: Vec<u8> = vec![87, 114, 111, 110, 103, 32, 109, 101, 116, 104, 111, 100, 44, 32, 101, 120, 112, 101, 99, 116, 101, 100, 32, 80, 79, 83, 84, 32, 98, 117, 116, 32, 103, 111, 116, 32];
    proof {
        assert(r@ =~= spec_err_wrong_method());
    }
    r
}

/// `Failed to create prowl notification. `
pub open spec fn spec_err_creation() -> Seq<u8> {
    seq![70, 97, 105, 108, 101, 100, 32, 116, 111, 32, 99, 114, 101, 97, 116, 101, 32, 112, 114, 111, 119, 108, 32, 110, 111, 116, 105, 102, 105, 99, 97, 116, 105, 111, 110, 46, 32]
}

/// `Failed to create prowl notification. `
pub fn err_creation() -> (r: Vec<u8>)
    ensures
        r@ == spec_err_creation(),
{
    let r: Vec<u8> = vec![70, 97, 105, 108, 101, 100, 32, 116, 111, 32, 99, 114, 101, 97, 116, 101, 32, 112, 114, 111, 119, 108, 32, 110, 111, 116, 105, 102, 105, 99, 97, 116, 105, 111, 110, 46, 32];
    proof {
        assert(r@ =~= spec_err_creation());
    }
    r
}

/// `Failed to queue notification to be sent.`
pub open spec fn spec_err_queue_send() -> Seq<u8> {
    seq![70, 97, 105, 108, 101, 100, 32, 116, 111, 32, 113, 117, 101, 117, 101, 32, 110, 111, 116, 105, 102, 105, 99, 97, 116, 105, 111, 110, 32, 116, 111, 32, 98, 101, 32, 115, 101, 110, 116, 46]
}

/// `Failed to queue notification to be sent.`
pub fn err_queue_send() -> (r: Vec<u8>)
    ensures
        r@ == spec_err_queue_send(),
{
    let r: Vec<u8> = vec![70, 97, 105, 108, 101, 100, 32, 116, 111, 32, 113, 117, 101, 117, 101, 32, 110, 111, 116, 105, 102, 105, 99, 97, 116, 105, 111, 110, 32, 116, 111, 32, 98, 101, 32, 115, 101, 110, 116, 46];
    proof {
        assert(r@ =~= spec_err_queue_send());
    }
    r
}

/// `Max URL length is 512, but provided `
pub open spec fn spec_err_url_length() -> Seq<u8> {
    seq![77, 97, 120, 32, 85, 82, 76, 32, 108, 101, 110, 103, 116, 104, 32, 105, 115, 32, 53, 49, 50, 44, 32, 98, 117, 116, 32, 112, 114, 111, 118, 105, 100, 101, 100, 32]
}

/// `Max URL length is 512, but provided `
pub fn err_url_length() -> (r: Vec<u8>)
    ensures
        r@ == spec_err_url_length(),
{
    let r: Vec<u8> = vec![77, 97, 120, 32, 85, 82, 76, 32, 108, 101, 110, 103, 116, 104, 32, 105, 115, 32, 53, 49, 50, 44, 32, 98, 117, 116, 32, 112, 114, 111, 118, 105, 100, 101, 100, 32];
    proof {
        assert(r@ =~= spec_err_url_length());
    }
    r
}

/// `Max application length is 256, but provided `
pub open spec fn spec_err_application_length() -> Seq<u8> {
    seq![77, 97, 120, 32, 97, 112, 112, 108, 105, 99, 97, 116, 105, 111, 110, 32, 108, 101, 110, 103, 116, 104, 32, 105, 115, 32, 50, 53, 54, 44, 32, 98, 117, 116, 32, 112, 114, 111, 118, 105, 100, 101, 100, 32]
}

/// `Max application length is 256, but provided `
pub fn err_application_length() -> (r: Vec<u8>)
    ensures
        r@ == spec_err_application_length(),
{
    let r: Vec<u8> = vec![77, 97, 120, 32, 97, 112, 112, 108, 105, 99, 97, 116, 105, 111, 110, 32, 108, 101, 110, 103, 116, 104, 32, 105, 115, 32, 50, 53, 54, 44, 32, 98, 117, 116, 32, 112, 114, 111, 118, 105, 100, 101, 100, 32];
    proof {
        assert(r@ =~= spec_err_application_length());
    }
    r
}

/// `Max event length is 1024, but provided `
pub open spec fn spec_err_event_length() -> Seq<u8> {
    seq![77, 97, 120, 32, 101, 118, 101, 110, 116, 32, 108, 101, 110, 103, 116, 104, 32, 105, 115, 32, 49, 48, 50, 52, 44, 32, 98, 117, 116, 32, 112, 114, 111, 118, 105, 100, 101, 100, 32]
}

/// `Max event length is 1024, but provided `
pub fn err_event_length() -> (r: Vec<u8>)
    ensures
        r@ == spec_err_event_length(),
{
    let r: Vec<u8> = vec![77, 97, 120, 32, 101, 118, 101, 110, 116, 32, 108, 101, 110, 103, 116, 104, 32, 105, 115, 32, 49, 48, 50, 52, 44, 32, 98, 117, 116, 32, 112, 114, 111, 118, 105, 100, 101, 100, 32];
    proof {
        assert(r@ =~= spec_err_event_length());
    }
    r
}

/// `Max description length is 10000, but provided `
pub open spec fn spec_err_description_length() -> Seq<u8> {
    seq![77, 97, 120, 32, 100, 101, 115, 99, 114, 105, 112, 116, 105, 111, 110, 32, 108, 101, 110, 103, 116, 104, 32, 105, 115, 32, 49, 48, 48, 48, 48, 44, 32, 98, 117, 116, 32, 112, 114, 111, 118, 105, 100, 101, 100, 32]
}

/// `Max description length is 10000, but provided `
pub fn err_description_length() -> (r: Vec<u8>)
    ensures
        r@ == spec_err_description_length(),
{
    let r: Vec<u8> = vec![77, 97, 120, 32, 100, 101, 115, 99, 114, 105, 112, 116, 105, 111, 110, 32, 108, 101, 110, 103, 116, 104, 32, 105, 115, 32, 49, 48, 48, 48, 48, 44, 32, 98, 117, 116, 32, 112, 114, 111, 118, 105, 100, 101, 100, 32];
    proof {
        assert(r@ =~= spec_err_description_length());
    }
    r
}

/// `.`
pub open spec fn spec_period() -> Seq<u8> {
    seq![46]
}

/// `.`
pub fn period() -> (r: Vec<u8>)
    ensures
        r@ == spec_period(),
{
    let r: Vec<u8> = vec![46];
    proof {
        assert(r@ =~= spec_period());
    }
    r
}

/// `Grafana`
pub open spec fn spec_default_app_name_text() -> Seq<u8> {
    seq![71, 114, 97, 102, 97, 110, 97]
}

/// `Grafana`
pub fn default_app_name_text() -> (r: Vec<u8>)
    ensures
        r@ == spec_default_app_name_text(),
{
    let r: Vec<u8> = vec![71, 114, 97, 102, 97, 110, 97];
    proof {
        assert(r@ =~= spec_default_app_name_text());
    }
    r
}

/// `0.0.0.0:3333`
pub open spec fn spec_default_bind_host_text() -> Seq<u8> {
    seq![48, 46, 48, 46, 48, 46, 48, 58, 51, 51, 51, 51]
}

/// `0.0.0.0:3333`
pub fn default_bind_host_text() -> (r: Vec<u8>)
    ensures
        r@ == spec_default_bind_host_text(),
{
    let r: Vec<u8> = vec![48, 46, 48, 46, 48, 46, 48, 58, 51, 51, 51, 51];
    proof {
        assert(r@ =~= spec_default_bind_host_text());
    }
    r
}

/// `\r\n`
pub open spec fn spec_crlf() -> Seq<u8> {
    seq![13, 10]
}

/// `\r\n`
pub fn crlf() -> (r: Vec<u8>)
    ensures
        r@ == spec_crlf(),
{
    let r: Vec<u8> = vec![13, 10];
    proof {
        assert(r@ =~= spec_crlf());
    }
    r
}

/// `\r\n\r\n`
pub open spec fn spec_header_body_separator() -> Seq<u8> {
    seq![13, 10, 13, 10]
}

/// `\r\n\r\n`
pub fn header_body_separator() -> (r: Vec<u8>)
    ensures
        r@ == spec_header_body_separator(),
{
    let r: Vec<u8> = vec![13, 10, 13, 10];
    proof {
        assert(r@ =~= spec_header_body_separator());
    }
    r
}

/// `\n`
pub open spec fn spec_newline() -> Seq<u8> {
    seq![10]
}

/// `\n`
pub fn newline() -> (r: Vec<u8>)
    ensures
        r@ == spec_newline(),
{
    let r: Vec<u8> = vec![10];
    proof {
        assert(r@ =~= spec_newline());
    }
    r
}

/// `\r`
pub open spec fn spec_carriage_return() -> Seq<u8> {
    seq![13]
}

/// `\r`
pub fn carriage_return() -> (r: Vec<u8>)
    ensures
        r@ == spec_carriage_return(),
{
    let r: Vec<u8> = vec![13];
    proof {
        assert(r@ =~= spec_carriage_return());
    }
    r
}

/// `Content-Length: `
pub open spec fn spec_content_length_header() -> Seq<u8> {
    seq![67, 111, 110, 116, 101, 110, 116, 45, 76, 101, 110, 103, 116, 104, 58, 32]
}

/// `Content-Length: `
pub fn content_length_header() -> (r: Vec<u8>)
    ensures
        r@ == spec_content_length_header(),
{
    let r: Vec<u8> = vec![67, 111, 110, 116, 101, 110, 116, 45, 76, 101, 110, 103, 116, 104, 58, 32];
    proof {
        assert(r@ =~= spec_content_length_header());
    }
    r
}

/// `Expect: 100-continue`
pub open spec fn spec_expect_continue_header() -> Seq<u8> {
    seq![69, 120, 112, 101, 99, 116, 58, 32, 49, 48, 48, 45, 99, 111, 110, 116, 105, 110, 117, 101]
}

/// `Expect: 100-continue`
pub fn expect_continue_header() -> (r: Vec<u8>)
    ensures
        r@ == spec_expect_continue_header(),
{
    let r: Vec<u8> = vec![69, 120, 112, 101, 99, 116, 58, 32, 49, 48, 48, 45, 99, 111, 110, 116, 105, 110, 117, 101];
    proof {
        assert(r@ =~= spec_expect_continue_header());
    }
    r
}

/// `HTTP/1.1 100 Continue\r\n`
pub open spec fn spec_continue_response() -> Seq<u8> {
    seq![72, 84, 84, 80, 47, 49, 46, 49, 32, 49, 48, 48, 32, 67, 111, 110, 116, 105, 110, 117, 101, 13, 10]
}

/// `HTTP/1.1 100 Continue\r\n`
pub fn continue_response() -> (r: Vec<u8>)
    ensures
        r@ == spec_continue_response(),
{
    let r: Vec<u8> = vec![72, 84, 84, 80, 47, 49, 46, 49, 32, 49, 48, 48, 32, 67, 111, 110, 116, 105, 110, 117, 101, 13, 10];
    proof {
        assert(r@ =~= spec_continue_response());
    }
    r
}

/// `Connection: close`
pub open spec fn spec_connection_close_header() -> Seq<u8> {
    seq![67, 111, 110, 110, 101, 99, 116, 105, 111, 110, 58, 32, 99, 108, 111, 115, 101]
}

/// `Connection: close`
pub fn connection_close_header() -> (r: Vec<u8>)
    ensures
        r@ == spec_connection_close_header(),
{
    let r: Vec<u8> = vec![67, 111, 110, 110, 101, 99, 116, 105, 111, 110, 58, 32, 99, 108, 111, 115, 101];
    proof {
        assert(r@ =~= spec_connection_close_header());
    }
    r
}

/// `GET`
pub open spec fn spec_method_get() -> Seq<u8> {
    seq![71, 69, 84]
}

/// `GET`
pub fn method_get() -> (r: Vec<u8>)
    ensures
        r@ == spec_method_get(),
{
    let r: Vec<u8> = vec![71, 69, 84];
    proof {
        assert(r@ =~= spec_method_get());
    }
    r
}

/// `POST`
pub open spec fn spec_method_post() -> Seq<u8> {
    seq![80, 79, 83, 84]
}

/// `POST`
pub fn method_post() -> (r: Vec<u8>)
    ensures
        r@ == spec_method_post(),
{
    let r: Vec<u8> = vec![80, 79, 83, 84];
    proof {
        assert(r@ =~= spec_method_post());
    }
    r
}

/// `HTTP/1.1 200 OK`
pub open spec fn spec_status_ok() -> Seq<u8> {
    seq![72, 84, 84, 80, 47, 49, 46, 49, 32, 50, 48, 48, 32, 79, 75]
}

/// `HTTP/1.1 200 OK`
pub fn status_ok() -> (r: Vec<u8>)
    ensures
        r@ == spec_status_ok(),
{
    let r: Vec<u8> = vec![72, 84, 84, 80, 47, 49, 46, 49, 32, 50, 48, 48, 32, 79, 75];
    proof {
        assert(r@ =~= spec_status_ok());
    }
    r
}

/// `HTTP/1.1 404 Not Found`
pub open spec fn spec_status_not_found() -> Seq<u8> {
    seq![72, 84, 84, 80, 47, 49, 46, 49, 32, 52, 48, 52, 32, 78, 111, 116, 32, 70, 111, 117, 110, 100]
}

/// `HTTP/1.1 404 Not Found`
pub fn status_not_found() -> (r: Vec<u8>)
    ensures
        r@ == spec_status_not_found(),
{
    let r: Vec<u8> = vec![72, 84, 84, 80, 47, 49, 46, 49, 32, 52, 48, 52, 32, 78, 111, 116, 32, 70, 111, 117, 110, 100];
    proof {
        assert(r@ =~= spec_status_not_found());
    }
    r
}

/// `HTTP/1.1 411 Length Required`
pub open spec fn spec_status_length_required() -> Seq<u8> {
    seq![72, 84, 84, 80, 47, 49, 46, 49, 32, 52, 49, 49, 32, 76, 101, 110, 103, 116, 104, 32, 82, 101, 113, 117, 105, 114, 101, 100]
}

/// `HTTP/1.1 411 Length Required`
pub fn status_length_required() -> (r: Vec<u8>)
    ensures
        r@ == spec_status_length_required(),
{
    let r: Vec<u8> = vec![72, 84, 84, 80, 47, 49, 46, 49, 32, 52, 49, 49, 32, 76, 101, 110, 103, 116, 104, 32, 82, 101, 113, 117, 105, 114, 101, 100];
    proof {
        assert(r@ =~= spec_status_length_required());
    }
    r
}

/// `HTTP/1.1 500 Internal Server Error`
pub open spec fn spec_status_server_error() -> Seq<u8> {
    seq![72, 84, 84, 80, 47, 49, 46, 49, 32, 53, 48, 48, 32, 73, 110, 116, 101, 114, 110, 97, 108, 32, 83, 101, 114, 118, 101, 114, 32, 69, 114, 114, 111, 114]
}

/// `HTTP/1.1 500 Internal Server Error`
pub fn status_server_error() -> (r: Vec<u8>)
    ensures
        r@ == spec_status_server_error(),
{
    let r: Vec<u8> = vec![72, 84, 84, 80, 47, 49, 46, 49, 32, 53, 48, 48, 32, 73, 110, 116, 101, 114, 110, 97, 108, 32, 83, 101, 114, 118, 101, 114, 32, 69, 114, 114, 111, 114];
    proof {
        assert(r@ =~= spec_status_server_error());
    }
    r
}

/// `HTTP/1.1 302 Found`
pub open spec fn spec_status_found() -> Seq<u8> {
    seq![72, 84, 84, 80, 47, 49, 46, 49, 32, 51, 48, 50, 32, 70, 111, 117, 110, 100]
}

/// `HTTP/1.1 302 Found`
pub fn status_found() -> (r: Vec<u8>)
    ensures
        r@ == spec_status_found(),
{
    let r: Vec<u8> = vec![72, 84, 84, 80, 47, 49, 46, 49, 32, 51, 48, 50, 32, 70, 111, 117, 110, 100];
    proof {
        assert(r@ =~= spec_status_found());
    }
    r
}

/// `Content-Type: text/plain`
pub open spec fn spec_header_text_plain() -> Seq<u8> {
    seq![67, 111, 110, 116, 101, 110, 116, 45, 84, 121, 112, 101, 58, 32, 116, 101, 120, 116, 47, 112, 108, 97, 105, 110]
}

/// `Content-Type: text/plain`
pub fn header_text_plain() -> (r: Vec<u8>)
    ensures
        r@ == spec_header_text_plain(),
{
    let r: Vec<u8> = vec![67, 111, 110, 116, 101, 110, 116, 45, 84, 121, 112, 101, 58, 32, 116, 101, 120, 116, 47, 112, 108, 97, 105, 110];
    proof {
        assert(r@ =~= spec_header_text_plain());
    }
    r
}

/// `Content-Type: text/html`
pub open spec fn spec_header_text_html() -> Seq<u8> {
    seq![67, 111, 110, 116, 101, 110, 116, 45, 84, 121, 112, 101, 58, 32, 116, 101, 120, 116, 47, 104, 116, 109, 108]
}

/// `Content-Type: text/html`
pub fn header_text_html() -> (r: Vec<u8>)
    ensures
        r@ == spec_header_text_html(),
{
    let r: Vec<u8> = vec![67, 111, 110, 116, 101, 110, 116, 45, 84, 121, 112, 101, 58, 32, 116, 101, 120, 116, 47, 104, 116, 109, 108];
    proof {
        assert(r@ =~= spec_header_text_html());
    }
    r
}

/// `Location: /`
pub open spec fn spec_header_location_root() -> Seq<u8> {
    seq![76, 111, 99, 97, 116, 105, 111, 110, 58, 32, 47]
}

/// `Location: /`
pub fn header_location_root() -> (r: Vec<u8>)
    ensures
        r@ == spec_header_location_root(),
{
    let r: Vec<u8> = vec![76, 111, 99, 97, 116, 105, 111, 110, 58, 32, 47];
    proof {
        assert(r@ =~= spec_header_location_root());
    }
    r
}

/// `Not found`
pub open spec fn spec_body_not_found() -> Seq<u8> {
    seq![78, 111, 116, 32, 102, 111, 117, 110, 100]
}

/// `Not found`
pub fn body_not_found() -> (r: Vec<u8>)
    ensures
        r@ == spec_body_not_found(),
{
    let r: Vec<u8> = vec![78, 111, 116, 32, 102, 111, 117, 110, 100];
    proof {
        assert(r@ =~= spec_body_not_found());
    }
    r
}

/// `Accepted`
pub open spec fn spec_body_accepted() -> Seq<u8> {
    seq![65, 99, 99, 101, 112, 116, 101, 100]
}

/// `Accepted`
pub fn body_accepted() -> (r: Vec<u8>)
    ensures
        r@ == spec_body_accepted(),
{
    let r: Vec<u8> = vec![65, 99, 99, 101, 112, 116, 101, 100];
    proof {
        assert(r@ =~= spec_body_accepted());
    }
    r
}

/// `/webhooks/grafana`
pub open spec fn spec_webhook_path() -> Seq<u8> {
    seq![47, 119, 101, 98, 104, 111, 111, 107, 115, 47, 103, 114, 97, 102, 97, 110, 97]
}

/// `/webhooks/grafana`
pub fn webhook_path() -> (r: Vec<u8>)
    ensures
        r@ == spec_webhook_path(),
{
    let r: Vec<u8> = vec![47, 119, 101, 98, 104, 111, 111, 107, 115, 47, 103, 114, 97, 102, 97, 110, 97];
    proof {
        assert(r@ =~= spec_webhook_path());
    }
    r
}

/// `/`
pub open spec fn spec_root_path() -> Seq<u8> {
    seq![47]
}

/// `/`
pub fn root_path() -> (r: Vec<u8>)
    ensures
        r@ == spec_root_path(),
{
    let r: Vec<u8> = vec![47];
    proof {
        assert(r@ =~= spec_root_path());
    }
    r
}

/// `firing`
pub open spec fn spec_status_firing() -> Seq<u8> {
    seq![102, 105, 114, 105, 110, 103]
}

/// `firing`
pub fn status_firing() -> (r: Vec<u8>)
    ensures
        r@ == spec_status_firing(),
{
    let r: Vec<u8> = vec![102, 105, 114, 105, 110, 103];
    proof {
        assert(r@ =~= spec_status_firing());
    }
    r
}

/// `resolved`
pub open spec fn spec_status_resolved() -> Seq<u8> {
    seq![114, 101, 115, 111, 108, 118, 101, 100]
}

/// `resolved`
pub fn status_resolved() -> (r: Vec<u8>)
    ensures
        r@ == spec_status_resolved(),
{
    let r: Vec<u8> = vec![114, 101, 115, 111, 108, 118, 101, 100];
    proof {
        assert(r@ =~= spec_status_resolved());
    }
    r
}

/// `[critical]`
pub open spec fn spec_prefix_critical() -> Seq<u8> {
    seq![91, 99, 114, 105, 116, 105, 99, 97, 108, 93]
}

/// `[critical]`
pub fn prefix_critical() -> (r: Vec<u8>)
    ensures
        r@ == spec_prefix_critical(),
{
    let r: Vec<u8> = vec![91, 99, 114, 105, 116, 105, 99, 97, 108, 93];
    proof {
        assert(r@ =~= spec_prefix_critical());
    }
    r
}

/// `[CRIT]`
pub open spec fn spec_prefix_crit() -> Seq<u8> {
    seq![91, 67, 82, 73, 84, 93]
}

/// `[CRIT]`
pub fn prefix_crit() -> (r: Vec<u8>)
    ensures
        r@ == spec_prefix_crit(),
{
    let r: Vec<u8> = vec![91, 67, 82, 73, 84, 93];
    proof {
        assert(r@ =~= spec_prefix_crit());
    }
    r
}

/// `[high]`
pub open spec fn spec_prefix_high() -> Seq<u8> {
    seq![91, 104, 105, 103, 104, 93]
}

/// `[high]`
pub fn prefix_high() -> (r: Vec<u8>)
    ensures
        r@ == spec_prefix_high(),
{
    let r: Vec<u8> = vec![91, 104, 105, 103, 104, 93];
    proof {
        assert(r@ =~= spec_prefix_high());
    }
    r
}

/// `[HIGH]`
pub open spec fn spec_prefix_high_upper() -> Seq<u8> {
    seq![91, 72, 73, 71, 72, 93]
}

/// `[HIGH]`
pub fn prefix_high_upper() -> (r: Vec<u8>)
    ensures
        r@ == spec_prefix_high_upper(),
{
    let r: Vec<u8> = vec![91, 72, 73, 71, 72, 93];
    proof {
        assert(r@ =~= spec_prefix_high_upper());
    }
    r
}

/// `[🔥] `
pub open spec fn spec_marker_firing() -> Seq<u8> {
    seq![91, 240, 159, 148, 165, 93, 32]
}

/// `[🔥] `
pub fn marker_firing() -> (r: Vec<u8>)
    ensures
        r@ == spec_marker_firing(),
{
    let r: Vec<u8> = vec![91, 240, 159, 148, 165, 93, 32];
    proof {
        assert(r@ =~= spec_marker_firing());
    }
    r
}

/// `[✅] `
pub open spec fn spec_marker_resolved() -> Seq<u8> {
    seq![91, 226, 156, 133, 93, 32]
}

/// `[✅] `
pub fn marker_resolved() -> (r: Vec<u8>)
    ensures
        r@ == spec_marker_resolved(),
{
    let r: Vec<u8> = vec![91, 226, 156, 133, 93, 32];
    proof {
        assert(r@ =~= spec_marker_resolved());
    }
    r
}

/// `[🕓] `
pub open spec fn spec_marker_reminder() -> Seq<u8> {
    seq![91, 240, 159, 149, 147, 93, 32]
}

/// `[🕓] `
pub fn marker_reminder() -> (r: Vec<u8>)
    ensures
        r@ == spec_marker_reminder(),
{
    let r: Vec<u8> = vec![91, 240, 159, 149, 147, 93, 32];
    proof {
        assert(r@ =~= spec_marker_reminder());
    }
    r
}

/// `[`
pub open spec fn spec_bracket_open() -> Seq<u8> {
    seq![91]
}

/// `[`
pub fn bracket_open() -> (r: Vec<u8>)
    ensures
        r@ == spec_bracket_open(),
{
    let r: Vec<u8> = vec![91];
    proof {
        assert(r@ =~= spec_bracket_open());
    }
    r
}

/// `] `
pub open spec fn spec_bracket_close_space() -> Seq<u8> {
    seq![93, 32]
}

/// `] `
pub fn bracket_close_space() -> (r: Vec<u8>)
    ensures
        r@ == spec_bracket_close_space(),
{
    let r: Vec<u8> = vec![93, 32];
    proof {
        assert(r@ =~= spec_bracket_close_space());
    }
    r
}

/// `: `
pub open spec fn spec_colon_space() -> Seq<u8> {
    seq![58, 32]
}

/// `: `
pub fn colon_space() -> (r: Vec<u8>)
    ensures
        r@ == spec_colon_space(),
{
    let r: Vec<u8> = vec![58, 32];
    proof {
        assert(r@ =~= spec_colon_space());
    }
    r
}

/// ` is still firing.`
pub open spec fn spec_still_firing_tail() -> Seq<u8> {
    seq![32, 105, 115, 32, 115, 116, 105, 108, 108, 32, 102, 105, 114, 105, 110, 103, 46]
}

/// ` is still firing.`
pub fn still_firing_tail() -> (r: Vec<u8>)
    ensures
        r@ == spec_still_firing_tail(),
{
    let r: Vec<u8> = vec![32, 105, 115, 32, 115, 116, 105, 108, 108, 32, 102, 105, 114, 105, 110, 103, 46];
    proof {
        assert(r@ =~= spec_still_firing_tail());
    }
    r
}

/// `Unknown`
pub open spec fn spec_unknown() -> Seq<u8> {
    seq![85, 110, 107, 110, 111, 119, 110]
}

/// `Unknown`
pub fn unknown() -> (r: Vec<u8>)
    ensures
        r@ == spec_unknown(),
{
    let r: Vec<u8> = vec![85, 110, 107, 110, 111, 119, 110];
    proof {
        assert(r@ =~= spec_unknown());
    }
    r
}

/// `<html><body>`
pub open spec fn spec_html_head() -> Seq<u8> {
    seq![60, 104, 116, 109, 108, 62, 60, 98, 111, 100, 121, 62]
}

/// `<html><body>`
pub fn html_head() -> (r: Vec<u8>)
    ensures
        r@ == spec_html_head(),
{
    let r: Vec<u8> = vec![60, 104, 116, 109, 108, 62, 60, 98, 111, 100, 121, 62];
    proof {
        assert(r@ =~= spec_html_head());
    }
    r
}

/// `</body></html>`
pub open spec fn spec_html_tail() -> Seq<u8> {
    seq![60, 47, 98, 111, 100, 121, 62, 60, 47, 104, 116, 109, 108, 62]
}

/// `</body></html>`
pub fn html_tail() -> (r: Vec<u8>)
    ensures
        r@ == spec_html_tail(),
{
    let r: Vec<u8> = vec![60, 47, 98, 111, 100, 121, 62, 60, 47, 104, 116, 109, 108, 62];
    proof {
        assert(r@ =~= spec_html_tail());
    }
    r
}

/// `<table border='1px solid black'>`
pub open spec fn spec_table_head() -> Seq<u8> {
    seq![60, 116, 97, 98, 108, 101, 32, 98, 111, 114, 100, 101, 114, 61, 39, 49, 112, 120, 32, 115, 111, 108, 105, 100, 32, 98, 108, 97, 99, 107, 39, 62]
}

/// `<table border='1px solid black'>`
pub fn table_head() -> (r: Vec<u8>)
    ensures
        r@ == spec_table_head(),
{
    let r: Vec<u8> = vec![60, 116, 97, 98, 108, 101, 32, 98, 111, 114, 100, 101, 114, 61, 39, 49, 112, 120, 32, 115, 111, 108, 105, 100, 32, 98, 108, 97, 99, 107, 39, 62];
    proof {
        assert(r@ =~= spec_table_head());
    }
    r
}

/// `<tr><th>ID</th><th>Name</th><th>Priority</th><th>Status</th><th>Last Alert</th><th>First Alert</th></tr>`
pub open spec fn spec_table_columns() -> Seq<u8> {
    seq![60, 116, 114, 62, 60, 116, 104, 62, 73, 68, 60, 47, 116, 104, 62, 60, 116, 104, 62, 78, 97, 109, 101, 60, 47, 116, 104, 62, 60, 116, 104, 62, 80, 114, 105, 111, 114, 105, 116, 121, 60, 47, 116, 104, 62, 60, 116, 104, 62, 83, 116, 97, 116, 117, 115, 60, 47, 116, 104, 62, 60, 116, 104, 62, 76, 97, 115, 116, 32, 65, 108, 101, 114, 116, 60, 47, 116, 104, 62, 60, 116, 104, 62, 70, 105, 114, 115, 116, 32, 65, 108, 101, 114, 116, 60, 47, 116, 104, 62, 60, 47, 116, 114, 62]
}

/// `<tr><th>ID</th><th>Name</th><th>Priority</th><th>Status</th><th>Last Alert</th><th>First Alert</th></tr>`
pub fn table_columns() -> (r: Vec<u8>)
    ensures
        r@ == spec_table_columns(),
{
    let r: Vec<u8> = vec![60, 116, 114, 62, 60, 116, 104, 62, 73, 68, 60, 47, 116, 104, 62, 60, 116, 104, 62, 78, 97, 109, 101, 60, 47, 116, 104, 62, 60, 116, 104, 62, 80, 114, 105, 111, 114, 105, 116, 121, 60, 47, 116, 104, 62, 60, 116, 104, 62, 83, 116, 97, 116, 117, 115, 60, 47, 116, 104, 62, 60, 116, 104, 62, 76, 97, 115, 116, 32, 65, 108, 101, 114, 116, 60, 47, 116, 104, 62, 60, 116, 104, 62, 70, 105, 114, 115, 116, 32, 65, 108, 101, 114, 116, 60, 47, 116, 104, 62, 60, 47, 116, 114, 62];
    proof {
        assert(r@ =~= spec_table_columns());
    }
    r
}

/// `</table>`
pub open spec fn spec_table_tail() -> Seq<u8> {
    seq![60, 47, 116, 97, 98, 108, 101, 62]
}

/// `</table>`
pub fn table_tail() -> (r: Vec<u8>)
    ensures
        r@ == spec_table_tail(),
{
    let r: Vec<u8> = vec![60, 47, 116, 97, 98, 108, 101, 62];
    proof {
        assert(r@ =~= spec_table_tail());
    }
    r
}

/// `<tr><td>`
pub open spec fn spec_row_head() -> Seq<u8> {
    seq![60, 116, 114, 62, 60, 116, 100, 62]
}

/// `<tr><td>`
pub fn row_head() -> (r: Vec<u8>)
    ensures
        r@ == spec_row_head(),
{
    let r: Vec<u8> = vec![60, 116, 114, 62, 60, 116, 100, 62];
    proof {
        assert(r@ =~= spec_row_head());
    }
    r
}

/// `</td><td>`
pub open spec fn spec_cell_separator() -> Seq<u8> {
    seq![60, 47, 116, 100, 62, 60, 116, 100, 62]
}

/// `</td><td>`
pub fn cell_separator() -> (r: Vec<u8>)
    ensures
        r@ == spec_cell_separator(),
{
    let r: Vec<u8> = vec![60, 47, 116, 100, 62, 60, 116, 100, 62];
    proof {
        assert(r@ =~= spec_cell_separator());
    }
    r
}

/// `</td></tr>`
pub open spec fn spec_row_tail() -> Seq<u8> {
    seq![60, 47, 116, 100, 62, 60, 47, 116, 114, 62]
}

/// `</td></tr>`
pub fn row_tail() -> (r: Vec<u8>)
    ensures
        r@ == spec_row_tail(),
{
    let r: Vec<u8> = vec![60, 47, 116, 100, 62, 60, 47, 116, 114, 62];
    proof {
        assert(r@ =~= spec_row_tail());
    }
    r
}

/// `{"data":{`
pub open spec fn spec_store_head() -> Seq<u8> {
    seq![123, 34, 100, 97, 116, 97, 34, 58, 123]
}

/// `{"data":{`
pub fn store_head() -> (r: Vec<u8>)
    ensures
        r@ == spec_store_head(),
{
    let r: Vec<u8> = vec![123, 34, 100, 97, 116, 97, 34, 58, 123];
    proof {
        assert(r@ =~= spec_store_head());
    }
    r
}

/// `}}`
pub open spec fn spec_store_tail() -> Seq<u8> {
    seq![125, 125]
}

/// `}}`
pub fn store_tail() -> (r: Vec<u8>)
    ensures
        r@ == spec_store_tail(),
{
    let r: Vec<u8> = vec![125, 125];
    proof {
        assert(r@ =~= spec_store_tail());
    }
    r
}

/// `"last_seen":`
pub open spec fn spec_key_last_seen() -> Seq<u8> {
    seq![34, 108, 97, 115, 116, 95, 115, 101, 101, 110, 34, 58]
}

/// `"last_seen":`
pub fn key_last_seen() -> (r: Vec<u8>)
    ensures
        r@ == spec_key_last_seen(),
{
    let r: Vec<u8> = vec![34, 108, 97, 115, 116, 95, 115, 101, 101, 110, 34, 58];
    proof {
        assert(r@ =~= spec_key_last_seen());
    }
    r
}

/// `,"first_alerted":`
pub open spec fn spec_key_first_alerted() -> Seq<u8> {
    seq![44, 34, 102, 105, 114, 115, 116, 95, 97, 108, 101, 114, 116, 101, 100, 34, 58]
}

/// `,"first_alerted":`
pub fn key_first_alerted() -> (r: Vec<u8>)
    ensures
        r@ == spec_key_first_alerted(),
{
    let r: Vec<u8> = vec![44, 34, 102, 105, 114, 115, 116, 95, 97, 108, 101, 114, 116, 101, 100, 34, 58];
    proof {
        assert(r@ =~= spec_key_first_alerted());
    }
    r
}

/// `,"last_alerted":`
pub open spec fn spec_key_last_alerted() -> Seq<u8> {
    seq![44, 34, 108, 97, 115, 116, 95, 97, 108, 101, 114, 116, 101, 100, 34, 58]
}

/// `,"last_alerted":`
pub fn key_last_alerted() -> (r: Vec<u8>)
    ensures
        r@ == spec_key_last_alerted(),
{
    let r: Vec<u8> = vec![44, 34, 108, 97, 115, 116, 95, 97, 108, 101, 114, 116, 101, 100, 34, 58];
    proof {
        assert(r@ =~= spec_key_last_alerted());
    }
    r
}

/// `,"last_status":`
pub open spec fn spec_key_last_status() -> Seq<u8> {
    seq![44, 34, 108, 97, 115, 116, 95, 115, 116, 97, 116, 117, 115, 34, 58]
}

/// `,"last_status":`
pub fn key_last_status() -> (r: Vec<u8>)
    ensures
        r@ == spec_key_last_status(),
{
    let r: Vec<u8> = vec![44, 34, 108, 97, 115, 116, 95, 115, 116, 97, 116, 117, 115, 34, 58];
    proof {
        assert(r@ =~= spec_key_last_status());
    }
    r
}

/// `,"fingerprint":`
pub open spec fn spec_key_fingerprint() -> Seq<u8> {
    seq![44, 34, 102, 105, 110, 103, 101, 114, 112, 114, 105, 110, 116, 34, 58]
}

/// `,"fingerprint":`
pub fn key_fingerprint() -> (r: Vec<u8>)
    ensures
        r@ == spec_key_fingerprint(),
{
    let r: Vec<u8> = vec![44, 34, 102, 105, 110, 103, 101, 114, 112, 114, 105, 110, 116, 34, 58];
    proof {
        assert(r@ =~= spec_key_fingerprint());
    }
    r
}

/// `,"priority":`
pub open spec fn spec_key_priority() -> Seq<u8> {
    seq![44, 34, 112, 114, 105, 111, 114, 105, 116, 121, 34, 58]
}

/// `,"priority":`
pub fn key_priority() -> (r: Vec<u8>)
    ensures
        r@ == spec_key_priority(),
{
    let r: Vec<u8> = vec![44, 34, 112, 114, 105, 111, 114, 105, 116, 121, 34, 58];
    proof {
        assert(r@ =~= spec_key_priority());
    }
    r
}

/// `,"name":`
pub open spec fn spec_key_name() -> Seq<u8> {
    seq![44, 34, 110, 97, 109, 101, 34, 58]
}

/// `,"name":`
pub fn key_name() -> (r: Vec<u8>)
    ensures
        r@ == spec_key_name(),
{
    let r: Vec<u8> = vec![44, 34, 110, 97, 109, 101, 34, 58];
    proof {
        assert(r@ =~= spec_key_name());
    }
    r
}

/// `,"summary":`
pub open spec fn spec_key_summary() -> Seq<u8> {
    seq![44, 34, 115, 117, 109, 109, 97, 114, 121, 34, 58]
}

/// `,"summary":`
pub fn key_summary() -> (r: Vec<u8>)
    ensures
        r@ == spec_key_summary(),
{
    let r: Vec<u8> = vec![44, 34, 115, 117, 109, 109, 97, 114, 121, 34, 58];
    proof {
        assert(r@ =~= spec_key_summary());
    }
    r
}

/// `null`
pub open spec fn spec_null() -> Seq<u8> {
    seq![110, 117, 108, 108]
}

/// `null`
pub fn null() -> (r: Vec<u8>)
    ensures
        r@ == spec_null(),
{
    let r: Vec<u8> = vec![110, 117, 108, 108];
    proof {
        assert(r@ =~= spec_null());
    }
    r
}

/// `VeryLow`
pub open spec fn spec_priority_very_low() -> Seq<u8> {
    seq![86, 101, 114, 121, 76, 111, 119]
}

/// `VeryLow`
pub fn priority_very_low() -> (r: Vec<u8>)
    ensures
        r@ == spec_priority_very_low(),
{
    let r: Vec<u8> = vec![86, 101, 114, 121, 76, 111, 119];
    proof {
        assert(r@ =~= spec_priority_very_low());
    }
    r
}

/// `Moderate`
pub open spec fn spec_priority_moderate() -> Seq<u8> {
    seq![77, 111, 100, 101, 114, 97, 116, 101]
}

/// `Moderate`
pub fn priority_moderate() -> (r: Vec<u8>)
    ensures
        r@ == spec_priority_moderate(),
{
    let r: Vec<u8> = vec![77, 111, 100, 101, 114, 97, 116, 101];
    proof {
        assert(r@ =~= spec_priority_moderate());
    }
    r
}

/// `Normal`
pub open spec fn spec_priority_normal() -> Seq<u8> {
    seq![78, 111, 114, 109, 97, 108]
}

/// `Normal`
pub fn priority_normal() -> (r: Vec<u8>)
    ensures
        r@ == spec_priority_normal(),
{
    let r: Vec<u8> = vec![78, 111, 114, 109, 97, 108];
    proof {
        assert(r@ =~= spec_priority_normal());
    }
    r
}

/// `High`
pub open spec fn spec_priority_high() -> Seq<u8> {
    seq![72, 105, 103, 104]
}

/// `High`
pub fn priority_high() -> (r: Vec<u8>)
    ensures
        r@ == spec_priority_high(),
{
    let r: Vec<u8> = vec![72, 105, 103, 104];
    proof {
        assert(r@ =~= spec_priority_high());
    }
    r
}

/// `Emergency`
pub open spec fn spec_priority_emergency() -> Seq<u8> {
    seq![69, 109, 101, 114, 103, 101, 110, 99, 121]
}

/// `Emergency`
pub fn priority_emergency() -> (r: Vec<u8>)
    ensures
        r@ == spec_priority_emergency(),
{
    let r: Vec<u8> = vec![69, 109, 101, 114, 103, 101, 110, 99, 121];
    proof {
        assert(r@ =~= spec_priority_emergency());
    }
    r
}

/// `{"status": "firing", "generatorURL": "http://something/this", "fingerprint": "581dd91e73c77248", "labels": { "alertname": "`
pub open spec fn spec_alert_json_firing_head() -> Seq<u8> {
    seq![123, 34, 115, 116, 97, 116, 117, 115, 34, 58, 32, 34, 102, 105, 114, 105, 110, 103, 34, 44, 32, 34, 103, 101, 110, 101, 114, 97, 116, 111, 114, 85, 82, 76, 34, 58, 32, 34, 104, 116, 116, 112, 58, 47, 47, 115, 111, 109, 101, 116, 104, 105, 110, 103, 47, 116, 104, 105, 115, 34, 44, 32, 34, 102, 105, 110, 103, 101, 114, 112, 114, 105, 110, 116, 34, 58, 32, 34, 53, 56, 49, 100, 100, 57, 49, 101, 55, 51, 99, 55, 55, 50, 52, 56, 34, 44, 32, 34, 108, 97, 98, 101, 108, 115, 34, 58, 32, 123, 32, 34, 97, 108, 101, 114, 116, 110, 97, 109, 101, 34, 58, 32, 34]
}

/// `{"status": "firing", "generatorURL": "http://something/this", "fingerprint": "581dd91e73c77248", "labels": { "alertname": "`
pub fn alert_json_firing_head() -> (r: Vec<u8>)
    ensures
        r@ == spec_alert_json_firing_head(),
{
    let r: Vec<u8> = vec![123, 34, 115, 116, 97, 116, 117, 115, 34, 58, 32, 34, 102, 105, 114, 105, 110, 103, 34, 44, 32, 34, 103, 101, 110, 101, 114, 97, 116, 111, 114, 85, 82, 76, 34, 58, 32, 34, 104, 116, 116, 112, 58, 47, 47, 115, 111, 109, 101, 116, 104, 105, 110, 103, 47, 116, 104, 105, 115, 34, 44, 32, 34, 102, 105, 110, 103, 101, 114, 112, 114, 105, 110, 116, 34, 58, 32, 34, 53, 56, 49, 100, 100, 57, 49, 101, 55, 51, 99, 55, 55, 50, 52, 56, 34, 44, 32, 34, 108, 97, 98, 101, 108, 115, 34, 58, 32, 123, 32, 34, 97, 108, 101, 114, 116, 110, 97, 109, 101, 34, 58, 32, 34];
    proof {
        assert(r@ =~= spec_alert_json_firing_head());
    }
    r
}

/// `{"status": "resolved", "generatorURL": "http://something/this", "fingerprint": "581dd91e73c77248", "labels": { "alertname": "`
pub open spec fn spec_alert_json_resolved_head() -> Seq<u8> {
    seq![123, 34, 115, 116, 97, 116, 117, 115, 34, 58, 32, 34, 114, 101, 115, 111, 108, 118, 101, 100, 34, 44, 32, 34, 103, 101, 110, 101, 114, 97, 116, 111, 114, 85, 82, 76, 34, 58, 32, 34, 104, 116, 116, 112, 58, 47, 47, 115, 111, 109, 101, 116, 104, 105, 110, 103, 47, 116, 104, 105, 115, 34, 44, 32, 34, 102, 105, 110, 103, 101, 114, 112, 114, 105, 110, 116, 34, 58, 32, 34, 53, 56, 49, 100, 100, 57, 49, 101, 55, 51, 99, 55, 55, 50, 52, 56, 34, 44, 32, 34, 108, 97, 98, 101, 108, 115, 34, 58, 32, 123, 32, 34, 97, 108, 101, 114, 116, 110, 97, 109, 101, 34, 58, 32, 34]
}

/// `{"status": "resolved", "generatorURL": "http://something/this", "fingerprint": "581dd91e73c77248", "labels": { "alertname": "`
pub fn alert_json_resolved_head() -> (r: Vec<u8>)
    ensures
        r@ == spec_alert_json_resolved_head(),
{
    let r: Vec<u8> = vec![123, 34, 115, 116, 97, 116, 117, 115, 34, 58, 32, 34, 114, 101, 115, 111, 108, 118, 101, 100, 34, 44, 32, 34, 103, 101, 110, 101, 114, 97, 116, 111, 114, 85, 82, 76, 34, 58, 32, 34, 104, 116, 116, 112, 58, 47, 47, 115, 111, 109, 101, 116, 104, 105, 110, 103, 47, 116, 104, 105, 115, 34, 44, 32, 34, 102, 105, 110, 103, 101, 114, 112, 114, 105, 110, 116, 34, 58, 32, 34, 53, 56, 49, 100, 100, 57, 49, 101, 55, 51, 99, 55, 55, 50, 52, 56, 34, 44, 32, 34, 108, 97, 98, 101, 108, 115, 34, 58, 32, 123, 32, 34, 97, 108, 101, 114, 116, 110, 97, 109, 101, 34, 58, 32, 34];
    proof {
        assert(r@ =~= spec_alert_json_resolved_head());
    }
    r
}

/// `Alert Name" }, "annotations": { "summary": "Annotation Summary"}}`
pub open spec fn spec_alert_json_tail() -> Seq<u8> {
    seq![65, 108, 101, 114, 116, 32, 78, 97, 109, 101, 34, 32, 125, 44, 32, 34, 97, 110, 110, 111, 116, 97, 116, 105, 111, 110, 115, 34, 58, 32, 123, 32, 34, 115, 117, 109, 109, 97, 114, 121, 34, 58, 32, 34, 65, 110, 110, 111, 116, 97, 116, 105, 111, 110, 32, 83, 117, 109, 109, 97, 114, 121, 34, 125, 125]
}

/// `Alert Name" }, "annotations": { "summary": "Annotation Summary"}}`
pub fn alert_json_tail() -> (r: Vec<u8>)
    ensures
        r@ == spec_alert_json_tail(),
{
    let r: Vec<u8> = vec![65, 108, 101, 114, 116, 32, 78, 97, 109, 101, 34, 32, 125, 44, 32, 34, 97, 110, 110, 111, 116, 97, 116, 105, 111, 110, 115, 34, 58, 32, 123, 32, 34, 115, 117, 109, 109, 97, 114, 121, 34, 58, 32, 34, 65, 110, 110, 111, 116, 97, 116, 105, 111, 110, 32, 83, 117, 109, 109, 97, 114, 121, 34, 125, 125];
    proof {
        assert(r@ =~= spec_alert_json_tail());
    }
    r
}

} // verus!
