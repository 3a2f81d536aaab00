use crate::bytes::{
    all_digits, bytes_eq, dec_digits, digits_val, is_utf8, opt_bytes_view, parse_u64_digits,
    seq_views, subvec, validate_utf8,
};
use crate::bytes::push_all;
use crate::errors::RequestError;
use crate::text;
use vstd::prelude::*;

verus! {

/// True when `needle` occurs in `haystack` starting at index `at`.
pub open spec fn matches_at(haystack: Seq<u8>, needle: Seq<u8>, at: int) -> bool {
    0 <= at && at + needle.len() <= haystack.len() && (forall|m: int|
        0 <= m < needle.len() ==> haystack[at + m] == needle[m])
}

/// The first index at or after `i` at which `needle` occurs in `s`.
pub open spec fn spec_find(s: Seq<u8>, needle: Seq<u8>, i: int) -> Option<int>
    decreases s.len() - i,
{
    if i < 0 || i + needle.len() > s.len() {
        None
    } else if matches_at(s, needle, i) {
        Some(i)
    } else {
        spec_find(s, needle, i + 1)
    }
}

/// Finds the first occurrence of `needle` in `haystack` at or after `from`.
pub fn find_from(haystack: &[u8], needle: &[u8], from: usize) -> (r: Option<usize>)
    ensures
        match r {
            Some(i) => spec_find(haystack@, needle@, from as int) == Some(i as int),
            None => spec_find(haystack@, needle@, from as int) is None,
        },
{
    if needle.len() > haystack.len() {
        return None;
    }
    if from > haystack.len() - needle.len() {
        return None;
    }
    let mut i: usize = from;
    while i <= haystack.len() - needle.len()
        invariant
            needle@.len() <= haystack@.len(),
            from <= i <= haystack@.len() - needle@.len() + 1,
            spec_find(haystack@, needle@, from as int) == spec_find(haystack@, needle@, i as int),
        decreases haystack.len() + 1 - i,
    {
        let mut k: usize = 0;
        let mut all_match = true;
        while k < needle.len()
            invariant
                0 <= k <= needle@.len(),
                i + needle@.len() <= haystack@.len() <= usize::MAX,
                all_match <==> (forall|m: int| 0 <= m < k ==> haystack@[i + m] == needle@[m]),
            decreases needle.len() - k,
        {
            if haystack[i + k] != needle[k] {
                all_match = false;
            }
            k = k + 1;
        }
        if all_match {
            return Some(i);
        }
        proof {
            assert(!matches_at(haystack@, needle@, i as int));
        }
        i = i + 1;
    }
    None
}

/// Finds the first occurrence of `needle` anywhere in `haystack`.
pub fn find_subsequence(haystack: &[u8], needle: &[u8]) -> (r: Option<usize>)
    ensures
        match r {
            Some(i) => spec_find(haystack@, needle@, 0) == Some(i as int),
            None => spec_find(haystack@, needle@, 0) is None,
        },
{
    find_from(haystack, needle, 0)
}

/// The method and path read from the first line of a request.
#[derive(Debug)]
pub struct RequestLine {
    pub method: Vec<u8>,
    pub path: Vec<u8>,
}

impl RequestLine {
    /// The request method.
    pub fn method(&self) -> (r: &Vec<u8>)
        ensures
            r@ == self.method@,
    {
        &self.method
    }

    /// The request path.
    pub fn path(&self) -> (r: &Vec<u8>)
        ensures
            r@ == self.path@,
    {
        &self.path
    }
}

/// A framed HTTP request: its request line and its body bytes.
#[derive(Debug)]
pub struct Request {
    pub request_line: RequestLine,
    pub body: Vec<u8>,
}

impl Request {
    /// The request line.
    pub fn request_line(&self) -> (r: &RequestLine)
        ensures
            r.method@ == self.request_line.method@,
            r.path@ == self.request_line.path@,
    {
        &self.request_line
    }

    /// The body bytes.
    pub fn body(&self) -> (r: &Vec<u8>)
        ensures
            r@ == self.body@,
    {
        &self.body
    }
}

/// The `Content-Length` value found in `s`, scanned case-sensitively.
/// `Ok(None)` when the header is absent; the value must sit on a
/// `\r`-terminated line, be valid UTF-8, and fit a `usize`.
pub open spec fn spec_content_length(s: Seq<u8>) -> Result<Option<usize>, RequestError> {
    match spec_find(s, text::spec_content_length_header(), 0) {
        None => Ok(None),
        Some(cl) => {
            match spec_find(s, text::spec_carriage_return(), cl) {
                None => Err(RequestError::NoContentLength),
                Some(eol) => {
                    let start = cl + text::spec_content_length_header().len();
                    if eol < start {
                        Err(RequestError::NoContentLength)
                    } else {
                        let region = s.subrange(start, eol);
                        if !is_utf8(region) {
                            Err(RequestError::BadMessage)
                        } else if region.len() == 0 || !all_digits(region) || digits_val(region)
                            > usize::MAX {
                            Err(RequestError::NoContentLength)
                        } else {
                            Ok(Some(digits_val(region) as usize))
                        }
                    }
                },
            }
        },
    }
}

/// Scans `buffer` for a `Content-Length: ` header and parses its value.
pub fn try_to_get_expected_len(buffer: &[u8]) -> (r: Result<Option<usize>, RequestError>)
    ensures
        r == spec_content_length(buffer@),
{
    let header = text::content_length_header();
    let buffer_len = buffer.len();
    let cl = match find_subsequence(buffer, header.as_slice()) {
        None => {
            return Ok(None);
        },
        Some(i) => i,
    };
    proof {
        lemma_spec_find_in_range(buffer@, text::spec_content_length_header(), 0, cl as int);
    }
    let cr = text::carriage_return();
    let eol = match find_from(buffer, cr.as_slice(), cl) {
        None => {
            return Err(RequestError::NoContentLength);
        },
        Some(i) => i,
    };
    let start = cl + header.len();
    if eol < start {
        return Err(RequestError::NoContentLength);
    }
    proof {
        lemma_spec_find_in_range(buffer@, text::spec_carriage_return(), cl as int, eol as int);
        assert(eol <= buffer@.len());
    }
    let region = subvec(buffer, start, eol);
    if !validate_utf8(region.as_slice()) {
        return Err(RequestError::BadMessage);
    }
    match parse_u64_digits(region.as_slice(), 0, region.len()) {
        None => {
            proof {
                assert(region@ =~= region@.subrange(0, region@.len() as int));
            }
            Err(RequestError::NoContentLength)
        },
        Some(v) => {
            proof {
                assert(region@ =~= region@.subrange(0, region@.len() as int));
            }
            if v > usize::MAX as u64 {
                Err(RequestError::NoContentLength)
            } else {
                Ok(Some(v as usize))
            }
        },
    }
}

/// Whatever `spec_find` returns lies within the haystack.
pub proof fn lemma_spec_find_in_range(s: Seq<u8>, needle: Seq<u8>, i: int, found: int)
    requires
        spec_find(s, needle, i) == Some(found),
    ensures
        i <= found,
        found + needle.len() <= s.len(),
        matches_at(s, needle, found),
    decreases s.len() - i,
{
    if i < 0 || i + needle.len() > s.len() {
    } else if matches_at(s, needle, i) {
    } else {
        lemma_spec_find_in_range(s, needle, i + 1, found);
    }
}

/// What framing a fully delivered byte stream yields: either the method,
/// path and body of the request, or the reason it is rejected.
pub open spec fn spec_parse_request(s: Seq<u8>) -> Result<
    (Seq<u8>, Seq<u8>, Seq<u8>),
    RequestError,
> {
    let sep = spec_find(s, text::spec_header_body_separator(), 0);
    let len_result = if sep is Some {
        spec_content_length(s)
    } else {
        Ok(None)
    };
    match len_result {
        Err(e) => Err(e),
        Ok(expected) => {
            match spec_find(s, text::spec_newline(), 0) {
                None => Err(RequestError::NoRequestLine),
                Some(nl) => {
                    let line = s.subrange(0, nl);
                    if !is_utf8(line) {
                        Err(RequestError::BadMessage)
                    } else {
                        match spec_find(line, seq![32u8], 0) {
                            None => Err(RequestError::RequestLineParse),
                            Some(sp1) => {
                                let method = line.subrange(0, sp1);
                                let rest = line.subrange(sp1 + 1, line.len() as int);
                                let path = match spec_find(rest, seq![32u8], 0) {
                                    None => rest,
                                    Some(sp2) => rest.subrange(0, sp2),
                                };
                                match sep {
                                    None => Err(RequestError::NoMessageBody),
                                    Some(sep_at) => {
                                        let start = sep_at
                                            + text::spec_header_body_separator().len();
                                        match expected {
                                            None => {
                                                if method == text::spec_method_get() {
                                                    Ok((method, path, Seq::<u8>::empty()))
                                                } else {
                                                    Err(RequestError::NoContentLength)
                                                }
                                            },
                                            Some(expected_len) => {
                                                if start + expected_len > s.len() {
                                                    Err(
                                                        RequestError::BadContentLength(
                                                            expected_len,
                                                            (s.len() - start) as usize,
                                                        ),
                                                    )
                                                } else {
                                                    let body = s.subrange(
                                                        start,
                                                        start + expected_len,
                                                    );
                                                    if !is_utf8(body) {
                                                        Err(RequestError::BadMessage)
                                                    } else {
                                                        Ok((method, path, body))
                                                    }
                                                }
                                            },
                                        }
                                    },
                                }
                            },
                        }
                    }
                },
            }
        },
    }
}

impl Request {
    /// Frames a request out of everything a stream delivered. The bytes in
    /// `data` are all that arrived before the logical end of input.
    pub fn from_stream(data: &[u8]) -> (r: Result<Request, RequestError>)
        ensures
            match r {
                Ok(req) => spec_parse_request(data@) == Ok::<_, RequestError>(
                    (req.request_line.method@, req.request_line.path@, req.body@),
                ),
                Err(e) => spec_parse_request(data@) == Err::<(Seq<u8>, Seq<u8>, Seq<u8>), _>(e),
            },
    {
        let separator = text::header_body_separator();
        let data_len = data.len();
        let sep = find_subsequence(data, separator.as_slice());
        let expected: Option<usize> = if sep.is_some() {
            match try_to_get_expected_len(data) {
                Err(e) => {
                    return Err(e);
                },
                Ok(v) => v,
            }
        } else {
            None
        };
        let newline = text::newline();
        let nl = match find_subsequence(data, newline.as_slice()) {
            None => {
                return Err(RequestError::NoRequestLine);
            },
            Some(i) => i,
        };
        proof {
            lemma_spec_find_in_range(data@, text::spec_newline(), 0, nl as int);
        }
        let line = subvec(data, 0, nl);
        if !validate_utf8(line.as_slice()) {
            return Err(RequestError::BadMessage);
        }
        let space: Vec<u8> = vec![32u8];
        proof {
            assert(space@ =~= seq![32u8]);
        }
        let sp1 = match find_subsequence(line.as_slice(), space.as_slice()) {
            None => {
                return Err(RequestError::RequestLineParse);
            },
            Some(i) => i,
        };
        proof {
            lemma_spec_find_in_range(line@, seq![32u8], 0, sp1 as int);
        }
        let method = subvec(line.as_slice(), 0, sp1);
        let rest = subvec(line.as_slice(), sp1 + 1, line.len());
        let path = match find_subsequence(rest.as_slice(), space.as_slice()) {
            None => rest,
            Some(sp2) => {
                proof {
                    lemma_spec_find_in_range(rest@, seq![32u8], 0, sp2 as int);
                }
                subvec(rest.as_slice(), 0, sp2)
            },
        };
        let sep_at = match sep {
            None => {
                return Err(RequestError::NoMessageBody);
            },
            Some(i) => i,
        };
        proof {
            lemma_spec_find_in_range(data@, text::spec_header_body_separator(), 0, sep_at as int);
        }
        let start = sep_at + separator.len();
        match expected {
            None => {
                let get = text::method_get();
                if bytes_eq(method.as_slice(), get.as_slice()) {
                    Ok(
                        Request {
                            request_line: RequestLine { method, path },
                            body: Vec::new(),
                        },
                    )
                } else {
                    Err(RequestError::NoContentLength)
                }
            },
            Some(expected_len) => {
                if expected_len > data.len() - start {
                    Err(RequestError::BadContentLength(expected_len, data.len() - start))
                } else {
                    let body = subvec(data, start, start + expected_len);
                    if !validate_utf8(body.as_slice()) {
                        Err(RequestError::BadMessage)
                    } else {
                        Ok(Request { request_line: RequestLine { method, path }, body })
                    }
                }
            },
        }
    }
}

/// An HTTP response: status line, header lines, and an optional body.
#[derive(Debug)]
pub struct Response {
    pub status_line: Vec<u8>,
    pub headers: Vec<Vec<u8>>,
    pub body: Option<Vec<u8>>,
}

/// Header lines joined by `\r\n`.
pub open spec fn spec_join_crlf(hs: Seq<Seq<u8>>) -> Seq<u8>
    decreases hs.len(),
{
    if hs.len() == 0 {
        Seq::<u8>::empty()
    } else if hs.len() == 1 {
        hs[0]
    } else {
        spec_join_crlf(hs.drop_last()) + text::spec_crlf() + hs.last()
    }
}

/// Joining after appending one more line.
pub proof fn lemma_join_crlf_push(hs: Seq<Seq<u8>>, x: Seq<u8>)
    ensures
        spec_join_crlf(hs.push(x)) == if hs.len() == 0 {
            x
        } else {
            spec_join_crlf(hs) + text::spec_crlf() + x
        },
{
    let p = hs.push(x);
    assert(p.drop_last() =~= hs);
    assert(p.last() == x);
    if hs.len() == 0 {
        assert(p[0] == x);
    }
}

/// The exact bytes a response puts on the wire: a `Connection: close`
/// header is always appended; with a body, a `Content-Length` header and
/// the blank-line separator follow the headers; without one, the response
/// ends after the last header.
pub open spec fn spec_response_bytes(
    status_line: Seq<u8>,
    headers: Seq<Seq<u8>>,
    body: Option<Seq<u8>>,
) -> Seq<u8> {
    match body {
        Some(b) => {
            let all = headers.push(text::spec_connection_close_header()).push(
                text::spec_content_length_header() + dec_digits(b.len()),
            );
            status_line + text::spec_crlf() + spec_join_crlf(all)
                + text::spec_header_body_separator() + b
        },
        None => {
            let all = headers.push(text::spec_connection_close_header());
            status_line + text::spec_crlf() + spec_join_crlf(all)
        },
    }
}

impl Response {
    /// Builds a response from its parts.
    pub fn new(status_line: Vec<u8>, headers: Vec<Vec<u8>>, body: Option<Vec<u8>>) -> (r: Response)
        ensures
            r.status_line@ == status_line@,
            seq_views(r.headers@) == seq_views(headers@),
            opt_bytes_view(r.body) == opt_bytes_view(body),
    {
        Response { status_line, headers, body }
    }

    /// The status line.
    pub fn status_line(&self) -> (r: &Vec<u8>)
        ensures
            r@ == self.status_line@,
    {
        &self.status_line
    }

    /// Appends the response's exact wire bytes to `stream`.
    pub fn send(self, stream: &mut Vec<u8>)
        ensures
            final(stream)@ == old(stream)@ + spec_response_bytes(
                self.status_line@,
                seq_views(self.headers@),
                opt_bytes_view(self.body),
            ),
    {
        let Response { status_line, mut headers, body } = self;
        let ghost orig_headers = seq_views(headers@);
        headers.push(text::connection_close_header());
        let has_body = body.is_some();
        let body_bytes: Vec<u8> = match body {
            Some(b) => b,
            None => Vec::new(),
        };
        if has_body {
            let mut cl_line = text::content_length_header();
            let digits = fmt_u64_of_len(body_bytes.len());
            push_all(&mut cl_line, digits.as_slice());
            headers.push(cl_line);
        }
        proof {
            if has_body {
                assert(seq_views(headers@) =~= orig_headers.push(
                    text::spec_connection_close_header(),
                ).push(text::spec_content_length_header() + dec_digits(body_bytes@.len())));
            } else {
                assert(seq_views(headers@) =~= orig_headers.push(
                    text::spec_connection_close_header(),
                ));
            }
        }
        push_all(stream, status_line.as_slice());
        let crlf = text::crlf();
        push_all(stream, crlf.as_slice());
        let ghost before = stream@;
        let ghost hs = seq_views(headers@);
        proof {
            assert(stream@ =~= before + spec_join_crlf(hs.take(0)));
        }
        let mut i: usize = 0;
        while i < headers.len()
            invariant
                0 <= i <= headers@.len(),
                hs == seq_views(headers@),
                hs.len() == headers@.len(),
                stream@ == before + spec_join_crlf(hs.take(i as int)),
            decreases headers@.len() - i,
        {
            if i > 0 {
                let sep = text::crlf();
                push_all(stream, sep.as_slice());
            }
            let line = &headers[i];
            push_all(stream, line.as_slice());
            proof {
                assert(hs.take(i + 1) =~= hs.take(i as int).push(hs[i as int]));
                lemma_join_crlf_push(hs.take(i as int), hs[i as int]);
                assert(headers@[i as int]@ == hs[i as int]);
                assert(stream@ =~= before + spec_join_crlf(hs.take(i + 1)));
            }
            i = i + 1;
        }
        proof {
            assert(hs.take(headers@.len() as int) =~= hs);
        }
        if has_body {
            let separator = text::header_body_separator();
            push_all(stream, separator.as_slice());
            push_all(stream, body_bytes.as_slice());
        }
        proof {
            assert(stream@ =~= old(stream)@ + spec_response_bytes(
                status_line@,
                orig_headers,
                if has_body {
                    Some(body_bytes@)
                } else {
                    None
                },
            ));
        }
    }
}

/// Renders a buffer length as decimal ASCII digits.
fn fmt_u64_of_len(n: usize) -> (r: Vec<u8>)
    ensures
        r@ == dec_digits(n as nat),
{
    crate::bytes::fmt_u64(n as u64)
}

/// Accumulates what a stream has delivered so far and decides when the
/// request is complete: once the header/body separator has appeared and a
/// parsed `Content-Length` worth of body bytes has arrived (or the length
/// header is hopeless), reading can stop. Without a length header the
/// reader waits for the logical end of input.
pub open spec fn spec_framing_done(s: Seq<u8>) -> bool {
    match spec_find(s, text::spec_header_body_separator(), 0) {
        None => false,
        Some(sep_at) => match spec_content_length(s) {
            Err(_) => true,
            Ok(None) => false,
            Ok(Some(expected_len)) => s.len() >= sep_at
                + text::spec_header_body_separator().len() + expected_len,
        },
    }
}

/// The incremental reader's state: the bytes received so far.
#[derive(Debug)]
pub struct Framer {
    pub received: Vec<u8>,
}

impl Framer {
    /// A reader that has received nothing.
    pub fn new() -> (r: Framer)
        ensures
            r.received@ =~= Seq::<u8>::empty(),
    {
        Framer { received: Vec::new() }
    }

    /// Accumulates one chunk read from the stream.
    pub fn push_chunk(&mut self, chunk: &[u8])
        ensures
            final(self).received@ == old(self).received@ + chunk@,
    {
        let ghost before = self.received@;
        self.received.extend_from_slice(chunk);
        proof {
            assert(self.received@ =~= before + chunk@);
        }
    }

    /// Whether enough has arrived to stop reading.
    pub fn done(&self) -> (r: bool)
        ensures
            r == spec_framing_done(self.received@),
    {
        let separator = text::header_body_separator();
        let total = self.received.len();
        let sep_at = match find_subsequence(self.received.as_slice(), separator.as_slice()) {
            None => {
                return false;
            },
            Some(i) => i,
        };
        proof {
            lemma_spec_find_in_range(
                self.received@,
                text::spec_header_body_separator(),
                0,
                sep_at as int,
            );
        }
        match try_to_get_expected_len(self.received.as_slice()) {
            Err(_) => true,
            Ok(None) => false,
            Ok(Some(expected_len)) => {
                let body_start = sep_at + separator.len();
                total - body_start >= expected_len
            },
        }
    }

    /// Whether the sender asked for a `100 Continue` before sending more.
    pub fn wants_continue(&self) -> (r: bool)
        ensures
            r == (spec_find(self.received@, text::spec_expect_continue_header(), 0) is Some),
    {
        let header = text::expect_continue_header();
        match find_subsequence(self.received.as_slice(), header.as_slice()) {
            Some(_) => true,
            None => false,
        }
    }

    /// Frames the request out of everything received.
    pub fn finish(&self) -> (r: Result<Request, RequestError>)
        ensures
            match r {
                Ok(req) => spec_parse_request(self.received@) == Ok::<_, RequestError>(
                    (req.request_line.method@, req.request_line.path@, req.body@),
                ),
                Err(e) => spec_parse_request(self.received@) == Err::<
                    (Seq<u8>, Seq<u8>, Seq<u8>),
                    _,
                >(e),
            },
    {
        Request::from_stream(self.received.as_slice())
    }
}

} // verus!
