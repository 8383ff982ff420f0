//! The response writer and its two phases.
//!
//! A response moves one way through two phases, each a distinct type: while
//! `Fresh`, status and headers may change and the sink is untouched;
//! committing writes the preamble exactly once and yields the `Streaming`
//! response, through which only raw body bytes can pass.  Header or status
//! mutation after the commit is not expressible.

use vstd::prelude::*;

use crate::date::{clean_date_value, date_name, date_name_vec, now_date_value};
use crate::header::{contains_name, contains_name_ignore_case, count_name, Headers};
use crate::header::name_eq_ignore_case;
use crate::header::lemma_count_name_push;
use crate::header::lemma_count_name_zero;
use crate::net::{ByteSink, IoError};
use crate::rfc7230::{header_block, header_line, preamble, status_line};
use crate::rfc7230::{lemma_header_block_snoc, push_all, push_line_ending, COLON, SP};
use crate::status::StatusCode;
use crate::version::HttpVersion;

verus! {

/// Phase of a response whose status and headers may still change: no byte
/// has reached the sink.
pub struct Fresh;

/// Phase of a response whose preamble is on the wire: status and headers
/// are frozen, body bytes may be appended.
pub struct Streaming;

/// The phase of a response, indicating whether the status and headers have
/// been written.
pub trait WriteStatus {}

impl WriteStatus for Fresh {}

impl WriteStatus for Streaming {}

/// How a header set stands after a commit: untouched when a `Date` entry —
/// under any ASCII case of the name — was already present, so a
/// caller-supplied value is never overwritten; otherwise extended by
/// exactly one synthesized `Date` entry whose value is clean (non-empty,
/// printable, on its own line), or left untouched in the one case where
/// the clock cannot be rendered and there is no value to write.
pub open spec fn date_extended(
    before: Seq<(Seq<u8>, Seq<u8>)>,
    after: Seq<(Seq<u8>, Seq<u8>)>,
) -> bool {
    if contains_name_ignore_case(before, date_name()) {
        after == before
    } else {
        ||| after == before
        ||| exists|d: Seq<u8>| clean_date_value(d) && after == before.push((date_name(), d))
    }
}

/// Writes the preamble to `body`: the status line, each header line in
/// insertion order — a `Date` entry synthesized first if none is set — and
/// the closing blank line, stopping at the first write failure.
///
/// On failure no later preamble line is attempted: the sink has accepted
/// exactly the lines that stand before the failing one.
pub fn write_preamble<S: ByteSink>(
    body: &mut S,
    version: HttpVersion,
    status: StatusCode,
    headers: &mut Headers,
) -> (r: Result<(), IoError>)
    ensures
        r is Ok ==> {
            &&& date_extended(old(headers)@, final(headers)@)
            &&& final(body).bytes() == old(body).bytes() + preamble(
                version.rendered(),
                status.rendered(),
                final(headers)@,
            )
        },
        r is Err ==> {
            ||| {
                &&& final(headers)@ == old(headers)@
                &&& final(body).bytes() == old(body).bytes()
            }
            ||| {
                &&& date_extended(old(headers)@, final(headers)@)
                &&& exists|i: int|
                    0 <= i <= final(headers)@.len() && final(body).bytes() == old(body).bytes()
                        + status_line(version.rendered(), status.rendered()) + header_block(
                        final(headers)@.take(i),
                    )
            }
        },
{
    let mut line: Vec<u8> = Vec::new();
    version.push_rendered(&mut line);
    line.push(SP);
    status.push_rendered(&mut line);
    push_line_ending(&mut line);
    proof {
        assert(line@ =~= status_line(version.rendered(), status.rendered()));
    }
    match body.write(line.as_slice()) {
        Ok(()) => {},
        Err(e) => {
            return Err(e);
        },
    }
    let ghost base = old(body).bytes() + status_line(version.rendered(), status.rendered());
    if !headers.has_ignore_ascii_case(date_name_vec().as_slice()) {
        match now_date_value() {
            Some(d) => {
                let ghost dv = d@;
                proof {
                    assert(!contains_name(old(headers)@, date_name())) by {
                        if contains_name(old(headers)@, date_name()) {
                            let w: int = choose|w: int|
                                0 <= w < old(headers)@.len() && old(headers)@[w].0 == date_name();
                            assert(name_eq_ignore_case(old(headers)@[w].0, date_name()));
                            assert(contains_name_ignore_case(old(headers)@, date_name()));
                        }
                    }
                }
                headers.set(date_name_vec(), d);
                proof {
                    assert(headers@ == old(headers)@.push((date_name(), dv)));
                    assert(date_extended(old(headers)@, headers@));
                }
            },
            None => {},
        }
    }
    let ghost hs = headers@;
    proof {
        assert(hs.take(0) =~= Seq::<(Seq<u8>, Seq<u8>)>::empty());
    }
    let n: usize = headers.len();
    let mut i: usize = 0;
    while i < n
        invariant
            i <= n,
            n == hs.len(),
            hs == headers@,
            date_extended(old(headers)@, headers@),
            base == old(body).bytes() + status_line(version.rendered(), status.rendered()),
            body.bytes() == base + header_block(hs.take(i as int)),
        decreases n - i,
    {
        let e = headers.get(i);
        let mut hline: Vec<u8> = Vec::new();
        push_all(&mut hline, e.0.as_slice());
        hline.push(COLON);
        hline.push(SP);
        push_all(&mut hline, e.1.as_slice());
        push_line_ending(&mut hline);
        proof {
            assert(hline@ =~= header_line(hs[i as int].0, hs[i as int].1));
        }
        match body.write(hline.as_slice()) {
            Ok(()) => {},
            Err(e) => {
                proof {
                    let w: int = i as int;
                    assert(0 <= w <= hs.len() && body.bytes() == old(body).bytes() + status_line(
                        version.rendered(),
                        status.rendered(),
                    ) + header_block(hs.take(w)));
                }
                return Err(e);
            },
        }
        proof {
            lemma_header_block_snoc(hs, i as int);
        }
        i = i + 1;
    }
    proof {
        assert(hs.take(n as int) =~= hs);
    }
    let mut blank: Vec<u8> = Vec::new();
    push_line_ending(&mut blank);
    match body.write(blank.as_slice()) {
        Ok(()) => {},
        Err(e) => {
            proof {
                let w: int = hs.len() as int;
                assert(0 <= w <= hs.len() && body.bytes() == old(body).bytes() + status_line(
                    version.rendered(),
                    status.rendered(),
                ) + header_block(hs.take(w)));
            }
            return Err(e);
        },
    }
    proof {
        assert(body.bytes() =~= old(body).bytes() + preamble(
            version.rendered(),
            status.rendered(),
            headers@,
        ));
    }
    Ok(())
}

/// The outgoing half of a connection, created by a server and handed to a
/// handler.  `W` is the phase; `S` the owned byte sink.
pub struct Response<W: WriteStatus, S: ByteSink> {
    /// The HTTP version of this response.
    pub version: HttpVersion,
    phase: W,
    body: S,
    status: StatusCode,
    headers: Headers,
}

impl<W: WriteStatus, S: ByteSink> Response<W, S> {
    /// The version of this response, as a value in specifications.
    pub closed spec fn spec_version(&self) -> HttpVersion {
        self.version
    }

    /// The status of this response, as a value in specifications.
    pub closed spec fn spec_status(&self) -> StatusCode {
        self.status
    }

    /// The headers of this response, as a value in specifications.
    pub closed spec fn spec_headers(&self) -> Headers {
        self.headers
    }

    /// The owned sink, as a value in specifications.
    pub closed spec fn spec_body(&self) -> S {
        self.body
    }

    /// The bytes the owned sink has accepted so far.
    pub open spec fn sink_bytes(&self) -> Seq<u8> {
        self.spec_body().bytes()
    }

    /// The status of this response.
    pub fn status(&self) -> (r: StatusCode)
        ensures
            r == self.spec_status(),
    {
        self.status
    }

    /// The headers of this response.
    pub fn headers(&self) -> (r: &Headers)
        ensures
            *r == self.spec_headers(),
    {
        &self.headers
    }

    /// Constructs a fresh response from its constituent parts.
    pub fn construct(version: HttpVersion, body: S, status: StatusCode, headers: Headers) -> (r:
        Response<Fresh, S>)
        ensures
            r.spec_version() == version,
            r.spec_status() == status,
            r.spec_headers() == headers,
            r.spec_body() == body,
    {
        Response { status, version, body, headers, phase: Fresh }
    }
}

impl<S: ByteSink> Response<Fresh, S> {
    /// Creates a new response that can be used to write to `stream`:
    /// status `200 OK`, version `HTTP/1.1`, no headers, no I/O performed.
    pub fn new(stream: S) -> (r: Response<Fresh, S>)
        ensures
            r.spec_version() == HttpVersion::Http11,
            r.spec_status() == StatusCode::Okay,
            r.spec_headers()@ == Seq::<(Seq<u8>, Seq<u8>)>::empty(),
            r.spec_body() == stream,
    {
        Response {
            status: StatusCode::Okay,
            version: HttpVersion::Http11,
            headers: Headers::new(),
            body: stream,
            phase: Fresh,
        }
    }

    /// A mutable reference to the status; only a fresh response has one.
    pub fn status_mut(&mut self) -> (r: &mut StatusCode)
        ensures
            *r == old(self).spec_status(),
            final(self).spec_status() == *final(r),
            final(self).spec_version() == old(self).spec_version(),
            final(self).spec_headers() == old(self).spec_headers(),
            final(self).spec_body() == old(self).spec_body(),
    {
        &mut self.status
    }

    /// A mutable reference to the headers; only a fresh response has one.
    pub fn headers_mut(&mut self) -> (r: &mut Headers)
        ensures
            *r == old(self).spec_headers(),
            final(self).spec_headers() == *final(r),
            final(self).spec_version() == old(self).spec_version(),
            final(self).spec_status() == old(self).spec_status(),
            final(self).spec_body() == old(self).spec_body(),
    {
        &mut self.headers
    }

    /// Deconstructs this fresh response into its constituent parts.
    pub fn deconstruct(self) -> (r: (HttpVersion, S, StatusCode, Headers))
        ensures
            r.0 == self.spec_version(),
            r.1 == self.spec_body(),
            r.2 == self.spec_status(),
            r.3 == self.spec_headers(),
    {
        (self.version, self.body, self.status, self.headers)
    }

    /// Consumes this fresh response, writing the status line, the header
    /// block — with a `Date` entry synthesized if none was set — and the
    /// closing blank line, and creating a streaming response over the same
    /// sink.
    ///
    /// On success the sink has accepted exactly the preamble of the frozen
    /// status, version and headers, byte for byte; on failure the error is
    /// returned at once, the response is gone, and no later preamble line
    /// was attempted.
    pub fn start(self) -> (r: Result<Response<Streaming, S>, IoError>)
        ensures
            r matches Ok(resp) ==> {
                &&& resp.spec_version() == self.spec_version()
                &&& resp.spec_status() == self.spec_status()
                &&& date_extended(self.spec_headers()@, resp.spec_headers()@)
                &&& resp.sink_bytes() == self.sink_bytes() + preamble(
                    self.spec_version().rendered(),
                    self.spec_status().rendered(),
                    resp.spec_headers()@,
                )
            },
    {
        let Response { version, phase: _, mut body, status, mut headers } = self;
        match write_preamble(&mut body, version, status, &mut headers) {
            Ok(()) => Ok(Response { version, body, status, headers, phase: Streaming }),
            Err(e) => Err(e),
        }
    }
}

impl<S: ByteSink> Response<Streaming, S> {
    /// Appends raw body bytes through the sink, whole or not at all; the
    /// bytes are not interpreted, and framing beyond the header block is
    /// the caller's responsibility.
    pub fn write(&mut self, msg: &[u8]) -> (r: Result<(), IoError>)
        ensures
            final(self).spec_version() == old(self).spec_version(),
            final(self).spec_status() == old(self).spec_status(),
            final(self).spec_headers() == old(self).spec_headers(),
            r is Ok ==> final(self).sink_bytes() == old(self).sink_bytes() + msg@,
            r is Err ==> final(self).sink_bytes() == old(self).sink_bytes(),
    {
        self.body.write(msg)
    }

    /// Forces buffered bytes to the sink; what it has accepted is unchanged.
    pub fn flush(&mut self) -> (r: Result<(), IoError>)
        ensures
            final(self).spec_version() == old(self).spec_version(),
            final(self).spec_status() == old(self).spec_status(),
            final(self).spec_headers() == old(self).spec_headers(),
            final(self).sink_bytes() == old(self).sink_bytes(),
    {
        self.body.flush()
    }

    /// Flushes all writing of a response to the client and consumes it; the
    /// sink's ownership is gone and no further operation is possible.
    pub fn end(self) -> (r: Result<(), IoError>) {
        let mut this = self;
        this.flush()
    }
}

/// A header set that had no `Date` entry — under any ASCII case of the
/// name — and was extended by a commit holds exactly one afterwards.
pub proof fn lemma_synthesized_date_unique(
    before: Seq<(Seq<u8>, Seq<u8>)>,
    after: Seq<(Seq<u8>, Seq<u8>)>,
)
    requires
        !contains_name_ignore_case(before, date_name()),
        date_extended(before, after),
        after != before,
    ensures
        count_name(after, date_name()) == 1,
{
    assert(!contains_name(before, date_name())) by {
        if contains_name(before, date_name()) {
            let w: int = choose|w: int| 0 <= w < before.len() && before[w].0 == date_name();
            assert(name_eq_ignore_case(before[w].0, date_name()));
            assert(contains_name_ignore_case(before, date_name()));
        }
    }
    let d = choose|d: Seq<u8>| clean_date_value(d) && after == before.push((date_name(), d));
    lemma_count_name_zero(before, date_name());
    lemma_count_name_push(before, date_name(), d);
}

/// Body bytes handed to the sink after a successful commit stand strictly
/// after the whole preamble: the wire is the untouched prior contents, the
/// whole preamble, then the body, with no interleaving.
pub proof fn lemma_body_after_preamble(prior: Seq<u8>, pre: Seq<u8>, body_bytes: Seq<u8>)
    ensures
        (prior + pre + body_bytes).take((prior + pre).len() as int) == prior + pre,
        (prior + pre + body_bytes).skip((prior + pre).len() as int) == body_bytes,
{
    assert((prior + pre + body_bytes).take((prior + pre).len() as int) =~= prior + pre);
    assert((prior + pre + body_bytes).skip((prior + pre).len() as int) =~= body_bytes);
}

} // verus!
