//! HTTP values that workers and their host exchange.

use vstd::prelude::*;
use vstd::string::*;
use std::collections::HashMap;
use bytes::Bytes;
use tokio::sync::mpsc;
use crate::buffer::{bytes_contents, bytes_from_vec, bytes_is_empty, bytes_len, option_contents};
use crate::channel::{poll_stream, Polled};
use crate::stream::{gathered, step, Chunk, StreamCollector, StreamProducer};
use crate::termination::TerminationReason;
use crate::text::{ascii_upper, ascii_upper_is, decimal, decimal_string};

verus! {

/// HTTP method enum
#[derive(Debug, Clone, PartialEq, Eq, Structural)]
pub enum HttpMethod {
    Get,
    Post,
    Put,
    Delete,
    Patch,
    Head,
    Options,
}

impl HttpMethod {
    /// The verb in capitals.
    pub open spec fn name(self) -> Seq<char> {
        match self {
            HttpMethod::Get => "GET"@,
            HttpMethod::Post => "POST"@,
            HttpMethod::Put => "PUT"@,
            HttpMethod::Delete => "DELETE"@,
            HttpMethod::Patch => "PATCH"@,
            HttpMethod::Head => "HEAD"@,
            HttpMethod::Options => "OPTIONS"@,
        }
    }

    /// The method whose verb is exactly `upper`, if there is one.
    pub open spec fn of_name(upper: Seq<char>) -> Option<HttpMethod> {
        if upper == "GET"@ {
            Some(HttpMethod::Get)
        } else if upper == "POST"@ {
            Some(HttpMethod::Post)
        } else if upper == "PUT"@ {
            Some(HttpMethod::Put)
        } else if upper == "DELETE"@ {
            Some(HttpMethod::Delete)
        } else if upper == "PATCH"@ {
            Some(HttpMethod::Patch)
        } else if upper == "HEAD"@ {
            Some(HttpMethod::Head)
        } else if upper == "OPTIONS"@ {
            Some(HttpMethod::Options)
        } else {
            None
        }
    }

    /// The method that a string stands for, whatever the case of its
    /// letters: the method whose verb is the string's ASCII uppercase form.
    /// Only the letters `a` to `z` have another case here, so a string with
    /// any other character in place of a verb's letter stands for no method.
    pub open spec fn parse(s: Seq<char>) -> Option<HttpMethod> {
        Self::of_name(ascii_upper(s))
    }

    /// The method of a request line: what the string reads as, and `Get`
    /// where it reads as none.
    pub open spec fn parse_or_get(s: Seq<char>) -> HttpMethod {
        match Self::parse(s) {
            Some(m) => m,
            None => HttpMethod::Get,
        }
    }

    pub fn as_str(&self) -> (verb: &'static str)
        ensures
            verb@ == self.name(),
    {
        match self {
            HttpMethod::Get => "GET",
            HttpMethod::Post => "POST",
            HttpMethod::Put => "PUT",
            HttpMethod::Delete => "DELETE",
            HttpMethod::Patch => "PATCH",
            HttpMethod::Head => "HEAD",
            HttpMethod::Options => "OPTIONS",
        }
    }

    /// The verb as an owned string, as the method prints.
    pub fn to_string(&self) -> (verb: String)
        ensures
            verb@ == self.name(),
    {
        String::from_str(self.as_str())
    }

    /// Reads a method from a string, ignoring the case of its letters. A
    /// string that is none of the seven verbs is an error: there is no
    /// fallback here.
    pub fn from_str(s: &str) -> (method: Result<HttpMethod, ()>)
        ensures
            method == (match Self::parse(s@) {
                Some(m) => Ok::<HttpMethod, ()>(m),
                None => Err(()),
            }),
    {
        if ascii_upper_is(s, "GET") {
            Ok(HttpMethod::Get)
        } else if ascii_upper_is(s, "POST") {
            Ok(HttpMethod::Post)
        } else if ascii_upper_is(s, "PUT") {
            Ok(HttpMethod::Put)
        } else if ascii_upper_is(s, "DELETE") {
            Ok(HttpMethod::Delete)
        } else if ascii_upper_is(s, "PATCH") {
            Ok(HttpMethod::Patch)
        } else if ascii_upper_is(s, "HEAD") {
            Ok(HttpMethod::Head)
        } else if ascii_upper_is(s, "OPTIONS") {
            Ok(HttpMethod::Options)
        } else {
            Err(())
        }
    }

    /// Reads a method from a string, and takes `Get` where it names none.
    pub fn from_str_or_default(s: &str) -> (method: HttpMethod)
        ensures
            method == Self::parse_or_get(s@),
    {
        match Self::from_str(s) {
            Ok(m) => m,
            Err(_) => HttpMethod::Get,
        }
    }

    /// The seven verbs are pairwise different, so each one reads back as its
    /// own method.
    pub proof fn lemma_name_reads_back(self)
        ensures
            Self::of_name(self.name()) == Some(self),
    {
        reveal_strlit("GET");
        reveal_strlit("POST");
        reveal_strlit("PUT");
        reveal_strlit("DELETE");
        reveal_strlit("PATCH");
        reveal_strlit("HEAD");
        reveal_strlit("OPTIONS");
        assert("GET"@.len() == 3 && "POST"@.len() == 4 && "PUT"@.len() == 3 && "DELETE"@.len() == 6
            && "PATCH"@.len() == 5 && "HEAD"@.len() == 4 && "OPTIONS"@.len() == 7);
        assert("GET"@[0] == 'G' && "PUT"@[0] == 'P');
        assert("POST"@[0] == 'P' && "HEAD"@[0] == 'H');
    }

    /// A verb is its own ASCII uppercase form, so it reads as its own method.
    pub proof fn lemma_verb_parses(self)
        ensures
            ascii_upper(self.name()) == self.name(),
            Self::parse(self.name()) == Some(self),
    {
        reveal_strlit("GET");
        reveal_strlit("POST");
        reveal_strlit("PUT");
        reveal_strlit("DELETE");
        reveal_strlit("PATCH");
        reveal_strlit("HEAD");
        reveal_strlit("OPTIONS");
        assert(ascii_upper(self.name()) =~= self.name());
        self.lemma_name_reads_back();
    }

    /// A string reads as a method exactly when it is that method's verb
    /// but for the case of its letters, and fails to read exactly when it is
    /// none of the seven verbs in any case.
    pub proof fn lemma_parse(s: Seq<char>, method: HttpMethod)
        ensures
            Self::parse(s) == Some(method) <==> ascii_upper(s) == ascii_upper(method.name()),
            Self::parse(s) is None <==> forall|m: HttpMethod|
                ascii_upper(s) != ascii_upper(#[trigger] m.name()),
    {
        let upper = ascii_upper(s);
        method.lemma_name_reads_back();
        method.lemma_verb_parses();
        if Self::parse(s) is None {
            assert forall|m: HttpMethod| upper != ascii_upper(#[trigger] m.name()) by {
                m.lemma_name_reads_back();
                m.lemma_verb_parses();
            }
        } else {
            let found = Self::parse(s)->0;
            found.lemma_verb_parses();
            assert(upper == found.name());
        }
    }

    /// A character that is no ASCII letter has no other case: a string that
    /// holds one where a verb holds a letter reads as no method, whatever
    /// the character looks like or turns into elsewhere.
    pub proof fn lemma_other_characters_do_not_match(s: Seq<char>, method: HttpMethod, i: int)
        requires
            0 <= i < s.len(),
            !('a' <= s[i] <= 'z'),
            i < method.name().len() ==> s[i] != method.name()[i],
        ensures
            Self::parse(s) != Some(method),
    {
        method.lemma_verb_parses();
        Self::lemma_parse(s, method);
        if ascii_upper(s) == method.name() {
            assert(ascii_upper(s)[i] == s[i]);
        }
    }
}

impl Default for HttpMethod {
    fn default() -> (method: HttpMethod)
        ensures
            method == HttpMethod::Get,
    {
        HttpMethod::Get
    }
}

impl std::str::FromStr for HttpMethod {
    type Err = ();

    /// Reads a method from a string, ignoring the case of its letters, as
    /// `str::parse` does it: the method whose verb is the ASCII uppercase
    /// form of the string, and an error where that form is none of the seven
    /// verbs.
    fn from_str(s: &str) -> (method: Result<HttpMethod, ()>)
        ensures
            method == (match HttpMethod::parse(s@) {
                Some(m) => Ok::<HttpMethod, ()>(m),
                None => Err(()),
            }),
    {
        HttpMethod::from_str(s)
    }
}

/// Request body - always buffered (no streaming input supported)
///
/// Streaming input is intentionally not supported: the transport buffers a
/// request before it reaches a worker, and a buffered body spares the
/// runtimes every question of backpressure on the input side.
#[derive(Debug, Clone)]
pub enum RequestBody {
    /// No body
    Empty,
    /// Complete body (already buffered)
    Bytes(Bytes),
}

impl RequestBody {
    /// Check if this is an empty body
    pub fn is_none(&self) -> (b: bool)
        ensures
            b == (self is Empty),
    {
        matches!(self, RequestBody::Empty)
    }

    /// Check if this body has content
    pub fn is_bytes(&self) -> (b: bool)
        ensures
            b == (self is Bytes),
    {
        matches!(self, RequestBody::Bytes(_))
    }

    /// Get bytes reference if present
    pub fn as_bytes(&self) -> (bytes: Option<&Bytes>)
        ensures
            bytes == (match *self {
                RequestBody::Bytes(b) => Some(&b),
                RequestBody::Empty => None,
            }),
    {
        match self {
            RequestBody::Bytes(b) => Some(b),
            RequestBody::Empty => None,
        }
    }

    /// Convert to Option<Bytes>, consuming self
    pub fn into_bytes(self) -> (bytes: Option<Bytes>)
        ensures
            bytes == (match self {
                RequestBody::Bytes(b) => Some(b),
                RequestBody::Empty => None,
            }),
    {
        match self {
            RequestBody::Bytes(b) => Some(b),
            RequestBody::Empty => None,
        }
    }

    /// The body of a request whose payload was buffered into `bytes`: a
    /// payload of no bytes is no body.
    pub fn from_buffer(bytes: Bytes) -> (body: RequestBody)
        ensures
            body == (if bytes_contents(bytes).len() == 0 {
                RequestBody::Empty
            } else {
                RequestBody::Bytes(bytes)
            }),
    {
        if bytes_is_empty(&bytes) {
            RequestBody::Empty
        } else {
            RequestBody::Bytes(bytes)
        }
    }
}

/// The entries of a header map: each name with its value.
pub uninterp spec fn header_entries(headers: HashMap<String, String>) -> Map<Seq<char>, Seq<char>>;

/// The header map without an entry.
pub open spec fn no_headers() -> Map<Seq<char>, Seq<char>> {
    Map::empty()
}

/// Calls `HashMap::new`: the new map has no entry.
#[verifier::external_body]
fn headers_new() -> (headers: HashMap<String, String>)
    ensures
        header_entries(headers) == no_headers(),
{
    HashMap::new()
}

/// Calls `HashMap::insert`: the map then holds `value` under `name`, in place
/// of what it held under that name before, and its other entries as they were.
#[verifier::external_body]
fn headers_insert(headers: &mut HashMap<String, String>, name: String, value: String)
    ensures
        header_entries(*final(headers)) == header_entries(*old(headers)).insert(name@, value@),
{
    headers.insert(name, value);
}

/// HTTP Request data (shared type for all runtimes)
#[derive(Debug)]
pub struct HttpRequest {
    pub method: HttpMethod,
    /// The absolute URL.
    pub url: String,
    /// The headers, one value for each name. Names keep the case in which
    /// they came; whoever looks one up should compare without regard to case.
    pub headers: HashMap<String, String>,
    /// The body, buffered in full, or none.
    pub body: RequestBody,
}

/// The header map that a list of header lines amounts to. A line whose value
/// could not be read as text (`None`) is left out; of two lines with the same
/// name the later one stands.
pub open spec fn headers_of(lines: Seq<(String, Option<String>)>) -> Map<Seq<char>, Seq<char>>
    decreases lines.len(),
{
    if lines.len() == 0 {
        no_headers()
    } else {
        let before = headers_of(lines.drop_last());
        match lines.last().1 {
            Some(value) => before.insert(lines.last().0@, value@),
            None => before,
        }
    }
}

impl HttpRequest {
    /// The absolute URL of a request: scheme, `://`, host, and the path with
    /// its query as the request line gave it.
    pub fn absolute_url(scheme: &str, host: &str, uri: &str) -> (url: String)
        ensures
            url@ == scheme@ + "://"@ + host@ + uri@,
    {
        let mut url = String::from_str(scheme);
        url.append("://");
        url.append(host);
        url.append(uri);
        url
    }

    /// Builds a request from what a transport read off the wire. The method
    /// is read without regard to case and falls back to `Get`; the header
    /// lines are gathered as `headers_of` says; a payload of no bytes is no
    /// body.
    pub fn from_parts(
        method: &str,
        scheme: &str,
        host: &str,
        uri: &str,
        header_lines: Vec<(String, Option<String>)>,
        body: Bytes,
    ) -> (request: HttpRequest)
        ensures
            request.method == HttpMethod::parse_or_get(method@),
            request.url@ == scheme@ + "://"@ + host@ + uri@,
            header_entries(request.headers) == headers_of(header_lines@),
            request.body == (if bytes_contents(body).len() == 0 {
                RequestBody::Empty
            } else {
                RequestBody::Bytes(body)
            }),
    {
        let ghost lines = header_lines@;
        let mut headers = headers_new();
        for line in iter: header_lines
            invariant
                iter.seq() == lines,
                header_entries(headers) == headers_of(lines.take(iter.index() as int)),
        {
            proof {
                assert(lines.take(iter.index() + 1).drop_last() == lines.take(iter.index() as int));
            }
            let (name, value) = line;
            match value {
                Some(value) => {
                    headers_insert(&mut headers, name, value);
                },
                None => {},
            }
        }
        proof {
            assert(lines.take(lines.len() as int) == lines);
        }
        HttpRequest {
            method: HttpMethod::from_str_or_default(method),
            url: Self::absolute_url(scheme, host, uri),
            headers,
            body: RequestBody::from_buffer(body),
        }
    }
}

/// Response body - supports streaming for SSE, chunked responses, etc.
#[derive(Debug)]
pub enum ResponseBody {
    /// No body
    Empty,
    /// Complete body (already buffered)
    Bytes(Bytes),
    /// Streaming body - receiver yields chunks as they become available.
    /// The channel is bounded, so a producer that runs ahead has to wait.
    Stream(mpsc::Receiver<Chunk>),
}

/// A body on its way into one buffer.
#[derive(Debug)]
pub enum Collect {
    /// The body was buffered already: this is the result.
    Ready(Option<Bytes>),
    /// The body is a stream: its chunks go from `receiver` to `collector`,
    /// one at a time, for as long as the collector wants more.
    Streaming { receiver: mpsc::Receiver<Chunk>, collector: StreamCollector },
}

/// How far one look at the stream got.
#[derive(Debug, Clone, Copy, PartialEq, Eq, Structural)]
pub enum Progress {
    /// Nothing was waiting and the stream is still open: come back later.
    Waiting,
    /// One more piece was taken.
    More,
    /// Nothing more will be taken.
    Finished,
}

impl ResponseBody {
    /// The text by which a body is shown in diagnostics: its kind, and for a
    /// buffered body its size; never its contents.
    pub open spec fn description(self) -> Seq<char> {
        match self {
            ResponseBody::Empty => "None"@,
            ResponseBody::Bytes(b) => "Bytes("@ + decimal(bytes_contents(b).len()) + " bytes)"@,
            ResponseBody::Stream(_) => "Stream(...)"@,
        }
    }

    /// Check if this is an empty body
    pub fn is_none(&self) -> (b: bool)
        ensures
            b == (self is Empty),
    {
        matches!(self, ResponseBody::Empty)
    }

    /// Check if this is a streaming body
    pub fn is_stream(&self) -> (b: bool)
        ensures
            b == (self is Stream),
    {
        matches!(self, ResponseBody::Stream(_))
    }

    /// Shows the body for diagnostics.
    pub fn describe(&self) -> (text: String)
        ensures
            text@ == self.description(),
    {
        match self {
            ResponseBody::Empty => String::from_str("None"),
            ResponseBody::Bytes(b) => {
                let mut text = String::from_str("Bytes(");
                let size = decimal_string(bytes_len(b));
                text.append(size.as_str());
                text.append(" bytes)");
                text
            },
            ResponseBody::Stream(_) => String::from_str("Stream(...)"),
        }
    }

    /// A streamed body over a bounded queue of the given depth, together with
    /// the end that produces it. There is no queue of depth zero, nor one
    /// deeper than `max_depth()`.
    pub fn stream(depth: usize) -> (made: Option<(StreamProducer, ResponseBody)>)
        ensures
            made is Some <==> 0 < depth <= crate::channel::max_depth(),
            made matches Some(pair) ==> pair.1 is Stream && pair.0.wf() && pair.0.emitted().len()
                == 0 && !pair.0.disconnected() && !pair.0.reported(),
    {
        match StreamProducer::open(depth) {
            Some((producer, receiver)) => Some((producer, ResponseBody::Stream(receiver))),
            None => None,
        }
    }

    /// Starts to collect all bytes from the body, consuming it. A buffered
    /// body is ready at once. For a stream the receiving end comes back with
    /// a fresh collector: the caller waits for each chunk and hands it over.
    ///
    /// Collecting a stream drops its error markers without a trace and keeps
    /// only what came before the first one, so a stream that failed half-way
    /// cannot be told from a shorter one that ended well. It is a convenience
    /// for buffering and debugging, not a safe way to read a body whose
    /// failure matters.
    pub fn collect(self) -> (state: Collect)
        ensures
            (match self {
                ResponseBody::Empty => state == Collect::Ready(None),
                ResponseBody::Bytes(b) => state == Collect::Ready(Some(b)),
                ResponseBody::Stream(from) => {
                    &&& state matches Collect::Streaming { receiver, collector }
                    &&& receiver == from
                    &&& collector.held().len() == 0
                    &&& collector.receiving()
                },
            }),
    {
        match self {
            ResponseBody::Empty => Collect::Ready(None),
            ResponseBody::Bytes(b) => Collect::Ready(Some(b)),
            ResponseBody::Stream(receiver) => Collect::Streaming {
                receiver,
                collector: StreamCollector::new(),
            },
        }
    }

    /// The body as a transport sends it: a buffer of no bytes is no body.
    pub fn for_transport(self) -> (body: ResponseBody)
        ensures
            body == (match self {
                ResponseBody::Bytes(b) if bytes_contents(b).len() == 0 => ResponseBody::Empty,
                other => other,
            }),
    {
        match self {
            ResponseBody::Bytes(b) => {
                if bytes_is_empty(&b) {
                    ResponseBody::Empty
                } else {
                    ResponseBody::Bytes(b)
                }
            },
            other => other,
        }
    }
}

impl Collect {
    /// The pieces gathered so far; for a body that was buffered, none.
    pub open spec fn held(self) -> Seq<Bytes> {
        match self {
            Collect::Ready(_) => Seq::empty(),
            Collect::Streaming { collector, .. } => collector.held(),
        }
    }

    /// Whether more of the body is wanted.
    pub open spec fn receiving(self) -> bool {
        match self {
            Collect::Ready(_) => false,
            Collect::Streaming { collector, .. } => collector.receiving(),
        }
    }

    /// What the body amounts to, as far as it has been gathered.
    pub open spec fn outcome(self) -> Option<Seq<u8>> {
        match self {
            Collect::Ready(body) => option_contents(body),
            Collect::Streaming { collector, .. } => gathered(collector.held()),
        }
    }

    /// Hands what the stream's receiving end handed out at one look to a
    /// collector that still receives, and says how far that got: a piece is
    /// kept, an error marker or a closed stream stops the collector, and an
    /// empty queue leaves everything as it is.
    pub fn take(collector: &mut StreamCollector, polled: Polled<Chunk>) -> (progress: Progress)
        requires
            old(collector).receiving(),
        ensures
            (final(collector).held(), final(collector).receiving()) == (match polled {
                Polled::Item(chunk) => step(old(collector).held(), true, Some(chunk)),
                Polled::Empty => (old(collector).held(), true),
                Polled::Closed => step(old(collector).held(), true, None),
            }),
            progress == (match polled {
                Polled::Item(chunk) => if chunk is Ok {
                    Progress::More
                } else {
                    Progress::Finished
                },
                Polled::Empty => Progress::Waiting,
                Polled::Closed => Progress::Finished,
            }),
    {
        match polled {
            Polled::Item(chunk) => {
                if collector.accept(Some(chunk)) {
                    Progress::More
                } else {
                    Progress::Finished
                }
            },
            Polled::Empty => Progress::Waiting,
            Polled::Closed => {
                collector.accept(None);
                Progress::Finished
            },
        }
    }

    /// Looks once at the stream without waiting, and lets `take` hand what
    /// is there to the collector. Nothing is taken from the stream once the
    /// collector has stopped, so what follows an error marker stays unread.
    pub fn poll(&mut self) -> (progress: Progress)
        ensures
            !old(self).receiving() ==> progress == Progress::Finished && *final(self) == *old(
                self,
            ),
            old(self).receiving() ==> (match progress {
                Progress::Waiting => final(self).receiving() && final(self).held() == old(
                    self,
                ).held(),
                Progress::More => final(self).receiving() && final(self).held().len() == old(
                    self,
                ).held().len() + 1 && final(self).held().drop_last() == old(self).held(),
                Progress::Finished => !final(self).receiving() && final(self).held() == old(
                    self,
                ).held(),
            }),
            (*final(self)) is Streaming <==> (*old(self)) is Streaming,
    {
        match self {
            Collect::Ready(_) => Progress::Finished,
            Collect::Streaming { receiver, collector } => {
                if !collector.is_receiving() {
                    return Progress::Finished;
                }
                let polled = poll_stream(receiver);
                Self::take(collector, polled)
            },
        }
    }

    /// Ends the collection and joins what was gathered into one buffer.
    pub fn finish(self) -> (body: Option<Bytes>)
        ensures
            option_contents(body) == self.outcome(),
    {
        match self {
            Collect::Ready(body) => body,
            Collect::Streaming { receiver: _, collector } => collector.finish(),
        }
    }
}

/// HTTP Response data (shared type for all runtimes)
#[derive(Debug)]
pub struct HttpResponse {
    pub status: u16,
    /// The headers in the order in which they go out. A name may occur more
    /// than once.
    pub headers: Vec<(String, String)>,
    pub body: ResponseBody,
}

/// The sending end on which a fetch task's response is delivered.
pub type ResponseSender = tokio::sync::oneshot::Sender<HttpResponse>;

/// HTTP Response metadata (for streaming responses - body comes separately)
#[derive(Debug, Clone)]
pub struct HttpResponseMeta {
    pub status: u16,
    pub status_text: String,
    pub headers: HashMap<String, String>,
}

/// The status that goes out for a response's status: the status itself if it
/// has three digits, else 500.
pub open spec fn outward_status(status: u16) -> u16 {
    if 100 <= status < 1000 {
        status
    } else {
        500
    }
}

impl HttpResponse {
    /// The response as a transport sends it: a status that no status line
    /// can carry becomes 500, a buffer of no bytes becomes no body, and the
    /// headers keep their order.
    pub fn for_transport(self) -> (response: HttpResponse)
        ensures
            response.status == outward_status(self.status),
            response.headers == self.headers,
            response.body == (match self.body {
                ResponseBody::Bytes(b) if bytes_contents(b).len() == 0 => ResponseBody::Empty,
                other => other,
            }),
    {
        let status = if 100 <= self.status && self.status < 1000 {
            self.status
        } else {
            500
        };
        HttpResponse { status, headers: self.headers, body: self.body.for_transport() }
    }

    /// The response that stands for an execution that ended abnormally: the
    /// status from the fixed table, no headers, and the reason's description
    /// as the body.
    pub fn from_termination(reason: &TerminationReason) -> (response: HttpResponse)
        ensures
            response.status == reason.status_of(),
            response.headers@.len() == 0,
            response.body matches ResponseBody::Bytes(b) && bytes_contents(b)
                == vstd::utf8::encode_utf8(reason.description_text()),
    {
        let text = reason.description();
        HttpResponse {
            status: reason.http_status(),
            headers: Vec::new(),
            body: ResponseBody::Bytes(bytes_from_vec(text.as_bytes_vec())),
        }
    }
}

} // verus!
