//! What came back from a request, as plain values: a response with its
//! status line, headers and body, or the failure that prevented one.

use crate::text::{
    eq_ignore_ascii_case, find_char, lemma_position_from, position, same_ignoring_ascii_case,
};
use vstd::prelude::*;
use vstd::utf8::{
    decode_utf8, encode_utf8, encode_utf8_decode_utf8, encode_utf8_valid_utf8, valid_utf8,
};

verus! {

/// One header line of a response.
#[derive(Debug)]
pub struct Header {
    /// The header's name, in any case.
    pub name: String,
    /// The header's value without surrounding white space, or `None` where
    /// the line's value cannot be read as text.
    pub value: Option<String>,
}

/// The body of a response as far as it arrived.
#[derive(Debug)]
pub struct Body {
    /// The bytes that arrived, in order.
    pub received: Vec<u8>,
    /// Whether the stream broke off with an error instead of ending.
    pub interrupted: bool,
}

/// What one read on the stream of a body gave.
#[derive(Debug)]
pub enum ReadEvent {
    /// These bytes arrived.
    Data(Vec<u8>),
    /// The stream ended.
    End,
    /// The stream broke off with an error.
    Failed,
}

/// Whether there is more to read.
#[derive(Debug, Clone, Copy, PartialEq, Eq, Structural)]
pub enum ReadStep {
    /// Read again.
    Continue,
    /// The body is complete as far as it will ever be.
    Stop,
}

/// Mathematical value of a [`Body`].
pub struct BodyModel {
    pub received: Seq<u8>,
    pub interrupted: bool,
}

impl View for Body {
    type V = BodyModel;

    open spec fn view(&self) -> BodyModel {
        BodyModel { received: self.received@, interrupted: self.interrupted }
    }
}

/// A response of the remote side.
#[derive(Debug)]
pub struct Response {
    /// The status code of the status line.
    pub status: u16,
    /// The text that follows the code in the status line.
    pub status_text: String,
    /// The header lines, in the order received.
    pub headers: Vec<Header>,
    /// The body, which is read once.
    pub body: Body,
}

/// A failure that left no response: the name could not be resolved, the
/// connection failed, a timeout ran out.
#[derive(Debug)]
pub struct Transport {
    /// The failure in words.
    pub message: String,
}

/// A request that did not end in a response with a success status.
#[derive(Debug)]
pub enum RequestError {
    /// The remote side answered, with this status code, which reports an
    /// error.
    Status(u16, Response),
    /// No answer was received.
    Transport(Transport),
}

/// The media type of a response that declares none.
pub const DEFAULT_CONTENT_TYPE: &'static str = "text/plain";

/// [`DEFAULT_CONTENT_TYPE`] as characters.
pub open spec fn default_content_type() -> Seq<char> {
    DEFAULT_CONTENT_TYPE@
}

/// The least index at or after `from` of a header whose name is `name` but
/// for the case of ASCII letters.
pub open spec fn header_index_from(headers: Seq<Header>, name: Seq<char>, from: int) -> Option<int>
    decreases headers.len() - from,
{
    if from < 0 || from >= headers.len() {
        None
    } else if same_ignoring_ascii_case(headers[from].name@, name) {
        Some(from)
    } else {
        header_index_from(headers, name, from + 1)
    }
}

/// The value of the first header called `name`, if there is such a header
/// and its value is text.
pub open spec fn header_value(headers: Seq<Header>, name: Seq<char>) -> Option<Seq<char>> {
    match header_index_from(headers, name, 0) {
        Some(i) => match headers[i].value {
            Some(v) => Some(v@),
            None => None,
        },
        None => None,
    }
}

/// What a search from `from` finds is a header of that name, and the first
/// one from there on.
pub proof fn lemma_header_index_from(headers: Seq<Header>, name: Seq<char>, from: int)
    requires
        0 <= from,
    ensures
        match header_index_from(headers, name, from) {
            Some(i) => from <= i < headers.len() && same_ignoring_ascii_case(
                headers[i].name@,
                name,
            ) && forall|k: int|
                from <= k < i ==> !same_ignoring_ascii_case(#[trigger] headers[k].name@, name),
            None => forall|k: int|
                from <= k < headers.len() ==> !same_ignoring_ascii_case(
                    #[trigger] headers[k].name@,
                    name,
                ),
        },
    decreases headers.len() - from,
{
    if from < headers.len() && !same_ignoring_ascii_case(headers[from].name@, name) {
        lemma_header_index_from(headers, name, from + 1);
    }
}

/// The part of a `content-type` value that names the media type: what
/// stands before the first `;`, or all of it.
pub open spec fn media_type(value: Seq<char>) -> Seq<char> {
    value.take(position(value, ';'))
}

/// The text that a body holds: the received bytes read as UTF-8, or nothing
/// where they are not UTF-8.
pub open spec fn body_text(received: Seq<u8>) -> Seq<char> {
    if valid_utf8(received) {
        decode_utf8(received)
    } else {
        Seq::empty()
    }
}

/// The body before anything was read.
pub open spec fn empty_body() -> BodyModel {
    BodyModel { received: Seq::empty(), interrupted: false }
}

/// The body after one more read: data is added at the end, the end of the
/// stream changes nothing, and a failure is noted without losing anything.
pub open spec fn after_event(body: BodyModel, event: ReadEvent) -> BodyModel {
    match event {
        ReadEvent::Data(bytes) => BodyModel {
            received: body.received + bytes@,
            interrupted: body.interrupted,
        },
        ReadEvent::End => body,
        ReadEvent::Failed => BodyModel { received: body.received, interrupted: true },
    }
}

/// Whether reading goes on after a read.
pub open spec fn step_after(event: ReadEvent) -> ReadStep {
    match event {
        ReadEvent::Data(_) => ReadStep::Continue,
        ReadEvent::End => ReadStep::Stop,
        ReadEvent::Failed => ReadStep::Stop,
    }
}

/// The body after a run of reads, in order.
pub open spec fn after_events(body: BodyModel, events: Seq<ReadEvent>) -> BodyModel
    decreases events.len(),
{
    if events.len() == 0 {
        body
    } else {
        after_event(after_events(body, events.drop_last()), events.last())
    }
}

/// The reads that hand out these chunks, one each.
pub open spec fn data_events(chunks: Seq<Vec<u8>>) -> Seq<ReadEvent> {
    Seq::new(chunks.len(), |i: int| ReadEvent::Data(chunks[i]))
}

/// All bytes of the chunks, in order.
pub open spec fn joined(chunks: Seq<Vec<u8>>) -> Seq<u8>
    decreases chunks.len(),
{
    if chunks.len() == 0 {
        Seq::empty()
    } else {
        joined(chunks.drop_last()) + chunks.last()@
    }
}

/// Calls `String::from_utf8` and drops the error's payload. By the
/// standard library's documentation the call fails exactly if the bytes are
/// not UTF-8, and otherwise returns the text that these bytes encode.
#[verifier::external_body]
fn text_from_utf8(bytes: Vec<u8>) -> (r: Option<String>)
    ensures
        match r {
            Some(s) => encode_utf8(s@) == bytes@,
            None => !valid_utf8(bytes@),
        },
{
    String::from_utf8(bytes).ok()
}

impl Body {
    /// A body of which nothing has been read yet.
    pub fn new() -> (r: Body)
        ensures
            r@ == empty_body(),
    {
        Body { received: Vec::new(), interrupted: false }
    }

    /// Takes in what one read gave, and says whether to read again.
    ///
    /// A failure ends the reading and keeps all that arrived before it: a
    /// remote side that tears the connection down after its last byte has
    /// still delivered its body.
    pub fn accept(&mut self, event: ReadEvent) -> (step: ReadStep)
        ensures
            final(self)@ == after_event(old(self)@, event),
            step == step_after(event),
    {
        match event {
            ReadEvent::Data(bytes) => {
                let mut bytes = bytes;
                self.received.append(&mut bytes);
                ReadStep::Continue
            },
            ReadEvent::End => ReadStep::Stop,
            ReadEvent::Failed => {
                self.interrupted = true;
                ReadStep::Stop
            },
        }
    }
}

impl Response {
    /// The value of the first header called `name`.
    pub open spec fn spec_header(&self, name: Seq<char>) -> Option<Seq<char>> {
        header_value(self.headers@, name)
    }

    /// The media type that the response declares, `text/plain` where it
    /// declares none.
    pub open spec fn spec_content_type(&self) -> Seq<char> {
        match self.spec_header("content-type"@) {
            Some(v) => media_type(v),
            None => default_content_type(),
        }
    }

    /// The text of the body.
    pub open spec fn spec_body_text(&self) -> Seq<char> {
        body_text(self.body.received@)
    }

    /// The value of the first header whose name is `name` but for the case
    /// of ASCII letters; `None` where there is no such header, or where the
    /// value of the first one is no text.
    pub fn header(&self, name: &str) -> (r: Option<&str>)
        ensures
            match r {
                Some(v) => self.spec_header(name@) == Some(v@),
                None => self.spec_header(name@) is None,
            },
    {
        let mut i: usize = 0;
        while i < self.headers.len()
            invariant
                i <= self.headers.len(),
                header_index_from(self.headers@, name@, 0) == header_index_from(
                    self.headers@,
                    name@,
                    i as int,
                ),
            decreases self.headers.len() - i,
        {
            if eq_ignore_ascii_case(self.headers[i].name.as_str(), name) {
                return match &self.headers[i].value {
                    Some(v) => Some(v.as_str()),
                    None => None,
                };
            }
            i += 1;
        }
        None
    }

    /// The media type of the `content-type` header, without parameters such
    /// as the character set; `text/plain` where the header is missing.
    pub fn content_type(&self) -> (r: &str)
        ensures
            r@ == self.spec_content_type(),
    {
        match self.header("content-type") {
            Some(v) => {
                let end: usize = find_char(v, ';');
                v.substring_char(0, end)
            },
            None => DEFAULT_CONTENT_TYPE,
        }
    }
}

/// Reads the body of a response to text, whether or not the stream broke
/// off: what arrived is returned, and nothing where it is not UTF-8.
pub fn req_safe_read_body(res: Response) -> (r: String)
    ensures
        r@ == res.spec_body_text(),
        valid_utf8(res.body.received@) ==> encode_utf8(r@) == res.body.received@,
{
    match text_from_utf8(res.body.received) {
        Some(s) => {
            proof {
                encode_utf8_valid_utf8(s@);
                encode_utf8_decode_utf8(s@);
            }
            s
        },
        None => String::new(),
    }
}

/// The media type is the beginning of the header's value, holds no `;`,
/// and is the whole value where that holds none.
pub proof fn lemma_media_type(value: Seq<char>)
    ensures
        media_type(value).len() <= value.len(),
        media_type(value) == value.subrange(0, media_type(value).len() as int),
        !media_type(value).contains(';'),
        !value.contains(';') ==> media_type(value) == value,
{
    lemma_position_from(value, ';', 0);
    let n = position(value, ';');
    assert(media_type(value) =~= value.subrange(0, n));
    if !value.contains(';') {
        if n < value.len() {
            assert(value[n] == ';');
        }
        assert(media_type(value) =~= value);
    }
}

/// Reading chunk after chunk gathers their bytes in order.
pub proof fn lemma_data_is_gathered(chunks: Seq<Vec<u8>>)
    ensures
        after_events(empty_body(), data_events(chunks)) == (BodyModel {
            received: joined(chunks),
            interrupted: false,
        }),
    decreases chunks.len(),
{
    if chunks.len() > 0 {
        lemma_data_is_gathered(chunks.drop_last());
        assert(data_events(chunks).drop_last() =~= data_events(chunks.drop_last()));
        assert(data_events(chunks).last() == ReadEvent::Data(chunks.last()));
    } else {
        assert(joined(chunks) =~= Seq::<u8>::empty());
    }
}

/// A stream that hands out some chunks and then breaks off leaves a body
/// that holds exactly the bytes of those chunks, as does a stream that hands
/// out the same chunks and then ends. The two bodies differ in nothing but
/// the note of the failure, so both are read as the same text.
pub proof fn lemma_failure_keeps_what_arrived(chunks: Seq<Vec<u8>>)
    ensures
        after_events(empty_body(), data_events(chunks).push(ReadEvent::Failed)) == (BodyModel {
            received: joined(chunks),
            interrupted: true,
        }),
        after_events(empty_body(), data_events(chunks).push(ReadEvent::End)) == (BodyModel {
            received: joined(chunks),
            interrupted: false,
        }),
{
    lemma_data_is_gathered(chunks);
    let failed = data_events(chunks).push(ReadEvent::Failed);
    let ended = data_events(chunks).push(ReadEvent::End);
    assert(failed.drop_last() =~= data_events(chunks));
    assert(ended.drop_last() =~= data_events(chunks));
}

} // verus!
