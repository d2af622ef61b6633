use vstd::prelude::*;
use vstd::utf8::is_ascii_chars;
use std::str::FromStr;
use crate::status::Status;

verus! {

/// The media types that a body built here can carry.
#[derive(Clone, Copy, Debug, PartialEq, Eq, Structural)]
pub enum Mime {
    ByteStream,
    PlainText,
    Json,
    Form,
}

impl Mime {
    /// The text that tide writes for this media type in a `content-type` header.
    pub open spec fn spec_text(self) -> Seq<char> {
        match self {
            Mime::ByteStream => "application/octet-stream"@,
            Mime::PlainText => "text/plain;charset=utf-8"@,
            Mime::Json => "application/json"@,
            Mime::Form => "application/x-www-form-urlencoded"@,
        }
    }

    /// The `content-type` text, as a string.
    pub fn text(&self) -> (r: String)
        ensures
            r@ == self.spec_text(),
    {
        match self {
            Mime::ByteStream => "application/octet-stream".to_owned(),
            Mime::PlainText => "text/plain;charset=utf-8".to_owned(),
            Mime::Json => "application/json".to_owned(),
            Mime::Form => "application/x-www-form-urlencoded".to_owned(),
        }
    }
}

/// What a body holds: text, or raw bytes.
pub enum Content {
    Text(String),
    Bytes(Vec<u8>),
}

/// What a body holds, as mathematical values.
pub enum ContentView {
    Text(Seq<char>),
    Bytes(Seq<u8>),
}

impl View for Content {
    type V = ContentView;

    open spec fn view(&self) -> ContentView {
        match self {
            Content::Text(s) => ContentView::Text(s@),
            Content::Bytes(b) => ContentView::Bytes(b@),
        }
    }
}

/// A response body with its media type.
pub struct Body {
    pub content: Content,
    pub mime: Mime,
}

/// A body, as mathematical values.
pub struct BodyView {
    pub content: ContentView,
    pub mime: Mime,
}

impl View for Body {
    type V = BodyView;

    open spec fn view(&self) -> BodyView {
        BodyView { content: self.content@, mime: self.mime }
    }
}

/// The body of a response made from a status alone.
pub open spec fn empty_body() -> BodyView {
    BodyView { content: ContentView::Bytes(Seq::empty()), mime: Mime::ByteStream }
}

/// The body that tide makes from a string.
pub open spec fn text_body(s: Seq<char>) -> BodyView {
    BodyView { content: ContentView::Text(s), mime: Mime::PlainText }
}

/// The body that tide makes from a byte slice.
pub open spec fn bytes_body(b: Seq<u8>) -> BodyView {
    BodyView { content: ContentView::Bytes(b), mime: Mime::ByteStream }
}

/// The body of a JSON payload: the bytes that serializing produced.
pub open spec fn json_body(b: Seq<u8>) -> BodyView {
    BodyView { content: ContentView::Bytes(b), mime: Mime::Json }
}

/// The body of a form payload: the text that form encoding produced.
pub open spec fn form_body(s: Seq<char>) -> BodyView {
    BodyView { content: ContentView::Text(s), mime: Mime::Form }
}

impl Body {
    pub fn empty() -> (r: Body)
        ensures
            r@ == empty_body(),
    {
        Body { content: Content::Bytes(Vec::new()), mime: Mime::ByteStream }
    }

    pub fn from_string(s: String) -> (r: Body)
        ensures
            r@ == text_body(s@),
    {
        Body { content: Content::Text(s), mime: Mime::PlainText }
    }

    pub fn from_bytes(b: Vec<u8>) -> (r: Body)
        ensures
            r@ == bytes_body(b@),
    {
        Body { content: Content::Bytes(b), mime: Mime::ByteStream }
    }
}

/// An error that a conversion hands to tide, which turns it into an error response.
pub struct Error {
    pub status: Status,
    pub message: String,
}

/// An error, as mathematical values.
pub struct ErrorView {
    pub status: u16,
    pub message: Seq<char>,
}

impl View for Error {
    type V = ErrorView;

    open spec fn view(&self) -> ErrorView {
        ErrorView { status: self.status@, message: self.message@ }
    }
}

impl Error {
    pub fn new(status: Status, message: String) -> (r: Error)
        ensures
            r@ == (ErrorView { status: status@, message: message@ }),
    {
        Error { status, message }
    }
}

/// One header: its lowercase name and its values.
pub type HeaderView = (Seq<char>, Seq<Seq<char>>);

/// Holds when the text is `s` with the ASCII capitals made small, as tide does with header names.
pub open spec fn is_ascii_lowercase_of(s: Seq<char>, r: Seq<char>) -> bool {
    &&& r.len() == s.len()
    &&& forall|i: int|
        0 <= i < s.len() ==> (#[trigger] r[i] as u32) == if 65 <= (s[i] as u32) <= 90 {
            (s[i] as u32) + 32
        } else {
            (s[i] as u32) as int
        }
}

/// Relies on `HeaderName::from_str` of http-types (tide's `http`): it accepts ASCII text
/// only, and lowercases it.
#[verifier::external_body]
pub(crate) fn parse_header_name(s: &str) -> (r: Option<String>)
    ensures
        r is Some <==> is_ascii_chars(s@),
        r matches Some(n) ==> is_ascii_lowercase_of(s@, n@),
{
    match tide::http::headers::HeaderName::from_str(s) {
        Ok(n) => Some(n.as_str().to_owned()),
        Err(_) => None,
    }
}

/// Relies on `HeaderValue::from_str` of http-types (tide's `http`): it accepts ASCII text
/// only, and keeps it as it is.
#[verifier::external_body]
pub(crate) fn parse_header_value(s: &str) -> (r: Option<String>)
    ensures
        r is Some <==> is_ascii_chars(s@),
        r matches Some(v) ==> v@ == s@,
{
    match tide::http::headers::HeaderValue::from_str(s) {
        Ok(v) => Some(v.as_str().to_owned()),
        Err(_) => None,
    }
}

/// What a response is: its status, its headers in the order first set, and its body.
pub struct ReplyView {
    pub status: u16,
    pub headers: Seq<HeaderView>,
    pub body: BodyView,
}

impl ReplyView {
    /// No header name occurs twice.
    pub open spec fn wf(self) -> bool {
        forall|i: int, j: int|
            0 <= i < j < self.headers.len() ==> #[trigger] self.headers[i].0 != #[trigger] self.headers[j].0
    }
}

pub open spec fn has_header(hs: Seq<HeaderView>, name: Seq<char>) -> bool {
    exists|i: int| 0 <= i < hs.len() && #[trigger] hs[i].0 == name
}

/// The headers after setting `name` to `values`: an entry of that name is replaced in place,
/// else the entry is added at the end.
pub open spec fn with_header(hs: Seq<HeaderView>, name: Seq<char>, values: Seq<Seq<char>>) -> Seq<
    HeaderView,
> {
    if has_header(hs, name) {
        hs.update(choose|i: int| 0 <= i < hs.len() && #[trigger] hs[i].0 == name, (name, values))
    } else {
        hs.push((name, values))
    }
}

pub open spec fn content_type_name() -> Seq<char> {
    "content-type"@
}

/// The headers after a body is set: tide keeps a `content-type` that is there, and
/// otherwise adds the body's media type.
pub open spec fn with_body_headers(hs: Seq<HeaderView>, mime: Mime) -> Seq<HeaderView> {
    if has_header(hs, content_type_name()) {
        hs
    } else {
        hs.push((content_type_name(), seq![mime.spec_text()]))
    }
}

/// The response after tide sets body `b` on `v`.
pub open spec fn with_body(v: ReplyView, b: BodyView) -> ReplyView {
    ReplyView { body: b, headers: with_body_headers(v.headers, b.mime), ..v }
}

/// A response with status `code`, no headers and an empty body.
pub open spec fn bare_reply(code: u16) -> ReplyView {
    ReplyView { status: code, headers: Seq::empty(), body: empty_body() }
}

pub open spec fn strings_view(v: Seq<String>) -> Seq<Seq<char>> {
    v.map_values(|s: String| s@)
}

pub open spec fn headers_view(v: Seq<(String, Vec<String>)>) -> Seq<HeaderView> {
    v.map_values(|h: (String, Vec<String>)| (h.0@, strings_view(h.1@)))
}

/// The response model: what tide's `Response` holds that this library sets.
pub struct Reply {
    status: Status,
    headers: Vec<(String, Vec<String>)>,
    body: Body,
}

impl View for Reply {
    type V = ReplyView;

    closed spec fn view(&self) -> ReplyView {
        ReplyView { status: self.status@, headers: headers_view(self.headers@), body: self.body@ }
    }
}

impl Reply {
    /// A response with the given status, no headers and an empty body.
    pub fn new(status: Status) -> (r: Reply)
        ensures
            r@ == bare_reply(status@),
    {
        let r = Reply { status, headers: Vec::new(), body: Body::empty() };
        assert(r@.headers =~= Seq::empty());
        r
    }

    pub fn status(&self) -> (r: Status)
        ensures
            r@ == self@.status,
    {
        self.status
    }

    pub fn headers(&self) -> (r: &Vec<(String, Vec<String>)>)
        ensures
            headers_view(r@) == self@.headers,
    {
        &self.headers
    }

    pub fn body(&self) -> (r: &Body)
        ensures
            r@ == self@.body,
    {
        &self.body
    }

    /// Takes the response apart into its status, headers and body.
    pub fn into_parts(self) -> (r: (Status, Vec<(String, Vec<String>)>, Body))
        ensures
            r.0@ == self@.status,
            headers_view(r.1@) == self@.headers,
            r.2@ == self@.body,
    {
        (self.status, self.headers, self.body)
    }

    pub(crate) fn set_status(&mut self, s: Status)
        ensures
            final(self)@ == (ReplyView { status: s@, ..old(self)@ }),
    {
        self.status = s;
    }

    fn find_header(&self, name: &String) -> (r: Option<usize>)
        ensures
            r is Some <==> has_header(self@.headers, name@),
            r matches Some(i) ==> i < self@.headers.len() && self@.headers[i as int].0 == name@,
    {
        let mut i: usize = 0;
        while i < self.headers.len()
            invariant
                i <= self.headers@.len(),
                forall|j: int| 0 <= j < i ==> #[trigger] self@.headers[j].0 != name@,
            decreases self.headers@.len() - i,
        {
            if self.headers[i].0 == *name {
                assert(self@.headers[i as int].0 == name@);
                return Some(i);
            }
            i = i + 1;
        }
        None
    }

    /// Sets header `name` to `values`, replacing the values it had.
    pub(crate) fn insert_header(&mut self, name: String, values: Vec<String>)
        requires
            old(self)@.wf(),
        ensures
            final(self)@.wf(),
            final(self)@ == (ReplyView {
                headers: with_header(old(self)@.headers, name@, strings_view(values@)),
                ..old(self)@
            }),
    {
        let ghost old_hs = self@.headers;
        let ghost entry: HeaderView = (name@, strings_view(values@));
        match self.find_header(&name) {
            Some(i) => {
                proof {
                    let c = choose|k: int| 0 <= k < old_hs.len() && #[trigger] old_hs[k].0 == name@;
                    assert(c == i as int);
                }
                self.headers.set(i, (name, values));
                assert(self@.headers =~= old_hs.update(i as int, entry));
            },
            None => {
                self.headers.push((name, values));
                assert(self@.headers =~= old_hs.push(entry));
            },
        }
    }

    /// Replaces the body; a `content-type` header is added from its media type where none is set.
    pub(crate) fn set_body(&mut self, body: Body)
        requires
            old(self)@.wf(),
        ensures
            final(self)@.wf(),
            final(self)@ == with_body(old(self)@, body@),
    {
        let name = "content-type".to_owned();
        let present = self.find_header(&name).is_some();
        let mime = body.mime;
        self.body = body;
        if !present {
            let mut values: Vec<String> = Vec::new();
            values.push(mime.text());
            self.insert_header(name, values);
            assert(strings_view(values@) =~= seq![mime.spec_text()]);
        }
    }
}

} // verus!
