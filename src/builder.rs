use vstd::prelude::*;
use vstd::utf8::is_ascii_chars;
use crate::reply::{
    bare_reply, form_body, is_ascii_lowercase_of, json_body, parse_header_name, parse_header_value,
    strings_view, with_body, with_header, Body, Content, Error, Mime, Reply, ReplyView,
};
use crate::status::Status;

verus! {

/// A response under construction. Each method takes the builder and hands it back, so
/// calls chain.
pub struct Response {
    inner: Reply,
}

impl View for Response {
    type V = ReplyView;

    closed spec fn view(&self) -> ReplyView {
        self.inner@
    }
}

/// Holds when `r` is `v` after header `name` is set to `values`, with the name
/// lowercased as tide does.
pub open spec fn is_with_named_header(
    r: ReplyView,
    v: ReplyView,
    name: Seq<char>,
    values: Seq<Seq<char>>,
) -> bool {
    exists|n: Seq<char>|
        is_ascii_lowercase_of(name, n) && r == (ReplyView {
            headers: with_header(v.headers, n, values),
            ..v
        })
}

impl Response {
    #[verifier::type_invariant]
    spec fn unique_names(self) -> bool {
        self.inner@.wf()
    }

    /// An empty response with status 200.
    pub fn ok() -> (r: Response)
        ensures
            r@ == bare_reply(200),
    {
        Response::status(Status::ok())
    }

    /// An empty response with status `s`.
    pub fn status(s: Status) -> (r: Response)
        ensures
            r@ == bare_reply(s@),
    {
        Response { inner: Reply::new(s) }
    }

    /// Replaces the body.
    pub fn body(self, body: Body) -> (r: Response)
        ensures
            r@ == with_body(self@, body@),
    {
        proof {
            use_type_invariant(&self);
        }
        let Response { inner } = self;
        let mut inner = inner;
        inner.set_body(body);
        Response { inner }
    }

    /// Sets a JSON body from what serializing the payload gave: its bytes, or its error,
    /// which is handed back as it is.
    pub fn json(self, encoded: Result<Vec<u8>, Error>) -> (r: Result<Response, Error>)
        ensures
            match encoded {
                Ok(b) => r matches Ok(resp) && resp@ == with_body(self@, json_body(b@)),
                Err(e) => r matches Err(f) && f@ == e@,
            },
    {
        match encoded {
            Ok(b) => Ok(self.body(Body { content: Content::Bytes(b), mime: Mime::Json })),
            Err(e) => Err(e),
        }
    }

    /// Sets a form body from what form encoding the payload gave: its text, or its error,
    /// which is handed back as it is.
    pub fn form(self, encoded: Result<String, Error>) -> (r: Result<Response, Error>)
        ensures
            match encoded {
                Ok(s) => r matches Ok(resp) && resp@ == with_body(self@, form_body(s@)),
                Err(e) => r matches Err(f) && f@ == e@,
            },
    {
        match encoded {
            Ok(s) => Ok(self.body(Body { content: Content::Text(s), mime: Mime::Form })),
            Err(e) => Err(e),
        }
    }

    /// Sets a typed header from its name and its rendered value. A value that is not
    /// ASCII is a bug in the header's construction, so callers must not pass one.
    pub fn header(self, name: &str, text: &str) -> (r: Response)
        requires
            is_ascii_chars(name@),
            is_ascii_chars(text@),
        ensures
            is_with_named_header(r@, self@, name@, seq![text@]),
    {
        let value = match parse_header_value(text) {
            Some(v) => v,
            None => {
                assert(false);
                String::new()
            },
        };
        let mut values: Vec<String> = Vec::new();
        values.push(value);
        assert(strings_view(values@) =~= seq![text@]);
        assert(values@[0]@ == text@);
        self.raw_header(name, values)
    }

    /// Sets a header from a name and values that the caller has checked to be ASCII.
    pub fn raw_header(self, name: &str, values: Vec<String>) -> (r: Response)
        requires
            is_ascii_chars(name@),
            forall|i: int| 0 <= i < values@.len() ==> is_ascii_chars(#[trigger] values@[i]@),
        ensures
            is_with_named_header(r@, self@, name@, strings_view(values@)),
    {
        proof {
            use_type_invariant(&self);
        }
        let lower = match parse_header_name(name) {
            Some(n) => n,
            None => {
                assert(false);
                String::new()
            },
        };
        let Response { inner } = self;
        let mut inner = inner;
        let ghost n = lower@;
        inner.insert_header(lower, values);
        let r = Response { inner };
        assert(is_ascii_lowercase_of(name@, n));
        r
    }

    /// The finished response.
    pub fn into_inner(self) -> (r: Reply)
        ensures
            r@ == self@,
            r@.wf(),
    {
        proof {
            use_type_invariant(&self);
        }
        self.inner
    }
}

} // verus!
