use vstd::prelude::*;
use crate::builder::Response;
use crate::reply::{
    bare_reply, bytes_body, form_body, json_body, text_body, with_body, Body, BodyView, Error, ErrorView,
    Reply, ReplyView,
};
use crate::status::Status;

verus! {

/// The model of a conversion's result.
pub open spec fn result_view(r: Result<Reply, Error>) -> Result<ReplyView, ErrorView> {
    match r {
        Ok(rep) => Ok(rep@),
        Err(e) => Err(e@),
    }
}

/// A response made from a body alone: status 200, with the body set on it.
pub open spec fn body_reply(b: BodyView) -> ReplyView {
    with_body(bare_reply(200), b)
}

/// A value that an endpoint may return: it converts into a response, or into the error
/// that tide turns into one.
pub trait Responder: Sized {
    /// What converting this value gives.
    spec fn outcome(&self) -> Result<ReplyView, ErrorView>;

    fn into_response(self) -> (r: Result<Reply, Error>)
        ensures
            result_view(r) == self.outcome(),
    ;
}

impl Responder for Status {
    open spec fn outcome(&self) -> Result<ReplyView, ErrorView> {
        Ok(bare_reply(self@))
    }

    fn into_response(self) -> (r: Result<Reply, Error>) {
        Ok(Reply::new(self))
    }
}

impl Responder for String {
    open spec fn outcome(&self) -> Result<ReplyView, ErrorView> {
        Ok(body_reply(text_body(self@)))
    }

    fn into_response(self) -> (r: Result<Reply, Error>) {
        Ok(Response::ok().body(Body::from_string(self)).into_inner())
    }
}

impl<'a> Responder for &'a str {
    open spec fn outcome(&self) -> Result<ReplyView, ErrorView> {
        Ok(body_reply(text_body((*self)@)))
    }

    fn into_response(self) -> (r: Result<Reply, Error>) {
        Ok(Response::ok().body(Body::from_string(self.to_owned())).into_inner())
    }
}

impl<'a> Responder for &'a [u8] {
    open spec fn outcome(&self) -> Result<ReplyView, ErrorView> {
        Ok(body_reply(bytes_body((*self)@)))
    }

    fn into_response(self) -> (r: Result<Reply, Error>) {
        let mut bytes: Vec<u8> = Vec::new();
        let mut i: usize = 0;
        while i < self.len()
            invariant
                i <= self@.len(),
                bytes@ == self@.subrange(0, i as int),
            decreases self@.len() - i,
        {
            bytes.push(self[i]);
            i = i + 1;
            assert(bytes@ =~= self@.subrange(0, i as int));
        }
        assert(bytes@ =~= self@);
        Ok(Response::ok().body(Body::from_bytes(bytes)).into_inner())
    }
}

/// Converting `(s, r)`: convert `r`, then, if that succeeded, give the response status `s`.
pub open spec fn with_status(s: u16, inner: Result<ReplyView, ErrorView>) -> Result<
    ReplyView,
    ErrorView,
> {
    match inner {
        Ok(v) => Ok(ReplyView { status: s, ..v }),
        Err(e) => Err(e),
    }
}

impl<R: Responder> Responder for (Status, R) {
    open spec fn outcome(&self) -> Result<ReplyView, ErrorView> {
        with_status(self.0@, self.1.outcome())
    }

    fn into_response(self) -> (r: Result<Reply, Error>) {
        let (s, inner) = self;
        match inner.into_response() {
            Ok(rep) => {
                let mut rep = rep;
                rep.set_status(s);
                Ok(rep)
            },
            Err(e) => Err(e),
        }
    }
}

/// A JSON payload, as what serializing the value gave: the encoded bytes, or the error.
pub struct Json(pub Result<Vec<u8>, Error>);

impl Responder for Json {
    open spec fn outcome(&self) -> Result<ReplyView, ErrorView> {
        match self.0 {
            Ok(b) => Ok(body_reply(json_body(b@))),
            Err(e) => Err(e@),
        }
    }

    fn into_response(self) -> (r: Result<Reply, Error>) {
        match Response::ok().json(self.0) {
            Ok(resp) => Ok(resp.into_inner()),
            Err(e) => Err(e),
        }
    }
}

/// A form payload, as what form encoding the value gave: the encoded text, or the error.
pub struct Form(pub Result<String, Error>);

impl Responder for Form {
    open spec fn outcome(&self) -> Result<ReplyView, ErrorView> {
        match self.0 {
            Ok(s) => Ok(body_reply(form_body(s@))),
            Err(e) => Err(e@),
        }
    }

    fn into_response(self) -> (r: Result<Reply, Error>) {
        match Response::ok().form(self.0) {
            Ok(resp) => Ok(resp.into_inner()),
            Err(e) => Err(e),
        }
    }
}

impl Responder for Response {
    open spec fn outcome(&self) -> Result<ReplyView, ErrorView> {
        Ok(self@)
    }

    fn into_response(self) -> (r: Result<Reply, Error>) {
        Ok(self.into_inner())
    }
}

impl Responder for Reply {
    open spec fn outcome(&self) -> Result<ReplyView, ErrorView> {
        Ok(self@)
    }

    fn into_response(self) -> (r: Result<Reply, Error>) {
        Ok(self)
    }
}

impl<R: Responder> Responder for Result<R, Error> {
    open spec fn outcome(&self) -> Result<ReplyView, ErrorView> {
        match self {
            Ok(r) => r.outcome(),
            Err(e) => Err(e@),
        }
    }

    fn into_response(self) -> (r: Result<Reply, Error>) {
        match self {
            Ok(inner) => inner.into_response(),
            Err(e) => Err(e),
        }
    }
}

} // verus!
