use vstd::prelude::*;
use crate::builder::Response;
use crate::reply::{empty_body, json_body, ContentView, Error, ErrorView, Mime, Reply, ReplyView};
use crate::responder::{body_reply, Form, Json, Responder};
use crate::status::Status;

verus! {

/// A status converts into a response with that status and an empty body.
pub proof fn lemma_status_converts(s: Status)
    ensures
        s.outcome() matches Ok(v) && v.status == s@ && v.body == empty_body()
            && v.headers.len() == 0,
{
}

/// A string converts into a response with status 200 whose body is that text.
pub proof fn lemma_text_converts(t: String)
    ensures
        t.outcome() matches Ok(v) && v.status == 200 && v.body.content == ContentView::Text(t@)
            && v.body.mime == Mime::PlainText,
{
}

/// A string slice converts as the string with the same text does.
pub proof fn lemma_str_converts(t: &str, u: String)
    requires
        t@ == u@,
    ensures
        t.outcome() == u.outcome(),
        t.outcome() matches Ok(v) && v.status == 200 && v.body.content == ContentView::Text(t@),
{
}

/// Converting `(s, r)` gives what converting `r` gives with the status replaced by `s`:
/// headers and body stay as they are, and an error of `r` comes out unchanged.
pub proof fn lemma_status_override<R: Responder>(s: Status, r: R)
    ensures
        match r.outcome() {
            Ok(v) => (s, r).outcome() == Ok::<ReplyView, ErrorView>(
                ReplyView { status: s@, headers: v.headers, body: v.body },
            ),
            Err(e) => (s, r).outcome() == Err::<ReplyView, ErrorView>(e),
        },
{
}

/// A JSON payload that serialized converts into status 200, a JSON body holding exactly the
/// serialized bytes, and a JSON content type.
pub proof fn lemma_json_converts(b: Vec<u8>)
    ensures
        Json(Ok(b)).outcome() matches Ok(v) && v.status == 200 && v.body == json_body(b@)
            && v.headers == seq![("content-type"@, seq![Mime::Json.spec_text()])],
{
    let v = body_reply(json_body(b@));
    assert(v.headers =~= seq![("content-type"@, seq![Mime::Json.spec_text()])]);
}

/// A JSON payload whose serialization failed converts into that failure, and no response.
pub proof fn lemma_json_failure(e: Error)
    ensures
        Json(Err(e)).outcome() == Err::<ReplyView, ErrorView>(e@),
{
}

/// A form payload whose encoding failed converts into that failure, and no response.
pub proof fn lemma_form_failure(e: Error)
    ensures
        Form(Err(e)).outcome() == Err::<ReplyView, ErrorView>(e@),
{
}

/// A finished response converts into itself.
pub proof fn lemma_identity(r: Reply)
    ensures
        r.outcome() == Ok::<ReplyView, ErrorView>(r@),
{
}

/// A builder converts into the response it holds.
pub proof fn lemma_builder_identity(r: Response)
    ensures
        r.outcome() == Ok::<ReplyView, ErrorView>(r@),
{
}

/// `Ok(r)` converts as `r` does; `Err(e)` converts into `e`, whatever `r` would have given.
pub proof fn lemma_fallible<R: Responder>(res: Result<R, Error>)
    ensures
        match res {
            Ok(r) => res.outcome() == r.outcome(),
            Err(e) => res.outcome() == Err::<ReplyView, ErrorView>(e@),
        },
{
}

} // verus!
