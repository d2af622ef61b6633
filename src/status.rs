use vstd::prelude::*;

verus! {

/// Holds of the status codes that tide's `StatusCode` enumerates.
pub open spec fn is_registered_status(code: u16) -> bool {
        code == 100 ||
        code == 101 ||
        code == 103 ||
        code == 200 ||
        code == 201 ||
        code == 202 ||
        code == 203 ||
        code == 204 ||
        code == 205 ||
        code == 206 ||
        code == 207 ||
        code == 226 ||
        code == 300 ||
        code == 301 ||
        code == 302 ||
        code == 303 ||
        code == 304 ||
        code == 307 ||
        code == 308 ||
        code == 400 ||
        code == 401 ||
        code == 402 ||
        code == 403 ||
        code == 404 ||
        code == 405 ||
        code == 406 ||
        code == 407 ||
        code == 408 ||
        code == 409 ||
        code == 410 ||
        code == 411 ||
        code == 412 ||
        code == 413 ||
        code == 414 ||
        code == 415 ||
        code == 416 ||
        code == 417 ||
        code == 418 ||
        code == 421 ||
        code == 422 ||
        code == 423 ||
        code == 424 ||
        code == 425 ||
        code == 426 ||
        code == 428 ||
        code == 429 ||
        code == 431 ||
        code == 451 ||
        code == 500 ||
        code == 501 ||
        code == 502 ||
        code == 503 ||
        code == 504 ||
        code == 505 ||
        code == 506 ||
        code == 507 ||
        code == 508 ||
        code == 510 ||
        code == 511
}

/// Relies on tide's `StatusCode::try_from(u16)`: it succeeds on exactly the enumerated codes.
#[verifier::external_body]
fn tide_knows_status(code: u16) -> (r: bool)
    ensures
        r == is_registered_status(code),
{
    <tide::StatusCode as std::convert::TryFrom<u16>>::try_from(code).is_ok()
}

/// An HTTP status code that tide can carry.
#[derive(Clone, Copy, Debug, PartialEq, Eq)]
pub struct Status {
    code: u16,
}

impl View for Status {
    type V = u16;

    closed spec fn view(&self) -> u16 {
        self.code
    }
}

impl Status {
    #[verifier::type_invariant]
    spec fn registered(self) -> bool {
        is_registered_status(self.code)
    }

    /// The status with the given code, if tide knows the code.
    pub fn from_code(code: u16) -> (r: Option<Status>)
        ensures
            r is Some <==> is_registered_status(code),
            r matches Some(s) ==> s@ == code,
    {
        if tide_knows_status(code) {
            Some(Status { code })
        } else {
            None
        }
    }

    /// 200 OK.
    pub fn ok() -> (r: Status)
        ensures
            r@ == 200,
    {
        Status { code: 200 }
    }

    /// 500 Internal Server Error.
    pub fn internal_server_error() -> (r: Status)
        ensures
            r@ == 500,
    {
        Status { code: 500 }
    }

    /// The numeric code.
    pub fn code(&self) -> (r: u16)
        ensures
            r == self@,
            is_registered_status(r),
    {
        proof {
            use_type_invariant(self);
        }
        self.code
    }
}

} // verus!
