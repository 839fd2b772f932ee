//! The request handler and the error translator: decrement the counter,
//! run the domain engine, and map every failure to exactly one wire response.

use vstd::prelude::*;
use vstd::string::*;
use crate::engine::{nth1337, nth42, spec_evaluate, Error, Operation};

verus! {

/// The counter carried in a request and in a successful reply.
#[derive(PartialEq, Eq, Structural, Clone, Copy, Debug)]
pub struct Counter {
    pub count: usize,
}

/// Every failure that reaches the response boundary.
#[derive(PartialEq, Eq, Clone, Debug)]
pub enum ServiceError {
    /// The request body could not be decoded; holds the decoder's diagnostic.
    Decode(String),
    /// Reading the request failed; the transport may supply its own status.
    Transport { status: Option<u16>, message: String },
    /// The divisor would be zero (including a count of zero, which cannot be
    /// decremented).
    DivisionByZero,
    /// The operation refuses the value by policy.
    DontLikeIt,
}

/// A status code and a text body.
#[derive(PartialEq, Eq, Clone, Debug)]
pub struct WireResponse {
    pub status: u16,
    pub body: String,
}

pub open spec fn from_domain(e: Error) -> ServiceError {
    match e {
        Error::DivisionByZero => ServiceError::DivisionByZero,
        Error::DontLikeIt => ServiceError::DontLikeIt,
    }
}

impl From<Error> for ServiceError {
    fn from(e: Error) -> (r: ServiceError)
        ensures
            r == from_domain(e),
    {
        match e {
            Error::DivisionByZero => ServiceError::DivisionByZero,
            Error::DontLikeIt => ServiceError::DontLikeIt,
        }
    }
}

impl vstd::std_specs::convert::FromSpecImpl<Error> for ServiceError {
    open spec fn obeys_from_spec() -> bool {
        true
    }

    open spec fn from_spec(e: Error) -> ServiceError {
        from_domain(e)
    }
}

/// What handling a decoded counter gives: a count of zero cannot be
/// decremented and counts as a zero divisor; otherwise the decremented count
/// goes to the domain engine.
pub open spec fn spec_handle(op: Operation, c: Counter) -> Result<Counter, ServiceError> {
    if c.count == 0 {
        Err(ServiceError::DivisionByZero)
    } else {
        match spec_evaluate(op, (c.count - 1) as usize) {
            Ok(v) => Ok(Counter { count: v }),
            Err(e) => Err(from_domain(e)),
        }
    }
}

/// The outcome of one request, from its decoded body on.
pub open spec fn spec_outcome(op: Operation, input: Result<Counter, ServiceError>) -> Result<
    Counter,
    ServiceError,
> {
    match input {
        Ok(c) => spec_handle(op, c),
        Err(e) => Err(e),
    }
}

pub open spec fn status_of(e: ServiceError) -> u16 {
    match e {
        ServiceError::Decode(_) => 422,
        ServiceError::DivisionByZero => 422,
        ServiceError::DontLikeIt => 500,
        ServiceError::Transport { status, .. } => match status {
            Some(s) => s,
            None => 500,
        },
    }
}

pub open spec fn body_of(e: ServiceError) -> Seq<char> {
    match e {
        ServiceError::Decode(d) => "YAML error: "@ + d@,
        ServiceError::DivisionByZero => "count can't be zero"@,
        ServiceError::DontLikeIt => "The server doesn't like this number"@,
        ServiceError::Transport { message, .. } => message@,
    }
}

pub open spec fn translates(w: WireResponse, e: ServiceError) -> bool {
    w.status == status_of(e) && w.body@ == body_of(e)
}

/// `r` is the reply to a request on `op` whose decoded body was `input`.
pub open spec fn responds(
    op: Operation,
    input: Result<Counter, ServiceError>,
    r: Result<Counter, WireResponse>,
) -> bool {
    match spec_outcome(op, input) {
        Ok(c) => r == Ok::<Counter, WireResponse>(c),
        Err(e) => match r {
            Err(w) => translates(w, e),
            Ok(_) => false,
        },
    }
}

/// Decrements the count and divides 42 by it.
pub fn handle42(counter: Counter) -> (r: Result<Counter, ServiceError>)
    ensures
        r == spec_handle(Operation::Op42, counter),
{
    if counter.count == 0 {
        return Err(ServiceError::DivisionByZero);
    }
    match nth42(counter.count - 1) {
        Ok(v) => Ok(Counter { count: v }),
        Err(e) => Err(ServiceError::from(e)),
    }
}

/// Decrements the count and divides 1337 by it.
pub fn handle1337(counter: Counter) -> (r: Result<Counter, ServiceError>)
    ensures
        r == spec_handle(Operation::Op1337, counter),
{
    if counter.count == 0 {
        return Err(ServiceError::DivisionByZero);
    }
    match nth1337(counter.count - 1) {
        Ok(v) => Ok(Counter { count: v }),
        Err(e) => Err(ServiceError::from(e)),
    }
}

/// The one place where a failure becomes a status and a body.
pub fn translate(e: &ServiceError) -> (r: WireResponse)
    ensures
        translates(r, *e),
{
    match e {
        ServiceError::Decode(d) => {
            let body = String::from_str("YAML error: ").concat(d.as_str());
            WireResponse { status: 422, body }
        },
        ServiceError::DivisionByZero => WireResponse {
            status: 422,
            body: String::from_str("count can't be zero"),
        },
        ServiceError::DontLikeIt => WireResponse {
            status: 500,
            body: String::from_str("The server doesn't like this number"),
        },
        ServiceError::Transport { status, message } => {
            let code = match status {
                Some(s) => *s,
                None => 500,
            };
            WireResponse { status: code, body: message.clone() }
        },
    }
}

/// Handles one request on `op` whose body was decoded into `input`: the
/// counter to encode on success, or the translated failure.
pub fn respond(op: Operation, input: Result<Counter, ServiceError>) -> (r: Result<
    Counter,
    WireResponse,
>)
    ensures
        responds(op, input, r),
{
    let handled = match input {
        Ok(c) => match op {
            Operation::Op42 => handle42(c),
            Operation::Op1337 => handle1337(c),
        },
        Err(e) => Err(e),
    };
    match handled {
        Ok(c) => Ok(c),
        Err(e) => Err(translate(&e)),
    }
}

} // verus!
