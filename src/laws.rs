//! Laws of the request handler and the error translator.

use vstd::prelude::*;
use crate::engine::{dividend, rejected, Operation};
use crate::service::{responds, Counter, ServiceError, WireResponse};

verus! {

/// Two replies are the same: the same counter, or the same status and the
/// same body text.
pub open spec fn same_reply(a: Result<Counter, WireResponse>, b: Result<Counter, WireResponse>) -> bool {
    match (a, b) {
        (Ok(x), Ok(y)) => x == y,
        (Err(x), Err(y)) => x.status == y.status && x.body@ == y.body@,
        _ => false,
    }
}

/// No transport failure in `input` comes with an empty message.
pub open spec fn transport_message_present(input: Result<Counter, ServiceError>) -> bool {
    match input {
        Err(ServiceError::Transport { message, .. }) => message@.len() > 0,
        _ => true,
    }
}

/// A count `n` of at least two whose decrement is not the operation's
/// rejected value is answered with the dividend over `n - 1`, truncated.
pub proof fn lemma_quotient_of_decremented(op: Operation, n: usize, r: Result<Counter, WireResponse>)
    requires
        n >= 2,
        n - 1 != rejected(op),
        responds(op, Ok(Counter { count: n }), r),
    ensures
        r == Ok::<Counter, WireResponse>(Counter { count: (dividend(op) / (n - 1) as usize) as usize }),
{
}

/// A body that could not be decoded is answered with 422, never with a
/// counter, and the body carries the decoder's diagnostic after its prefix.
pub proof fn lemma_decode_failure(op: Operation, diagnostic: String, r: Result<Counter, WireResponse>)
    requires
        responds(op, Err(ServiceError::Decode(diagnostic)), r),
    ensures
        r is Err,
        r->Err_0.status == 422,
        r->Err_0.body@ == "YAML error: "@ + diagnostic@,
        r->Err_0.body@.subrange(12, r->Err_0.body@.len() as int) == diagnostic@,
{
    reveal_strlit("YAML error: ");
    assert(r->Err_0.body@.subrange(12, r->Err_0.body@.len() as int) =~= diagnostic@);
}

/// The same request always gets the same reply, to the byte.
pub proof fn lemma_identical_input_identical_output(
    op: Operation,
    input: Result<Counter, ServiceError>,
    r1: Result<Counter, WireResponse>,
    r2: Result<Counter, WireResponse>,
)
    requires
        responds(op, input, r1),
        responds(op, input, r2),
    ensures
        same_reply(r1, r2),
{
}

/// Every failure reply whose status is not 200 has a non-empty body, as long
/// as no transport failure comes with an empty message.
pub proof fn lemma_failure_body_non_empty(
    op: Operation,
    input: Result<Counter, ServiceError>,
    r: Result<Counter, WireResponse>,
)
    requires
        transport_message_present(input),
        responds(op, input, r),
    ensures
        r is Err && r->Err_0.status != 200 ==> r->Err_0.body@.len() > 0,
{
    reveal_strlit("YAML error: ");
    reveal_strlit("count can't be zero");
    reveal_strlit("The server doesn't like this number");
}

} // verus!
