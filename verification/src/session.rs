//! The request/response session with bounded retry: one request is written,
//! one 64-byte response is read and decoded, and a response carrying the
//! wrong opcode is answered by resending the same request, at most
//! `MAX_RETRIES` times, before the session fails. Transport and decode
//! failures are never retried.

use vstd::prelude::*;

use crate::frame::decode_frame_spec;
use crate::frame::deserialize_in_frame;
use crate::frame::outbound_frame_spec;
use crate::frame::serialize_out_frame;
use crate::frame::Frame;
use crate::frame::FRAME_LEN;

verus! {

/// Resends allowed after the first attempt of a request; four sends in all.
pub const MAX_RETRIES: u8 = 3;

/// What the caller must do after handing one inbound buffer to the session.
#[derive(Debug)]
pub enum SessionStep {
    /// The response matched: here is its decoded frame.
    Done(Frame),
    /// The response carried the wrong opcode and the retry budget is not
    /// spent: write the same request bytes again and read again.
    Resend,
    /// The response was structurally invalid, or the wrong opcode arrived
    /// once more with the retry budget spent: surface a device error.
    Failed,
}

/// One request/response exchange: the frame to send, and how many
/// mismatched responses have been absorbed so far.
pub struct RequestSession {
    /// The request, resent verbatim on every retry. Its opcode is also the
    /// opcode the response must carry.
    pub request: Frame,
    /// Mismatched responses absorbed so far; never exceeds `MAX_RETRIES`.
    pub attempts: u8,
}

/// The retry policy's one decision: a mismatched response is answered by a
/// resend exactly while the number already absorbed is below the budget.
pub open spec fn retry_resends(prior_mismatches: nat) -> bool {
    prior_mismatches < MAX_RETRIES
}

/// A response stream that never carries the expected opcode costs the
/// initial send plus one send per allowed retry.
pub open spec fn sends_when_never_matched() -> nat {
    (1 + MAX_RETRIES) as nat
}

impl RequestSession {
    /// The session is over a frame that fits the wire and has retry budget
    /// left to account for.
    pub open spec fn wf(self) -> bool {
        self.request.wf() && self.attempts <= MAX_RETRIES
    }

    /// Open a session for one request; the expected response opcode is the
    /// request's own.
    pub fn new(request: Frame) -> (r: RequestSession)
        requires
            request.wf(),
        ensures
            r.wf(),
            r.request == request,
            r.attempts == 0,
    {
        RequestSession { request, attempts: 0 }
    }

    /// The 64-byte outbound image to write; every attempt, the first and
    /// each resend alike, writes these same bytes.
    pub fn request_bytes(&self) -> (r: Vec<u8>)
        requires
            self.wf(),
        ensures
            r@.len() == FRAME_LEN,
            r@ == outbound_frame_spec(self.request.op_code, self.request.payload@),
    {
        serialize_out_frame(&self.request)
    }

    /// Absorb one inbound 64-byte buffer. A decode error fails at once,
    /// never retried; a matching opcode completes the session; a mismatched
    /// opcode is answered by a resend exactly while the budget lasts, and by
    /// failure once it is spent.
    pub fn on_response(&mut self, buffer: &[u8]) -> (r: SessionStep)
        requires
            old(self).wf(),
            buffer@.len() == FRAME_LEN,
        ensures
            final(self).wf(),
            final(self).request == old(self).request,
            match decode_frame_spec(buffer@) {
                Err(_) => r is Failed && final(self).attempts == old(self).attempts,
                Ok(f) => if f.op_code == old(self).request.op_code {
                    &&& r matches SessionStep::Done(g) && g@ == f
                    &&& final(self).attempts == old(self).attempts
                } else if retry_resends(old(self).attempts as nat) {
                    r is Resend && final(self).attempts == old(self).attempts + 1
                } else {
                    r is Failed && final(self).attempts == old(self).attempts
                },
            },
    {
        match deserialize_in_frame(buffer) {
            Err(_) => SessionStep::Failed,
            Ok(f) => {
                if f.op_code == self.request.op_code {
                    SessionStep::Done(f)
                } else if self.attempts < MAX_RETRIES {
                    self.attempts = self.attempts + 1;
                    SessionStep::Resend
                } else {
                    SessionStep::Failed
                }
            },
        }
    }
}

/// The attempt counter of a fresh session after absorbing `n` mismatched
/// responses, following the recurrence of `on_response`: it starts at zero,
/// rises by one per resend, and stays put once the budget is spent.
pub open spec fn attempts_after_mismatches(n: nat) -> u8
    decreases n,
{
    if n == 0 {
        0
    } else if retry_resends(attempts_after_mismatches((n - 1) as nat) as nat) {
        (attempts_after_mismatches((n - 1) as nat) + 1) as u8
    } else {
        attempts_after_mismatches((n - 1) as nat)
    }
}

/// Retry bound law: however many mismatched responses arrive, the counter
/// never passes the budget, and exactly the first `MAX_RETRIES` of them are
/// answered by a resend - the next by failure. Against a device that never
/// returns the expected opcode, the request therefore goes onto the wire
/// exactly four times: the initial send and one per allowed retry.
pub proof fn lemma_retry_bound(n: nat)
    ensures
        attempts_after_mismatches(n) == if n < MAX_RETRIES {
            n as u8
        } else {
            MAX_RETRIES
        },
        retry_resends(attempts_after_mismatches(n) as nat) <==> n < MAX_RETRIES,
        sends_when_never_matched() == 4,
    decreases n,
{
    if n > 0 {
        lemma_retry_bound((n - 1) as nat);
    }
}

} // verus!
