//! The random-number worker: drains one request at a time from its inbound
//! channel, validates it against the configured size bound, fills the
//! caller's buffer from the entropy source, and emits exactly one
//! correlated response.
//!
//! Every other worker of the core (cipher, key import) follows this same
//! loop shape with a different validate/execute step.

use vstd::prelude::*;

use crate::channel::{MessageSink, MessageSource};
use crate::jobs::{request_id_of, response_id_of};
use crate::jobs::{Error, Request, RequestId, Response};

verus! {

/// A source of cryptographically suitable random bytes.
///
/// The core only dispatches to it; the generator itself (hardware driver,
/// seeded stream cipher) is an external collaborator implementing this
/// trait.
pub trait EntropySource {
    /// Overwrite the whole buffer with fresh random bytes. Only the
    /// contents change, never the length.
    fn fill_bytes(&mut self, output: &mut Vec<u8>)
        ensures
            final(output)@.len() == old(output)@.len(),
    ;
}

/// Entropy drawn from the operating system.
pub struct OsEntropy;

impl EntropySource for OsEntropy {
    fn fill_bytes(&mut self, output: &mut Vec<u8>) {
        os_fill_bytes(output)
    }
}

/// Relies on rand_core::OsRng's RngCore::fill_bytes: overwrites the slice
/// in place with operating-system entropy. A slice's length cannot change;
/// the call aborts the process if the operating system's entropy source
/// fails, and returns nothing this contract could say more about.
#[verifier::external_body]
fn os_fill_bytes(output: &mut Vec<u8>)
    ensures
        final(output)@.len() == old(output)@.len(),
{
    rand_core::RngCore::fill_bytes(&mut rand_core::OsRng, output.as_mut_slice())
}

/// What the random-number worker answers to one request, given the size
/// bound it was configured with: an oversized ask is rejected with
/// [`Error::RequestTooLarge`] under the same id, any other ask is answered
/// with a filled buffer of exactly the requested length under the same id.
/// Requests of a kind this worker does not understand have no answer.
pub open spec fn rng_response_to(req: Request, resp: Response, max: nat) -> bool {
    match req {
        Request::GetRandom { request_id, output } => if output@.len() >= max {
            resp == (Response::Error { request_id, error: Error::RequestTooLarge })
        } else {
            resp matches Response::GetRandom { request_id: rid, data }
                && rid == request_id
                && data@.len() == output@.len()
        },
        _ => false,
    }
}

/// Correlation integrity: whatever answer the random-number worker gives to
/// a request — the filled buffer or the rejection — the response carries
/// the identical correlation token, so the issuer can match it.
pub proof fn lemma_response_correlated(req: Request, resp: Response, max: nat)
    requires
        rng_response_to(req, resp, max),
    ensures
        response_id_of(resp) == request_id_of(req),
{
}

/// A worker executing random-number requests.
///
/// It holds the entropy source, the inbound channel of requests routed to
/// it, the outbound channel for its responses, and the configured bound on
/// a single fill, in bytes.
pub struct RngWorker<R, ReqSrc, RespSink> where
    R: EntropySource,
    ReqSrc: MessageSource<Request>,
    RespSink: MessageSink<Response>,
{
    pub rng: R,
    pub requests: ReqSrc,
    pub responses: RespSink,
    pub max_random_size: usize,
}

impl<R, ReqSrc, RespSink> RngWorker<R, ReqSrc, RespSink> where
    R: EntropySource,
    ReqSrc: MessageSource<Request>,
    RespSink: MessageSink<Response>,
{
    /// One execution step: drain at most one request and answer it.
    ///
    /// An empty inbound channel is idleness, not an error. A drained
    /// random-number request is answered per [`rng_response_to`] with one
    /// send attempt: a refused send fails the step with [`Error::Send`] and
    /// the computed answer is discarded, never retried. A request of a kind
    /// this worker does not understand is dropped and reported as
    /// [`Error::UnexpectedRequest`], leaving the worker healthy.
    pub fn execute(&mut self) -> (r: Result<(), Error>)
        ensures
            final(self).max_random_size == old(self).max_random_size,
            old(self).requests.pending().len() == 0 ==> r == Ok::<(), Error>(())
                && final(self).requests == old(self).requests
                && final(self).responses == old(self).responses
                && final(self).rng == old(self).rng,
            old(self).requests.pending().len() > 0 ==> {
                &&& final(self).requests.pending() == old(self).requests.pending().drop_first()
                &&& final(self).requests.is_closed() == old(self).requests.is_closed()
                &&& if old(self).requests.pending().first() is GetRandom {
                    if old(self).responses.accepting() {
                        &&& r == Ok::<(), Error>(())
                        &&& final(self).responses.contents().len()
                            == old(self).responses.contents().len() + 1
                        &&& final(self).responses.contents().drop_last()
                            == old(self).responses.contents()
                        &&& rng_response_to(
                            old(self).requests.pending().first(),
                            final(self).responses.contents().last(),
                            old(self).max_random_size as nat,
                        )
                        &&& final(self).responses.accepting()
                    } else {
                        &&& r == Err::<(), Error>(Error::Send)
                        &&& final(self).responses.contents()
                            == old(self).responses.contents()
                        &&& final(self).responses.accepting()
                            == old(self).responses.accepting()
                    }
                } else {
                    &&& r == Err::<(), Error>(Error::UnexpectedRequest)
                    &&& final(self).responses == old(self).responses
                    &&& final(self).rng == old(self).rng
                }
            },
    {
        match self.requests.recv() {
            None => Ok(()),
            Some(Request::GetRandom { request_id, output }) => {
                let response = self.get_random(request_id, output);
                match self.responses.send(response) {
                    Ok(()) => Ok(()),
                    Err(_) => Err(Error::Send),
                }
            },
            Some(_) => Err(Error::UnexpectedRequest),
        }
    }

    /// Fill the buffer with fresh random bytes if its length is under the
    /// configured bound. An oversized buffer is refused and left exactly as
    /// it was, byte for byte.
    pub fn try_fill_random(&mut self, output: &mut Vec<u8>) -> (filled: bool)
        ensures
            filled <==> old(output)@.len() < old(self).max_random_size,
            filled ==> final(output)@.len() == old(output)@.len(),
            !filled ==> final(output)@ == old(output)@,
            final(self).requests == old(self).requests,
            final(self).responses == old(self).responses,
            final(self).max_random_size == old(self).max_random_size,
    {
        if output.len() >= self.max_random_size {
            return false;
        }
        self.rng.fill_bytes(output);
        true
    }

    /// Validate and execute one random-fill request, producing the
    /// correlated response: the buffer filled to its exact length, or the
    /// rejection of an oversized ask.
    fn get_random(&mut self, request_id: RequestId, output: Vec<u8>) -> (resp: Response)
        ensures
            rng_response_to(
                Request::GetRandom { request_id, output },
                resp,
                old(self).max_random_size as nat,
            ),
            final(self).requests == old(self).requests,
            final(self).responses == old(self).responses,
            final(self).max_random_size == old(self).max_random_size,
    {
        let mut data = output;
        if !self.try_fill_random(&mut data) {
            return Response::Error { request_id, error: Error::RequestTooLarge };
        }
        Response::GetRandom { request_id, data }
    }
}

} // verus!
