//! The client-side interface: [`Api`] allocates correlation tokens, packages
//! caller intent and caller-owned buffers into [`Request`] values, pushes
//! them onto the outbound channel, and drains the inbound channel for
//! [`Response`] values.

use vstd::prelude::*;

use crate::channel::{MessageSink, MessageSource};
use crate::jobs::{KeyId, Request, RequestId, Response};

verus! {

/// Errors an [`Api`] operation can report.
#[derive(Copy, Clone, Eq, PartialEq, Debug)]
pub enum Error {
    /// The outbound channel refused the request. The id allocated for the
    /// call is consumed all the same and will never produce a response.
    Send,
}

/// Selects the algorithm an encryption or decryption request asks for.
///
/// An open extension point: a new cipher adds a member here, a matching
/// [`Request`] variant, and a branch in the operations below.
#[derive(Copy, Clone, Eq, PartialEq, Debug)]
pub enum SymmetricEncryptionAlgorithm {
    ChaCha20Poly1305,
}

/// An interface to send [`Request`]s to the core and receive [`Response`]s
/// from it.
///
/// Each instance owns one outbound channel end, one inbound channel end, and
/// its own id counter, so distinct instances never collide on ids. Every
/// operation allocates the next [`RequestId`] — zero first, then one more
/// per call, consumed even when the send fails — and performs exactly one
/// send attempt.
pub struct Api<Req, Resp> where Req: MessageSink<Request>, Resp: MessageSource<Response> {
    requests: Req,
    responses: Resp,
    request_counter: RequestId,
}

impl<Req, Resp> Api<Req, Resp> where Req: MessageSink<Request>, Resp: MessageSource<Response> {
    /// The id the next issued request will carry; equally, how many requests
    /// this instance has issued so far.
    pub closed spec fn counter(&self) -> RequestId {
        self.request_counter
    }

    /// Every request this instance has pushed onto its outbound channel,
    /// oldest first.
    pub closed spec fn sent(&self) -> Seq<Request> {
        self.requests.contents()
    }

    /// Whether the outbound channel still accepts requests.
    pub closed spec fn can_send(&self) -> bool {
        self.requests.accepting()
    }

    /// The responses waiting on the inbound channel, oldest first.
    pub closed spec fn responses_pending(&self) -> Seq<Response> {
        self.responses.pending()
    }

    /// Whether the inbound channel's producing side is gone.
    pub closed spec fn responses_closed(&self) -> bool {
        self.responses.is_closed()
    }

    /// Create a new instance of the core API over the two channel ends.
    pub fn new(requests: Req, responses: Resp) -> (api: Self)
        ensures
            api.counter() == 0,
            api.sent() == requests.contents(),
            api.can_send() == requests.accepting(),
            api.responses_pending() == responses.pending(),
            api.responses_closed() == responses.is_closed(),
    {
        Api { request_counter: 0, requests, responses }
    }

    /// Attempt to take the next available response and return it.
    ///
    /// No filtering happens here: callers wanting a specific id must match
    /// the returned ids against the ones they issued themselves.
    pub fn recv_response(&mut self) -> (r: Option<Response>)
        ensures
            final(self).counter() == old(self).counter(),
            final(self).sent() == old(self).sent(),
            final(self).can_send() == old(self).can_send(),
            final(self).responses_closed() == old(self).responses_closed(),
            match r {
                Some(resp) => old(self).responses_pending().len() > 0
                    && resp == old(self).responses_pending().first()
                    && final(self).responses_pending()
                        == old(self).responses_pending().drop_first(),
                None => old(self).responses_pending().len() == 0
                    && final(self).responses_pending() == old(self).responses_pending(),
            },
    {
        self.responses.recv()
    }

    /// Request random bytes to fill the provided buffer.
    pub fn get_random(&mut self, output: Vec<u8>) -> (r: Result<RequestId, Error>)
        requires
            old(self).counter() < RequestId::MAX,
        ensures
            final(self).counter() == old(self).counter() + 1,
            final(self).can_send() == old(self).can_send(),
            final(self).responses_pending() == old(self).responses_pending(),
            final(self).responses_closed() == old(self).responses_closed(),
            old(self).can_send() ==> r == Ok::<RequestId, Error>(old(self).counter())
                && final(self).sent() == old(self).sent().push(
                    Request::GetRandom { request_id: old(self).counter(), output },
                ),
            !old(self).can_send() ==> r == Err::<RequestId, Error>(Error::Send)
                && final(self).sent() == old(self).sent(),
    {
        let request_id = self.next_request_id();
        match self.requests.send(Request::GetRandom { request_id, output }) {
            Ok(()) => Ok(request_id),
            Err(_) => Err(Error::Send),
        }
    }

    /// Request that `data` be stored under `key_id` in the core's key store.
    pub fn import_key(&mut self, key_id: KeyId, data: Vec<u8>) -> (r: Result<RequestId, Error>)
        requires
            old(self).counter() < RequestId::MAX,
        ensures
            final(self).counter() == old(self).counter() + 1,
            final(self).can_send() == old(self).can_send(),
            final(self).responses_pending() == old(self).responses_pending(),
            final(self).responses_closed() == old(self).responses_closed(),
            old(self).can_send() ==> r == Ok::<RequestId, Error>(old(self).counter())
                && final(self).sent() == old(self).sent().push(
                    Request::ImportKey { request_id: old(self).counter(), key_id, data },
                ),
            !old(self).can_send() ==> r == Err::<RequestId, Error>(Error::Send)
                && final(self).sent() == old(self).sent(),
    {
        let request_id = self.next_request_id();
        match self.requests.send(Request::ImportKey { request_id, key_id, data }) {
            Ok(()) => Ok(request_id),
            Err(_) => Err(Error::Send),
        }
    }

    /// Request in-place authenticated encryption of `plaintext` under the
    /// stored key `key_id`; the tag buffer receives the computed tag.
    pub fn encrypt(
        &mut self,
        algorithm: SymmetricEncryptionAlgorithm,
        key_id: KeyId,
        nonce: Vec<u8>,
        plaintext: Vec<u8>,
        aad: Vec<u8>,
        tag: Vec<u8>,
    ) -> (r: Result<RequestId, Error>)
        requires
            old(self).counter() < RequestId::MAX,
        ensures
            final(self).counter() == old(self).counter() + 1,
            final(self).can_send() == old(self).can_send(),
            final(self).responses_pending() == old(self).responses_pending(),
            final(self).responses_closed() == old(self).responses_closed(),
            old(self).can_send() ==> r == Ok::<RequestId, Error>(old(self).counter())
                && final(self).sent() == old(self).sent().push(
                    Request::EncryptChaChaPoly {
                        request_id: old(self).counter(),
                        key_id,
                        nonce,
                        plaintext,
                        aad,
                        tag,
                    },
                ),
            !old(self).can_send() ==> r == Err::<RequestId, Error>(Error::Send)
                && final(self).sent() == old(self).sent(),
    {
        let request_id = self.next_request_id();
        let sent = match algorithm {
            SymmetricEncryptionAlgorithm::ChaCha20Poly1305 => self.requests.send(
                Request::EncryptChaChaPoly { request_id, key_id, nonce, plaintext, aad, tag },
            ),
        };
        match sent {
            Ok(()) => Ok(request_id),
            Err(_) => Err(Error::Send),
        }
    }

    /// Request in-place authenticated encryption of `plaintext` under a
    /// caller-supplied raw key instead of a stored one.
    pub fn encrypt_external_key(
        &mut self,
        algorithm: SymmetricEncryptionAlgorithm,
        key: Vec<u8>,
        nonce: Vec<u8>,
        plaintext: Vec<u8>,
        aad: Vec<u8>,
        tag: Vec<u8>,
    ) -> (r: Result<RequestId, Error>)
        requires
            old(self).counter() < RequestId::MAX,
        ensures
            final(self).counter() == old(self).counter() + 1,
            final(self).can_send() == old(self).can_send(),
            final(self).responses_pending() == old(self).responses_pending(),
            final(self).responses_closed() == old(self).responses_closed(),
            old(self).can_send() ==> r == Ok::<RequestId, Error>(old(self).counter())
                && final(self).sent() == old(self).sent().push(
                    Request::EncryptChaChaPolyExternalKey {
                        request_id: old(self).counter(),
                        key,
                        nonce,
                        plaintext,
                        aad,
                        tag,
                    },
                ),
            !old(self).can_send() ==> r == Err::<RequestId, Error>(Error::Send)
                && final(self).sent() == old(self).sent(),
    {
        let request_id = self.next_request_id();
        let sent = match algorithm {
            SymmetricEncryptionAlgorithm::ChaCha20Poly1305 => self.requests.send(
                Request::EncryptChaChaPolyExternalKey {
                    request_id,
                    key,
                    nonce,
                    plaintext,
                    aad,
                    tag,
                },
            ),
        };
        match sent {
            Ok(()) => Ok(request_id),
            Err(_) => Err(Error::Send),
        }
    }

    /// Request in-place authenticated decryption of `ciphertext` under the
    /// stored key `key_id`, checking it against the given tag.
    pub fn decrypt(
        &mut self,
        algorithm: SymmetricEncryptionAlgorithm,
        key_id: KeyId,
        nonce: Vec<u8>,
        ciphertext: Vec<u8>,
        aad: Vec<u8>,
        tag: Vec<u8>,
    ) -> (r: Result<RequestId, Error>)
        requires
            old(self).counter() < RequestId::MAX,
        ensures
            final(self).counter() == old(self).counter() + 1,
            final(self).can_send() == old(self).can_send(),
            final(self).responses_pending() == old(self).responses_pending(),
            final(self).responses_closed() == old(self).responses_closed(),
            old(self).can_send() ==> r == Ok::<RequestId, Error>(old(self).counter())
                && final(self).sent() == old(self).sent().push(
                    Request::DecryptChaChaPoly {
                        request_id: old(self).counter(),
                        key_id,
                        nonce,
                        ciphertext,
                        aad,
                        tag,
                    },
                ),
            !old(self).can_send() ==> r == Err::<RequestId, Error>(Error::Send)
                && final(self).sent() == old(self).sent(),
    {
        let request_id = self.next_request_id();
        let sent = match algorithm {
            SymmetricEncryptionAlgorithm::ChaCha20Poly1305 => self.requests.send(
                Request::DecryptChaChaPoly { request_id, key_id, nonce, ciphertext, aad, tag },
            ),
        };
        match sent {
            Ok(()) => Ok(request_id),
            Err(_) => Err(Error::Send),
        }
    }

    /// Request in-place authenticated decryption of `ciphertext` under a
    /// caller-supplied raw key instead of a stored one.
    pub fn decrypt_external_key(
        &mut self,
        algorithm: SymmetricEncryptionAlgorithm,
        key: Vec<u8>,
        nonce: Vec<u8>,
        ciphertext: Vec<u8>,
        aad: Vec<u8>,
        tag: Vec<u8>,
    ) -> (r: Result<RequestId, Error>)
        requires
            old(self).counter() < RequestId::MAX,
        ensures
            final(self).counter() == old(self).counter() + 1,
            final(self).can_send() == old(self).can_send(),
            final(self).responses_pending() == old(self).responses_pending(),
            final(self).responses_closed() == old(self).responses_closed(),
            old(self).can_send() ==> r == Ok::<RequestId, Error>(old(self).counter())
                && final(self).sent() == old(self).sent().push(
                    Request::DecryptChaChaPolyExternalKey {
                        request_id: old(self).counter(),
                        key,
                        nonce,
                        ciphertext,
                        aad,
                        tag,
                    },
                ),
            !old(self).can_send() ==> r == Err::<RequestId, Error>(Error::Send)
                && final(self).sent() == old(self).sent(),
    {
        let request_id = self.next_request_id();
        let sent = match algorithm {
            SymmetricEncryptionAlgorithm::ChaCha20Poly1305 => self.requests.send(
                Request::DecryptChaChaPolyExternalKey {
                    request_id,
                    key,
                    nonce,
                    ciphertext,
                    aad,
                    tag,
                },
            ),
        };
        match sent {
            Ok(()) => Ok(request_id),
            Err(_) => Err(Error::Send),
        }
    }

    /// How many requests this instance has issued so far; equally, the id
    /// the next request will carry. An embedding that may live long enough
    /// to exhaust the id space checks this before issuing.
    pub fn request_count(&self) -> (n: RequestId)
        ensures
            n == self.counter(),
    {
        self.request_counter
    }

    /// Swap the outbound channel end for another, keeping the id counter:
    /// a caller that owns the transport takes the filled end away and lets
    /// the instance go on issuing into a fresh one.
    pub fn replace_requests(&mut self, requests: Req) -> (taken: Req)
        ensures
            taken.contents() == old(self).sent(),
            taken.accepting() == old(self).can_send(),
            final(self).counter() == old(self).counter(),
            final(self).sent() == requests.contents(),
            final(self).can_send() == requests.accepting(),
            final(self).responses_pending() == old(self).responses_pending(),
            final(self).responses_closed() == old(self).responses_closed(),
    {
        let mut requests = requests;
        core::mem::swap(&mut self.requests, &mut requests);
        requests
    }

    /// Swap the inbound channel end for another: the dual of
    /// [`Api::replace_requests`] for the response direction.
    pub fn replace_responses(&mut self, responses: Resp) -> (taken: Resp)
        ensures
            taken.pending() == old(self).responses_pending(),
            taken.is_closed() == old(self).responses_closed(),
            final(self).counter() == old(self).counter(),
            final(self).sent() == old(self).sent(),
            final(self).can_send() == old(self).can_send(),
            final(self).responses_pending() == responses.pending(),
            final(self).responses_closed() == responses.is_closed(),
    {
        let mut responses = responses;
        core::mem::swap(&mut self.responses, &mut responses);
        responses
    }

    /// Give the two channel ends back, retiring this instance and the id
    /// sequence it was allocating from.
    pub fn into_channels(self) -> (ends: (Req, Resp))
        ensures
            ends.0.contents() == self.sent(),
            ends.0.accepting() == self.can_send(),
            ends.1.pending() == self.responses_pending(),
            ends.1.is_closed() == self.responses_closed(),
    {
        (self.requests, self.responses)
    }

    /// Allocate the next id: the counter's current value, counting up by one
    /// per issued request, never reused and never reset.
    fn next_request_id(&mut self) -> (id: RequestId)
        requires
            old(self).request_counter < RequestId::MAX,
        ensures
            id == old(self).request_counter,
            final(self).request_counter == old(self).request_counter + 1,
            final(self).requests == old(self).requests,
            final(self).responses == old(self).responses,
    {
        let id = self.request_counter;
        self.request_counter = self.request_counter + 1;
        id
    }
}

} // verus!
