//! The message envelope shared by the client [`Api`](crate::api::Api) and the
//! workers: request and response variants, the correlation token, and the
//! error taxonomy.

use vstd::prelude::*;

verus! {

/// Correlation token matching a response to the request that caused it.
///
/// One `Api` instance assigns these monotonically, starting at zero; a worker
/// treats the token as opaque data and echoes it back unchanged.
pub type RequestId = u32;

/// Identifier of a key held by the external key store; opaque to this crate.
pub type KeyId = u32;

/// Errors a worker or the client can report: either returned from the
/// operation that failed or carried inside a correlated [`Response::Error`].
#[derive(Copy, Clone, Debug, PartialEq, Eq)]
pub enum Error {
    /// The outbound channel refused the message.
    Send,
    /// The requested buffer exceeds the worker's configured maximum.
    RequestTooLarge,
    /// A request of a kind this worker does not understand was delivered to
    /// it: a routing fault, reported instead of tearing the worker down.
    UnexpectedRequest,
}

/// A job sent from the client to a worker.
///
/// Buffers travel by value: the caller gives the storage up for the round
/// trip and the matching response hands the result back in the same
/// allocation, so nothing sensitive is copied.
#[derive(Debug, PartialEq, Eq)]
pub enum Request {
    GetRandom {
        request_id: RequestId,
        output: Vec<u8>,
    },
    ImportKey {
        request_id: RequestId,
        key_id: KeyId,
        data: Vec<u8>,
    },
    EncryptChaChaPoly {
        request_id: RequestId,
        key_id: KeyId,
        nonce: Vec<u8>,
        plaintext: Vec<u8>,
        aad: Vec<u8>,
        tag: Vec<u8>,
    },
    EncryptChaChaPolyExternalKey {
        request_id: RequestId,
        key: Vec<u8>,
        nonce: Vec<u8>,
        plaintext: Vec<u8>,
        aad: Vec<u8>,
        tag: Vec<u8>,
    },
    DecryptChaChaPoly {
        request_id: RequestId,
        key_id: KeyId,
        nonce: Vec<u8>,
        ciphertext: Vec<u8>,
        aad: Vec<u8>,
        tag: Vec<u8>,
    },
    DecryptChaChaPolyExternalKey {
        request_id: RequestId,
        key: Vec<u8>,
        nonce: Vec<u8>,
        ciphertext: Vec<u8>,
        aad: Vec<u8>,
        tag: Vec<u8>,
    },
}

/// The answer a worker produces for exactly one [`Request`].
#[derive(Debug, PartialEq, Eq)]
pub enum Response {
    ImportKey {
        request_id: RequestId,
    },
    GetRandom {
        request_id: RequestId,
        data: Vec<u8>,
    },
    EncryptChaChaPoly {
        request_id: RequestId,
        ciphertext: Vec<u8>,
        tag: Vec<u8>,
    },
    DecryptChaChaPoly {
        request_id: RequestId,
        plaintext: Vec<u8>,
    },
    Error {
        request_id: RequestId,
        error: Error,
    },
}

/// The correlation token a request carries.
pub open spec fn request_id_of(req: Request) -> RequestId {
    match req {
        Request::GetRandom { request_id, .. } => request_id,
        Request::ImportKey { request_id, .. } => request_id,
        Request::EncryptChaChaPoly { request_id, .. } => request_id,
        Request::EncryptChaChaPolyExternalKey { request_id, .. } => request_id,
        Request::DecryptChaChaPoly { request_id, .. } => request_id,
        Request::DecryptChaChaPolyExternalKey { request_id, .. } => request_id,
    }
}

/// The correlation token a response carries.
pub open spec fn response_id_of(resp: Response) -> RequestId {
    match resp {
        Response::ImportKey { request_id } => request_id,
        Response::GetRandom { request_id, .. } => request_id,
        Response::EncryptChaChaPoly { request_id, .. } => request_id,
        Response::DecryptChaChaPoly { request_id, .. } => request_id,
        Response::Error { request_id, .. } => request_id,
    }
}

} // verus!
