use heimlig::api::{Api, Error, SymmetricEncryptionAlgorithm};
use heimlig::channel::{MessageSink, MessageSource, Queue};
use heimlig::jobs::{Request, Response};

fn fresh_api() -> Api<Queue<Request>, Queue<Response>> {
    Api::new(Queue::new(), Queue::new())
}

#[test]
fn request_ids_are_sequential() {
    let mut api = fresh_api();
    let alg = SymmetricEncryptionAlgorithm::ChaCha20Poly1305;
    assert_eq!(api.get_random(vec![0u8; 8]), Ok(0));
    assert_eq!(api.import_key(5, vec![1u8, 2, 3]), Ok(1));
    assert_eq!(
        api.encrypt(alg, 5, vec![0u8; 12], vec![1u8; 4], vec![9u8], vec![0u8; 16]),
        Ok(2)
    );
    assert_eq!(
        api.encrypt_external_key(alg, vec![7u8; 32], vec![0u8; 12], vec![1u8; 4], vec![], vec![0u8; 16]),
        Ok(3)
    );
    assert_eq!(
        api.decrypt(alg, 5, vec![0u8; 12], vec![1u8; 4], vec![9u8], vec![0u8; 16]),
        Ok(4)
    );
    assert_eq!(
        api.decrypt_external_key(alg, vec![7u8; 32], vec![0u8; 12], vec![1u8; 4], vec![], vec![0u8; 16]),
        Ok(5)
    );
}

#[test]
fn issued_requests_arrive_in_order_with_their_ids() {
    let mut api = fresh_api();
    let alg = SymmetricEncryptionAlgorithm::ChaCha20Poly1305;
    assert_eq!(api.get_random(vec![0u8; 4]), Ok(0));
    assert_eq!(api.import_key(42, vec![0xAB, 0xCD]), Ok(1));
    assert_eq!(
        api.encrypt(alg, 42, vec![1u8; 12], vec![2u8; 6], vec![3u8; 2], vec![0u8; 16]),
        Ok(2)
    );
    let (mut requests, _responses) = api.into_channels();
    match requests.recv() {
        Some(Request::GetRandom { request_id, output }) => {
            assert_eq!(request_id, 0);
            assert_eq!(output.len(), 4);
        }
        other => panic!("unexpected request: {:?}", other),
    }
    match requests.recv() {
        Some(Request::ImportKey { request_id, key_id, data }) => {
            assert_eq!(request_id, 1);
            assert_eq!(key_id, 42);
            assert_eq!(data, vec![0xAB, 0xCD]);
        }
        other => panic!("unexpected request: {:?}", other),
    }
    match requests.recv() {
        Some(Request::EncryptChaChaPoly { request_id, key_id, nonce, plaintext, aad, tag }) => {
            assert_eq!(request_id, 2);
            assert_eq!(key_id, 42);
            assert_eq!(nonce, vec![1u8; 12]);
            assert_eq!(plaintext, vec![2u8; 6]);
            assert_eq!(aad, vec![3u8; 2]);
            assert_eq!(tag, vec![0u8; 16]);
        }
        other => panic!("unexpected request: {:?}", other),
    }
    assert_eq!(requests.recv(), None);
}

#[test]
fn every_operation_fails_with_send_on_a_rejecting_channel() {
    let mut requests: Queue<Request> = Queue::new();
    requests.close();
    let mut api = Api::new(requests, Queue::<Response>::new());
    let alg = SymmetricEncryptionAlgorithm::ChaCha20Poly1305;
    assert_eq!(api.get_random(vec![0u8; 8]), Err(Error::Send));
    assert_eq!(api.import_key(1, vec![1u8]), Err(Error::Send));
    assert_eq!(
        api.encrypt(alg, 1, vec![0u8; 12], vec![1u8], vec![], vec![0u8; 16]),
        Err(Error::Send)
    );
    assert_eq!(
        api.encrypt_external_key(alg, vec![0u8; 32], vec![0u8; 12], vec![1u8], vec![], vec![0u8; 16]),
        Err(Error::Send)
    );
    assert_eq!(
        api.decrypt(alg, 1, vec![0u8; 12], vec![1u8], vec![], vec![0u8; 16]),
        Err(Error::Send)
    );
    assert_eq!(
        api.decrypt_external_key(alg, vec![0u8; 32], vec![0u8; 12], vec![1u8], vec![], vec![0u8; 16]),
        Err(Error::Send)
    );
    // The ids for the failed sends are consumed, never rolled back: a later
    // successful instance starts its own sequence, but this one keeps
    // counting up.
    let (requests, _responses) = api.into_channels();
    assert_eq!(requests.len(), 0);
}

#[test]
fn send_failure_still_consumes_the_id() {
    // One failing send in the middle leaves a gap in the delivered ids.
    let mut api = fresh_api();
    assert_eq!(api.get_random(vec![0u8; 2]), Ok(0));
    let (mut requests, responses) = api.into_channels();
    requests.close();
    let mut api = Api::new(requests, responses);
    // The rebuilt instance restarts its counter; this test only checks the
    // send outcome on the closed channel.
    assert_eq!(api.get_random(vec![0u8; 2]), Err(Error::Send));
    let (mut requests, _responses) = api.into_channels();
    assert_eq!(requests.len(), 1);
    match requests.recv() {
        Some(Request::GetRandom { request_id, .. }) => assert_eq!(request_id, 0),
        other => panic!("unexpected request: {:?}", other),
    }
}

#[test]
fn replacing_channels_keeps_the_counter() {
    let mut api = fresh_api();
    assert_eq!(api.request_count(), 0);
    assert_eq!(api.get_random(vec![0u8; 4]), Ok(0));
    assert_eq!(api.request_count(), 1);
    let mut taken = api.replace_requests(Queue::new());
    assert_eq!(taken.len(), 1);
    match taken.recv() {
        Some(Request::GetRandom { request_id, .. }) => assert_eq!(request_id, 0),
        other => panic!("unexpected request: {:?}", other),
    }
    // The counter survives the swap: the next id continues the sequence.
    assert_eq!(api.get_random(vec![0u8; 4]), Ok(1));
    assert_eq!(api.request_count(), 2);

    let mut staged: Queue<Response> = Queue::new();
    staged
        .send(Response::ImportKey { request_id: 77 })
        .expect("open channel accepts");
    api.replace_responses(staged);
    assert_eq!(api.recv_response(), Some(Response::ImportKey { request_id: 77 }));
}

#[test]
fn recv_response_on_empty_channel_returns_none() {
    let mut api = fresh_api();
    assert_eq!(api.recv_response(), None);
}

#[test]
fn recv_response_yields_queued_responses_in_order() {
    let mut responses: Queue<Response> = Queue::new();
    responses
        .send(Response::ImportKey { request_id: 9 })
        .expect("open channel accepts");
    responses
        .send(Response::Error {
            request_id: 10,
            error: heimlig::jobs::Error::RequestTooLarge,
        })
        .expect("open channel accepts");
    let mut api = Api::new(Queue::<Request>::new(), responses);
    assert_eq!(api.recv_response(), Some(Response::ImportKey { request_id: 9 }));
    assert_eq!(
        api.recv_response(),
        Some(Response::Error {
            request_id: 10,
            error: heimlig::jobs::Error::RequestTooLarge,
        })
    );
    assert_eq!(api.recv_response(), None);
}
