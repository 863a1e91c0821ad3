use lan_session::client::{AwaitingServerHello, LanPeerIdentity, VerifiedServer};
use lan_session::error::{Failure, HandshakeError};
use lan_session::messages::{
    Inbound, LanClientHello, LanServerHello, Message, PublicKey, WebrtcIce,
};
use lan_session::protocol::{transcript, LanParams};
use lan_session::server::{
    receive_client_hello, AcceptedClient, AwaitingClientKey, DeviceIdentity, ReadyToRespond,
};
use sodiumoxide::crypto::{box_, secretbox, sign};

const PARAMS: LanParams = LanParams {
    protocol_version: 1,
    nonce_len: 32,
};

fn identity() -> (DeviceIdentity, sign::PublicKey) {
    let _ = sodiumoxide::init();
    let (public_key, secret_key) = sign::gen_keypair();
    let identity =
        DeviceIdentity::from_key_pair(secret_key.0.to_vec(), public_key.0.to_vec()).unwrap();
    (identity, public_key)
}

fn failed<T>(result: Result<T, HandshakeError>) -> Failure {
    match result {
        Err(HandshakeError::Failed(failure)) => failure,
        Err(HandshakeError::VersionMismatch { .. }) => panic!("version mismatch"),
        Ok(_) => panic!("accepted"),
    }
}

fn hello_of(protocol_version: u32, nonce: &[u8], offer: &str) -> Inbound {
    Inbound::Message(Message::LanClientHello(LanClientHello {
        protocol_version,
        client_nonce: nonce.to_vec(),
        client_capabilities: 0,
        webrtc_sdp_offer: offer.to_owned(),
    }))
}

fn accept(identity: DeviceIdentity, hello: LanClientHello, answer: &str) -> ReadyToRespond {
    let opening = Inbound::Message(Message::LanClientHello(hello));
    match receive_client_hello(PARAMS, identity, opening).unwrap() {
        AcceptedClient::WithOffer(state) => {
            assert_eq!(state.webrtc_sdp_offer(), "offer");
            state.answer(answer.to_owned())
        }
        AcceptedClient::WithoutOffer(state) => state,
    }
}

/// A client with nonce 7, and the hello of a server with nonce 9 to it.
fn signed_hello(answer: &str) -> (AwaitingServerHello, LanServerHello, AwaitingClientKey) {
    let (identity, _) = identity();
    let offer = if answer.is_empty() { "" } else { "offer" };
    let (client, hello) = AwaitingServerHello::start_with_nonce(PARAMS, vec![7; 32], offer);
    let ready = accept(identity, hello, answer);
    let (public_key, secret_key) = box_::gen_keypair();
    let (hello, next) = ready
        .respond_with(public_key.0.to_vec(), secret_key.0.to_vec(), vec![9; 32])
        .unwrap();
    (client, hello, next)
}

fn receive(client: AwaitingServerHello, hello: LanServerHello) -> Result<VerifiedServer, HandshakeError> {
    client.receive(Inbound::Message(Message::LanServerHello(hello)))
}

fn client_with(nonce: u8) -> AwaitingServerHello {
    AwaitingServerHello::start_with_nonce(PARAMS, vec![nonce; 32], "").0
}

#[test]
fn loopback_handshake_agrees_on_a_session_key() {
    let (identity, device_public_key) = identity();

    let (client, client_hello) = AwaitingServerHello::start(PARAMS, "offer");
    assert_eq!(client_hello.protocol_version, 1);
    assert_eq!(client_hello.client_nonce.len(), 32);
    assert_ne!(client_hello.client_nonce, vec![0; 32]);
    assert_eq!(client_hello.client_capabilities, 0);
    assert_eq!(client_hello.webrtc_sdp_offer, "offer");

    let ready = accept(identity, client_hello, "answer");
    let (server_hello, server) = ready.respond().unwrap();
    assert_eq!(server_hello.server_nonce.len(), 32);
    assert_ne!(server_hello.server_nonce, vec![0; 32]);
    assert_eq!(server_hello.webrtc_sdp_answer, "answer");

    let verified = receive(client, server_hello).unwrap();
    let ephemeral = box_::PublicKey::from_slice(verified.ephemeral_public_key()).unwrap();
    let (our_public, our_secret) = box_::gen_keypair();
    let session_key = secretbox::gen_key();
    let nonce = box_::Nonce([0; box_::NONCEBYTES]);
    let sealed = box_::seal(&session_key.0, &nonce, &ephemeral, &our_secret);

    let (key_message, sending) =
        verified.seal(our_public.0.to_vec(), sealed, session_key.clone());
    let received = server.receive(Inbound::Message(key_message)).unwrap();
    let their_public = box_::PublicKey::from_slice(received.asymmetric_value()).unwrap();
    let secret = box_::SecretKey::from_slice(received.ephemeral_secret_key()).unwrap();
    assert_eq!(secret.public_key(), ephemeral);
    let opened = box_::open(received.symmetric_value(), &nonce, &their_public, &secret).unwrap();
    assert_eq!(opened, session_key.0.to_vec());

    let server_side = received.opened(opened);
    assert_eq!(server_side.stream_key(), &session_key.0.to_vec());
    assert_eq!(server_side.answerer_key(), Some(&session_key.0.to_vec()));

    let secured = sending.sent();
    assert!(secured.session_key() == &session_key);
    assert_eq!(secured.device_public_key(), &device_public_key.0.to_vec());
    let (peer, answer, key) = secured.finish("print".to_owned());
    assert_eq!(
        peer,
        LanPeerIdentity {
            device_public_key: device_public_key.0.to_vec(),
            fingerprint: "print".to_owned(),
        }
    );
    assert_eq!(answer, "answer");
    assert!(key == session_key);
}

#[test]
fn two_clients_draw_different_nonces() {
    let _ = sodiumoxide::init();
    let (_, first) = AwaitingServerHello::start(PARAMS, "");
    let (_, second) = AwaitingServerHello::start(PARAMS, "");
    assert_ne!(first.client_nonce, second.client_nonce);
}

#[test]
fn hello_without_offer_gets_no_answer() {
    let (client, hello, _) = signed_hello("");
    assert_eq!(hello.webrtc_sdp_answer, "");
    let (_, _) = receive(client, hello)
        .unwrap()
        .seal(vec![1], vec![2], ());
}

#[test]
fn server_hello_carries_the_signed_transcript() {
    let (_, hello, _) = signed_hello("answer");
    let key = sign::PublicKey::from_slice(&hello.device_public_key).unwrap();
    let expected = transcript(
        PARAMS,
        &[7; 32],
        &[9; 32],
        &hello.ephemeral_public_key,
        "answer",
    )
    .unwrap();
    assert_eq!(hello.protocol_version, 1);
    assert_eq!(hello.server_nonce, vec![9; 32]);
    assert_eq!(sign::verify(&hello.signature, &key).unwrap(), expected);
}

#[test]
fn replayed_hello_is_refused() {
    let (_, hello, _) = signed_hello("");
    assert_eq!(failed(receive(client_with(8), hello)), Failure::TranscriptMismatch);
}

#[test]
fn accepted_hello_is_accepted_again_under_its_nonce_only() {
    let (client, hello, _) = signed_hello("");
    let copy = |hello: &LanServerHello| LanServerHello {
        protocol_version: hello.protocol_version,
        server_nonce: hello.server_nonce.clone(),
        device_public_key: hello.device_public_key.clone(),
        ephemeral_public_key: hello.ephemeral_public_key.clone(),
        signature: hello.signature.clone(),
        webrtc_sdp_answer: hello.webrtc_sdp_answer.clone(),
    };
    assert!(receive(client, copy(&hello)).is_ok());
    assert!(receive(client_with(7), copy(&hello)).is_ok());
    assert!(receive(client_with(6), hello).is_err());
}

#[test]
fn tampered_hello_is_refused() {
    let (client, mut hello, _) = signed_hello("answer");
    hello.server_nonce[0] ^= 1;
    assert_eq!(failed(receive(client, hello)), Failure::TranscriptMismatch);

    let (client, mut hello, _) = signed_hello("answer");
    hello.ephemeral_public_key[31] ^= 1;
    assert_eq!(failed(receive(client, hello)), Failure::TranscriptMismatch);

    let (client, mut hello, _) = signed_hello("answer");
    hello.webrtc_sdp_answer = "other".to_owned();
    assert_eq!(failed(receive(client, hello)), Failure::TranscriptMismatch);

    let (client, mut hello, _) = signed_hello("answer");
    hello.signature[0] ^= 1;
    assert_eq!(failed(receive(client, hello)), Failure::SignatureMismatch);
}

#[test]
fn hello_under_another_device_key_is_refused() {
    let (client, mut hello, _) = signed_hello("");
    let (other, _) = sign::gen_keypair();
    hello.device_public_key = other.0.to_vec();
    assert_eq!(failed(receive(client, hello)), Failure::SignatureMismatch);
}

#[test]
fn malformed_server_hello_is_refused() {
    let (client, mut hello, _) = signed_hello("");
    hello.device_public_key.push(0);
    assert_eq!(failed(receive(client, hello)), Failure::InvalidDeviceKeyLength);

    let (client, mut hello, _) = signed_hello("");
    hello.server_nonce.clear();
    assert_eq!(failed(receive(client, hello)), Failure::InvalidNonceLength);

    let (client, mut hello, _) = signed_hello("");
    hello.ephemeral_public_key.push(0);
    assert_eq!(failed(receive(client, hello)), Failure::InvalidEphemeralKeyLength);

    let (client, mut hello, _) = signed_hello("");
    hello.protocol_version = 2;
    hello.device_public_key.clear();
    match receive(client, hello) {
        Err(error) => assert_eq!(
            error.message(),
            "LAN protocol version mismatch: client 1, peer 2"
        ),
        Ok(_) => panic!("accepted"),
    }
}

#[test]
fn client_refuses_what_is_no_server_hello() {
    assert_eq!(failed(client_with(7).receive(Inbound::Closed)), Failure::ServerClosed);
    assert_eq!(failed(client_with(7).receive(Inbound::Malformed)), Failure::InvalidServerHello);
    let other = Inbound::Message(Message::Other);
    assert_eq!(failed(client_with(7).receive(other)), Failure::LanProtocolRequired);
    let hello = hello_of(1, &[7; 32], "");
    assert_eq!(failed(client_with(7).receive(hello)), Failure::LanProtocolRequired);
}

#[test]
fn server_refuses_what_is_no_client_hello() {
    let refuse = |opening: Inbound| failed(receive_client_hello(PARAMS, identity().0, opening));
    assert_eq!(refuse(Inbound::Closed), Failure::ClientClosed);
    assert_eq!(refuse(Inbound::Malformed), Failure::InvalidClientHello);
    assert_eq!(refuse(Inbound::Message(Message::Other)), Failure::LanProtocolRequired);
    let ice = WebrtcIce {
        session_key: "s".to_owned(),
        candidate: "c".to_owned(),
    };
    assert_eq!(
        refuse(Inbound::Message(Message::WebrtcIce(ice))),
        Failure::LanProtocolRequired
    );
    assert_eq!(refuse(hello_of(1, &[7; 31], "offer")), Failure::InvalidClientNonceLength);
    match receive_client_hello(PARAMS, identity().0, hello_of(0, &[], "")) {
        Err(error) => assert_eq!(
            error.message(),
            "LAN protocol version mismatch: server 1, peer 0"
        ),
        Ok(_) => panic!("accepted"),
    }
}

#[test]
fn server_refuses_what_is_no_client_key() {
    assert_eq!(
        failed(signed_hello("").2.receive(Inbound::Closed)),
        Failure::ClientClosedDuringKeyExchange
    );
    assert_eq!(
        failed(signed_hello("").2.receive(Inbound::Malformed)),
        Failure::InvalidClientKeyMessage
    );
    assert_eq!(
        failed(signed_hello("").2.receive(Inbound::Message(Message::Other))),
        Failure::ClientKeyMessageRequired
    );
    let key = PublicKey {
        asymmetric_value: vec![1],
        symmetric_value: vec![2],
    };
    let sealed = signed_hello("").2.receive(Inbound::Message(Message::PublicKey(key))).unwrap();
    assert_eq!(sealed.asymmetric_value(), &vec![1]);
    assert_eq!(sealed.symmetric_value(), &vec![2]);
    let secured = sealed.opened(5);
    assert_eq!(secured.stream_key(), &5);
    assert_eq!(secured.answerer_key(), None);
}

#[test]
fn response_with_malformed_values_is_refused() {
    let ready = |nonce: u8| {
        let (_, hello) = AwaitingServerHello::start_with_nonce(PARAMS, vec![nonce; 32], "");
        accept(identity().0, hello, "")
    };
    assert_eq!(
        failed(ready(1).respond_with(vec![0; 32], vec![0; 32], vec![0; 31])),
        Failure::InvalidNonceLength
    );
    assert_eq!(
        failed(ready(1).respond_with(vec![0; 31], vec![0; 32], vec![0; 32])),
        Failure::InvalidEphemeralKeyLength
    );
}

#[test]
fn identity_takes_whole_keys_only() {
    let make = |secret: usize, public: usize| {
        DeviceIdentity::from_key_pair(vec![0; secret], vec![0; public])
    };
    assert!(make(64, 32).is_ok());
    assert_eq!(failed(make(63, 32)), Failure::InvalidIdentityKey);
    assert_eq!(failed(make(64, 0)), Failure::InvalidIdentityKey);
    assert_eq!(
        HandshakeError::Failed(Failure::InvalidIdentityKey).message(),
        "Handshake failed: invalid device identity key"
    );
}

#[test]
fn failures_have_their_words() {
    let words = [
        (Failure::InvalidNonceLength, "invalid nonce length"),
        (Failure::InvalidEphemeralKeyLength, "invalid ephemeral public key length"),
        (Failure::ServerClosed, "server closed the connection"),
        (Failure::InvalidServerHello, "invalid server hello"),
        (Failure::LanProtocolRequired, "LAN protocol required"),
        (Failure::InvalidDeviceKeyLength, "invalid device public key length"),
        (Failure::SignatureMismatch, "device signature mismatch"),
        (Failure::TranscriptMismatch, "signed transcript mismatch"),
        (Failure::InvalidIdentityKey, "invalid device identity key"),
        (Failure::ClientClosed, "client closed the connection"),
        (Failure::InvalidClientHello, "invalid client hello"),
        (Failure::InvalidClientNonceLength, "invalid client nonce length"),
        (Failure::ClientClosedDuringKeyExchange, "client closed during key exchange"),
        (Failure::InvalidClientKeyMessage, "invalid client key message"),
        (Failure::ClientKeyMessageRequired, "client key message required"),
    ];
    for (failure, text) in words {
        assert_eq!(
            HandshakeError::Failed(failure).message(),
            format!("Handshake failed: {text}")
        );
    }
}
