use lan_session::crypto::{
    BOX_PUBLIC_KEY_BYTES, BOX_SECRET_KEY_BYTES, RANDOM_BYTES_MAX, SIGN_PUBLIC_KEY_BYTES,
    SIGN_SECRET_KEY_BYTES,
};
use lan_session::error::{Failure, HandshakeError};
use lan_session::protocol::{
    require_protocol_version as require_version, transcript as transcript_with, LanParams,
    TRANSCRIPT_PREFIX,
};
use sodiumoxide::crypto::{box_, sign};

const PROTOCOL_VERSION: u32 = 1;
const NONCE_LEN: usize = 32;

const PARAMS: LanParams = LanParams {
    protocol_version: PROTOCOL_VERSION,
    nonce_len: NONCE_LEN,
};

fn transcript(
    client_nonce: &[u8],
    server_nonce: &[u8],
    ephemeral_public_key: &[u8],
    webrtc_sdp_answer: &str,
) -> Result<Vec<u8>, HandshakeError> {
    transcript_with(
        PARAMS,
        client_nonce,
        server_nonce,
        ephemeral_public_key,
        webrtc_sdp_answer,
    )
}

fn require_protocol_version(remote: u32, role: &str) -> Result<(), HandshakeError> {
    require_version(PARAMS, remote, role)
}

#[test]
fn transcript_binds_every_handshake_value() {
    let (pk, _) = box_::gen_keypair();
    let first = transcript(&[1; NONCE_LEN], &[2; NONCE_LEN], &pk.0, "").unwrap();
    let second = transcript(&[3; NONCE_LEN], &[2; NONCE_LEN], &pk.0, "").unwrap();
    assert_ne!(first, second);
}

#[test]
fn rejects_malformed_transcript_inputs() {
    assert!(transcript(&[], &[2; NONCE_LEN], &[0; box_::PUBLICKEYBYTES], "").is_err());
    assert!(transcript(&[1; NONCE_LEN], &[2; NONCE_LEN], &[], "").is_err());
}

#[test]
fn signature_rejects_tampered_handshake() {
    let (ephemeral, _) = box_::gen_keypair();
    let (device_pk, device_sk) = sign::gen_keypair();
    let original = transcript(&[1; NONCE_LEN], &[2; NONCE_LEN], &ephemeral.0, "").unwrap();
    let signed = sign::sign(&original, &device_sk);
    let mut tampered = original.clone();
    tampered[TRANSCRIPT_PREFIX.len() + 4] ^= 1;
    assert_eq!(sign::verify(&signed, &device_pk).unwrap(), original);
    assert_ne!(sign::verify(&signed, &device_pk).unwrap(), tampered);
}

#[test]
fn replayed_server_hello_is_bound_to_client_nonce() {
    let (ephemeral, _) = box_::gen_keypair();
    let first = transcript(&[7; NONCE_LEN], &[9; NONCE_LEN], &ephemeral.0, "").unwrap();
    let replay_target = transcript(&[8; NONCE_LEN], &[9; NONCE_LEN], &ephemeral.0, "").unwrap();
    assert_ne!(first, replay_target);
}

#[test]
fn transcript_binds_webrtc_answer_only_when_present() {
    let (pk, _) = box_::gen_keypair();
    let base = transcript(&[1; NONCE_LEN], &[2; NONCE_LEN], &pk.0, "").unwrap();
    // An empty answer leaves the bytes of a handshake without WebRTC untouched.
    assert_eq!(
        base.len(),
        TRANSCRIPT_PREFIX.len() + 4 + NONCE_LEN * 2 + box_::PUBLICKEYBYTES
    );
    let with_answer = transcript(&[1; NONCE_LEN], &[2; NONCE_LEN], &pk.0, "v=0\r\n").unwrap();
    assert_ne!(base, with_answer);
}

#[test]
fn protocol_downgrade_is_rejected() {
    assert!(require_protocol_version(PROTOCOL_VERSION, "client").is_ok());
    assert!(require_protocol_version(PROTOCOL_VERSION.saturating_sub(1), "client").is_err());
    assert!(require_protocol_version(PROTOCOL_VERSION + 1, "server").is_err());
}

#[test]
fn transcript_has_its_exact_bytes() {
    let params = LanParams {
        protocol_version: 0x0102_0304,
        nonce_len: 2,
    };
    let bytes = transcript_with(params, &[5, 6], &[7, 8], &[9; 32], "\u{e4}").unwrap();
    let mut expected = b"rustdesk-lan-handshake-v1\0".to_vec();
    expected.extend_from_slice(&[1, 2, 3, 4, 5, 6, 7, 8]);
    expected.extend_from_slice(&[9; 32]);
    expected.extend_from_slice(&[0xc3, 0xa4]);
    assert_eq!(bytes, expected);
}

#[test]
fn transcript_differs_in_every_bound_value() {
    let base = transcript(&[1; NONCE_LEN], &[2; NONCE_LEN], &[3; 32], "a").unwrap();
    let other_version = transcript_with(
        LanParams {
            protocol_version: PROTOCOL_VERSION + 1,
            nonce_len: NONCE_LEN,
        },
        &[1; NONCE_LEN],
        &[2; NONCE_LEN],
        &[3; 32],
        "a",
    )
    .unwrap();
    assert_ne!(base, other_version);
    assert_ne!(base, transcript(&[1; NONCE_LEN], &[4; NONCE_LEN], &[3; 32], "a").unwrap());
    assert_ne!(base, transcript(&[1; NONCE_LEN], &[2; NONCE_LEN], &[4; 32], "a").unwrap());
    assert_ne!(base, transcript(&[1; NONCE_LEN], &[2; NONCE_LEN], &[3; 32], "b").unwrap());
}

#[test]
fn transcript_names_what_is_malformed() {
    let nonce = HandshakeError::Failed(Failure::InvalidNonceLength);
    let key = HandshakeError::Failed(Failure::InvalidEphemeralKeyLength);
    assert_eq!(transcript(&[1; 31], &[2; 32], &[3; 32], ""), Err(nonce));
    assert_eq!(
        transcript(&[1; 32], &[2; 33], &[], "").unwrap_err().message(),
        "Handshake failed: invalid nonce length"
    );
    assert_eq!(transcript(&[1; 32], &[2; 32], &[3; 31], ""), Err(key));
}

#[test]
fn version_mismatch_says_both_versions() {
    let error = require_protocol_version(4_294_967_295, "client").unwrap_err();
    assert_eq!(
        error.message(),
        "LAN protocol version mismatch: client 1, peer 4294967295"
    );
    let error = require_protocol_version(0, "server").unwrap_err();
    assert_eq!(error.message(), "LAN protocol version mismatch: server 1, peer 0");
}

#[test]
fn key_lengths_are_those_of_sodium() {
    assert_eq!(SIGN_PUBLIC_KEY_BYTES, sign::PUBLICKEYBYTES);
    assert_eq!(SIGN_SECRET_KEY_BYTES, sign::SECRETKEYBYTES);
    assert_eq!(BOX_PUBLIC_KEY_BYTES, box_::PUBLICKEYBYTES);
    assert_eq!(BOX_SECRET_KEY_BYTES, box_::SECRETKEYBYTES);
    assert_eq!(RANDOM_BYTES_MAX, u32::MAX as usize);
}
