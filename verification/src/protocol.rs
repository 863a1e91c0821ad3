//! What both ends of a LAN handshake agree on: the version, and the transcript that the server's
//! device key signs.

use crate::crypto::BOX_PUBLIC_KEY_BYTES;
use crate::error::{failed, Failure, HandshakeError, HandshakeErrorView};
use vstd::prelude::*;
use vstd::string::*;
use vstd::utf8::*;

verus! {

/// The parameters of the protocol that this build speaks.
#[derive(Debug, Clone, Copy, PartialEq, Eq)]
pub struct LanParams {
    pub protocol_version: u32,
    /// Bytes of a client's and of a server's nonce.
    pub nonce_len: usize,
}

/// What every transcript starts with.
pub const TRANSCRIPT_PREFIX: &'static str = "rustdesk-lan-handshake-v1\0";

/// The four bytes of `value`, most significant first.
pub open spec fn big_endian(value: u32) -> Seq<u8> {
    seq![
        (value / 0x1_00_00_00) as u8,
        (value / 0x1_00_00 % 0x1_00) as u8,
        (value / 0x1_00 % 0x1_00) as u8,
        (value % 0x1_00) as u8,
    ]
}

/// The outcome of the version check of a peer that speaks `remote`.
pub open spec fn version_check(params: LanParams, remote: u32, role: Seq<char>) -> Result<
    (),
    HandshakeErrorView,
> {
    if remote == params.protocol_version {
        Ok(())
    } else {
        Err(
            HandshakeErrorView::VersionMismatch {
                role,
                local: params.protocol_version,
                peer: remote,
            },
        )
    }
}

/// Refuses a peer that speaks another version than this build does. `role` names this end.
pub fn require_protocol_version(params: LanParams, remote: u32, role: &str) -> (res: Result<
    (),
    HandshakeError,
>)
    ensures
        crate::error::outcome(res) == version_check(params, remote, role@),
{
    if remote != params.protocol_version {
        return Err(
            HandshakeError::VersionMismatch {
                role: role.to_owned(),
                local: params.protocol_version,
                peer: remote,
            },
        );
    }
    Ok(())
}

/// The bytes that the device key signs: the prefix, the version, both nonces, the ephemeral key,
/// and the WebRTC answer, which takes no room where it is empty.
pub open spec fn transcript_bytes(
    params: LanParams,
    client_nonce: Seq<u8>,
    server_nonce: Seq<u8>,
    ephemeral_public_key: Seq<u8>,
    webrtc_sdp_answer: Seq<char>,
) -> Seq<u8> {
    encode_utf8(TRANSCRIPT_PREFIX@) + big_endian(params.protocol_version) + client_nonce
        + server_nonce + ephemeral_public_key + encode_utf8(webrtc_sdp_answer)
}

/// The transcript, or what is wrong with the values that it should bind.
pub open spec fn transcript_of(
    params: LanParams,
    client_nonce: Seq<u8>,
    server_nonce: Seq<u8>,
    ephemeral_public_key: Seq<u8>,
    webrtc_sdp_answer: Seq<char>,
) -> Result<Seq<u8>, HandshakeErrorView> {
    if client_nonce.len() != params.nonce_len || server_nonce.len() != params.nonce_len {
        failed(Failure::InvalidNonceLength)
    } else if ephemeral_public_key.len() != BOX_PUBLIC_KEY_BYTES {
        failed(Failure::InvalidEphemeralKeyLength)
    } else {
        Ok(
            transcript_bytes(
                params,
                client_nonce,
                server_nonce,
                ephemeral_public_key,
                webrtc_sdp_answer,
            ),
        )
    }
}

/// Writes `value` big-endian.
fn push_big_endian(out: &mut Vec<u8>, value: u32)
    ensures
        final(out)@ == old(out)@ + big_endian(value),
{
    out.push((value / 0x1_00_00_00) as u8);
    out.push((value / 0x1_00_00 % 0x1_00) as u8);
    out.push((value / 0x1_00 % 0x1_00) as u8);
    out.push((value % 0x1_00) as u8);
    assert(out@ =~= old(out)@ + big_endian(value));
}

/// The bytes that bind a handshake's values together for signing.
///
/// The WebRTC answer is bound only where there is one, so peers that use no WebRTC sign the same
/// bytes as peers that know nothing of it.
pub fn transcript(
    params: LanParams,
    client_nonce: &[u8],
    server_nonce: &[u8],
    ephemeral_public_key: &[u8],
    webrtc_sdp_answer: &str,
) -> (res: Result<Vec<u8>, HandshakeError>)
    ensures
        crate::error::outcome(res) == transcript_of(
            params,
            client_nonce@,
            server_nonce@,
            ephemeral_public_key@,
            webrtc_sdp_answer@,
        ),
{
    if client_nonce.len() != params.nonce_len || server_nonce.len() != params.nonce_len {
        return Err(HandshakeError::Failed(Failure::InvalidNonceLength));
    }
    if ephemeral_public_key.len() != BOX_PUBLIC_KEY_BYTES {
        return Err(HandshakeError::Failed(Failure::InvalidEphemeralKeyLength));
    }
    let mut out: Vec<u8> = Vec::new();
    out.extend_from_slice(TRANSCRIPT_PREFIX.as_bytes());
    push_big_endian(&mut out, params.protocol_version);
    out.extend_from_slice(client_nonce);
    out.extend_from_slice(server_nonce);
    out.extend_from_slice(ephemeral_public_key);
    if !webrtc_sdp_answer.is_empty() {
        out.extend_from_slice(webrtc_sdp_answer.as_bytes());
    }
    assert(out@ =~= transcript_bytes(
        params,
        client_nonce@,
        server_nonce@,
        ephemeral_public_key@,
        webrtc_sdp_answer@,
    ));
    Ok(out)
}

} // verus!
