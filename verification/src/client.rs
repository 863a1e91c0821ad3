//! The client's side of the LAN handshake.
//!
//! Each state holds what the next step needs, so that no step can be taken early: the ephemeral
//! key of a server is only to be had from a `VerifiedServer`, and that only from a hello whose
//! signature holds; the key that secures the stream only from a `SecuredServer`, and that only
//! once the server has been sent the key.

use crate::crypto::{
    bytes_option, open_message, opened_message, random_bytes, BOX_PUBLIC_KEY_BYTES,
    RANDOM_BYTES_MAX, SIGN_PUBLIC_KEY_BYTES,
};
use crate::error::{failed, outcome, Failure, HandshakeError, HandshakeErrorView};
use crate::messages::{
    ClientHelloView, Inbound, InboundView, LanClientHello, LanServerHello, Message, MessageView,
    PublicKey, PublicKeyView, ServerHelloView,
};
use crate::protocol::{
    require_protocol_version, transcript, transcript_of, version_check, LanParams,
};
use vstd::prelude::*;
use vstd::string::*;

verus! {

/// The device that a client is connected to.
#[derive(Debug, PartialEq, Eq)]
pub struct LanPeerIdentity {
    pub device_public_key: Vec<u8>,
    pub fingerprint: String,
}

/// What a `LanPeerIdentity` says.
pub struct PeerIdentityView {
    pub device_public_key: Seq<u8>,
    pub fingerprint: Seq<char>,
}

impl View for LanPeerIdentity {
    type V = PeerIdentityView;

    open spec fn view(&self) -> PeerIdentityView {
        PeerIdentityView {
            device_public_key: self.device_public_key@,
            fingerprint: self.fingerprint@,
        }
    }
}

/// A client that has sent its hello.
pub struct AwaitingServerHello {
    params: LanParams,
    client_nonce: Vec<u8>,
}

/// What an `AwaitingServerHello` holds.
pub struct AwaitingServerHelloView {
    pub params: LanParams,
    pub client_nonce: Seq<u8>,
}

impl View for AwaitingServerHello {
    type V = AwaitingServerHelloView;

    closed spec fn view(&self) -> AwaitingServerHelloView {
        AwaitingServerHelloView { params: self.params, client_nonce: self.client_nonce@ }
    }
}

/// A server whose device key has signed this very handshake.
pub struct VerifiedServer {
    device_public_key: Vec<u8>,
    ephemeral_public_key: Vec<u8>,
    webrtc_sdp_answer: String,
}

/// What a `VerifiedServer` holds.
pub struct VerifiedServerView {
    pub device_public_key: Seq<u8>,
    pub ephemeral_public_key: Seq<u8>,
    pub webrtc_sdp_answer: Seq<char>,
}

impl View for VerifiedServer {
    type V = VerifiedServerView;

    closed spec fn view(&self) -> VerifiedServerView {
        VerifiedServerView {
            device_public_key: self.device_public_key@,
            ephemeral_public_key: self.ephemeral_public_key@,
            webrtc_sdp_answer: self.webrtc_sdp_answer@,
        }
    }
}

/// The hello of a client with this nonce and offer.
pub open spec fn client_hello(
    params: LanParams,
    client_nonce: Seq<u8>,
    webrtc_sdp_offer: Seq<char>,
) -> ClientHelloView {
    ClientHelloView {
        protocol_version: params.protocol_version,
        client_nonce,
        client_capabilities: 0,
        webrtc_sdp_offer,
    }
}

/// The transcript that the signature of `hello` has to be over, or why `hello` is refused before
/// its signature is looked at.
pub open spec fn owed_transcript(
    state: AwaitingServerHelloView,
    hello: ServerHelloView,
) -> Result<Seq<u8>, HandshakeErrorView> {
    match version_check(state.params, hello.protocol_version, "client"@) {
        Err(error) => Err(error),
        Ok(_) => if hello.device_public_key.len() != SIGN_PUBLIC_KEY_BYTES {
            failed(Failure::InvalidDeviceKeyLength)
        } else {
            transcript_of(
                state.params,
                state.client_nonce,
                hello.server_nonce,
                hello.ephemeral_public_key,
                hello.webrtc_sdp_answer,
            )
        },
    }
}

/// The verdict on a signature that opened to `opened` where `expected` was owed.
pub open spec fn signature_check(opened: Option<Seq<u8>>, expected: Seq<u8>) -> Result<
    (),
    HandshakeErrorView,
> {
    match opened {
        None => failed(Failure::SignatureMismatch),
        Some(signed) => if signed == expected {
            Ok(())
        } else {
            failed(Failure::TranscriptMismatch)
        },
    }
}

/// The verdict on a server's hello.
pub open spec fn hello_verdict(
    state: AwaitingServerHelloView,
    hello: ServerHelloView,
) -> Result<VerifiedServerView, HandshakeErrorView> {
    match owed_transcript(state, hello) {
        Err(error) => Err(error),
        Ok(expected) => match signature_check(
            opened_message(hello.signature, hello.device_public_key),
            expected,
        ) {
            Err(error) => Err(error),
            Ok(_) => Ok(
                VerifiedServerView {
                    device_public_key: hello.device_public_key,
                    ephemeral_public_key: hello.ephemeral_public_key,
                    webrtc_sdp_answer: hello.webrtc_sdp_answer,
                },
            ),
        },
    }
}

/// The verdict on whatever came where the server's hello was due.
pub open spec fn reply_verdict(state: AwaitingServerHelloView, reply: InboundView) -> Result<
    VerifiedServerView,
    HandshakeErrorView,
> {
    match reply {
        InboundView::Closed => failed(Failure::ServerClosed),
        InboundView::Malformed => failed(Failure::InvalidServerHello),
        InboundView::Message(MessageView::LanServerHello(hello)) => hello_verdict(state, hello),
        InboundView::Message(_) => failed(Failure::LanProtocolRequired),
    }
}

/// Holds the message that a signature opened to against the transcript that it has to be over.
pub fn check_signed_transcript(opened: Option<Vec<u8>>, expected: &Vec<u8>) -> (res: Result<
    (),
    HandshakeError,
>)
    ensures
        outcome(res) == signature_check(bytes_option(opened), expected@),
{
    match opened {
        None => Err(HandshakeError::Failed(Failure::SignatureMismatch)),
        Some(signed) => {
            if signed == *expected {
                assert(signed@ =~= expected@);
                Ok(())
            } else {
                Err(HandshakeError::Failed(Failure::TranscriptMismatch))
            }
        },
    }
}

impl AwaitingServerHello {
    /// Starts a handshake with a fresh nonce. `webrtc_sdp_offer` is empty where the client wants
    /// no WebRTC transport. The hello is to be sent.
    pub fn start(params: LanParams, webrtc_sdp_offer: &str) -> (started: (
        AwaitingServerHello,
        LanClientHello,
    ))
        requires
            params.nonce_len <= isize::MAX,
            params.nonce_len <= RANDOM_BYTES_MAX,
        ensures
            started.0@.params == params,
            started.0@.client_nonce.len() == params.nonce_len,
            started.1@ == client_hello(params, started.0@.client_nonce, webrtc_sdp_offer@),
            started.1.protocol_version == params.protocol_version,
            started.1.client_nonce@ == started.0@.client_nonce,
            started.1.client_capabilities == 0,
            started.1.webrtc_sdp_offer@ == webrtc_sdp_offer@,
    {
        AwaitingServerHello::start_with_nonce(
            params,
            random_bytes(params.nonce_len),
            webrtc_sdp_offer,
        )
    }

    /// Starts a handshake with the given nonce.
    pub fn start_with_nonce(params: LanParams, client_nonce: Vec<u8>, webrtc_sdp_offer: &str) -> (
        started: (AwaitingServerHello, LanClientHello))
        ensures
            started.0@ == (AwaitingServerHelloView { params, client_nonce: client_nonce@ }),
            started.1@ == client_hello(params, client_nonce@, webrtc_sdp_offer@),
            started.1.protocol_version == params.protocol_version,
            started.1.client_nonce@ == client_nonce@,
            started.1.client_capabilities == 0,
            started.1.webrtc_sdp_offer@ == webrtc_sdp_offer@,
    {
        let hello = LanClientHello {
            protocol_version: params.protocol_version,
            client_nonce: client_nonce.clone(),
            client_capabilities: 0,
            webrtc_sdp_offer: webrtc_sdp_offer.to_owned(),
        };
        (AwaitingServerHello { params, client_nonce }, hello)
    }

    /// The transcript that the signature of `hello` has to be over, or why `hello` is refused
    /// before its signature is looked at.
    fn owed(&self, hello: &LanServerHello) -> (res: Result<Vec<u8>, HandshakeError>)
        ensures
            outcome(res) == owed_transcript(self@, hello@),
    {
        match require_protocol_version(self.params, hello.protocol_version, "client") {
            Err(error) => {
                return Err(error);
            },
            Ok(_) => {},
        }
        if hello.device_public_key.len() != SIGN_PUBLIC_KEY_BYTES {
            return Err(HandshakeError::Failed(Failure::InvalidDeviceKeyLength));
        }
        transcript(
            self.params,
            self.client_nonce.as_slice(),
            hello.server_nonce.as_slice(),
            hello.ephemeral_public_key.as_slice(),
            hello.webrtc_sdp_answer.as_str(),
        )
    }

    /// Judges what came where the server's hello was due.
    pub fn receive(self, reply: Inbound) -> (res: Result<VerifiedServer, HandshakeError>)
        ensures
            outcome(res) == reply_verdict(self@, reply@),
    {
        let hello = match reply {
            Inbound::Closed => {
                return Err(HandshakeError::Failed(Failure::ServerClosed));
            },
            Inbound::Malformed => {
                return Err(HandshakeError::Failed(Failure::InvalidServerHello));
            },
            Inbound::Message(Message::LanServerHello(hello)) => hello,
            Inbound::Message(_) => {
                return Err(HandshakeError::Failed(Failure::LanProtocolRequired));
            },
        };
        let expected = match self.owed(&hello) {
            Err(error) => {
                return Err(error);
            },
            Ok(expected) => expected,
        };
        let opened = open_message(hello.signature.as_slice(), hello.device_public_key.as_slice());
        match check_signed_transcript(opened, &expected) {
            Err(error) => Err(error),
            Ok(_) => Ok(
                VerifiedServer {
                    device_public_key: hello.device_public_key,
                    ephemeral_public_key: hello.ephemeral_public_key,
                    webrtc_sdp_answer: hello.webrtc_sdp_answer,
                },
            ),
        }
    }
}

impl VerifiedServer {
    /// Both keys have been found to have the length of their kind.
    #[verifier::type_invariant]
    spec fn has_whole_keys(self) -> bool {
        &&& self.device_public_key@.len() == SIGN_PUBLIC_KEY_BYTES
        &&& self.ephemeral_public_key@.len() == BOX_PUBLIC_KEY_BYTES
    }

    /// The key that the session key is to be sealed for.
    pub fn ephemeral_public_key(&self) -> (key: &Vec<u8>)
        ensures
            key@ == self@.ephemeral_public_key,
            key@.len() == BOX_PUBLIC_KEY_BYTES,
    {
        proof {
            use_type_invariant(self);
        }
        &self.ephemeral_public_key
    }

    /// Takes a fresh session key, and its sealed form, which only the server can open. The message
    /// carries that form to the server.
    pub fn seal<K>(
        self,
        asymmetric_value: Vec<u8>,
        symmetric_value: Vec<u8>,
        session_key: K,
    ) -> (sealed: (Message, SendingKey<K>))
        ensures
            sealed.0@ == MessageView::PublicKey(
                PublicKeyView {
                    asymmetric_value: asymmetric_value@,
                    symmetric_value: symmetric_value@,
                },
            ),
            sealed.0 matches Message::PublicKey(key) && key.asymmetric_value@
                == asymmetric_value@ && key.symmetric_value@ == symmetric_value@,
            sealed.1@ == (SessionView { server: self@, session_key }),
    {
        (
            Message::PublicKey(PublicKey { asymmetric_value, symmetric_value }),
            SendingKey { server: self, session_key },
        )
    }
}

/// What a client holds of a session whose key it has made.
pub struct SessionView<K> {
    pub server: VerifiedServerView,
    pub session_key: K,
}

/// A client whose sealed session key is on its way to the server.
pub struct SendingKey<K> {
    server: VerifiedServer,
    session_key: K,
}

impl<K> View for SendingKey<K> {
    type V = SessionView<K>;

    closed spec fn view(&self) -> SessionView<K> {
        SessionView { server: self.server@, session_key: self.session_key }
    }
}

impl<K> SendingKey<K> {
    /// The sealed key has been sent: from here on the stream is to be secured with the key.
    pub fn sent(self) -> (secured: SecuredServer<K>)
        ensures
            secured@ == self@,
    {
        SecuredServer { server: self.server, session_key: self.session_key }
    }
}

/// A server that shares a session key with the client.
pub struct SecuredServer<K> {
    server: VerifiedServer,
    session_key: K,
}

impl<K> View for SecuredServer<K> {
    type V = SessionView<K>;

    closed spec fn view(&self) -> SessionView<K> {
        SessionView { server: self.server@, session_key: self.session_key }
    }
}

impl<K> SecuredServer<K> {
    /// The key to secure the stream with.
    pub fn session_key(&self) -> (key: &K)
        ensures
            *key == self@.session_key,
    {
        &self.session_key
    }

    /// The key that identifies the device.
    pub fn device_public_key(&self) -> (key: &Vec<u8>)
        ensures
            key@ == self@.server.device_public_key,
            key@.len() == SIGN_PUBLIC_KEY_BYTES,
    {
        proof {
            use_type_invariant(&self.server);
        }
        &self.server.device_public_key
    }

    /// Ends the handshake: the identity of the device, whose key has the given fingerprint; its
    /// WebRTC answer; and the session key, with which a WebRTC transport can be secured too.
    pub fn finish(self, fingerprint: String) -> (done: (LanPeerIdentity, String, K))
        ensures
            done.0@ == (PeerIdentityView {
                device_public_key: self@.server.device_public_key,
                fingerprint: fingerprint@,
            }),
            done.0.device_public_key@ == self@.server.device_public_key,
            done.0.fingerprint@ == fingerprint@,
            done.1@ == self@.server.webrtc_sdp_answer,
            done.2 == self@.session_key,
    {
        (
            LanPeerIdentity { device_public_key: self.server.device_public_key, fingerprint },
            self.server.webrtc_sdp_answer,
            self.session_key,
        )
    }
}

} // verus!
