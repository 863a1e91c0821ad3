//! The server's side of the LAN handshake.
//!
//! As on the client's side, each state holds what the next step needs: a WebRTC answer is asked
//! for only where the client made an offer, the client's key is read only behind a hello that was
//! signed, and the keys of both transports are only to be had from a `SecuredClient`, and that only
//! from a sealed key that was opened.

use crate::crypto::{
    box_public_key, generate_box_keypair, random_bytes, sign_message, signed_message,
    BOX_SECRET_KEY_BYTES, RANDOM_BYTES_MAX, SIGN_PUBLIC_KEY_BYTES, SIGN_SECRET_KEY_BYTES,
};
use crate::error::{failed, outcome, Failure, HandshakeError, HandshakeErrorView};
use crate::messages::{
    ClientHelloView, Inbound, InboundView, LanClientHello, LanServerHello, Message, MessageView,
    ServerHelloView,
};
use crate::protocol::{
    require_protocol_version, transcript, transcript_of, version_check, LanParams,
};
use vstd::prelude::*;
use vstd::string::*;

verus! {

/// The signing keys that identify this device.
pub struct DeviceIdentity {
    secret_key: Vec<u8>,
    public_key: Vec<u8>,
}

/// What a `DeviceIdentity` holds.
pub struct DeviceIdentityView {
    pub secret_key: Seq<u8>,
    pub public_key: Seq<u8>,
}

impl View for DeviceIdentity {
    type V = DeviceIdentityView;

    closed spec fn view(&self) -> DeviceIdentityView {
        DeviceIdentityView { secret_key: self.secret_key@, public_key: self.public_key@ }
    }
}

/// The identity that a configured key pair gives, or its refusal where a key has a wrong length.
pub open spec fn identity_of(secret_key: Seq<u8>, public_key: Seq<u8>) -> Result<
    DeviceIdentityView,
    HandshakeErrorView,
> {
    if secret_key.len() != SIGN_SECRET_KEY_BYTES || public_key.len() != SIGN_PUBLIC_KEY_BYTES {
        failed(Failure::InvalidIdentityKey)
    } else {
        Ok(DeviceIdentityView { secret_key, public_key })
    }
}

impl DeviceIdentity {
    /// Both keys have the length of their kind.
    #[verifier::type_invariant]
    spec fn has_whole_keys(self) -> bool {
        &&& self.secret_key@.len() == SIGN_SECRET_KEY_BYTES
        &&& self.public_key@.len() == SIGN_PUBLIC_KEY_BYTES
    }

    /// Takes the device's configured key pair.
    pub fn from_key_pair(secret_key: Vec<u8>, public_key: Vec<u8>) -> (res: Result<
        DeviceIdentity,
        HandshakeError,
    >)
        ensures
            outcome(res) == identity_of(secret_key@, public_key@),
    {
        if secret_key.len() != SIGN_SECRET_KEY_BYTES || public_key.len() != SIGN_PUBLIC_KEY_BYTES {
            return Err(HandshakeError::Failed(Failure::InvalidIdentityKey));
        }
        Ok(DeviceIdentity { secret_key, public_key })
    }
}

/// A server that has accepted a client's hello with a WebRTC offer in it.
pub struct AwaitingAnswer {
    params: LanParams,
    identity: DeviceIdentity,
    client_nonce: Vec<u8>,
    webrtc_sdp_offer: String,
}

/// What an `AwaitingAnswer` holds.
pub struct AwaitingAnswerView {
    pub params: LanParams,
    pub identity: DeviceIdentityView,
    pub client_nonce: Seq<u8>,
    pub webrtc_sdp_offer: Seq<char>,
}

impl View for AwaitingAnswer {
    type V = AwaitingAnswerView;

    closed spec fn view(&self) -> AwaitingAnswerView {
        AwaitingAnswerView {
            params: self.params,
            identity: self.identity@,
            client_nonce: self.client_nonce@,
            webrtc_sdp_offer: self.webrtc_sdp_offer@,
        }
    }
}

/// A server that can answer the client's hello.
pub struct ReadyToRespond {
    params: LanParams,
    identity: DeviceIdentity,
    client_nonce: Vec<u8>,
    webrtc_sdp_answer: String,
    /// Whether there is a WebRTC answerer, because the client made an offer.
    has_answerer: bool,
}

/// What a `ReadyToRespond` holds.
pub struct ReadyToRespondView {
    pub params: LanParams,
    pub identity: DeviceIdentityView,
    pub client_nonce: Seq<u8>,
    pub webrtc_sdp_answer: Seq<char>,
    pub has_answerer: bool,
}

impl View for ReadyToRespond {
    type V = ReadyToRespondView;

    closed spec fn view(&self) -> ReadyToRespondView {
        ReadyToRespondView {
            params: self.params,
            identity: self.identity@,
            client_nonce: self.client_nonce@,
            webrtc_sdp_answer: self.webrtc_sdp_answer@,
            has_answerer: self.has_answerer,
        }
    }
}

/// What an accepted hello asks of the server.
pub enum AcceptedClient {
    /// To answer the client's WebRTC offer first.
    WithOffer(AwaitingAnswer),
    /// To respond at once: the client wants no WebRTC transport.
    WithoutOffer(ReadyToRespond),
}

/// What an `AcceptedClient` holds.
pub enum AcceptedClientView {
    WithOffer(AwaitingAnswerView),
    WithoutOffer(ReadyToRespondView),
}

impl View for AcceptedClient {
    type V = AcceptedClientView;

    open spec fn view(&self) -> AcceptedClientView {
        match self {
            AcceptedClient::WithOffer(state) => AcceptedClientView::WithOffer(state@),
            AcceptedClient::WithoutOffer(state) => AcceptedClientView::WithoutOffer(state@),
        }
    }
}

/// A server that has sent its hello.
pub struct AwaitingClientKey {
    ephemeral_secret_key: Vec<u8>,
    has_answerer: bool,
}

/// What an `AwaitingClientKey` holds.
pub struct AwaitingClientKeyView {
    pub ephemeral_secret_key: Seq<u8>,
    pub has_answerer: bool,
}

impl View for AwaitingClientKey {
    type V = AwaitingClientKeyView;

    closed spec fn view(&self) -> AwaitingClientKeyView {
        AwaitingClientKeyView {
            ephemeral_secret_key: self.ephemeral_secret_key@,
            has_answerer: self.has_answerer,
        }
    }
}

/// A sealed session key, with the secret key that opens it.
pub struct SealedSessionKey {
    symmetric_value: Vec<u8>,
    asymmetric_value: Vec<u8>,
    ephemeral_secret_key: Vec<u8>,
    /// Whether there is a WebRTC answerer to secure with the key.
    has_answerer: bool,
}

/// What a `SealedSessionKey` holds.
pub struct SealedSessionKeyView {
    pub symmetric_value: Seq<u8>,
    pub asymmetric_value: Seq<u8>,
    pub ephemeral_secret_key: Seq<u8>,
    pub has_answerer: bool,
}

impl View for SealedSessionKey {
    type V = SealedSessionKeyView;

    closed spec fn view(&self) -> SealedSessionKeyView {
        SealedSessionKeyView {
            symmetric_value: self.symmetric_value@,
            asymmetric_value: self.asymmetric_value@,
            ephemeral_secret_key: self.ephemeral_secret_key@,
            has_answerer: self.has_answerer,
        }
    }
}

/// A client that shares a session key with the server.
pub struct SecuredClient<K> {
    session_key: K,
    has_answerer: bool,
}

/// What a `SecuredClient` holds.
pub struct SecuredClientView<K> {
    pub session_key: K,
    pub has_answerer: bool,
}

impl<K> View for SecuredClient<K> {
    type V = SecuredClientView<K>;

    closed spec fn view(&self) -> SecuredClientView<K> {
        SecuredClientView { session_key: self.session_key, has_answerer: self.has_answerer }
    }
}

impl<K> SecuredClientView<K> {
    /// The key that the TCP stream is to be secured with.
    pub open spec fn stream_key(self) -> K {
        self.session_key
    }

    /// The key that the WebRTC answerer, where there is one, is to be secured with.
    pub open spec fn answerer_key(self) -> Option<K> {
        if self.has_answerer {
            Some(self.session_key)
        } else {
            None
        }
    }
}

/// The client whose sealed key was opened to `session_key`.
pub open spec fn secured_with<K>(sealed: SealedSessionKeyView, session_key: K) -> SecuredClientView<
    K,
> {
    SecuredClientView { session_key, has_answerer: sealed.has_answerer }
}

/// The verdict on a client's hello.
pub open spec fn hello_verdict(
    params: LanParams,
    identity: DeviceIdentityView,
    hello: ClientHelloView,
) -> Result<AcceptedClientView, HandshakeErrorView> {
    match version_check(params, hello.protocol_version, "server"@) {
        Err(error) => Err(error),
        Ok(_) => if hello.client_nonce.len() != params.nonce_len {
            failed(Failure::InvalidClientNonceLength)
        } else if hello.webrtc_sdp_offer.len() == 0 {
            Ok(
                AcceptedClientView::WithoutOffer(
                    ReadyToRespondView {
                        params,
                        identity,
                        client_nonce: hello.client_nonce,
                        webrtc_sdp_answer: Seq::empty(),
                        has_answerer: false,
                    },
                ),
            )
        } else {
            Ok(
                AcceptedClientView::WithOffer(
                    AwaitingAnswerView {
                        params,
                        identity,
                        client_nonce: hello.client_nonce,
                        webrtc_sdp_offer: hello.webrtc_sdp_offer,
                    },
                ),
            )
        },
    }
}

/// The verdict on whatever came where the client's hello was due.
pub open spec fn opening_verdict(
    params: LanParams,
    identity: DeviceIdentityView,
    opening: InboundView,
) -> Result<AcceptedClientView, HandshakeErrorView> {
    match opening {
        InboundView::Closed => failed(Failure::ClientClosed),
        InboundView::Malformed => failed(Failure::InvalidClientHello),
        InboundView::Message(MessageView::LanClientHello(hello)) => hello_verdict(
            params,
            identity,
            hello,
        ),
        InboundView::Message(_) => failed(Failure::LanProtocolRequired),
    }
}

/// The hello that a server answers with, once its ephemeral key and its nonce are drawn; or what is
/// wrong with the values that its transcript should bind.
pub open spec fn server_hello(
    state: ReadyToRespondView,
    ephemeral_public_key: Seq<u8>,
    server_nonce: Seq<u8>,
) -> Result<ServerHelloView, HandshakeErrorView> {
    match transcript_of(
        state.params,
        state.client_nonce,
        server_nonce,
        ephemeral_public_key,
        state.webrtc_sdp_answer,
    ) {
        Err(error) => Err(error),
        Ok(transcript) => Ok(
            ServerHelloView {
                protocol_version: state.params.protocol_version,
                server_nonce,
                device_public_key: state.identity.public_key,
                ephemeral_public_key,
                signature: signed_message(transcript, state.identity.secret_key),
                webrtc_sdp_answer: state.webrtc_sdp_answer,
            },
        ),
    }
}

/// The state of a server that has sent its hello and kept `ephemeral_secret_key`.
pub open spec fn awaiting_key(
    state: ReadyToRespondView,
    ephemeral_secret_key: Seq<u8>,
) -> AwaitingClientKeyView {
    AwaitingClientKeyView { ephemeral_secret_key, has_answerer: state.has_answerer }
}

/// The verdict on whatever came where the client's key was due.
pub open spec fn key_verdict(state: AwaitingClientKeyView, reply: InboundView) -> Result<
    SealedSessionKeyView,
    HandshakeErrorView,
> {
    match reply {
        InboundView::Closed => failed(Failure::ClientClosedDuringKeyExchange),
        InboundView::Malformed => failed(Failure::InvalidClientKeyMessage),
        InboundView::Message(MessageView::PublicKey(key)) => Ok(
            SealedSessionKeyView {
                symmetric_value: key.symmetric_value,
                asymmetric_value: key.asymmetric_value,
                ephemeral_secret_key: state.ephemeral_secret_key,
                has_answerer: state.has_answerer,
            },
        ),
        InboundView::Message(_) => failed(Failure::ClientKeyMessageRequired),
    }
}

/// Judges a client's hello.
fn accept_hello(params: LanParams, identity: DeviceIdentity, hello: LanClientHello) -> (res:
    Result<AcceptedClient, HandshakeError>)
    ensures
        outcome(res) == hello_verdict(params, identity@, hello@),
{
    match require_protocol_version(params, hello.protocol_version, "server") {
        Err(error) => {
            return Err(error);
        },
        Ok(_) => {},
    }
    if hello.client_nonce.len() != params.nonce_len {
        return Err(HandshakeError::Failed(Failure::InvalidClientNonceLength));
    }
    if hello.webrtc_sdp_offer.as_str().is_empty() {
        Ok(
            AcceptedClient::WithoutOffer(
                ReadyToRespond {
                    params,
                    identity,
                    client_nonce: hello.client_nonce,
                    webrtc_sdp_answer: String::new(),
                    has_answerer: false,
                },
            ),
        )
    } else {
        Ok(
            AcceptedClient::WithOffer(
                AwaitingAnswer {
                    params,
                    identity,
                    client_nonce: hello.client_nonce,
                    webrtc_sdp_offer: hello.webrtc_sdp_offer,
                },
            ),
        )
    }
}

/// Judges what came where a client's hello was due.
pub fn receive_client_hello(params: LanParams, identity: DeviceIdentity, opening: Inbound) -> (res:
    Result<AcceptedClient, HandshakeError>)
    ensures
        outcome(res) == opening_verdict(params, identity@, opening@),
{
    match opening {
        Inbound::Closed => Err(HandshakeError::Failed(Failure::ClientClosed)),
        Inbound::Malformed => Err(HandshakeError::Failed(Failure::InvalidClientHello)),
        Inbound::Message(Message::LanClientHello(hello)) => accept_hello(params, identity, hello),
        Inbound::Message(_) => Err(HandshakeError::Failed(Failure::LanProtocolRequired)),
    }
}

impl AwaitingAnswer {
    /// The nonce was found to have the length that the protocol asks for.
    #[verifier::type_invariant]
    spec fn has_whole_nonce(self) -> bool {
        self.client_nonce@.len() == self.params.nonce_len
    }

    /// The offer that is to be answered.
    pub fn webrtc_sdp_offer(&self) -> (offer: &str)
        ensures
            offer@ == self@.webrtc_sdp_offer,
    {
        self.webrtc_sdp_offer.as_str()
    }

    /// Takes the answer to the client's offer.
    pub fn answer(self, webrtc_sdp_answer: String) -> (ready: ReadyToRespond)
        ensures
            ready@ == (ReadyToRespondView {
                params: self@.params,
                identity: self@.identity,
                client_nonce: self@.client_nonce,
                webrtc_sdp_answer: webrtc_sdp_answer@,
                has_answerer: true,
            }),
    {
        proof {
            use_type_invariant(&self);
        }
        ReadyToRespond {
            params: self.params,
            identity: self.identity,
            client_nonce: self.client_nonce,
            webrtc_sdp_answer,
            has_answerer: true,
        }
    }
}

impl ReadyToRespond {
    /// The nonce was found to have the length that the protocol asks for.
    #[verifier::type_invariant]
    spec fn has_whole_nonce(self) -> bool {
        self.client_nonce@.len() == self.params.nonce_len
    }

    /// The hello to send, signed with the device's key, under a fresh ephemeral key and a fresh
    /// nonce.
    pub fn respond(self) -> (res: Result<(LanServerHello, AwaitingClientKey), HandshakeError>)
        requires
            self@.params.nonce_len <= isize::MAX,
            self@.params.nonce_len <= RANDOM_BYTES_MAX,
        ensures
            res matches Ok((hello, next)) && {
                &&& hello@.server_nonce.len() == self@.params.nonce_len
                &&& next@ == awaiting_key(self@, next@.ephemeral_secret_key)
                &&& next@.ephemeral_secret_key.len() == BOX_SECRET_KEY_BYTES
                &&& hello@.ephemeral_public_key == box_public_key(next@.ephemeral_secret_key)
                &&& server_hello(self@, hello@.ephemeral_public_key, hello@.server_nonce) == Ok::<
                    ServerHelloView,
                    HandshakeErrorView,
                >(hello@)
            },
    {
        proof {
            use_type_invariant(&self);
        }
        let (ephemeral_public_key, ephemeral_secret_key) = generate_box_keypair();
        let server_nonce = random_bytes(self.params.nonce_len);
        self.respond_with(ephemeral_public_key, ephemeral_secret_key, server_nonce)
    }

    /// The hello to send under the given ephemeral keys and nonce.
    pub fn respond_with(
        self,
        ephemeral_public_key: Vec<u8>,
        ephemeral_secret_key: Vec<u8>,
        server_nonce: Vec<u8>,
    ) -> (res: Result<(LanServerHello, AwaitingClientKey), HandshakeError>)
        ensures
            match res {
                Ok((hello, next)) => {
                    &&& server_hello(self@, ephemeral_public_key@, server_nonce@) == Ok::<
                        ServerHelloView,
                        HandshakeErrorView,
                    >(hello@)
                    &&& hello.protocol_version == self@.params.protocol_version
                    &&& hello.server_nonce@ == server_nonce@
                    &&& hello.device_public_key@ == self@.identity.public_key
                    &&& hello.ephemeral_public_key@ == ephemeral_public_key@
                    &&& hello.webrtc_sdp_answer@ == self@.webrtc_sdp_answer
                    &&& next@ == awaiting_key(self@, ephemeral_secret_key@)
                    &&& next@.ephemeral_secret_key == ephemeral_secret_key@
                },
                Err(error) => server_hello(self@, ephemeral_public_key@, server_nonce@) == Err::<
                    ServerHelloView,
                    HandshakeErrorView,
                >(error@),
            },
    {
        let transcript = match transcript(
            self.params,
            self.client_nonce.as_slice(),
            server_nonce.as_slice(),
            ephemeral_public_key.as_slice(),
            self.webrtc_sdp_answer.as_str(),
        ) {
            Err(error) => {
                return Err(error);
            },
            Ok(transcript) => transcript,
        };
        proof {
            use_type_invariant(&self.identity);
        }
        let signature = sign_message(
            transcript.as_slice(),
            self.identity.secret_key.as_slice(),
        );
        let hello = LanServerHello {
            protocol_version: self.params.protocol_version,
            server_nonce,
            device_public_key: self.identity.public_key,
            ephemeral_public_key,
            signature,
            webrtc_sdp_answer: self.webrtc_sdp_answer,
        };
        Ok((hello, AwaitingClientKey { ephemeral_secret_key, has_answerer: self.has_answerer }))
    }
}

impl AwaitingClientKey {
    /// Judges what came where the client's key was due.
    pub fn receive(self, reply: Inbound) -> (res: Result<SealedSessionKey, HandshakeError>)
        ensures
            outcome(res) == key_verdict(self@, reply@),
    {
        match reply {
            Inbound::Closed => Err(HandshakeError::Failed(Failure::ClientClosedDuringKeyExchange)),
            Inbound::Malformed => Err(HandshakeError::Failed(Failure::InvalidClientKeyMessage)),
            Inbound::Message(Message::PublicKey(key)) => Ok(
                SealedSessionKey {
                    symmetric_value: key.symmetric_value,
                    asymmetric_value: key.asymmetric_value,
                    ephemeral_secret_key: self.ephemeral_secret_key,
                    has_answerer: self.has_answerer,
                },
            ),
            Inbound::Message(_) => Err(HandshakeError::Failed(Failure::ClientKeyMessageRequired)),
        }
    }
}

impl SealedSessionKey {
    /// The sealed key.
    pub fn symmetric_value(&self) -> (value: &Vec<u8>)
        ensures
            value@ == self@.symmetric_value,
    {
        &self.symmetric_value
    }

    /// The public key of the client that sealed it.
    pub fn asymmetric_value(&self) -> (value: &Vec<u8>)
        ensures
            value@ == self@.asymmetric_value,
    {
        &self.asymmetric_value
    }

    /// The secret key that opens it.
    pub fn ephemeral_secret_key(&self) -> (key: &Vec<u8>)
        ensures
            key@ == self@.ephemeral_secret_key,
    {
        &self.ephemeral_secret_key
    }

    /// Takes the key that the sealed form was opened to.
    pub fn opened<K>(self, session_key: K) -> (secured: SecuredClient<K>)
        ensures
            secured@ == secured_with(self@, session_key),
            secured@.session_key == session_key,
            secured@.has_answerer == self@.has_answerer,
    {
        SecuredClient { session_key, has_answerer: self.has_answerer }
    }
}

impl<K> SecuredClient<K> {
    /// The key to secure the TCP stream with.
    pub fn stream_key(&self) -> (key: &K)
        ensures
            *key == self@.stream_key(),
    {
        &self.session_key
    }

    /// The key to secure the WebRTC answerer with, where there is one.
    pub fn answerer_key(&self) -> (key: Option<&K>)
        ensures
            match key {
                Some(key) => self@.answerer_key() == Some(*key),
                None => self@.answerer_key() is None,
            },
    {
        if self.has_answerer {
            Some(&self.session_key)
        } else {
            None
        }
    }
}

} // verus!
