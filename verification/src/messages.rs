//! The messages that two LAN peers exchange before a session, as plain values.

use vstd::prelude::*;

verus! {

/// The client's opening message.
#[derive(Debug, PartialEq, Eq)]
pub struct LanClientHello {
    pub protocol_version: u32,
    pub client_nonce: Vec<u8>,
    pub client_capabilities: u64,
    /// The client's WebRTC offer; empty where it wants no WebRTC transport.
    pub webrtc_sdp_offer: String,
}

/// What a `LanClientHello` says.
pub struct ClientHelloView {
    pub protocol_version: u32,
    pub client_nonce: Seq<u8>,
    pub client_capabilities: u64,
    pub webrtc_sdp_offer: Seq<char>,
}

impl View for LanClientHello {
    type V = ClientHelloView;

    open spec fn view(&self) -> ClientHelloView {
        ClientHelloView {
            protocol_version: self.protocol_version,
            client_nonce: self.client_nonce@,
            client_capabilities: self.client_capabilities,
            webrtc_sdp_offer: self.webrtc_sdp_offer@,
        }
    }
}

/// The server's answer to a `LanClientHello`.
#[derive(Debug, PartialEq, Eq)]
pub struct LanServerHello {
    pub protocol_version: u32,
    pub server_nonce: Vec<u8>,
    pub device_public_key: Vec<u8>,
    pub ephemeral_public_key: Vec<u8>,
    /// The transcript of the handshake, signed with the device's key.
    pub signature: Vec<u8>,
    /// The server's WebRTC answer; empty where the client made no offer.
    pub webrtc_sdp_answer: String,
}

/// What a `LanServerHello` says.
pub struct ServerHelloView {
    pub protocol_version: u32,
    pub server_nonce: Seq<u8>,
    pub device_public_key: Seq<u8>,
    pub ephemeral_public_key: Seq<u8>,
    pub signature: Seq<u8>,
    pub webrtc_sdp_answer: Seq<char>,
}

impl View for LanServerHello {
    type V = ServerHelloView;

    open spec fn view(&self) -> ServerHelloView {
        ServerHelloView {
            protocol_version: self.protocol_version,
            server_nonce: self.server_nonce@,
            device_public_key: self.device_public_key@,
            ephemeral_public_key: self.ephemeral_public_key@,
            signature: self.signature@,
            webrtc_sdp_answer: self.webrtc_sdp_answer@,
        }
    }
}

/// The client's half of the key exchange.
#[derive(Debug, PartialEq, Eq)]
pub struct PublicKey {
    pub asymmetric_value: Vec<u8>,
    pub symmetric_value: Vec<u8>,
}

/// What a `PublicKey` message says.
pub struct PublicKeyView {
    pub asymmetric_value: Seq<u8>,
    pub symmetric_value: Seq<u8>,
}

impl View for PublicKey {
    type V = PublicKeyView;

    open spec fn view(&self) -> PublicKeyView {
        PublicKeyView {
            asymmetric_value: self.asymmetric_value@,
            symmetric_value: self.symmetric_value@,
        }
    }
}

/// One ICE candidate of a WebRTC connection that is being set up.
#[derive(Debug, PartialEq, Eq)]
pub struct WebrtcIce {
    pub session_key: String,
    pub candidate: String,
}

/// What a `WebrtcIce` message says.
pub struct IceView {
    pub session_key: Seq<char>,
    pub candidate: Seq<char>,
}

impl View for WebrtcIce {
    type V = IceView;

    open spec fn view(&self) -> IceView {
        IceView { session_key: self.session_key@, candidate: self.candidate@ }
    }
}

/// A message of the session protocol. Those that play no part before the session are `Other`.
#[derive(Debug, PartialEq, Eq)]
pub enum Message {
    LanClientHello(LanClientHello),
    LanServerHello(LanServerHello),
    PublicKey(PublicKey),
    WebrtcIce(WebrtcIce),
    Other,
}

/// What a `Message` says.
pub enum MessageView {
    LanClientHello(ClientHelloView),
    LanServerHello(ServerHelloView),
    PublicKey(PublicKeyView),
    WebrtcIce(IceView),
    Other,
}

impl View for Message {
    type V = MessageView;

    open spec fn view(&self) -> MessageView {
        match self {
            Message::LanClientHello(hello) => MessageView::LanClientHello(hello@),
            Message::LanServerHello(hello) => MessageView::LanServerHello(hello@),
            Message::PublicKey(key) => MessageView::PublicKey(key@),
            Message::WebrtcIce(ice) => MessageView::WebrtcIce(ice@),
            Message::Other => MessageView::Other,
        }
    }
}

/// What a read from the peer's stream brought.
#[derive(Debug, PartialEq, Eq)]
pub enum Inbound {
    /// The peer closed the stream.
    Closed,
    /// A frame that is no message of the protocol.
    Malformed,
    Message(Message),
}

/// What an `Inbound` says.
pub enum InboundView {
    Closed,
    Malformed,
    Message(MessageView),
}

impl View for Inbound {
    type V = InboundView;

    open spec fn view(&self) -> InboundView {
        match self {
            Inbound::Closed => InboundView::Closed,
            Inbound::Malformed => InboundView::Malformed,
            Inbound::Message(message) => InboundView::Message(message@),
        }
    }
}

/// A hello of a client is seen field by field.
pub proof fn client_hello_is_seen_as_it_is(hello: LanClientHello)
    ensures
        hello@.protocol_version == hello.protocol_version,
        hello@.client_nonce == hello.client_nonce@,
        hello@.client_capabilities == hello.client_capabilities,
        hello@.webrtc_sdp_offer == hello.webrtc_sdp_offer@,
{
}

/// A hello of a server is seen field by field.
pub proof fn server_hello_is_seen_as_it_is(hello: LanServerHello)
    ensures
        hello@.protocol_version == hello.protocol_version,
        hello@.server_nonce == hello.server_nonce@,
        hello@.device_public_key == hello.device_public_key@,
        hello@.ephemeral_public_key == hello.ephemeral_public_key@,
        hello@.signature == hello.signature@,
        hello@.webrtc_sdp_answer == hello.webrtc_sdp_answer@,
{
}

/// Whatever comes in is seen as what it is, with the fields that it has.
pub proof fn inbound_is_seen_as_it_is(inbound: Inbound)
    ensures
        match inbound {
            Inbound::Closed => inbound@ is Closed,
            Inbound::Malformed => inbound@ is Malformed,
            Inbound::Message(Message::LanClientHello(hello)) => inbound@ == InboundView::Message(
                MessageView::LanClientHello(hello@),
            ),
            Inbound::Message(Message::LanServerHello(hello)) => inbound@ == InboundView::Message(
                MessageView::LanServerHello(hello@),
            ),
            Inbound::Message(Message::PublicKey(key)) => inbound@ matches InboundView::Message(
                MessageView::PublicKey(seen),
            ) && seen.asymmetric_value == key.asymmetric_value@ && seen.symmetric_value
                == key.symmetric_value@,
            Inbound::Message(Message::WebrtcIce(ice)) => inbound@ matches InboundView::Message(
                MessageView::WebrtcIce(seen),
            ) && seen.session_key == ice.session_key@ && seen.candidate == ice.candidate@,
            Inbound::Message(Message::Other) => inbound@ == InboundView::Message(
                MessageView::Other,
            ),
        },
{
}

} // verus!
