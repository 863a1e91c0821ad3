//! Why a handshake fails.

use crate::text::push_decimal;
use vstd::prelude::*;
use vstd::string::*;

verus! {

/// A handshake that did not go through.
#[derive(Debug, PartialEq, Eq)]
pub enum HandshakeError {
    /// The peer speaks another version of the protocol.
    VersionMismatch { role: String, local: u32, peer: u32 },
    Failed(Failure),
}

/// What a `HandshakeError` says.
pub enum HandshakeErrorView {
    VersionMismatch { role: Seq<char>, local: u32, peer: u32 },
    Failed(Failure),
}

/// The step at which a handshake failed.
#[derive(Debug, Clone, Copy, PartialEq, Eq, Structural)]
pub enum Failure {
    InvalidNonceLength,
    InvalidEphemeralKeyLength,
    ServerClosed,
    InvalidServerHello,
    LanProtocolRequired,
    InvalidDeviceKeyLength,
    SignatureMismatch,
    TranscriptMismatch,
    InvalidIdentityKey,
    ClientClosed,
    InvalidClientHello,
    InvalidClientNonceLength,
    ClientClosedDuringKeyExchange,
    InvalidClientKeyMessage,
    ClientKeyMessageRequired,
}

impl View for HandshakeError {
    type V = HandshakeErrorView;

    open spec fn view(&self) -> HandshakeErrorView {
        match self {
            HandshakeError::VersionMismatch { role, local, peer } =>
                HandshakeErrorView::VersionMismatch { role: role@, local: *local, peer: *peer },
            HandshakeError::Failed(failure) => HandshakeErrorView::Failed(*failure),
        }
    }
}

/// The outcome of a handshake step, taken by its view.
pub open spec fn outcome<T: View>(result: Result<T, HandshakeError>) -> Result<
    T::V,
    HandshakeErrorView,
> {
    match result {
        Ok(value) => Ok(value@),
        Err(error) => Err(error@),
    }
}

/// The outcome of a step that failed at `failure`.
pub open spec fn failed<T>(failure: Failure) -> Result<T, HandshakeErrorView> {
    Err(HandshakeErrorView::Failed(failure))
}

impl Failure {
    /// The failure in words.
    pub open spec fn words(self) -> Seq<char> {
        match self {
            Failure::InvalidNonceLength => "invalid nonce length"@,
            Failure::InvalidEphemeralKeyLength => "invalid ephemeral public key length"@,
            Failure::ServerClosed => "server closed the connection"@,
            Failure::InvalidServerHello => "invalid server hello"@,
            Failure::LanProtocolRequired => "LAN protocol required"@,
            Failure::InvalidDeviceKeyLength => "invalid device public key length"@,
            Failure::SignatureMismatch => "device signature mismatch"@,
            Failure::TranscriptMismatch => "signed transcript mismatch"@,
            Failure::InvalidIdentityKey => "invalid device identity key"@,
            Failure::ClientClosed => "client closed the connection"@,
            Failure::InvalidClientHello => "invalid client hello"@,
            Failure::InvalidClientNonceLength => "invalid client nonce length"@,
            Failure::ClientClosedDuringKeyExchange => "client closed during key exchange"@,
            Failure::InvalidClientKeyMessage => "invalid client key message"@,
            Failure::ClientKeyMessageRequired => "client key message required"@,
        }
    }

    /// Says the failure in words.
    fn text(&self) -> (r: &'static str)
        ensures
            r@ == self.words(),
    {
        match self {
            Failure::InvalidNonceLength => "invalid nonce length",
            Failure::InvalidEphemeralKeyLength => "invalid ephemeral public key length",
            Failure::ServerClosed => "server closed the connection",
            Failure::InvalidServerHello => "invalid server hello",
            Failure::LanProtocolRequired => "LAN protocol required",
            Failure::InvalidDeviceKeyLength => "invalid device public key length",
            Failure::SignatureMismatch => "device signature mismatch",
            Failure::TranscriptMismatch => "signed transcript mismatch",
            Failure::InvalidIdentityKey => "invalid device identity key",
            Failure::ClientClosed => "client closed the connection",
            Failure::InvalidClientHello => "invalid client hello",
            Failure::InvalidClientNonceLength => "invalid client nonce length",
            Failure::ClientClosedDuringKeyExchange => "client closed during key exchange",
            Failure::InvalidClientKeyMessage => "invalid client key message",
            Failure::ClientKeyMessageRequired => "client key message required",
        }
    }
}

impl HandshakeErrorView {
    /// The error as a person reads it.
    pub open spec fn message(self) -> Seq<char> {
        match self {
            HandshakeErrorView::VersionMismatch { role, local, peer } =>
                "LAN protocol version mismatch: "@ + role + " "@ + crate::text::decimal(
                    local as nat,
                ) + ", peer "@ + crate::text::decimal(peer as nat),
            HandshakeErrorView::Failed(failure) => "Handshake failed: "@ + failure.words(),
        }
    }
}

impl HandshakeError {
    /// The error as a person reads it.
    pub fn message(&self) -> (text: String)
        ensures
            text@ == self@.message(),
    {
        match self {
            HandshakeError::VersionMismatch { role, local, peer } => {
                let mut text = "LAN protocol version mismatch: ".to_owned();
                text.append(role.as_str());
                text.append(" ");
                push_decimal(&mut text, *local);
                text.append(", peer ");
                push_decimal(&mut text, *peer);
                text
            },
            HandshakeError::Failed(failure) => {
                let mut text = "Handshake failed: ".to_owned();
                text.append(failure.text());
                text
            },
        }
    }
}

/// A view of an error, and the outcome of a step, hold what the error and the result hold.
pub proof fn outcome_holds_what_the_result_holds<T: View>(
    result: Result<T, HandshakeError>,
    failure: Failure,
)
    ensures
        result matches Ok(value) ==> outcome(result) == Ok::<T::V, HandshakeErrorView>(value@),
        result matches Err(HandshakeError::Failed(why)) ==> outcome(result) == Err::<
            T::V,
            HandshakeErrorView,
        >(HandshakeErrorView::Failed(why)),
        result matches Err(HandshakeError::VersionMismatch { role, local, peer }) ==> outcome(
            result,
        ) == Err::<T::V, HandshakeErrorView>(
            HandshakeErrorView::VersionMismatch { role: role@, local, peer },
        ),
        failed::<T::V>(failure) == Err::<T::V, HandshakeErrorView>(
            HandshakeErrorView::Failed(failure),
        ),
{
}

/// A person reads of a version mismatch who refused, then their version, then the peer's, both as
/// decimal numbers; and of any other failure what failed.
pub proof fn message_tells_the_error(role: Seq<char>, local: u32, peer: u32, failure: Failure)
    ensures
        (HandshakeErrorView::VersionMismatch { role, local, peer }).message()
            == "LAN protocol version mismatch: "@ + role + " "@ + crate::text::decimal(
            local as nat,
        ) + ", peer "@ + crate::text::decimal(peer as nat),
        HandshakeErrorView::Failed(failure).message() == "Handshake failed: "@ + failure.words(),
{
}

} // verus!
