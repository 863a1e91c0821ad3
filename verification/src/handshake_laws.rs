//! What holds of every handshake.

use crate::client::{
    client_hello, reply_verdict, signature_check, AwaitingServerHelloView, VerifiedServerView,
};
use crate::crypto::{
    bytes_option, opened_message, opens_what_is_signed, signed_message, BOX_PUBLIC_KEY_BYTES,
    SIGN_PUBLIC_KEY_BYTES,
};
use crate::error::{failed, Failure, HandshakeErrorView};
use crate::messages::{
    ClientHelloView, InboundView, MessageView, PublicKeyView, ServerHelloView,
};
use crate::protocol::{
    big_endian, transcript_bytes, transcript_of, version_check, LanParams, TRANSCRIPT_PREFIX,
};
use crate::server::{
    awaiting_key, identity_of, key_verdict, opening_verdict, secured_with, server_hello,
    AcceptedClientView,
    AwaitingAnswerView, AwaitingClientKeyView, DeviceIdentityView, ReadyToRespondView,
    SealedSessionKeyView,
};
use vstd::prelude::*;
use vstd::utf8::*;

verus! {

/// The values that a transcript binds.
pub struct Bound {
    pub protocol_version: u32,
    pub client_nonce: Seq<u8>,
    pub server_nonce: Seq<u8>,
    pub ephemeral_public_key: Seq<u8>,
    pub webrtc_sdp_answer: Seq<char>,
}

impl Bound {
    /// The transcript of these values, for nonces of `nonce_len` bytes.
    pub open spec fn transcript(self, nonce_len: usize) -> Result<Seq<u8>, HandshakeErrorView> {
        transcript_of(
            LanParams { protocol_version: self.protocol_version, nonce_len },
            self.client_nonce,
            self.server_nonce,
            self.ephemeral_public_key,
            self.webrtc_sdp_answer,
        )
    }
}

/// Two numbers with the same four bytes are the same number.
proof fn big_endian_is_injective(a: u32, b: u32)
    requires
        big_endian(a) == big_endian(b),
    ensures
        a == b,
{
    let x = big_endian(a);
    let y = big_endian(b);
    assert(x[0] == y[0] && x[1] == y[1] && x[2] == y[2] && x[3] == y[3]);
    assert(a / 0x1_00_00_00 < 0x1_00 && b / 0x1_00_00_00 < 0x1_00);
}

/// Two texts with the same UTF-8 bytes are the same text.
proof fn utf8_is_injective(a: Seq<char>, b: Seq<char>)
    requires
        encode_utf8(a) == encode_utf8(b),
    ensures
        a == b,
{
    encode_utf8_decode_utf8(a);
    encode_utf8_decode_utf8(b);
}

/// The transcript binds every value of a handshake: two handshakes with the same transcript agree
/// in the version, in both nonces, in the ephemeral key and in the WebRTC answer.
pub proof fn transcript_binds_every_value(nonce_len: usize, a: Bound, b: Bound)
    requires
        a.transcript(nonce_len) is Ok,
        a.transcript(nonce_len) == b.transcript(nonce_len),
    ensures
        a == b,
{
    let prefix = encode_utf8(TRANSCRIPT_PREFIX@);
    let n = nonce_len as int;
    let x = a.transcript(nonce_len)->Ok_0;
    let y = b.transcript(nonce_len)->Ok_0;
    let p = prefix.len() as int;
    let k = p + 4 + 2 * n + BOX_PUBLIC_KEY_BYTES;
    assert(x.subrange(p, p + 4) =~= big_endian(a.protocol_version));
    assert(y.subrange(p, p + 4) =~= big_endian(b.protocol_version));
    big_endian_is_injective(a.protocol_version, b.protocol_version);
    assert(x.subrange(p + 4, p + 4 + n) =~= a.client_nonce);
    assert(y.subrange(p + 4, p + 4 + n) =~= b.client_nonce);
    assert(x.subrange(p + 4 + n, p + 4 + 2 * n) =~= a.server_nonce);
    assert(y.subrange(p + 4 + n, p + 4 + 2 * n) =~= b.server_nonce);
    assert(x.subrange(p + 4 + 2 * n, k) =~= a.ephemeral_public_key);
    assert(y.subrange(p + 4 + 2 * n, k) =~= b.ephemeral_public_key);
    assert(x.subrange(k, x.len() as int) =~= encode_utf8(a.webrtc_sdp_answer));
    assert(y.subrange(k, y.len() as int) =~= encode_utf8(b.webrtc_sdp_answer));
    utf8_is_injective(a.webrtc_sdp_answer, b.webrtc_sdp_answer);
}

/// A transcript without a WebRTC answer ends with the ephemeral key and has one fixed length, so
/// that peers which know nothing of WebRTC sign the same bytes. An answer is appended to these
/// bytes, and so always changes the transcript.
pub proof fn answer_is_bound_only_where_present(
    params: LanParams,
    client_nonce: Seq<u8>,
    server_nonce: Seq<u8>,
    ephemeral_public_key: Seq<u8>,
    webrtc_sdp_answer: Seq<char>,
)
    requires
        client_nonce.len() == params.nonce_len,
        server_nonce.len() == params.nonce_len,
        ephemeral_public_key.len() == BOX_PUBLIC_KEY_BYTES,
    ensures
        ({
            let base = transcript_bytes(
                params,
                client_nonce,
                server_nonce,
                ephemeral_public_key,
                Seq::empty(),
            );
            let bound = transcript_bytes(
                params,
                client_nonce,
                server_nonce,
                ephemeral_public_key,
                webrtc_sdp_answer,
            );
            &&& base == encode_utf8(TRANSCRIPT_PREFIX@) + big_endian(params.protocol_version)
                + client_nonce + server_nonce + ephemeral_public_key
            &&& base.len() == encode_utf8(TRANSCRIPT_PREFIX@).len() + 4 + params.nonce_len * 2
                + BOX_PUBLIC_KEY_BYTES
            &&& bound == base + encode_utf8(webrtc_sdp_answer)
            &&& webrtc_sdp_answer.len() > 0 ==> bound != base
        }),
{
    let base = transcript_bytes(
        params,
        client_nonce,
        server_nonce,
        ephemeral_public_key,
        Seq::empty(),
    );
    let bound = transcript_bytes(
        params,
        client_nonce,
        server_nonce,
        ephemeral_public_key,
        webrtc_sdp_answer,
    );
    assert(encode_utf8(Seq::<char>::empty()) =~= Seq::<u8>::empty());
    assert(base =~= encode_utf8(TRANSCRIPT_PREFIX@) + big_endian(params.protocol_version)
        + client_nonce + server_nonce + ephemeral_public_key);
    assert(bound =~= base + encode_utf8(webrtc_sdp_answer));
    if bound == base {
        assert(encode_utf8(webrtc_sdp_answer).len() == 0);
        assert(encode_utf8(webrtc_sdp_answer) =~= encode_utf8(Seq::<char>::empty()));
        utf8_is_injective(webrtc_sdp_answer, Seq::empty());
    }
}

/// A hello from a server, as it comes in.
pub open spec fn hello_inbound(hello: ServerHelloView) -> InboundView {
    InboundView::Message(MessageView::LanServerHello(hello))
}

/// The values that a hello and the nonce it should answer stand for.
pub open spec fn bound_by(state: AwaitingServerHelloView, hello: ServerHelloView) -> Bound {
    Bound {
        protocol_version: hello.protocol_version,
        client_nonce: state.client_nonce,
        server_nonce: hello.server_nonce,
        ephemeral_public_key: hello.ephemeral_public_key,
        webrtc_sdp_answer: hello.webrtc_sdp_answer,
    }
}

/// A client accepts a hello exactly where it is of the client's version, names a device key of the
/// right length, and carries a signature that opens under that key to the transcript of this very
/// handshake. What it then takes from the hello is what that transcript binds.
pub proof fn accepted_hello_is_signed(state: AwaitingServerHelloView, hello: ServerHelloView)
    ensures
        reply_verdict(state, hello_inbound(hello)) is Ok <==> {
            &&& hello.protocol_version == state.params.protocol_version
            &&& hello.device_public_key.len() == SIGN_PUBLIC_KEY_BYTES
            &&& bound_by(state, hello).transcript(state.params.nonce_len) matches Ok(owed)
                && opened_message(hello.signature, hello.device_public_key) == Some(owed)
        },
        reply_verdict(state, hello_inbound(hello)) matches Ok(server) ==> server == (
        VerifiedServerView {
            device_public_key: hello.device_public_key,
            ephemeral_public_key: hello.ephemeral_public_key,
            webrtc_sdp_answer: hello.webrtc_sdp_answer,
        }),
{
}

/// One signature of a device is good for one handshake only: where two hellos carry the same
/// signature under the same device key, and clients accept both, the clients drew the same nonce
/// and the hellos agree in everything.
pub proof fn signature_fixes_the_handshake(
    a: AwaitingServerHelloView,
    b: AwaitingServerHelloView,
    hello_a: ServerHelloView,
    hello_b: ServerHelloView,
)
    requires
        a.params.nonce_len == b.params.nonce_len,
        hello_a.signature == hello_b.signature,
        hello_a.device_public_key == hello_b.device_public_key,
        reply_verdict(a, hello_inbound(hello_a)) is Ok,
        reply_verdict(b, hello_inbound(hello_b)) is Ok,
    ensures
        a.client_nonce == b.client_nonce,
        hello_a == hello_b,
{
    accepted_hello_is_signed(a, hello_a);
    accepted_hello_is_signed(b, hello_b);
    transcript_binds_every_value(a.params.nonce_len, bound_by(a, hello_a), bound_by(b, hello_b));
    assert(bound_by(a, hello_a).client_nonce == bound_by(b, hello_b).client_nonce);
}

/// A hello that was replayed from another handshake is refused: the transcript that it was signed
/// over does not hold this client's nonce.
pub proof fn replayed_hello_is_refused(
    params: LanParams,
    recorded_nonce: Seq<u8>,
    fresh_nonce: Seq<u8>,
    hello: ServerHelloView,
)
    requires
        reply_verdict(
            AwaitingServerHelloView { params, client_nonce: recorded_nonce },
            hello_inbound(hello),
        ) is Ok,
        fresh_nonce.len() == params.nonce_len,
        fresh_nonce != recorded_nonce,
    ensures
        reply_verdict(
            AwaitingServerHelloView { params, client_nonce: fresh_nonce },
            hello_inbound(hello),
        ) == failed::<VerifiedServerView>(Failure::TranscriptMismatch),
{
    let recorded = AwaitingServerHelloView { params, client_nonce: recorded_nonce };
    let fresh = AwaitingServerHelloView { params, client_nonce: fresh_nonce };
    accepted_hello_is_signed(recorded, hello);
    if bound_by(recorded, hello).transcript(params.nonce_len) == bound_by(
        fresh,
        hello,
    ).transcript(params.nonce_len) {
        transcript_binds_every_value(
            params.nonce_len,
            bound_by(recorded, hello),
            bound_by(fresh, hello),
        );
        assert(bound_by(recorded, hello).client_nonce == bound_by(fresh, hello).client_nonce);
    }
}

/// A hello that was tampered with on its way is refused, whichever of its values was changed,
/// unless the signature or the device key was changed with it. Where the version and the lengths
/// are left right, it is refused because it is not what was signed.
pub proof fn tampered_hello_is_refused(
    state: AwaitingServerHelloView,
    hello: ServerHelloView,
    tampered: ServerHelloView,
)
    requires
        reply_verdict(state, hello_inbound(hello)) is Ok,
        tampered.signature == hello.signature,
        tampered.device_public_key == hello.device_public_key,
        tampered != hello,
    ensures
        reply_verdict(state, hello_inbound(tampered)) is Err,
        tampered.protocol_version == hello.protocol_version && tampered.server_nonce.len()
            == hello.server_nonce.len() && tampered.ephemeral_public_key.len()
            == hello.ephemeral_public_key.len() ==> reply_verdict(state, hello_inbound(tampered))
            == failed::<VerifiedServerView>(Failure::TranscriptMismatch),
{
    accepted_hello_is_signed(state, hello);
    if reply_verdict(state, hello_inbound(tampered)) is Ok {
        signature_fixes_the_handshake(state, state, hello, tampered);
    }
}

/// A peer of another protocol version is refused for its version, by client and by server, whatever
/// else its hello says.
pub proof fn other_version_is_refused(
    state: AwaitingServerHelloView,
    from_server: ServerHelloView,
    identity: DeviceIdentityView,
    from_client: ClientHelloView,
)
    ensures
        from_server.protocol_version != state.params.protocol_version ==> reply_verdict(
            state,
            InboundView::Message(MessageView::LanServerHello(from_server)),
        ) == Err::<VerifiedServerView, HandshakeErrorView>(
            HandshakeErrorView::VersionMismatch {
                role: "client"@,
                local: state.params.protocol_version,
                peer: from_server.protocol_version,
            },
        ),
        from_client.protocol_version != state.params.protocol_version ==> opening_verdict(
            state.params,
            identity,
            InboundView::Message(MessageView::LanClientHello(from_client)),
        ) == Err::<AcceptedClientView, HandshakeErrorView>(
            HandshakeErrorView::VersionMismatch {
                role: "server"@,
                local: state.params.protocol_version,
                peer: from_client.protocol_version,
            },
        ),
{
}

/// The state in which a server answers `hello`, once it has answered an offer with `answer`.
pub open spec fn ready_for(
    params: LanParams,
    identity: DeviceIdentityView,
    hello: ClientHelloView,
    answer: Seq<char>,
) -> ReadyToRespondView {
    ReadyToRespondView {
        params,
        identity,
        client_nonce: hello.client_nonce,
        webrtc_sdp_answer: if hello.webrtc_sdp_offer.len() == 0 {
            Seq::empty()
        } else {
            answer
        },
        has_answerer: hello.webrtc_sdp_offer.len() > 0,
    }
}

/// A client and a server that speak the same protocol come to terms: the server accepts the
/// client's hello and asks for an answer exactly where there is an offer; the client accepts the
/// hello that the server then signs, and takes from it the server's device key, its ephemeral key
/// and its answer, which is empty where there was no offer. The server's two device keys have to
/// belong together: its public key has to open what its secret key signs of this transcript.
pub proof fn honest_peers_come_to_terms(
    params: LanParams,
    client_nonce: Seq<u8>,
    webrtc_sdp_offer: Seq<char>,
    identity: DeviceIdentityView,
    answer: Seq<char>,
    ephemeral_public_key: Seq<u8>,
    server_nonce: Seq<u8>,
)
    requires
        client_nonce.len() == params.nonce_len,
        server_nonce.len() == params.nonce_len,
        ephemeral_public_key.len() == BOX_PUBLIC_KEY_BYTES,
        identity.public_key.len() == SIGN_PUBLIC_KEY_BYTES,
        opens_what_is_signed(
            identity.public_key,
            identity.secret_key,
            transcript_bytes(
                params,
                client_nonce,
                server_nonce,
                ephemeral_public_key,
                if webrtc_sdp_offer.len() == 0 {
                    Seq::empty()
                } else {
                    answer
                },
            ),
        ),
    ensures
        ({
            let from_client = client_hello(params, client_nonce, webrtc_sdp_offer);
            let ready = ready_for(params, identity, from_client, answer);
            let accepted = opening_verdict(
                params,
                identity,
                InboundView::Message(MessageView::LanClientHello(from_client)),
            );
            let from_server = server_hello(ready, ephemeral_public_key, server_nonce);
            &&& accepted == Ok::<AcceptedClientView, HandshakeErrorView>(
                if webrtc_sdp_offer.len() == 0 {
                    AcceptedClientView::WithoutOffer(ready)
                } else {
                    AcceptedClientView::WithOffer(
                        AwaitingAnswerView { params, identity, client_nonce, webrtc_sdp_offer },
                    )
                },
            )
            &&& from_server is Ok
            &&& reply_verdict(
                AwaitingServerHelloView { params, client_nonce },
                hello_inbound(from_server->Ok_0),
            ) == Ok::<VerifiedServerView, HandshakeErrorView>(
                VerifiedServerView {
                    device_public_key: identity.public_key,
                    ephemeral_public_key,
                    webrtc_sdp_answer: if webrtc_sdp_offer.len() == 0 {
                        Seq::empty()
                    } else {
                        answer
                    },
                },
            )
        }),
{
}

/// The sealed session key that the client sends is the one that the server opens, with the secret
/// key that it kept.
pub proof fn sealed_key_arrives(state: AwaitingClientKeyView, key: PublicKeyView)
    ensures
        key_verdict(state, InboundView::Message(MessageView::PublicKey(key))) == Ok::<
            SealedSessionKeyView,
            HandshakeErrorView,
        >(
            SealedSessionKeyView {
                symmetric_value: key.symmetric_value,
                asymmetric_value: key.asymmetric_value,
                ephemeral_secret_key: state.ephemeral_secret_key,
                has_answerer: state.has_answerer,
            },
        ),
{
}

/// One key secures both of a server's transports: from the hello that it accepted to the session
/// key that it opened, the key for the TCP stream is the opened key; there is a key for a WebRTC
/// answerer exactly where the client made an offer, and it is that same key.
pub proof fn one_key_secures_both_transports<K>(
    params: LanParams,
    identity: DeviceIdentityView,
    hello: ClientHelloView,
    answer: Seq<char>,
    ephemeral_secret_key: Seq<u8>,
    key: PublicKeyView,
    session_key: K,
)
    ensures
        ({
            let ready = ready_for(params, identity, hello, answer);
            let sealed = key_verdict(
                awaiting_key(ready, ephemeral_secret_key),
                InboundView::Message(MessageView::PublicKey(key)),
            );
            let secured = secured_with(sealed->Ok_0, session_key);
            &&& sealed is Ok
            &&& secured.stream_key() == session_key
            &&& secured.answerer_key() == if hello.webrtc_sdp_offer.len() > 0 {
                Some(session_key)
            } else {
                None
            }
        }),
{
}

/// A version is written as four bytes, of which the first weighs most.
pub proof fn version_is_written_most_significant_byte_first(version: u32)
    ensures
        big_endian(version).len() == 4,
        big_endian(version)[0] * 0x100_0000 + big_endian(version)[1] * 0x1_0000 + big_endian(
            version,
        )[2] * 0x100 + big_endian(version)[3] == version,
{
    assert(version / 0x100_0000 < 0x100);
}

/// A transcript can be read back: 26 bytes of prefix, four of version, the first of which weighs
/// most, both nonces, 32 bytes of ephemeral key, and behind them nothing but the answer.
pub proof fn transcript_reads_back(
    params: LanParams,
    client_nonce: Seq<u8>,
    server_nonce: Seq<u8>,
    ephemeral_public_key: Seq<u8>,
    webrtc_sdp_answer: Seq<char>,
    transcript: Seq<u8>,
)
    requires
        transcript_of(
            params,
            client_nonce,
            server_nonce,
            ephemeral_public_key,
            webrtc_sdp_answer,
        ) == Ok::<Seq<u8>, HandshakeErrorView>(transcript),
    ensures
        ({
            let n = params.nonce_len as int;
            &&& transcript.len() >= 62 + 2 * n
            &&& transcript.take(26) == encode_utf8("rustdesk-lan-handshake-v1\0"@)
            &&& transcript[26] * 0x100_0000 + transcript[27] * 0x1_0000 + transcript[28] * 0x100
                + transcript[29] == params.protocol_version
            &&& transcript.subrange(30, 30 + n) == client_nonce
            &&& transcript.subrange(30 + n, 30 + 2 * n) == server_nonce
            &&& transcript.subrange(30 + 2 * n, 62 + 2 * n) == ephemeral_public_key
            &&& transcript.skip(62 + 2 * n) == encode_utf8(webrtc_sdp_answer)
        }),
{
    let n = params.nonce_len as int;
    let prefix = encode_utf8(TRANSCRIPT_PREFIX@);
    let version = big_endian(params.protocol_version);
    reveal_strlit("rustdesk-lan-handshake-v1\0");
    assert(is_ascii_chars(TRANSCRIPT_PREFIX@));
    is_ascii_chars_encode_utf8(TRANSCRIPT_PREFIX@);
    version_is_written_most_significant_byte_first(params.protocol_version);
    assert(transcript.take(26) =~= prefix);
    assert(transcript[26] == version[0] && transcript[27] == version[1] && transcript[28]
        == version[2] && transcript[29] == version[3]);
    assert(transcript.subrange(30, 30 + n) =~= client_nonce);
    assert(transcript.subrange(30 + n, 30 + 2 * n) =~= server_nonce);
    assert(transcript.subrange(30 + 2 * n, 62 + 2 * n) =~= ephemeral_public_key);
    assert(transcript.skip(62 + 2 * n) =~= encode_utf8(webrtc_sdp_answer));
}

/// Values have a transcript exactly where they have their lengths, whatever else they are: a nonce
/// of another length is told first, then a key that has not 32 bytes.
pub proof fn whole_values_have_a_transcript(
    params: LanParams,
    client_nonce: Seq<u8>,
    server_nonce: Seq<u8>,
    ephemeral_public_key: Seq<u8>,
    webrtc_sdp_answer: Seq<char>,
)
    ensures
        ({
            let nonces = client_nonce.len() == params.nonce_len && server_nonce.len()
                == params.nonce_len;
            let key = ephemeral_public_key.len() == 32;
            let transcript = transcript_of(
                params,
                client_nonce,
                server_nonce,
                ephemeral_public_key,
                webrtc_sdp_answer,
            );
            &&& transcript is Ok <==> nonces && key
            &&& transcript == failed::<Seq<u8>>(Failure::InvalidNonceLength) <==> !nonces
            &&& transcript == failed::<Seq<u8>>(Failure::InvalidEphemeralKeyLength) <==> nonces
                && !key
        }),
{
}

/// A peer is refused for its version exactly where that differs; the refusal tells both versions
/// and who refuses.
pub proof fn only_another_version_is_refused(params: LanParams, remote: u32, role: Seq<char>)
    ensures
        version_check(params, remote, role) is Ok <==> remote == params.protocol_version,
        version_check(params, remote, role) matches Err(error) ==> error == (
        HandshakeErrorView::VersionMismatch { role, local: params.protocol_version, peer: remote }),
{
}

/// A signature is good for the message that it opens to, and for no other.
pub proof fn signature_is_good_for_its_message(
    opened: Option<Vec<u8>>,
    message: Seq<u8>,
    expected: Seq<u8>,
)
    ensures
        opened is None ==> bytes_option(opened) is None,
        opened matches Some(bytes) ==> bytes_option(opened) == Some(bytes@),
        signature_check(Some(message), expected) is Ok <==> message == expected,
        message != expected ==> signature_check(Some(message), expected) == failed::<()>(
            Failure::TranscriptMismatch,
        ),
        signature_check(None, expected) == failed::<()>(Failure::SignatureMismatch),
{
}

/// A client's hello tells its version, its nonce and its offer, and claims no capabilities.
pub proof fn client_hello_tells_what_it_was_given(
    params: LanParams,
    client_nonce: Seq<u8>,
    webrtc_sdp_offer: Seq<char>,
)
    ensures
        client_hello(params, client_nonce, webrtc_sdp_offer).protocol_version
            == params.protocol_version,
        client_hello(params, client_nonce, webrtc_sdp_offer).client_nonce == client_nonce,
        client_hello(params, client_nonce, webrtc_sdp_offer).client_capabilities == 0,
        client_hello(params, client_nonce, webrtc_sdp_offer).webrtc_sdp_offer == webrtc_sdp_offer,
{
}

/// Whatever is no hello of a server is refused as what it is.
pub proof fn client_takes_nothing_but_a_hello(state: AwaitingServerHelloView, reply: InboundView)
    ensures
        reply == InboundView::Closed ==> reply_verdict(state, reply) == failed::<
            VerifiedServerView,
        >(Failure::ServerClosed),
        reply == InboundView::Malformed ==> reply_verdict(state, reply) == failed::<
            VerifiedServerView,
        >(Failure::InvalidServerHello),
        reply matches InboundView::Message(message) ==> message !is LanServerHello
            ==> reply_verdict(state, reply) == failed::<VerifiedServerView>(
            Failure::LanProtocolRequired,
        ),
{
}

/// A server's hello of the right version is refused for the first thing that is wrong with it: the
/// length of its device key, of a nonce, of its ephemeral key; a signature that does not open under
/// its device key; one that opens to another transcript. Where nothing is, it is accepted, and its
/// keys and its answer are taken from it as they are.
pub proof fn client_judges_every_hello(state: AwaitingServerHelloView, hello: ServerHelloView)
    requires
        hello.protocol_version == state.params.protocol_version,
    ensures
        ({
            let verdict = reply_verdict(
                state,
                InboundView::Message(MessageView::LanServerHello(hello)),
            );
            let device_key = hello.device_public_key.len() == 32;
            let nonces = state.client_nonce.len() == state.params.nonce_len
                && hello.server_nonce.len() == state.params.nonce_len;
            let key = hello.ephemeral_public_key.len() == 32;
            let owed = transcript_bytes(
                state.params,
                state.client_nonce,
                hello.server_nonce,
                hello.ephemeral_public_key,
                hello.webrtc_sdp_answer,
            );
            let opened = opened_message(hello.signature, hello.device_public_key);
            &&& !device_key ==> verdict == failed::<VerifiedServerView>(
                Failure::InvalidDeviceKeyLength,
            )
            &&& device_key && !nonces ==> verdict == failed::<VerifiedServerView>(
                Failure::InvalidNonceLength,
            )
            &&& device_key && nonces && !key ==> verdict == failed::<VerifiedServerView>(
                Failure::InvalidEphemeralKeyLength,
            )
            &&& device_key && nonces && key && opened is None ==> verdict == failed::<
                VerifiedServerView,
            >(Failure::SignatureMismatch)
            &&& device_key && nonces && key && opened is Some && opened != Some(owed) ==> verdict
                == failed::<VerifiedServerView>(Failure::TranscriptMismatch)
            &&& device_key && nonces && key && opened == Some(owed) ==> {
                &&& verdict is Ok
                &&& verdict->Ok_0.device_public_key == hello.device_public_key
                &&& verdict->Ok_0.ephemeral_public_key == hello.ephemeral_public_key
                &&& verdict->Ok_0.webrtc_sdp_answer == hello.webrtc_sdp_answer
            }
        }),
{
}

/// Whatever is no hello of a client is refused as what it is.
pub proof fn server_takes_nothing_but_a_hello(
    params: LanParams,
    identity: DeviceIdentityView,
    opening: InboundView,
)
    ensures
        opening == InboundView::Closed ==> opening_verdict(params, identity, opening) == failed::<
            AcceptedClientView,
        >(Failure::ClientClosed),
        opening == InboundView::Malformed ==> opening_verdict(params, identity, opening)
            == failed::<AcceptedClientView>(Failure::InvalidClientHello),
        opening matches InboundView::Message(message) ==> message !is LanClientHello
            ==> opening_verdict(params, identity, opening) == failed::<AcceptedClientView>(
            Failure::LanProtocolRequired,
        ),
{
}

/// A client's hello of the right version is accepted exactly where its nonce has its length. The
/// server then goes on with the client's nonce and with its own keys; it has an offer to answer
/// exactly where the client made one, and that is the client's.
pub proof fn server_judges_every_hello(
    params: LanParams,
    identity: DeviceIdentityView,
    hello: ClientHelloView,
)
    requires
        hello.protocol_version == params.protocol_version,
    ensures
        ({
            let verdict = opening_verdict(
                params,
                identity,
                InboundView::Message(MessageView::LanClientHello(hello)),
            );
            &&& hello.client_nonce.len() != params.nonce_len ==> verdict == failed::<
                AcceptedClientView,
            >(Failure::InvalidClientNonceLength)
            &&& hello.client_nonce.len() == params.nonce_len ==> match verdict {
                Err(_) => false,
                Ok(AcceptedClientView::WithOffer(state)) => {
                    &&& hello.webrtc_sdp_offer.len() > 0
                    &&& state.webrtc_sdp_offer == hello.webrtc_sdp_offer
                    &&& state.client_nonce == hello.client_nonce
                    &&& state.params == params
                    &&& state.identity.secret_key == identity.secret_key
                    &&& state.identity.public_key == identity.public_key
                },
                Ok(AcceptedClientView::WithoutOffer(state)) => {
                    &&& hello.webrtc_sdp_offer.len() == 0
                    &&& state.webrtc_sdp_answer.len() == 0
                    &&& !state.has_answerer
                    &&& state.client_nonce == hello.client_nonce
                    &&& state.params == params
                    &&& state.identity.secret_key == identity.secret_key
                    &&& state.identity.public_key == identity.public_key
                },
            }
        }),
{
}

/// A server's hello tells its version, its device key, and the ephemeral key, the nonce and the
/// answer of this handshake; and it carries, signed with the device's secret key, the transcript of
/// just these values and the client's nonce.
pub proof fn server_hello_tells_what_it_signs(
    state: ReadyToRespondView,
    ephemeral_public_key: Seq<u8>,
    server_nonce: Seq<u8>,
)
    requires
        state.client_nonce.len() == state.params.nonce_len,
        server_nonce.len() == state.params.nonce_len,
        ephemeral_public_key.len() == 32,
    ensures
        server_hello(state, ephemeral_public_key, server_nonce) matches Ok(hello) && {
            &&& hello.protocol_version == state.params.protocol_version
            &&& hello.server_nonce == server_nonce
            &&& hello.device_public_key == state.identity.public_key
            &&& hello.ephemeral_public_key == ephemeral_public_key
            &&& hello.webrtc_sdp_answer == state.webrtc_sdp_answer
            &&& hello.signature == signed_message(
                transcript_bytes(
                    state.params,
                    state.client_nonce,
                    server_nonce,
                    ephemeral_public_key,
                    state.webrtc_sdp_answer,
                ),
                state.identity.secret_key,
            )
        },
{
}

/// Whatever is no key message is refused as what it is; a key message is taken as it is, with the
/// secret key that the server kept for it.
pub proof fn server_judges_every_key_message(state: AwaitingClientKeyView, reply: InboundView)
    ensures
        match reply {
            InboundView::Closed => key_verdict(state, reply) == failed::<SealedSessionKeyView>(
                Failure::ClientClosedDuringKeyExchange,
            ),
            InboundView::Malformed => key_verdict(state, reply) == failed::<SealedSessionKeyView>(
                Failure::InvalidClientKeyMessage,
            ),
            InboundView::Message(MessageView::PublicKey(key)) => {
                &&& key_verdict(state, reply) is Ok
                &&& key_verdict(state, reply)->Ok_0.symmetric_value == key.symmetric_value
                &&& key_verdict(state, reply)->Ok_0.asymmetric_value == key.asymmetric_value
                &&& key_verdict(state, reply)->Ok_0.ephemeral_secret_key
                    == state.ephemeral_secret_key
                &&& key_verdict(state, reply)->Ok_0.has_answerer == state.has_answerer
            },
            InboundView::Message(_) => key_verdict(state, reply) == failed::<SealedSessionKeyView>(
                Failure::ClientKeyMessageRequired,
            ),
        },
{
}

/// A key pair makes an identity exactly where the secret key has 64 bytes and the public key 32,
/// and the identity has these very keys.
pub proof fn whole_keys_make_an_identity(secret_key: Seq<u8>, public_key: Seq<u8>)
    ensures
        identity_of(secret_key, public_key) is Ok <==> secret_key.len() == 64 && public_key.len()
            == 32,
        identity_of(secret_key, public_key) matches Ok(identity) ==> identity.secret_key
            == secret_key && identity.public_key == public_key,
        identity_of(secret_key, public_key) matches Err(error) ==> error
            == HandshakeErrorView::Failed(Failure::InvalidIdentityKey),
{
}

/// The secret key that opens the session key is the one that the server kept when it answered.
pub proof fn kept_key_is_the_one_that_opens(
    state: ReadyToRespondView,
    ephemeral_secret_key: Seq<u8>,
    key: PublicKeyView,
)
    ensures
        key_verdict(
            awaiting_key(state, ephemeral_secret_key),
            InboundView::Message(MessageView::PublicKey(key)),
        ) matches Ok(sealed) && sealed.ephemeral_secret_key == ephemeral_secret_key
            && sealed.has_answerer == state.has_answerer,
{
}

} // verus!
