//! The sodium primitives that the handshake rests on.

use sodiumoxide::crypto::{box_, sign};
use sodiumoxide::randombytes;
use vstd::prelude::*;

verus! {

/// Bytes of a device's public signing key.
pub const SIGN_PUBLIC_KEY_BYTES: usize = 32;

/// Bytes of a device's secret signing key.
pub const SIGN_SECRET_KEY_BYTES: usize = 64;

/// Bytes of an ephemeral public key.
pub const BOX_PUBLIC_KEY_BYTES: usize = 32;

/// Bytes of an ephemeral secret key.
pub const BOX_SECRET_KEY_BYTES: usize = 32;

/// The most random bytes that can be drawn at once, on every platform.
pub const RANDOM_BYTES_MAX: usize = 0xffff_ffff;

/// The signed message that `sign::sign` makes of `message` with `secret_key`.
pub uninterp spec fn signed_message(message: Seq<u8>, secret_key: Seq<u8>) -> Seq<u8>;

/// What `sign::verify` finds in `signed` under `public_key`: the message, or nothing where the
/// signature does not hold.
pub uninterp spec fn opened_message(signed: Seq<u8>, public_key: Seq<u8>) -> Option<Seq<u8>>;

/// The public key that `box_::SecretKey::public_key` computes for `secret_key`.
pub uninterp spec fn box_public_key(secret_key: Seq<u8>) -> Seq<u8>;

/// What the secret key signs of `message`, the public key opens.
pub open spec fn opens_what_is_signed(
    public_key: Seq<u8>,
    secret_key: Seq<u8>,
    message: Seq<u8>,
) -> bool {
    opened_message(signed_message(message, secret_key), public_key) == Some(message)
}

/// An `Option` of bytes, taken by its view.
pub open spec fn bytes_option(bytes: Option<Vec<u8>>) -> Option<Seq<u8>> {
    match bytes {
        Some(bytes) => Some(bytes@),
        None => None,
    }
}

/// Calls `sodiumoxide::randombytes::randombytes`, which returns `size` random bytes. Nothing but
/// their number is claimed. It allocates them in one piece, and on some platforms aborts where
/// more than `RANDOM_BYTES_MAX` are asked for, hence the bounds.
#[verifier::external_body]
pub(crate) fn random_bytes(size: usize) -> (bytes: Vec<u8>)
    requires
        size <= isize::MAX,
        size <= RANDOM_BYTES_MAX,
    ensures
        bytes@.len() == size,
{
    randombytes::randombytes(size)
}

/// Calls `sodiumoxide::crypto::box_::gen_keypair`, which draws a secret key at random and derives
/// its public key. The pair comes back as (public, secret). Claimed are the two lengths, and that
/// the public key is the one that belongs to the secret key.
#[verifier::external_body]
pub(crate) fn generate_box_keypair() -> (pair: (Vec<u8>, Vec<u8>))
    ensures
        pair.0@.len() == BOX_PUBLIC_KEY_BYTES,
        pair.1@.len() == BOX_SECRET_KEY_BYTES,
        pair.0@ == box_public_key(pair.1@),
{
    let (public_key, secret_key) = box_::gen_keypair();
    (public_key.0.to_vec(), secret_key.0.to_vec())
}

/// Calls `sodiumoxide::crypto::sign::sign`. Its result is a function of the message and the key,
/// named `signed_message`; the key has to have the length of a secret signing key.
#[verifier::external_body]
pub(crate) fn sign_message(message: &[u8], secret_key: &[u8]) -> (signed: Vec<u8>)
    requires
        secret_key@.len() == SIGN_SECRET_KEY_BYTES,
    ensures
        signed@ == signed_message(message@, secret_key@),
{
    let mut key = [0u8; sign::SECRETKEYBYTES];
    key.copy_from_slice(secret_key);
    sign::sign(message, &sign::SecretKey(key))
}

/// Calls `sodiumoxide::crypto::sign::verify`. Its result is a function of the signed message and
/// the key, named `opened_message`; the key has to have the length of a public signing key. That
/// only the holder of the secret key can make what opens under the public key is not claimed.
#[verifier::external_body]
pub(crate) fn open_message(signed: &[u8], public_key: &[u8]) -> (message: Option<Vec<u8>>)
    requires
        public_key@.len() == SIGN_PUBLIC_KEY_BYTES,
    ensures
        bytes_option(message) == opened_message(signed@, public_key@),
{
    let mut key = [0u8; sign::PUBLICKEYBYTES];
    key.copy_from_slice(public_key);
    sign::verify(signed, &sign::PublicKey(key)).ok()
}

} // verus!
