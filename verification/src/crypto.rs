//! Keys of the Curve25519 group in its Montgomery form, through
//! `curve25519-dalek`, with randomness from the operating system.

use rand_core::RngCore;
use vstd::prelude::*;

verus! {

/// Length of an encoded group element.
pub const PUBLIC_KEY_LENGTH: usize = 32;

/// Length of an encoded scalar.
pub const PRIVATE_KEY_LENGTH: usize = 32;

/// The encoded group element that is the base point multiplied by the scalar
/// that `scalar` encodes, clamped: what `MontgomeryPoint::mul_base_clamped`
/// returns for `scalar`, as bytes.
pub uninterp spec fn base_point_multiple(scalar: Seq<u8>) -> Seq<u8>;

/// A scalar of the group, as its 32 little-endian bytes. Every value stands
/// for a scalar other than zero, since multiplication clamps it.
#[derive(Clone, Copy)]
pub struct PrivateKey {
    bytes: [u8; PRIVATE_KEY_LENGTH],
}

/// An element of the group, as the 32 bytes of its encoding.
#[derive(Clone, Copy, Debug, PartialEq)]
pub struct PublicKey {
    bytes: [u8; PUBLIC_KEY_LENGTH],
}

impl View for PrivateKey {
    type V = Seq<u8>;

    closed spec fn view(&self) -> Seq<u8> {
        self.bytes@
    }
}

impl View for PublicKey {
    type V = Seq<u8>;

    closed spec fn view(&self) -> Seq<u8> {
        self.bytes@
    }
}

/// Whether `key` is the base point multiplied by some scalar.
pub open spec fn is_base_point_multiple(key: PublicKey) -> bool {
    exists|scalar: Seq<u8>|
        scalar.len() == PRIVATE_KEY_LENGTH && key@ == #[trigger] base_point_multiple(scalar)
}

/// Calls `fill_bytes` of `rand_core::OsRng` on a buffer of 32 bytes.
///
/// Trusted: nothing is claimed of the bytes returned. The call panics where
/// the operating system cannot supply randomness.
#[verifier::external_body]
fn random_bytes() -> (bytes: [u8; PRIVATE_KEY_LENGTH]) {
    let mut bytes = [0u8; PRIVATE_KEY_LENGTH];
    rand_core::OsRng.fill_bytes(&mut bytes);
    bytes
}

/// Calls `MontgomeryPoint::mul_base_clamped` of `curve25519-dalek`.
///
/// Trusted: the encoding returned is a function of the scalar's bytes alone.
#[verifier::external_body]
fn mul_base_clamped(scalar: &[u8; PRIVATE_KEY_LENGTH]) -> (element: [u8; PUBLIC_KEY_LENGTH])
    ensures
        element@ == base_point_multiple(scalar@),
{
    curve25519_dalek::montgomery::MontgomeryPoint::mul_base_clamped(*scalar).to_bytes()
}

impl PrivateKey {
    /// The key whose encoding is `bytes`.
    pub fn from_bytes(bytes: [u8; PRIVATE_KEY_LENGTH]) -> (key: Self)
        ensures
            key@ == bytes@,
    {
        PrivateKey { bytes }
    }

    /// The encoding of the key.
    pub fn to_bytes(&self) -> (bytes: [u8; PRIVATE_KEY_LENGTH])
        ensures
            bytes@ == self@,
    {
        self.bytes
    }

    /// The public key that belongs to this private key: the base point
    /// multiplied by it.
    pub fn public_key(&self) -> (public: PublicKey)
        ensures
            public@ == base_point_multiple(self@),
            is_base_point_multiple(public),
    {
        PublicKey { bytes: mul_base_clamped(&self.bytes) }
    }
}

impl PublicKey {
    /// The key whose encoding is `bytes`.
    pub fn from_bytes(bytes: [u8; PUBLIC_KEY_LENGTH]) -> (key: Self)
        ensures
            key@ == bytes@,
    {
        PublicKey { bytes }
    }

    /// The encoding of the key.
    pub fn to_bytes(&self) -> (bytes: [u8; PUBLIC_KEY_LENGTH])
        ensures
            bytes@ == self@,
    {
        self.bytes
    }
}

/// A private key drawn at random.
pub fn generate_secret() -> (secret: PrivateKey) {
    PrivateKey { bytes: random_bytes() }
}

/// A group element drawn at random: the public key of a private key that is
/// drawn and then forgotten.
pub fn generate_random_curve_point() -> (point: PublicKey)
    ensures
        is_base_point_multiple(point),
{
    generate_secret().public_key()
}

/// A fresh pair of a private key and the public key that belongs to it.
pub fn keygen() -> (pair: (PrivateKey, PublicKey))
    ensures
        pair.1@ == base_point_multiple(pair.0@),
{
    let private = generate_secret();
    let public = private.public_key();
    (private, public)
}

} // verus!
