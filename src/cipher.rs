//! The AEAD cipher handle: AES-GCM over 128-, 192- and 256-bit keys with
//! 12- to 16-byte nonces, ChaCha20-Poly1305 and XChaCha20-Poly1305, behind
//! one interface. `encrypt` frames its output as `nonce || ciphertext || tag`
//! under a fresh random nonce; the `_at` forms work in place under a nonce
//! and associated data that the caller gives.
use vstd::prelude::*;
use crate::err::{CipherError, ErrorKind};
use crate::rng::{block_byte, AppRngCore, AppRngSeed};
use aes_gcm::aead::consts::{U12, U13, U14, U15, U16};
use aes_gcm::aead::generic_array::GenericArray;
use aes_gcm::aead::rand_core::RngCore;
use aes_gcm::aead::{AeadInPlace, KeyInit, OsRng};
use aes_gcm::aes::{Aes128, Aes192, Aes256};
use aes_gcm::AesGcm;
use vstd::slice::slice_to_vec;
use chacha20poly1305::{ChaCha20Poly1305, XChaCha20Poly1305};

verus! {

/// Block cipher of the AES-GCM family; AES-256 by default.
#[derive(Debug, Clone, Copy, PartialEq, Eq, Structural)]
pub enum AesSpec {
    Aes128,
    Aes192,
    Aes256,
}

/// Stream cipher of the ChaCha-Poly1305 family; ChaCha20 by default.
#[derive(Debug, Clone, Copy, PartialEq, Eq, Structural)]
pub enum ChaSpec {
    ChaCha20,
    XChaCha20,
}

/// Nonce size, in bytes, of an AES-GCM cipher; 12 by default.
#[derive(Debug, Clone, Copy, PartialEq, Eq, Structural)]
pub enum AesNonce {
    U12,
    U13,
    U14,
    U15,
    U16,
}

impl AesSpec {
    pub fn default() -> (r: AesSpec)
        ensures
            r == AesSpec::Aes256,
    {
        AesSpec::Aes256
    }
}

impl ChaSpec {
    pub fn default() -> (r: ChaSpec)
        ensures
            r == ChaSpec::ChaCha20,
    {
        ChaSpec::ChaCha20
    }
}

impl AesNonce {
    pub fn default() -> (r: AesNonce)
        ensures
            r == AesNonce::U12,
    {
        AesNonce::U12
    }
}

/// The algorithm of a cipher handle.
#[derive(Debug, Clone, Copy, PartialEq, Eq, Structural)]
pub enum Encryption {
    AES { cipher: AesSpec, nonce: AesNonce },
    ChaCha { cipher: ChaSpec },
}

/// Key length of an algorithm, in bytes.
pub open spec fn key_len(cfg: Encryption) -> nat {
    match cfg {
        Encryption::AES { cipher: AesSpec::Aes128, .. } => 16,
        Encryption::AES { cipher: AesSpec::Aes192, .. } => 24,
        Encryption::AES { cipher: AesSpec::Aes256, .. } => 32,
        Encryption::ChaCha { .. } => 32,
    }
}

/// Nonce length of an algorithm, in bytes.
pub open spec fn nonce_len(cfg: Encryption) -> nat {
    match cfg {
        Encryption::AES { nonce: AesNonce::U12, .. } => 12,
        Encryption::AES { nonce: AesNonce::U13, .. } => 13,
        Encryption::AES { nonce: AesNonce::U14, .. } => 14,
        Encryption::AES { nonce: AesNonce::U15, .. } => 15,
        Encryption::AES { nonce: AesNonce::U16, .. } => 16,
        Encryption::ChaCha { cipher: ChaSpec::ChaCha20 } => 12,
        Encryption::ChaCha { cipher: ChaSpec::XChaCha20 } => 24,
    }
}

/// Length of the authentication tag of every supported algorithm.
pub const TAG_LEN: usize = 16;

/// Longest plaintext and associated data that every supported algorithm
/// seals: 2^36 bytes.
pub const MAX_SEALED_LEN: u64 = 0x10_0000_0000;

/// What algorithm `cfg` under `key` and `nonce` makes of the plaintext
/// `pt` with associated data `aad`: the ciphertext followed by the tag.
pub uninterp spec fn aead_sealed(cfg: Encryption, key: Seq<u8>, nonce: Seq<u8>, aad: Seq<u8>, pt: Seq<u8>) -> Seq<u8>;

/// Relies on aead's `OsRng` (`RngCore::fill_bytes`): `n` bytes from the
/// operating system's random source.
#[verifier::external_body]
fn random_bytes(n: usize) -> (r: Vec<u8>)
    ensures
        r@.len() == n,
{
    let mut r = vec![0u8; n];
    OsRng.fill_bytes(&mut r);
    r
}

/// Relies on aes_gcm's `AeadInPlace::encrypt_in_place` for AES-128-GCM with a 12-byte nonce:
/// replaces `buf` by its ciphertext and tag.
#[verifier::external_body]
fn seal_aes128_u12(key: &[u8], nonce: &[u8], aad: &[u8], buf: &mut Vec<u8>) -> (r: bool)
    requires
        key@.len() == 16,
        nonce@.len() == 12,
    ensures
        r ==> final(buf)@ == aead_sealed(Encryption::AES { cipher: AesSpec::Aes128, nonce: AesNonce::U12 }, key@, nonce@, aad@, old(buf)@),
        r ==> final(buf)@.len() == old(buf)@.len() + 16,
        old(buf)@.len() <= 0x10_0000_0000 && aad@.len() <= 0x10_0000_0000 ==> r,
{
    let c = AesGcm::<Aes128, U12>::new(GenericArray::from_slice(key));
    c.encrypt_in_place(GenericArray::from_slice(nonce), aad, buf).is_ok()
}

/// Relies on aes_gcm's `AeadInPlace::decrypt_in_place` for AES-128-GCM with a 12-byte nonce:
/// replaces `buf` by the plaintext when the tag checks out.
#[verifier::external_body]
fn open_aes128_u12(key: &[u8], nonce: &[u8], aad: &[u8], buf: &mut Vec<u8>) -> (r: bool)
    requires
        key@.len() == 16,
        nonce@.len() == 12,
    ensures
        r ==> aead_sealed(Encryption::AES { cipher: AesSpec::Aes128, nonce: AesNonce::U12 }, key@, nonce@, aad@, final(buf)@) == old(buf)@,
        forall|p: Seq<u8>| aead_sealed(Encryption::AES { cipher: AesSpec::Aes128, nonce: AesNonce::U12 }, key@, nonce@, aad@, p) == old(buf)@ ==> r && final(buf)@ == p,
{
    let c = AesGcm::<Aes128, U12>::new(GenericArray::from_slice(key));
    c.decrypt_in_place(GenericArray::from_slice(nonce), aad, buf).is_ok()
}

/// Relies on aes_gcm's `AeadInPlace::encrypt_in_place` for AES-128-GCM with a 13-byte nonce:
/// replaces `buf` by its ciphertext and tag.
#[verifier::external_body]
fn seal_aes128_u13(key: &[u8], nonce: &[u8], aad: &[u8], buf: &mut Vec<u8>) -> (r: bool)
    requires
        key@.len() == 16,
        nonce@.len() == 13,
    ensures
        r ==> final(buf)@ == aead_sealed(Encryption::AES { cipher: AesSpec::Aes128, nonce: AesNonce::U13 }, key@, nonce@, aad@, old(buf)@),
        r ==> final(buf)@.len() == old(buf)@.len() + 16,
        old(buf)@.len() <= 0x10_0000_0000 && aad@.len() <= 0x10_0000_0000 ==> r,
{
    let c = AesGcm::<Aes128, U13>::new(GenericArray::from_slice(key));
    c.encrypt_in_place(GenericArray::from_slice(nonce), aad, buf).is_ok()
}

/// Relies on aes_gcm's `AeadInPlace::decrypt_in_place` for AES-128-GCM with a 13-byte nonce:
/// replaces `buf` by the plaintext when the tag checks out.
#[verifier::external_body]
fn open_aes128_u13(key: &[u8], nonce: &[u8], aad: &[u8], buf: &mut Vec<u8>) -> (r: bool)
    requires
        key@.len() == 16,
        nonce@.len() == 13,
    ensures
        r ==> aead_sealed(Encryption::AES { cipher: AesSpec::Aes128, nonce: AesNonce::U13 }, key@, nonce@, aad@, final(buf)@) == old(buf)@,
        forall|p: Seq<u8>| aead_sealed(Encryption::AES { cipher: AesSpec::Aes128, nonce: AesNonce::U13 }, key@, nonce@, aad@, p) == old(buf)@ ==> r && final(buf)@ == p,
{
    let c = AesGcm::<Aes128, U13>::new(GenericArray::from_slice(key));
    c.decrypt_in_place(GenericArray::from_slice(nonce), aad, buf).is_ok()
}

/// Relies on aes_gcm's `AeadInPlace::encrypt_in_place` for AES-128-GCM with a 14-byte nonce:
/// replaces `buf` by its ciphertext and tag.
#[verifier::external_body]
fn seal_aes128_u14(key: &[u8], nonce: &[u8], aad: &[u8], buf: &mut Vec<u8>) -> (r: bool)
    requires
        key@.len() == 16,
        nonce@.len() == 14,
    ensures
        r ==> final(buf)@ == aead_sealed(Encryption::AES { cipher: AesSpec::Aes128, nonce: AesNonce::U14 }, key@, nonce@, aad@, old(buf)@),
        r ==> final(buf)@.len() == old(buf)@.len() + 16,
        old(buf)@.len() <= 0x10_0000_0000 && aad@.len() <= 0x10_0000_0000 ==> r,
{
    let c = AesGcm::<Aes128, U14>::new(GenericArray::from_slice(key));
    c.encrypt_in_place(GenericArray::from_slice(nonce), aad, buf).is_ok()
}

/// Relies on aes_gcm's `AeadInPlace::decrypt_in_place` for AES-128-GCM with a 14-byte nonce:
/// replaces `buf` by the plaintext when the tag checks out.
#[verifier::external_body]
fn open_aes128_u14(key: &[u8], nonce: &[u8], aad: &[u8], buf: &mut Vec<u8>) -> (r: bool)
    requires
        key@.len() == 16,
        nonce@.len() == 14,
    ensures
        r ==> aead_sealed(Encryption::AES { cipher: AesSpec::Aes128, nonce: AesNonce::U14 }, key@, nonce@, aad@, final(buf)@) == old(buf)@,
        forall|p: Seq<u8>| aead_sealed(Encryption::AES { cipher: AesSpec::Aes128, nonce: AesNonce::U14 }, key@, nonce@, aad@, p) == old(buf)@ ==> r && final(buf)@ == p,
{
    let c = AesGcm::<Aes128, U14>::new(GenericArray::from_slice(key));
    c.decrypt_in_place(GenericArray::from_slice(nonce), aad, buf).is_ok()
}

/// Relies on aes_gcm's `AeadInPlace::encrypt_in_place` for AES-128-GCM with a 15-byte nonce:
/// replaces `buf` by its ciphertext and tag.
#[verifier::external_body]
fn seal_aes128_u15(key: &[u8], nonce: &[u8], aad: &[u8], buf: &mut Vec<u8>) -> (r: bool)
    requires
        key@.len() == 16,
        nonce@.len() == 15,
    ensures
        r ==> final(buf)@ == aead_sealed(Encryption::AES { cipher: AesSpec::Aes128, nonce: AesNonce::U15 }, key@, nonce@, aad@, old(buf)@),
        r ==> final(buf)@.len() == old(buf)@.len() + 16,
        old(buf)@.len() <= 0x10_0000_0000 && aad@.len() <= 0x10_0000_0000 ==> r,
{
    let c = AesGcm::<Aes128, U15>::new(GenericArray::from_slice(key));
    c.encrypt_in_place(GenericArray::from_slice(nonce), aad, buf).is_ok()
}

/// Relies on aes_gcm's `AeadInPlace::decrypt_in_place` for AES-128-GCM with a 15-byte nonce:
/// replaces `buf` by the plaintext when the tag checks out.
#[verifier::external_body]
fn open_aes128_u15(key: &[u8], nonce: &[u8], aad: &[u8], buf: &mut Vec<u8>) -> (r: bool)
    requires
        key@.len() == 16,
        nonce@.len() == 15,
    ensures
        r ==> aead_sealed(Encryption::AES { cipher: AesSpec::Aes128, nonce: AesNonce::U15 }, key@, nonce@, aad@, final(buf)@) == old(buf)@,
        forall|p: Seq<u8>| aead_sealed(Encryption::AES { cipher: AesSpec::Aes128, nonce: AesNonce::U15 }, key@, nonce@, aad@, p) == old(buf)@ ==> r && final(buf)@ == p,
{
    let c = AesGcm::<Aes128, U15>::new(GenericArray::from_slice(key));
    c.decrypt_in_place(GenericArray::from_slice(nonce), aad, buf).is_ok()
}

/// Relies on aes_gcm's `AeadInPlace::encrypt_in_place` for AES-128-GCM with a 16-byte nonce:
/// replaces `buf` by its ciphertext and tag.
#[verifier::external_body]
fn seal_aes128_u16(key: &[u8], nonce: &[u8], aad: &[u8], buf: &mut Vec<u8>) -> (r: bool)
    requires
        key@.len() == 16,
        nonce@.len() == 16,
    ensures
        r ==> final(buf)@ == aead_sealed(Encryption::AES { cipher: AesSpec::Aes128, nonce: AesNonce::U16 }, key@, nonce@, aad@, old(buf)@),
        r ==> final(buf)@.len() == old(buf)@.len() + 16,
        old(buf)@.len() <= 0x10_0000_0000 && aad@.len() <= 0x10_0000_0000 ==> r,
{
    let c = AesGcm::<Aes128, U16>::new(GenericArray::from_slice(key));
    c.encrypt_in_place(GenericArray::from_slice(nonce), aad, buf).is_ok()
}

/// Relies on aes_gcm's `AeadInPlace::decrypt_in_place` for AES-128-GCM with a 16-byte nonce:
/// replaces `buf` by the plaintext when the tag checks out.
#[verifier::external_body]
fn open_aes128_u16(key: &[u8], nonce: &[u8], aad: &[u8], buf: &mut Vec<u8>) -> (r: bool)
    requires
        key@.len() == 16,
        nonce@.len() == 16,
    ensures
        r ==> aead_sealed(Encryption::AES { cipher: AesSpec::Aes128, nonce: AesNonce::U16 }, key@, nonce@, aad@, final(buf)@) == old(buf)@,
        forall|p: Seq<u8>| aead_sealed(Encryption::AES { cipher: AesSpec::Aes128, nonce: AesNonce::U16 }, key@, nonce@, aad@, p) == old(buf)@ ==> r && final(buf)@ == p,
{
    let c = AesGcm::<Aes128, U16>::new(GenericArray::from_slice(key));
    c.decrypt_in_place(GenericArray::from_slice(nonce), aad, buf).is_ok()
}

/// Relies on aes_gcm's `AeadInPlace::encrypt_in_place` for AES-192-GCM with a 12-byte nonce:
/// replaces `buf` by its ciphertext and tag.
#[verifier::external_body]
fn seal_aes192_u12(key: &[u8], nonce: &[u8], aad: &[u8], buf: &mut Vec<u8>) -> (r: bool)
    requires
        key@.len() == 24,
        nonce@.len() == 12,
    ensures
        r ==> final(buf)@ == aead_sealed(Encryption::AES { cipher: AesSpec::Aes192, nonce: AesNonce::U12 }, key@, nonce@, aad@, old(buf)@),
        r ==> final(buf)@.len() == old(buf)@.len() + 16,
        old(buf)@.len() <= 0x10_0000_0000 && aad@.len() <= 0x10_0000_0000 ==> r,
{
    let c = AesGcm::<Aes192, U12>::new(GenericArray::from_slice(key));
    c.encrypt_in_place(GenericArray::from_slice(nonce), aad, buf).is_ok()
}

/// Relies on aes_gcm's `AeadInPlace::decrypt_in_place` for AES-192-GCM with a 12-byte nonce:
/// replaces `buf` by the plaintext when the tag checks out.
#[verifier::external_body]
fn open_aes192_u12(key: &[u8], nonce: &[u8], aad: &[u8], buf: &mut Vec<u8>) -> (r: bool)
    requires
        key@.len() == 24,
        nonce@.len() == 12,
    ensures
        r ==> aead_sealed(Encryption::AES { cipher: AesSpec::Aes192, nonce: AesNonce::U12 }, key@, nonce@, aad@, final(buf)@) == old(buf)@,
        forall|p: Seq<u8>| aead_sealed(Encryption::AES { cipher: AesSpec::Aes192, nonce: AesNonce::U12 }, key@, nonce@, aad@, p) == old(buf)@ ==> r && final(buf)@ == p,
{
    let c = AesGcm::<Aes192, U12>::new(GenericArray::from_slice(key));
    c.decrypt_in_place(GenericArray::from_slice(nonce), aad, buf).is_ok()
}

/// Relies on aes_gcm's `AeadInPlace::encrypt_in_place` for AES-192-GCM with a 13-byte nonce:
/// replaces `buf` by its ciphertext and tag.
#[verifier::external_body]
fn seal_aes192_u13(key: &[u8], nonce: &[u8], aad: &[u8], buf: &mut Vec<u8>) -> (r: bool)
    requires
        key@.len() == 24,
        nonce@.len() == 13,
    ensures
        r ==> final(buf)@ == aead_sealed(Encryption::AES { cipher: AesSpec::Aes192, nonce: AesNonce::U13 }, key@, nonce@, aad@, old(buf)@),
        r ==> final(buf)@.len() == old(buf)@.len() + 16,
        old(buf)@.len() <= 0x10_0000_0000 && aad@.len() <= 0x10_0000_0000 ==> r,
{
    let c = AesGcm::<Aes192, U13>::new(GenericArray::from_slice(key));
    c.encrypt_in_place(GenericArray::from_slice(nonce), aad, buf).is_ok()
}

/// Relies on aes_gcm's `AeadInPlace::decrypt_in_place` for AES-192-GCM with a 13-byte nonce:
/// replaces `buf` by the plaintext when the tag checks out.
#[verifier::external_body]
fn open_aes192_u13(key: &[u8], nonce: &[u8], aad: &[u8], buf: &mut Vec<u8>) -> (r: bool)
    requires
        key@.len() == 24,
        nonce@.len() == 13,
    ensures
        r ==> aead_sealed(Encryption::AES { cipher: AesSpec::Aes192, nonce: AesNonce::U13 }, key@, nonce@, aad@, final(buf)@) == old(buf)@,
        forall|p: Seq<u8>| aead_sealed(Encryption::AES { cipher: AesSpec::Aes192, nonce: AesNonce::U13 }, key@, nonce@, aad@, p) == old(buf)@ ==> r && final(buf)@ == p,
{
    let c = AesGcm::<Aes192, U13>::new(GenericArray::from_slice(key));
    c.decrypt_in_place(GenericArray::from_slice(nonce), aad, buf).is_ok()
}

/// Relies on aes_gcm's `AeadInPlace::encrypt_in_place` for AES-192-GCM with a 14-byte nonce:
/// replaces `buf` by its ciphertext and tag.
#[verifier::external_body]
fn seal_aes192_u14(key: &[u8], nonce: &[u8], aad: &[u8], buf: &mut Vec<u8>) -> (r: bool)
    requires
        key@.len() == 24,
        nonce@.len() == 14,
    ensures
        r ==> final(buf)@ == aead_sealed(Encryption::AES { cipher: AesSpec::Aes192, nonce: AesNonce::U14 }, key@, nonce@, aad@, old(buf)@),
        r ==> final(buf)@.len() == old(buf)@.len() + 16,
        old(buf)@.len() <= 0x10_0000_0000 && aad@.len() <= 0x10_0000_0000 ==> r,
{
    let c = AesGcm::<Aes192, U14>::new(GenericArray::from_slice(key));
    c.encrypt_in_place(GenericArray::from_slice(nonce), aad, buf).is_ok()
}

/// Relies on aes_gcm's `AeadInPlace::decrypt_in_place` for AES-192-GCM with a 14-byte nonce:
/// replaces `buf` by the plaintext when the tag checks out.
#[verifier::external_body]
fn open_aes192_u14(key: &[u8], nonce: &[u8], aad: &[u8], buf: &mut Vec<u8>) -> (r: bool)
    requires
        key@.len() == 24,
        nonce@.len() == 14,
    ensures
        r ==> aead_sealed(Encryption::AES { cipher: AesSpec::Aes192, nonce: AesNonce::U14 }, key@, nonce@, aad@, final(buf)@) == old(buf)@,
        forall|p: Seq<u8>| aead_sealed(Encryption::AES { cipher: AesSpec::Aes192, nonce: AesNonce::U14 }, key@, nonce@, aad@, p) == old(buf)@ ==> r && final(buf)@ == p,
{
    let c = AesGcm::<Aes192, U14>::new(GenericArray::from_slice(key));
    c.decrypt_in_place(GenericArray::from_slice(nonce), aad, buf).is_ok()
}

/// Relies on aes_gcm's `AeadInPlace::encrypt_in_place` for AES-192-GCM with a 15-byte nonce:
/// replaces `buf` by its ciphertext and tag.
#[verifier::external_body]
fn seal_aes192_u15(key: &[u8], nonce: &[u8], aad: &[u8], buf: &mut Vec<u8>) -> (r: bool)
    requires
        key@.len() == 24,
        nonce@.len() == 15,
    ensures
        r ==> final(buf)@ == aead_sealed(Encryption::AES { cipher: AesSpec::Aes192, nonce: AesNonce::U15 }, key@, nonce@, aad@, old(buf)@),
        r ==> final(buf)@.len() == old(buf)@.len() + 16,
        old(buf)@.len() <= 0x10_0000_0000 && aad@.len() <= 0x10_0000_0000 ==> r,
{
    let c = AesGcm::<Aes192, U15>::new(GenericArray::from_slice(key));
    c.encrypt_in_place(GenericArray::from_slice(nonce), aad, buf).is_ok()
}

/// Relies on aes_gcm's `AeadInPlace::decrypt_in_place` for AES-192-GCM with a 15-byte nonce:
/// replaces `buf` by the plaintext when the tag checks out.
#[verifier::external_body]
fn open_aes192_u15(key: &[u8], nonce: &[u8], aad: &[u8], buf: &mut Vec<u8>) -> (r: bool)
    requires
        key@.len() == 24,
        nonce@.len() == 15,
    ensures
        r ==> aead_sealed(Encryption::AES { cipher: AesSpec::Aes192, nonce: AesNonce::U15 }, key@, nonce@, aad@, final(buf)@) == old(buf)@,
        forall|p: Seq<u8>| aead_sealed(Encryption::AES { cipher: AesSpec::Aes192, nonce: AesNonce::U15 }, key@, nonce@, aad@, p) == old(buf)@ ==> r && final(buf)@ == p,
{
    let c = AesGcm::<Aes192, U15>::new(GenericArray::from_slice(key));
    c.decrypt_in_place(GenericArray::from_slice(nonce), aad, buf).is_ok()
}

/// Relies on aes_gcm's `AeadInPlace::encrypt_in_place` for AES-192-GCM with a 16-byte nonce:
/// replaces `buf` by its ciphertext and tag.
#[verifier::external_body]
fn seal_aes192_u16(key: &[u8], nonce: &[u8], aad: &[u8], buf: &mut Vec<u8>) -> (r: bool)
    requires
        key@.len() == 24,
        nonce@.len() == 16,
    ensures
        r ==> final(buf)@ == aead_sealed(Encryption::AES { cipher: AesSpec::Aes192, nonce: AesNonce::U16 }, key@, nonce@, aad@, old(buf)@),
        r ==> final(buf)@.len() == old(buf)@.len() + 16,
        old(buf)@.len() <= 0x10_0000_0000 && aad@.len() <= 0x10_0000_0000 ==> r,
{
    let c = AesGcm::<Aes192, U16>::new(GenericArray::from_slice(key));
    c.encrypt_in_place(GenericArray::from_slice(nonce), aad, buf).is_ok()
}

/// Relies on aes_gcm's `AeadInPlace::decrypt_in_place` for AES-192-GCM with a 16-byte nonce:
/// replaces `buf` by the plaintext when the tag checks out.
#[verifier::external_body]
fn open_aes192_u16(key: &[u8], nonce: &[u8], aad: &[u8], buf: &mut Vec<u8>) -> (r: bool)
    requires
        key@.len() == 24,
        nonce@.len() == 16,
    ensures
        r ==> aead_sealed(Encryption::AES { cipher: AesSpec::Aes192, nonce: AesNonce::U16 }, key@, nonce@, aad@, final(buf)@) == old(buf)@,
        forall|p: Seq<u8>| aead_sealed(Encryption::AES { cipher: AesSpec::Aes192, nonce: AesNonce::U16 }, key@, nonce@, aad@, p) == old(buf)@ ==> r && final(buf)@ == p,
{
    let c = AesGcm::<Aes192, U16>::new(GenericArray::from_slice(key));
    c.decrypt_in_place(GenericArray::from_slice(nonce), aad, buf).is_ok()
}

/// Relies on aes_gcm's `AeadInPlace::encrypt_in_place` for AES-256-GCM with a 12-byte nonce:
/// replaces `buf` by its ciphertext and tag.
#[verifier::external_body]
fn seal_aes256_u12(key: &[u8], nonce: &[u8], aad: &[u8], buf: &mut Vec<u8>) -> (r: bool)
    requires
        key@.len() == 32,
        nonce@.len() == 12,
    ensures
        r ==> final(buf)@ == aead_sealed(Encryption::AES { cipher: AesSpec::Aes256, nonce: AesNonce::U12 }, key@, nonce@, aad@, old(buf)@),
        r ==> final(buf)@.len() == old(buf)@.len() + 16,
        old(buf)@.len() <= 0x10_0000_0000 && aad@.len() <= 0x10_0000_0000 ==> r,
{
    let c = AesGcm::<Aes256, U12>::new(GenericArray::from_slice(key));
    c.encrypt_in_place(GenericArray::from_slice(nonce), aad, buf).is_ok()
}

/// Relies on aes_gcm's `AeadInPlace::decrypt_in_place` for AES-256-GCM with a 12-byte nonce:
/// replaces `buf` by the plaintext when the tag checks out.
#[verifier::external_body]
fn open_aes256_u12(key: &[u8], nonce: &[u8], aad: &[u8], buf: &mut Vec<u8>) -> (r: bool)
    requires
        key@.len() == 32,
        nonce@.len() == 12,
    ensures
        r ==> aead_sealed(Encryption::AES { cipher: AesSpec::Aes256, nonce: AesNonce::U12 }, key@, nonce@, aad@, final(buf)@) == old(buf)@,
        forall|p: Seq<u8>| aead_sealed(Encryption::AES { cipher: AesSpec::Aes256, nonce: AesNonce::U12 }, key@, nonce@, aad@, p) == old(buf)@ ==> r && final(buf)@ == p,
{
    let c = AesGcm::<Aes256, U12>::new(GenericArray::from_slice(key));
    c.decrypt_in_place(GenericArray::from_slice(nonce), aad, buf).is_ok()
}

/// Relies on aes_gcm's `AeadInPlace::encrypt_in_place` for AES-256-GCM with a 13-byte nonce:
/// replaces `buf` by its ciphertext and tag.
#[verifier::external_body]
fn seal_aes256_u13(key: &[u8], nonce: &[u8], aad: &[u8], buf: &mut Vec<u8>) -> (r: bool)
    requires
        key@.len() == 32,
        nonce@.len() == 13,
    ensures
        r ==> final(buf)@ == aead_sealed(Encryption::AES { cipher: AesSpec::Aes256, nonce: AesNonce::U13 }, key@, nonce@, aad@, old(buf)@),
        r ==> final(buf)@.len() == old(buf)@.len() + 16,
        old(buf)@.len() <= 0x10_0000_0000 && aad@.len() <= 0x10_0000_0000 ==> r,
{
    let c = AesGcm::<Aes256, U13>::new(GenericArray::from_slice(key));
    c.encrypt_in_place(GenericArray::from_slice(nonce), aad, buf).is_ok()
}

/// Relies on aes_gcm's `AeadInPlace::decrypt_in_place` for AES-256-GCM with a 13-byte nonce:
/// replaces `buf` by the plaintext when the tag checks out.
#[verifier::external_body]
fn open_aes256_u13(key: &[u8], nonce: &[u8], aad: &[u8], buf: &mut Vec<u8>) -> (r: bool)
    requires
        key@.len() == 32,
        nonce@.len() == 13,
    ensures
        r ==> aead_sealed(Encryption::AES { cipher: AesSpec::Aes256, nonce: AesNonce::U13 }, key@, nonce@, aad@, final(buf)@) == old(buf)@,
        forall|p: Seq<u8>| aead_sealed(Encryption::AES { cipher: AesSpec::Aes256, nonce: AesNonce::U13 }, key@, nonce@, aad@, p) == old(buf)@ ==> r && final(buf)@ == p,
{
    let c = AesGcm::<Aes256, U13>::new(GenericArray::from_slice(key));
    c.decrypt_in_place(GenericArray::from_slice(nonce), aad, buf).is_ok()
}

/// Relies on aes_gcm's `AeadInPlace::encrypt_in_place` for AES-256-GCM with a 14-byte nonce:
/// replaces `buf` by its ciphertext and tag.
#[verifier::external_body]
fn seal_aes256_u14(key: &[u8], nonce: &[u8], aad: &[u8], buf: &mut Vec<u8>) -> (r: bool)
    requires
        key@.len() == 32,
        nonce@.len() == 14,
    ensures
        r ==> final(buf)@ == aead_sealed(Encryption::AES { cipher: AesSpec::Aes256, nonce: AesNonce::U14 }, key@, nonce@, aad@, old(buf)@),
        r ==> final(buf)@.len() == old(buf)@.len() + 16,
        old(buf)@.len() <= 0x10_0000_0000 && aad@.len() <= 0x10_0000_0000 ==> r,
{
    let c = AesGcm::<Aes256, U14>::new(GenericArray::from_slice(key));
    c.encrypt_in_place(GenericArray::from_slice(nonce), aad, buf).is_ok()
}

/// Relies on aes_gcm's `AeadInPlace::decrypt_in_place` for AES-256-GCM with a 14-byte nonce:
/// replaces `buf` by the plaintext when the tag checks out.
#[verifier::external_body]
fn open_aes256_u14(key: &[u8], nonce: &[u8], aad: &[u8], buf: &mut Vec<u8>) -> (r: bool)
    requires
        key@.len() == 32,
        nonce@.len() == 14,
    ensures
        r ==> aead_sealed(Encryption::AES { cipher: AesSpec::Aes256, nonce: AesNonce::U14 }, key@, nonce@, aad@, final(buf)@) == old(buf)@,
        forall|p: Seq<u8>| aead_sealed(Encryption::AES { cipher: AesSpec::Aes256, nonce: AesNonce::U14 }, key@, nonce@, aad@, p) == old(buf)@ ==> r && final(buf)@ == p,
{
    let c = AesGcm::<Aes256, U14>::new(GenericArray::from_slice(key));
    c.decrypt_in_place(GenericArray::from_slice(nonce), aad, buf).is_ok()
}

/// Relies on aes_gcm's `AeadInPlace::encrypt_in_place` for AES-256-GCM with a 15-byte nonce:
/// replaces `buf` by its ciphertext and tag.
#[verifier::external_body]
fn seal_aes256_u15(key: &[u8], nonce: &[u8], aad: &[u8], buf: &mut Vec<u8>) -> (r: bool)
    requires
        key@.len() == 32,
        nonce@.len() == 15,
    ensures
        r ==> final(buf)@ == aead_sealed(Encryption::AES { cipher: AesSpec::Aes256, nonce: AesNonce::U15 }, key@, nonce@, aad@, old(buf)@),
        r ==> final(buf)@.len() == old(buf)@.len() + 16,
        old(buf)@.len() <= 0x10_0000_0000 && aad@.len() <= 0x10_0000_0000 ==> r,
{
    let c = AesGcm::<Aes256, U15>::new(GenericArray::from_slice(key));
    c.encrypt_in_place(GenericArray::from_slice(nonce), aad, buf).is_ok()
}

/// Relies on aes_gcm's `AeadInPlace::decrypt_in_place` for AES-256-GCM with a 15-byte nonce:
/// replaces `buf` by the plaintext when the tag checks out.
#[verifier::external_body]
fn open_aes256_u15(key: &[u8], nonce: &[u8], aad: &[u8], buf: &mut Vec<u8>) -> (r: bool)
    requires
        key@.len() == 32,
        nonce@.len() == 15,
    ensures
        r ==> aead_sealed(Encryption::AES { cipher: AesSpec::Aes256, nonce: AesNonce::U15 }, key@, nonce@, aad@, final(buf)@) == old(buf)@,
        forall|p: Seq<u8>| aead_sealed(Encryption::AES { cipher: AesSpec::Aes256, nonce: AesNonce::U15 }, key@, nonce@, aad@, p) == old(buf)@ ==> r && final(buf)@ == p,
{
    let c = AesGcm::<Aes256, U15>::new(GenericArray::from_slice(key));
    c.decrypt_in_place(GenericArray::from_slice(nonce), aad, buf).is_ok()
}

/// Relies on aes_gcm's `AeadInPlace::encrypt_in_place` for AES-256-GCM with a 16-byte nonce:
/// replaces `buf` by its ciphertext and tag.
#[verifier::external_body]
fn seal_aes256_u16(key: &[u8], nonce: &[u8], aad: &[u8], buf: &mut Vec<u8>) -> (r: bool)
    requires
        key@.len() == 32,
        nonce@.len() == 16,
    ensures
        r ==> final(buf)@ == aead_sealed(Encryption::AES { cipher: AesSpec::Aes256, nonce: AesNonce::U16 }, key@, nonce@, aad@, old(buf)@),
        r ==> final(buf)@.len() == old(buf)@.len() + 16,
        old(buf)@.len() <= 0x10_0000_0000 && aad@.len() <= 0x10_0000_0000 ==> r,
{
    let c = AesGcm::<Aes256, U16>::new(GenericArray::from_slice(key));
    c.encrypt_in_place(GenericArray::from_slice(nonce), aad, buf).is_ok()
}

/// Relies on aes_gcm's `AeadInPlace::decrypt_in_place` for AES-256-GCM with a 16-byte nonce:
/// replaces `buf` by the plaintext when the tag checks out.
#[verifier::external_body]
fn open_aes256_u16(key: &[u8], nonce: &[u8], aad: &[u8], buf: &mut Vec<u8>) -> (r: bool)
    requires
        key@.len() == 32,
        nonce@.len() == 16,
    ensures
        r ==> aead_sealed(Encryption::AES { cipher: AesSpec::Aes256, nonce: AesNonce::U16 }, key@, nonce@, aad@, final(buf)@) == old(buf)@,
        forall|p: Seq<u8>| aead_sealed(Encryption::AES { cipher: AesSpec::Aes256, nonce: AesNonce::U16 }, key@, nonce@, aad@, p) == old(buf)@ ==> r && final(buf)@ == p,
{
    let c = AesGcm::<Aes256, U16>::new(GenericArray::from_slice(key));
    c.decrypt_in_place(GenericArray::from_slice(nonce), aad, buf).is_ok()
}

/// Relies on chacha20poly1305's `AeadInPlace::encrypt_in_place` for ChaCha20-Poly1305:
/// replaces `buf` by its ciphertext and tag.
#[verifier::external_body]
fn seal_chacha20(key: &[u8], nonce: &[u8], aad: &[u8], buf: &mut Vec<u8>) -> (r: bool)
    requires
        key@.len() == 32,
        nonce@.len() == 12,
    ensures
        r ==> final(buf)@ == aead_sealed(Encryption::ChaCha { cipher: ChaSpec::ChaCha20 }, key@, nonce@, aad@, old(buf)@),
        r ==> final(buf)@.len() == old(buf)@.len() + 16,
        old(buf)@.len() / 64 < 0xffff_ffff ==> r,
{
    let c = ChaCha20Poly1305::new(GenericArray::from_slice(key));
    c.encrypt_in_place(GenericArray::from_slice(nonce), aad, buf).is_ok()
}

/// Relies on chacha20poly1305's `AeadInPlace::decrypt_in_place` for ChaCha20-Poly1305:
/// replaces `buf` by the plaintext when the tag checks out.
#[verifier::external_body]
fn open_chacha20(key: &[u8], nonce: &[u8], aad: &[u8], buf: &mut Vec<u8>) -> (r: bool)
    requires
        key@.len() == 32,
        nonce@.len() == 12,
    ensures
        r ==> aead_sealed(Encryption::ChaCha { cipher: ChaSpec::ChaCha20 }, key@, nonce@, aad@, final(buf)@) == old(buf)@,
        forall|p: Seq<u8>| aead_sealed(Encryption::ChaCha { cipher: ChaSpec::ChaCha20 }, key@, nonce@, aad@, p) == old(buf)@ ==> r && final(buf)@ == p,
{
    let c = ChaCha20Poly1305::new(GenericArray::from_slice(key));
    c.decrypt_in_place(GenericArray::from_slice(nonce), aad, buf).is_ok()
}

/// Relies on chacha20poly1305's `AeadInPlace::encrypt_in_place` for XChaCha20-Poly1305:
/// replaces `buf` by its ciphertext and tag.
#[verifier::external_body]
fn seal_xchacha20(key: &[u8], nonce: &[u8], aad: &[u8], buf: &mut Vec<u8>) -> (r: bool)
    requires
        key@.len() == 32,
        nonce@.len() == 24,
    ensures
        r ==> final(buf)@ == aead_sealed(Encryption::ChaCha { cipher: ChaSpec::XChaCha20 }, key@, nonce@, aad@, old(buf)@),
        r ==> final(buf)@.len() == old(buf)@.len() + 16,
        old(buf)@.len() / 64 < 0xffff_ffff ==> r,
{
    let c = XChaCha20Poly1305::new(GenericArray::from_slice(key));
    c.encrypt_in_place(GenericArray::from_slice(nonce), aad, buf).is_ok()
}

/// Relies on chacha20poly1305's `AeadInPlace::decrypt_in_place` for XChaCha20-Poly1305:
/// replaces `buf` by the plaintext when the tag checks out.
#[verifier::external_body]
fn open_xchacha20(key: &[u8], nonce: &[u8], aad: &[u8], buf: &mut Vec<u8>) -> (r: bool)
    requires
        key@.len() == 32,
        nonce@.len() == 24,
    ensures
        r ==> aead_sealed(Encryption::ChaCha { cipher: ChaSpec::XChaCha20 }, key@, nonce@, aad@, final(buf)@) == old(buf)@,
        forall|p: Seq<u8>| aead_sealed(Encryption::ChaCha { cipher: ChaSpec::XChaCha20 }, key@, nonce@, aad@, p) == old(buf)@ ==> r && final(buf)@ == p,
{
    let c = XChaCha20Poly1305::new(GenericArray::from_slice(key));
    c.decrypt_in_place(GenericArray::from_slice(nonce), aad, buf).is_ok()
}

fn seal_with(cfg: Encryption, key: &[u8], nonce: &[u8], aad: &[u8], buf: &mut Vec<u8>) -> (r: bool)
    requires
        key@.len() == key_len(cfg),
        nonce@.len() == nonce_len(cfg),
    ensures
        r ==> final(buf)@ == aead_sealed(cfg, key@, nonce@, aad@, old(buf)@),
        r ==> final(buf)@.len() == old(buf)@.len() + 16,
        old(buf)@.len() <= 0x10_0000_0000 && aad@.len() <= 0x10_0000_0000 ==> r,
{
    match cfg {
        Encryption::AES { cipher: AesSpec::Aes128, nonce: AesNonce::U12 } => seal_aes128_u12(key, nonce, aad, buf),
        Encryption::AES { cipher: AesSpec::Aes128, nonce: AesNonce::U13 } => seal_aes128_u13(key, nonce, aad, buf),
        Encryption::AES { cipher: AesSpec::Aes128, nonce: AesNonce::U14 } => seal_aes128_u14(key, nonce, aad, buf),
        Encryption::AES { cipher: AesSpec::Aes128, nonce: AesNonce::U15 } => seal_aes128_u15(key, nonce, aad, buf),
        Encryption::AES { cipher: AesSpec::Aes128, nonce: AesNonce::U16 } => seal_aes128_u16(key, nonce, aad, buf),
        Encryption::AES { cipher: AesSpec::Aes192, nonce: AesNonce::U12 } => seal_aes192_u12(key, nonce, aad, buf),
        Encryption::AES { cipher: AesSpec::Aes192, nonce: AesNonce::U13 } => seal_aes192_u13(key, nonce, aad, buf),
        Encryption::AES { cipher: AesSpec::Aes192, nonce: AesNonce::U14 } => seal_aes192_u14(key, nonce, aad, buf),
        Encryption::AES { cipher: AesSpec::Aes192, nonce: AesNonce::U15 } => seal_aes192_u15(key, nonce, aad, buf),
        Encryption::AES { cipher: AesSpec::Aes192, nonce: AesNonce::U16 } => seal_aes192_u16(key, nonce, aad, buf),
        Encryption::AES { cipher: AesSpec::Aes256, nonce: AesNonce::U12 } => seal_aes256_u12(key, nonce, aad, buf),
        Encryption::AES { cipher: AesSpec::Aes256, nonce: AesNonce::U13 } => seal_aes256_u13(key, nonce, aad, buf),
        Encryption::AES { cipher: AesSpec::Aes256, nonce: AesNonce::U14 } => seal_aes256_u14(key, nonce, aad, buf),
        Encryption::AES { cipher: AesSpec::Aes256, nonce: AesNonce::U15 } => seal_aes256_u15(key, nonce, aad, buf),
        Encryption::AES { cipher: AesSpec::Aes256, nonce: AesNonce::U16 } => seal_aes256_u16(key, nonce, aad, buf),
        Encryption::ChaCha { cipher: ChaSpec::ChaCha20 } => seal_chacha20(key, nonce, aad, buf),
        Encryption::ChaCha { cipher: ChaSpec::XChaCha20 } => seal_xchacha20(key, nonce, aad, buf),
    }
}

fn open_with(cfg: Encryption, key: &[u8], nonce: &[u8], aad: &[u8], buf: &mut Vec<u8>) -> (r: bool)
    requires
        key@.len() == key_len(cfg),
        nonce@.len() == nonce_len(cfg),
    ensures
        r ==> aead_sealed(cfg, key@, nonce@, aad@, final(buf)@) == old(buf)@,
        forall|p: Seq<u8>| aead_sealed(cfg, key@, nonce@, aad@, p) == old(buf)@ ==> r && final(buf)@ == p,
{
    match cfg {
        Encryption::AES { cipher: AesSpec::Aes128, nonce: AesNonce::U12 } => open_aes128_u12(key, nonce, aad, buf),
        Encryption::AES { cipher: AesSpec::Aes128, nonce: AesNonce::U13 } => open_aes128_u13(key, nonce, aad, buf),
        Encryption::AES { cipher: AesSpec::Aes128, nonce: AesNonce::U14 } => open_aes128_u14(key, nonce, aad, buf),
        Encryption::AES { cipher: AesSpec::Aes128, nonce: AesNonce::U15 } => open_aes128_u15(key, nonce, aad, buf),
        Encryption::AES { cipher: AesSpec::Aes128, nonce: AesNonce::U16 } => open_aes128_u16(key, nonce, aad, buf),
        Encryption::AES { cipher: AesSpec::Aes192, nonce: AesNonce::U12 } => open_aes192_u12(key, nonce, aad, buf),
        Encryption::AES { cipher: AesSpec::Aes192, nonce: AesNonce::U13 } => open_aes192_u13(key, nonce, aad, buf),
        Encryption::AES { cipher: AesSpec::Aes192, nonce: AesNonce::U14 } => open_aes192_u14(key, nonce, aad, buf),
        Encryption::AES { cipher: AesSpec::Aes192, nonce: AesNonce::U15 } => open_aes192_u15(key, nonce, aad, buf),
        Encryption::AES { cipher: AesSpec::Aes192, nonce: AesNonce::U16 } => open_aes192_u16(key, nonce, aad, buf),
        Encryption::AES { cipher: AesSpec::Aes256, nonce: AesNonce::U12 } => open_aes256_u12(key, nonce, aad, buf),
        Encryption::AES { cipher: AesSpec::Aes256, nonce: AesNonce::U13 } => open_aes256_u13(key, nonce, aad, buf),
        Encryption::AES { cipher: AesSpec::Aes256, nonce: AesNonce::U14 } => open_aes256_u14(key, nonce, aad, buf),
        Encryption::AES { cipher: AesSpec::Aes256, nonce: AesNonce::U15 } => open_aes256_u15(key, nonce, aad, buf),
        Encryption::AES { cipher: AesSpec::Aes256, nonce: AesNonce::U16 } => open_aes256_u16(key, nonce, aad, buf),
        Encryption::ChaCha { cipher: ChaSpec::ChaCha20 } => open_chacha20(key, nonce, aad, buf),
        Encryption::ChaCha { cipher: ChaSpec::XChaCha20 } => open_xchacha20(key, nonce, aad, buf),
    }
}

/// The key that a block generator over `seed` hands out for `cfg`: the
/// first `key_len(cfg)` bytes of its first block.
pub open spec fn derived_key(cfg: Encryption, seed: Seq<u8>) -> Seq<u8> {
    Seq::new(key_len(cfg), |k: int| block_byte(seed, k))
}

/// What `encrypt` returns under `nonce`: the nonce, then the sealed
/// plaintext with empty associated data.
pub open spec fn framed_ciphertext(cfg: Encryption, key: Seq<u8>, nonce: Seq<u8>, pt: Seq<u8>) -> Seq<u8> {
    nonce + aead_sealed(cfg, key, nonce, seq![], pt)
}

/// Whether `ct` is a nonce of the right size followed by the sealed form of
/// `pt` under that nonce, tag included.
pub open spec fn frames(cfg: Encryption, key: Seq<u8>, ct: Seq<u8>, pt: Seq<u8>) -> bool {
    ct.len() >= nonce_len(cfg) + 16
        && ct.subrange(nonce_len(cfg) as int, ct.len() as int)
            == aead_sealed(cfg, key, ct.subrange(0, nonce_len(cfg) as int), seq![], pt)
}

/// An AEAD key and the algorithm it is for. Immutable once made.
pub struct CipherHandle {
    cfg: Encryption,
    key: Vec<u8>,
}

impl CipherHandle {
    pub closed spec fn spec_cfg(&self) -> Encryption {
        self.cfg
    }

    pub closed spec fn spec_key(&self) -> Seq<u8> {
        self.key@
    }

    /// The key has the length that the algorithm needs.
    pub open spec fn wf(&self) -> bool {
        self.spec_key().len() == key_len(self.spec_cfg())
    }

    /// A handle for `cfg` whose key is drawn from a block generator keyed
    /// by `seed`.
    pub fn new(cfg: &Encryption, seed: AppRngSeed) -> (r: CipherHandle)
        ensures
            r.wf(),
            r.spec_cfg() == *cfg,
            r.spec_key() == derived_key(*cfg, seed.0@),
    {
        let n: usize = match cfg {
            Encryption::AES { cipher: AesSpec::Aes128, .. } => 16,
            Encryption::AES { cipher: AesSpec::Aes192, .. } => 24,
            _ => 32,
        };
        let core = AppRngCore::from_seed(seed);
        let key = core.fill_bytes(n);
        assert(key@ =~= derived_key(*cfg, seed.0@));
        CipherHandle { cfg: *cfg, key }
    }

    /// A handle for `cfg` made as a seeded generator makes one: 32 bytes
    /// drawn from a block generator keyed by `seed` key a second generator,
    /// which gives the key.
    pub fn seeded(cfg: &Encryption, seed: AppRngSeed) -> (r: CipherHandle)
        ensures
            r.wf(),
            r.spec_cfg() == *cfg,
            r.spec_key() == derived_key(*cfg, Seq::new(32, |k: int| block_byte(seed.0@, k))),
    {
        let outer = AppRngCore::from_seed(seed);
        let drawn = outer.fill_bytes(32);
        let inner = AppRngSeed::from_bytes(drawn.as_slice());
        assert(inner.0@ =~= Seq::new(32, |k: int| block_byte(seed.0@, k)));
        CipherHandle::new(cfg, inner)
    }

    /// The algorithm of this handle.
    pub fn encryption(&self) -> (r: Encryption)
        ensures
            r == self.spec_cfg(),
    {
        self.cfg
    }

    /// Nonce length of this handle's algorithm.
    pub fn nonce_size(&self) -> (r: usize)
        ensures
            r == nonce_len(self.spec_cfg()),
    {
        match self.cfg {
            Encryption::AES { nonce: AesNonce::U12, .. } => 12,
            Encryption::AES { nonce: AesNonce::U13, .. } => 13,
            Encryption::AES { nonce: AesNonce::U14, .. } => 14,
            Encryption::AES { nonce: AesNonce::U15, .. } => 15,
            Encryption::AES { nonce: AesNonce::U16, .. } => 16,
            Encryption::ChaCha { cipher: ChaSpec::ChaCha20 } => 12,
            Encryption::ChaCha { cipher: ChaSpec::XChaCha20 } => 24,
        }
    }

    /// Seals `plaintext` under a fresh random nonce and returns the nonce
    /// followed by the ciphertext and tag.
    pub fn encrypt(&self, plaintext: &[u8]) -> (r: Result<Vec<u8>, CipherError>)
        requires
            self.wf(),
        ensures
            r matches Ok(c) ==> exists|nonce: Seq<u8>|
                nonce.len() == nonce_len(self.spec_cfg())
                && c@ == #[trigger] framed_ciphertext(self.spec_cfg(), self.spec_key(), nonce, plaintext@),
            r matches Ok(c) ==> c@.len() == nonce_len(self.spec_cfg()) + plaintext@.len() + 16,
            plaintext@.len() <= MAX_SEALED_LEN ==> r is Ok,
            r matches Err(e) ==> e.kind == ErrorKind::UnexpectedAEAD,
    {
        let nonce = random_bytes(self.nonce_size());
        let r = self.encrypt_with_nonce(nonce.as_slice(), plaintext);
        assert(nonce@.len() == nonce_len(self.spec_cfg()));
        r
    }

    /// Seals `plaintext` under `nonce`, which must have the algorithm's
    /// nonce length, and returns the nonce followed by the ciphertext and
    /// tag.
    pub fn encrypt_with_nonce(&self, nonce: &[u8], plaintext: &[u8]) -> (r: Result<Vec<u8>, CipherError>)
        requires
            self.wf(),
        ensures
            nonce@.len() != nonce_len(self.spec_cfg()) ==> (r matches Err(e) && e.kind == ErrorKind::UnexpectedAEAD),
            r matches Ok(c) ==> c@ == framed_ciphertext(self.spec_cfg(), self.spec_key(), nonce@, plaintext@),
            r matches Ok(c) ==> c@.len() == nonce@.len() + plaintext@.len() + 16,
            nonce@.len() == nonce_len(self.spec_cfg()) && plaintext@.len() <= MAX_SEALED_LEN ==> r is Ok,
            r matches Err(e) ==> e.kind == ErrorKind::UnexpectedAEAD,
    {
        if nonce.len() != self.nonce_size() {
            return Err(CipherError::new(ErrorKind::UnexpectedAEAD, String::from_str("nonce size is incompatible with the cipher")));
        }
        let mut buf = slice_to_vec(plaintext);
        let empty: Vec<u8> = Vec::new();
        proof {
            assert(empty@ =~= seq![]);
        }
        if !seal_with(self.cfg, self.key.as_slice(), nonce, empty.as_slice(), &mut buf) {
            return Err(CipherError::new(ErrorKind::UnexpectedAEAD, String::from_str("aead::Error")));
        }
        let mut out = slice_to_vec(nonce);
        let ghost n0 = out@;
        let mut i: usize = 0;
        while i < buf.len()
            invariant
                i <= buf@.len(),
                n0 == nonce@,
                out@ == n0 + buf@.subrange(0, i as int),
            decreases buf@.len() - i,
        {
            out.push(buf[i]);
            i = i + 1;
            assert(out@ =~= n0 + buf@.subrange(0, i as int));
        }
        assert(buf@.subrange(0, buf@.len() as int) =~= buf@);
        Ok(out)
    }

    /// Opens `ciphertext`, a nonce followed by a ciphertext and tag. Input
    /// shorter than a nonce and a tag fails with `InvalidInput` and no tag
    /// check; a tag that does not check out fails with `UnexpectedAEAD`.
    pub fn decrypt(&self, ciphertext: &[u8]) -> (r: Result<Vec<u8>, CipherError>)
        requires
            self.wf(),
        ensures
            ciphertext@.len() < nonce_len(self.spec_cfg()) + TAG_LEN <==> (r matches Err(e) && e.kind == ErrorKind::InvalidInput),
            r matches Err(e) ==> e.kind == ErrorKind::InvalidInput || e.kind == ErrorKind::UnexpectedAEAD,
            r matches Ok(p) ==> frames(self.spec_cfg(), self.spec_key(), ciphertext@, p@),
            forall|p: Seq<u8>| frames(self.spec_cfg(), self.spec_key(), ciphertext@, p) ==> (r matches Ok(q) && q@ == p),
    {
        let nl = self.nonce_size();
        if ciphertext.len() < nl + TAG_LEN {
            return Err(CipherError::new(ErrorKind::InvalidInput, String::from_str("input is shorter than a nonce and a tag")));
        }
        let nonce = ciphertext.split_at(nl).0;
        let body = ciphertext.split_at(nl).1;
        let mut buf = slice_to_vec(body);
        let empty: Vec<u8> = Vec::new();
        proof {
            assert(empty@ =~= seq![]);
        }
        if open_with(self.cfg, self.key.as_slice(), nonce, empty.as_slice(), &mut buf) {
            Ok(buf)
        } else {
            Err(CipherError::new(ErrorKind::UnexpectedAEAD, String::from_str("aead::Error")))
        }
    }

    /// Seals `buffer` in place under `nonce` and `associated_data`. A nonce
    /// of the wrong length fails with `UnexpectedAEAD`.
    pub fn encrypt_at(&self, nonce: &[u8], associated_data: &[u8], buffer: &mut Vec<u8>) -> (r: Result<(), CipherError>)
        requires
            self.wf(),
        ensures
            nonce@.len() != nonce_len(self.spec_cfg()) ==> (r matches Err(e) && e.kind == ErrorKind::UnexpectedAEAD && final(buffer)@ == old(buffer)@),
            r is Ok ==> final(buffer)@ == aead_sealed(self.spec_cfg(), self.spec_key(), nonce@, associated_data@, old(buffer)@),
            r is Ok ==> final(buffer)@.len() == old(buffer)@.len() + 16,
            nonce@.len() == nonce_len(self.spec_cfg()) && old(buffer)@.len() <= MAX_SEALED_LEN
                && associated_data@.len() <= MAX_SEALED_LEN ==> r is Ok,
            r matches Err(e) ==> e.kind == ErrorKind::UnexpectedAEAD,
    {
        if nonce.len() != self.nonce_size() {
            return Err(CipherError::new(ErrorKind::UnexpectedAEAD, String::from_str("nonce size is incompatible with the cipher")));
        }
        if seal_with(self.cfg, self.key.as_slice(), nonce, associated_data, buffer) {
            Ok(())
        } else {
            Err(CipherError::new(ErrorKind::UnexpectedAEAD, String::from_str("aead::Error")))
        }
    }

    /// Opens `buffer` in place under `nonce` and `associated_data`. A nonce
    /// of the wrong length, or a tag that does not check out, fails with
    /// `UnexpectedAEAD`.
    pub fn decrypt_at(&self, nonce: &[u8], associated_data: &[u8], buffer: &mut Vec<u8>) -> (r: Result<(), CipherError>)
        requires
            self.wf(),
        ensures
            nonce@.len() != nonce_len(self.spec_cfg()) ==> (r matches Err(e) && e.kind == ErrorKind::UnexpectedAEAD && final(buffer)@ == old(buffer)@),
            r is Ok ==> aead_sealed(self.spec_cfg(), self.spec_key(), nonce@, associated_data@, final(buffer)@) == old(buffer)@,
            nonce@.len() == nonce_len(self.spec_cfg()) ==> forall|p: Seq<u8>|
                aead_sealed(self.spec_cfg(), self.spec_key(), nonce@, associated_data@, p) == old(buffer)@ ==> (r is Ok && final(buffer)@ == p),
            r matches Err(e) ==> e.kind == ErrorKind::UnexpectedAEAD,
    {
        if nonce.len() != self.nonce_size() {
            return Err(CipherError::new(ErrorKind::UnexpectedAEAD, String::from_str("nonce size is incompatible with the cipher")));
        }
        if open_with(self.cfg, self.key.as_slice(), nonce, associated_data, buffer) {
            Ok(())
        } else {
            Err(CipherError::new(ErrorKind::UnexpectedAEAD, String::from_str("aead::Error")))
        }
    }
}

/// A handle for AES-GCM with block cipher `cipher` and nonce size `nonce`,
/// keyed from `seed` as [`CipherHandle::new`] does.
pub fn get_aes_cipher(cipher: &AesSpec, nonce: &AesNonce, seed: AppRngSeed) -> (r: CipherHandle)
    ensures
        r.wf(),
        r.spec_cfg() == (Encryption::AES { cipher: *cipher, nonce: *nonce }),
        r.spec_key() == derived_key(Encryption::AES { cipher: *cipher, nonce: *nonce }, seed.0@),
{
    CipherHandle::new(&Encryption::AES { cipher: *cipher, nonce: *nonce }, seed)
}

/// A handle for ChaCha20-Poly1305 or XChaCha20-Poly1305, keyed from `seed`
/// as [`CipherHandle::new`] does.
pub fn get_cha_cipher(cipher: &ChaSpec, seed: AppRngSeed) -> (r: CipherHandle)
    ensures
        r.wf(),
        r.spec_cfg() == (Encryption::ChaCha { cipher: *cipher }),
        r.spec_key() == derived_key(Encryption::ChaCha { cipher: *cipher }, seed.0@),
{
    CipherHandle::new(&Encryption::ChaCha { cipher: *cipher }, seed)
}

/// Round trip: what `encrypt` returns, a nonce of the right length
/// followed by the sealed plaintext and its tag, is accepted by `decrypt`
/// of the same handle, which then returns the plaintext.
pub proof fn lemma_round_trip(cfg: Encryption, key: Seq<u8>, nonce: Seq<u8>, pt: Seq<u8>, ct: Seq<u8>)
    requires
        nonce.len() == nonce_len(cfg),
        ct == framed_ciphertext(cfg, key, nonce, pt),
        ct.len() == nonce_len(cfg) + pt.len() + 16,
    ensures
        frames(cfg, key, ct, pt),
{
    assert(ct.subrange(0, nonce_len(cfg) as int) =~= nonce);
    assert(ct.subrange(nonce_len(cfg) as int, ct.len() as int) =~= aead_sealed(cfg, key, nonce, seq![], pt));
}

/// Short input: fewer bytes than a nonce and a tag frame no plaintext, so
/// `decrypt` of them can only fail, and it fails with `InvalidInput`.
pub proof fn lemma_short_input_frames_nothing(cfg: Encryption, key: Seq<u8>, ct: Seq<u8>, pt: Seq<u8>)
    requires
        ct.len() < nonce_len(cfg) + 16,
    ensures
        !frames(cfg, key, ct, pt),
{
}

} // verus!
