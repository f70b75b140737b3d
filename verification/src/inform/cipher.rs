//! The two ways in which a payload is encrypted: AES-128-CBC with padding, and
//! AES-128-GCM with the frame header as associated data and a tag of 16 bytes.

use crate::byte_order::{copy_range, put_bytes};
use crate::error::OpnFiError;
use vstd::prelude::*;

verus! {

/// The length of the authentication tag that follows a GCM ciphertext.
pub const TAG_SIZE: usize = 16;

/// The errors that OpenSSL reports.
#[verifier::external_type_specification]
#[verifier::external_body]
pub struct ExErrorStack(openssl::error::ErrorStack);

/// The longest input that OpenSSL takes in one call: its lengths are C `int`s.
pub const MAX_CIPHER_INPUT: usize = 0x7FFF_FFFF;

/// What OpenSSL's AES-128-CBC makes of `data` under `key` and `iv`; `None`
/// where it reports an error.
pub uninterp spec fn cbc_encrypted(data: Seq<u8>, key: Seq<u8>, iv: Seq<u8>) -> Option<Seq<u8>>;

/// What OpenSSL's AES-128-CBC reads out of `data` under `key` and `iv`; `None`
/// where it reports an error.
pub uninterp spec fn cbc_decrypted(data: Seq<u8>, key: Seq<u8>, iv: Seq<u8>) -> Option<Seq<u8>>;

/// The ciphertext and the tag that OpenSSL's AES-128-GCM makes of `data` under
/// `key` and `iv`, with `aad` as associated data; `None` where it reports an error.
pub uninterp spec fn gcm_sealed(data: Seq<u8>, key: Seq<u8>, iv: Seq<u8>, aad: Seq<u8>) -> Option<
    (Seq<u8>, Seq<u8>),
>;

/// What OpenSSL's AES-128-GCM reads out of the ciphertext `data` with this tag
/// under `key` and `iv`, with `aad` as associated data; `None` where it reports
/// an error.
pub uninterp spec fn gcm_opened(
    data: Seq<u8>,
    tag: Seq<u8>,
    key: Seq<u8>,
    iv: Seq<u8>,
    aad: Seq<u8>,
) -> Option<Seq<u8>>;

/// `openssl::symm::encrypt` with `Cipher::aes_128_cbc()`: gives the ciphertext,
/// and an error where OpenSSL reports one. The input is no longer than
/// OpenSSL takes in one call.
#[verifier::external_body]
pub(crate) fn encode_cbc(data: &[u8], key: &[u8; 16], iv: &[u8; 16]) -> (r: Result<
    Vec<u8>,
    openssl::error::ErrorStack,
>)
    requires
        data@.len() <= MAX_CIPHER_INPUT,
    ensures
        r is Ok <==> cbc_encrypted(data@, key@, iv@) is Some,
        r matches Ok(v) ==> cbc_encrypted(data@, key@, iv@) == Some(v@),
{
    openssl::symm::encrypt(openssl::symm::Cipher::aes_128_cbc(), key, Some(iv), data)
}

/// `openssl::symm::decrypt` with `Cipher::aes_128_cbc()`: gives the plaintext,
/// and an error where OpenSSL reports one. The input is no longer than
/// OpenSSL takes in one call.
#[verifier::external_body]
pub(crate) fn decode_cbc(data: &[u8], key: &[u8; 16], iv: &[u8; 16]) -> (r: Result<
    Vec<u8>,
    openssl::error::ErrorStack,
>)
    requires
        data@.len() <= MAX_CIPHER_INPUT,
    ensures
        r is Ok <==> cbc_decrypted(data@, key@, iv@) is Some,
        r matches Ok(v) ==> cbc_decrypted(data@, key@, iv@) == Some(v@),
{
    openssl::symm::decrypt(openssl::symm::Cipher::aes_128_cbc(), key, Some(iv), data)
}

/// `openssl::symm::encrypt_aead` with `Cipher::aes_128_gcm()` and a tag buffer
/// of 16 bytes: gives the ciphertext and the tag, and an error where OpenSSL
/// reports one. Neither input is longer than OpenSSL takes in one call.
#[verifier::external_body]
pub(crate) fn seal_gcm(data: &[u8], key: &[u8; 16], iv: &[u8; 16], aad: &[u8]) -> (r: Result<
    (Vec<u8>, [u8; 16]),
    openssl::error::ErrorStack,
>)
    requires
        data@.len() <= MAX_CIPHER_INPUT,
        aad@.len() <= MAX_CIPHER_INPUT,
    ensures
        r is Ok <==> gcm_sealed(data@, key@, iv@, aad@) is Some,
        r matches Ok(p) ==> gcm_sealed(data@, key@, iv@, aad@) == Some((p.0@, p.1@)),
{
    let mut tag = [0u8; 16];
    let cipher = openssl::symm::Cipher::aes_128_gcm();
    let out = openssl::symm::encrypt_aead(cipher, key, Some(iv), aad, data, &mut tag)?;
    Ok((out, tag))
}

/// `openssl::symm::decrypt_aead` with `Cipher::aes_128_gcm()`: gives the
/// plaintext, and an error where OpenSSL reports one. No input is longer than
/// OpenSSL takes in one call.
#[verifier::external_body]
pub(crate) fn open_gcm(data: &[u8], tag: &[u8], key: &[u8; 16], iv: &[u8; 16], aad: &[u8]) -> (r:
    Result<Vec<u8>, openssl::error::ErrorStack>)
    requires
        data@.len() <= MAX_CIPHER_INPUT,
        tag@.len() <= MAX_CIPHER_INPUT,
        aad@.len() <= MAX_CIPHER_INPUT,
    ensures
        r is Ok <==> gcm_opened(data@, tag@, key@, iv@, aad@) is Some,
        r matches Ok(v) ==> gcm_opened(data@, tag@, key@, iv@, aad@) == Some(v@),
{
    openssl::symm::decrypt_aead(openssl::symm::Cipher::aes_128_gcm(), key, Some(iv), aad, data, tag)
}

/// The bytes of a CBC payload; `None` where the input is longer than OpenSSL
/// takes in one call or OpenSSL reports an error.
pub open spec fn cbc_encoded(data: Seq<u8>, key: Seq<u8>, iv: Seq<u8>) -> Option<Seq<u8>> {
    if data.len() > MAX_CIPHER_INPUT {
        None
    } else {
        cbc_encrypted(data, key, iv)
    }
}

/// What a CBC payload holds; `None` where it is longer than OpenSSL takes in
/// one call or OpenSSL reports an error.
pub open spec fn cbc_decoded(data: Seq<u8>, key: Seq<u8>, iv: Seq<u8>) -> Option<Seq<u8>> {
    if data.len() > MAX_CIPHER_INPUT {
        None
    } else {
        cbc_decrypted(data, key, iv)
    }
}

/// The bytes of a GCM payload: the ciphertext, then the tag. `None` where an
/// input is longer than OpenSSL takes in one call or OpenSSL reports an error.
pub open spec fn gcm_encrypted(data: Seq<u8>, key: Seq<u8>, iv: Seq<u8>, aad: Seq<u8>) -> Option<
    Seq<u8>,
> {
    if data.len() > MAX_CIPHER_INPUT || aad.len() > MAX_CIPHER_INPUT {
        None
    } else {
        match gcm_sealed(data, key, iv, aad) {
            Some((sealed, tag)) => Some(sealed + tag),
            None => None,
        }
    }
}

/// What a GCM payload holds: its last 16 bytes are the tag, the bytes before
/// them the ciphertext. `None` where it is shorter than a tag, where an input
/// is longer than OpenSSL takes in one call, or where OpenSSL reports an
/// error, as it does for a payload that is not authentic.
pub open spec fn gcm_decrypted(data: Seq<u8>, key: Seq<u8>, iv: Seq<u8>, aad: Seq<u8>) -> Option<
    Seq<u8>,
> {
    if data.len() < TAG_SIZE || data.len() - TAG_SIZE > MAX_CIPHER_INPUT || aad.len()
        > MAX_CIPHER_INPUT {
        None
    } else {
        gcm_opened(
            data.subrange(0, data.len() - TAG_SIZE),
            data.subrange(data.len() - TAG_SIZE, data.len() as int),
            key,
            iv,
            aad,
        )
    }
}

/// Encrypts `data` under CBC, see `cbc_encoded`; `CipherError` where that gives nothing.
pub(crate) fn seal_cbc(data: &[u8], key: &[u8; 16], iv: &[u8; 16]) -> (r: Result<
    Vec<u8>,
    OpnFiError,
>)
    ensures
        match cbc_encoded(data@, key@, iv@) {
            Some(sealed) => r matches Ok(v) && v@ == sealed,
            None => r == Err::<Vec<u8>, OpnFiError>(OpnFiError::CipherError),
        },
{
    if data.len() > MAX_CIPHER_INPUT {
        return Err(OpnFiError::CipherError);
    }
    match encode_cbc(data, key, iv) {
        Ok(v) => Ok(v),
        Err(_) => Err(OpnFiError::CipherError),
    }
}

/// Decrypts `data` under CBC, see `cbc_decoded`; `CipherError` where that gives nothing.
pub(crate) fn open_cbc(data: &[u8], key: &[u8; 16], iv: &[u8; 16]) -> (r: Result<
    Vec<u8>,
    OpnFiError,
>)
    ensures
        match cbc_decoded(data@, key@, iv@) {
            Some(plain) => r matches Ok(v) && v@ == plain,
            None => r == Err::<Vec<u8>, OpnFiError>(OpnFiError::CipherError),
        },
{
    if data.len() > MAX_CIPHER_INPUT {
        return Err(OpnFiError::CipherError);
    }
    match decode_cbc(data, key, iv) {
        Ok(v) => Ok(v),
        Err(_) => Err(OpnFiError::CipherError),
    }
}

/// Encrypts `data` under GCM and appends the tag, see `gcm_encrypted`;
/// `CipherError` where that gives nothing.
pub(crate) fn encode_gcm(data: &[u8], key: &[u8; 16], iv: &[u8; 16], aad: &[u8]) -> (r: Result<
    Vec<u8>,
    OpnFiError,
>)
    ensures
        match gcm_encrypted(data@, key@, iv@, aad@) {
            Some(sealed) => r matches Ok(v) && v@ == sealed,
            None => r == Err::<Vec<u8>, OpnFiError>(OpnFiError::CipherError),
        },
{
    if data.len() > MAX_CIPHER_INPUT || aad.len() > MAX_CIPHER_INPUT {
        return Err(OpnFiError::CipherError);
    }
    match seal_gcm(data, key, iv, aad) {
        Ok((mut out, tag)) => {
            put_bytes(&mut out, tag.as_slice());
            Ok(out)
        },
        Err(_) => Err(OpnFiError::CipherError),
    }
}

/// Splits the tag off `data` and decrypts what stands before it, see
/// `gcm_decrypted`; `CipherError` where that gives nothing.
pub(crate) fn decode_gcm(data: &[u8], key: &[u8; 16], iv: &[u8; 16], aad: &[u8]) -> (r: Result<
    Vec<u8>,
    OpnFiError,
>)
    ensures
        match gcm_decrypted(data@, key@, iv@, aad@) {
            Some(plain) => r matches Ok(v) && v@ == plain,
            None => r == Err::<Vec<u8>, OpnFiError>(OpnFiError::CipherError),
        },
{
    let n: usize = data.len();
    if n < TAG_SIZE || n - TAG_SIZE > MAX_CIPHER_INPUT || aad.len() > MAX_CIPHER_INPUT {
        return Err(OpnFiError::CipherError);
    }
    let body = copy_range(data, 0, n - TAG_SIZE);
    let tag = copy_range(data, n - TAG_SIZE, n);
    match open_gcm(body.as_slice(), tag.as_slice(), key, iv, aad) {
        Ok(v) => Ok(v),
        Err(_) => Err(OpnFiError::CipherError),
    }
}

} // verus!
