//! PayloadCipher: deterministic encryption of serialized request bodies
//! into the opaque string field the platform accepts.
//!
//! The platform's protocol fixes the construction: AES-256 in ECB mode
//! with PKCS7 padding, then base64. There is no IV or nonce, so one key
//! and one plaintext always give one ciphertext; callers must not expect
//! ciphertext secrecy across repeated identical requests.

use vstd::prelude::*;

verus! {

use vstd::string::StringSliceAdditionalSpecFns;

/// The AES-256-ECB/PKCS7 ciphertext for one key and one plaintext. The
/// cipher is a function of the two alone, which is all the contracts rely
/// on; no statement is made about particular bytes.
pub uninterp spec fn aes256_ecb_of(key: Seq<u8>, plain: Seq<u8>) -> Seq<u8>;

/// The standard base64 rendering, with padding, of a byte sequence.
pub uninterp spec fn base64_of(data: Seq<u8>) -> Seq<char>;

/// Why an encryption request was refused.
#[derive(Clone, Copy, Debug, PartialEq, Eq, Structural)]
pub enum CipherError {
    /// The supplied key is not exactly 32 bytes long.
    InvalidKeyLength,
}

/// Relies on `block_modes`' `Ecb::<Aes256, Pkcs7>`: `new_from_slices`
/// fails exactly when the key is not 32 bytes (ECB takes an empty IV),
/// and `encrypt_vec` pads with PKCS7 to the next 16-byte boundary, so the
/// ciphertext is a function of key and plaintext alone and one padding
/// block longer than the plaintext rounded down.
#[verifier::external_body]
fn aes256_ecb_encrypt(key: &[u8], plain: &[u8]) -> (r: Option<Vec<u8>>)
    ensures
        r is Some <==> key@.len() == 32,
        r matches Some(c) ==> c@ == aes256_ecb_of(key@, plain@),
        r matches Some(c) ==> c@.len() == ((plain@.len() / 16) + 1) * 16,
{
    let cipher: block_modes::Ecb<aes::Aes256, block_modes::block_padding::Pkcs7> =
        match block_modes::BlockMode::new_from_slices(key, &[]) {
        Ok(c) => c,
        Err(_) => {
            return None;
        },
    };
    Some(block_modes::BlockMode::encrypt_vec(cipher, plain))
}

/// Relies on `base64`'s `general_purpose::STANDARD` engine: encodes with
/// the standard alphabet and padding, four characters for every started
/// group of three bytes, as a function of the bytes alone.
#[verifier::external_body]
fn base64_encode(data: &[u8]) -> (r: String)
    ensures
        r@ == base64_of(data@),
        r@.len() == ((data@.len() + 2) / 3) * 4,
{
    base64::Engine::encode(&base64::engine::general_purpose::STANDARD, data)
}

/// The encrypted wire value for one key and one serialized payload.
pub open spec fn spec_encrypted_value(key: Seq<u8>, plain: Seq<u8>) -> Seq<char> {
    base64_of(aes256_ecb_of(key, plain))
}

/// Encrypts a serialized payload under a symmetric key into the single
/// opaque string the platform accepts.
///
/// Succeeds exactly when the key is 32 bytes long; the result is the
/// base64 rendering of the AES-256-ECB/PKCS7 ciphertext of the payload's
/// bytes, and so is determined by payload and key alone.
pub fn encrypt_migros(data: &str, secret_key: &str) -> (r: Result<String, CipherError>)
    ensures
        r is Ok <==> secret_key.spec_bytes().len() == 32,
        r matches Ok(s) ==> s@ == spec_encrypted_value(
            secret_key.spec_bytes(),
            data.spec_bytes(),
        ),
        r matches Ok(s) ==> s@.len() == ((((data.spec_bytes().len() / 16) + 1) * 16 + 2) / 3)
            * 4,
{
    let key_bytes: &[u8] = secret_key.as_bytes();
    match aes256_ecb_encrypt(key_bytes, data.as_bytes()) {
        Some(cipher_text) => Ok(base64_encode(cipher_text.as_slice())),
        None => Err(CipherError::InvalidKeyLength),
    }
}

/// The cipher is deterministic: one key and one serialized payload
/// determine the encrypted wire value; repeated identical requests carry
/// identical ciphertext.
pub proof fn lemma_payload_cipher_deterministic(
    key: Seq<u8>,
    plain: Seq<u8>,
    r1: Seq<char>,
    r2: Seq<char>,
)
    requires
        r1 == spec_encrypted_value(key, plain),
        r2 == spec_encrypted_value(key, plain),
    ensures
        r1 == r2,
{
}

} // verus!
