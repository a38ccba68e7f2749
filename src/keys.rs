use vstd::prelude::*;
use vstd::utf8::{decode_utf8, encode_utf8, valid_utf8};
use openssl::error::ErrorStack;
use openssl::hash::MessageDigest;
use openssl::pkey::{PKey, Private};
use openssl::rsa::Rsa;
use openssl::sign::Signer;

verus! {

#[verifier::external_type_specification]
#[verifier::external_body]
pub struct ExErrorStack(ErrorStack);

#[verifier::external_type_specification]
#[verifier::external_body]
pub struct ExPrivate(Private);

#[verifier::external_type_specification]
#[verifier::external_body]
#[verifier::reject_recursive_types(T)]
pub struct ExRsa<T>(Rsa<T>);

#[verifier::external_type_specification]
#[verifier::external_body]
#[verifier::reject_recursive_types(T)]
pub struct ExPKey<T>(PKey<T>);

/// Smallest RSA modulus, in bits, used for the keys of local actors.
pub const RSA_BITS: u32 = 2048;

/// Failures of key handling and signing.
#[derive(Debug, Clone, Copy, PartialEq, Eq, Structural)]
pub enum KeyError {
    /// The actor holds no private key: it stands for a remote entity.
    NoPrivateKey,
    /// The stored private key is not a PEM-encoded RSA key.
    MalformedKey,
    /// The crypto backend could not produce a key pair.
    KeyGenerationError,
    /// The crypto backend failed while signing.
    SigningBackendError,
}

/// Whether openssl reads `pem`, with an empty pass phrase, as a PEM-encoded
/// PKCS#1 RSA private key.
pub uninterp spec fn rsa_private_pem_parses(pem: Seq<u8>) -> bool;

/// The RSA PKCS#1 v1.5 signature over the SHA-256 digest of `data` under the
/// PKCS#1 PEM private key `pem`; this scheme is deterministic.
pub uninterp spec fn rsa_sha256_signature(pem: Seq<u8>, data: Seq<u8>) -> Seq<u8>;

/// Largest PEM text, in bytes, that openssl's PEM readers accept without panicking.
pub const MAX_PEM_LEN: usize = 2147483647;

/// Relies on openssl's `Rsa::generate`: a fresh RSA key pair with the given
/// modulus size, or the backend's error.
#[verifier::external_body]
fn rsa_generate(bits: u32) -> (r: Result<Rsa<Private>, ErrorStack>)
    requires
        bits >= RSA_BITS,
{
    Rsa::generate(bits)
}

/// Relies on openssl's `PKey::from_rsa`: wraps an RSA key as a generic key.
#[verifier::external_body]
fn pkey_from_rsa(rsa: Rsa<Private>) -> (r: Result<PKey<Private>, ErrorStack>) {
    PKey::from_rsa(rsa)
}

/// Relies on openssl's `RsaRef::public_key_to_pem`: the public half as a PEM
/// SubjectPublicKeyInfo.
#[verifier::external_body]
fn rsa_public_key_pem(rsa: &Rsa<Private>) -> (r: Result<Vec<u8>, ErrorStack>) {
    rsa.public_key_to_pem()
}

/// Relies on openssl's `RsaRef::private_key_to_pem`: the private key as a PEM
/// PKCS#1 RSAPrivateKey.
#[verifier::external_body]
fn rsa_private_key_pem(rsa: &Rsa<Private>) -> (r: Result<Vec<u8>, ErrorStack>) {
    rsa.private_key_to_pem()
}

/// Relies on openssl's `Rsa::private_key_from_pem_passphrase`: reads a PEM
/// PKCS#1 RSA private key. The empty pass phrase keeps any prompt out, so the
/// outcome depends on the bytes alone; the length bound keeps out the panic
/// of openssl's memory BIO.
#[verifier::external_body]
fn rsa_from_private_pem(pem: &[u8]) -> (r: Result<Rsa<Private>, ErrorStack>)
    requires
        pem@.len() <= MAX_PEM_LEN,
    ensures
        r is Ok <==> rsa_private_pem_parses(pem@),
{
    Rsa::private_key_from_pem_passphrase(pem, b"")
}

/// Relies on openssl's `Rsa::private_key_from_pem_passphrase` (empty pass
/// phrase), `PKey::from_rsa` and `Signer` (`new` with `MessageDigest::sha256`,
/// default PKCS#1 v1.5 padding, `update`, `sign_to_vec`): signs `data` with the
/// key read from `pem`.
#[verifier::external_body]
fn rsa_sign_sha256(pem: &[u8], data: &[u8]) -> (r: Result<Vec<u8>, ErrorStack>)
    requires
        pem@.len() <= MAX_PEM_LEN,
    ensures
        r is Ok ==> r->Ok_0@ == rsa_sha256_signature(pem@, data@),
{
    let key = PKey::from_rsa(Rsa::private_key_from_pem_passphrase(pem, b"")?)?;
    let mut signer = Signer::new(MessageDigest::sha256(), &key)?;
    signer.update(data)?;
    signer.sign_to_vec()
}

/// Relies on std's `String::from_utf8`: succeeds exactly on valid UTF-8, and
/// then holds the decoded characters.
#[verifier::external_body]
fn string_from_utf8(bytes: Vec<u8>) -> (r: Option<String>)
    ensures
        r is Some <==> valid_utf8(bytes@),
        r is Some ==> r->Some_0@ == decode_utf8(bytes@),
{
    String::from_utf8(bytes).ok()
}

/// Generates a fresh RSA key pair of `RSA_BITS` bits for a local actor, as PEM
/// text: `(public, private)`. Any backend failure is a `KeyGenerationError`.
pub fn gen_keypair() -> (r: Result<(String, String), KeyError>)
    ensures
        r is Err ==> r->Err_0 == KeyError::KeyGenerationError,
{
    let rsa = match rsa_generate(RSA_BITS) {
        Ok(rsa) => rsa,
        Err(_) => return Err(KeyError::KeyGenerationError),
    };
    let public = match rsa_public_key_pem(&rsa) {
        Ok(p) => p,
        Err(_) => return Err(KeyError::KeyGenerationError),
    };
    let private = match rsa_private_key_pem(&rsa) {
        Ok(p) => p,
        Err(_) => return Err(KeyError::KeyGenerationError),
    };
    match (string_from_utf8(public), string_from_utf8(private)) {
        (Some(p), Some(s)) => Ok((p, s)),
        _ => Err(KeyError::KeyGenerationError),
    }
}

/// Whether `pem` is a usable private key: short enough for openssl's readers,
/// and read by them as an RSA private key.
pub open spec fn private_pem_usable(pem: Seq<char>) -> bool {
    encode_utf8(pem).len() <= MAX_PEM_LEN && rsa_private_pem_parses(encode_utf8(pem))
}

/// Reads a PEM-encoded RSA private key.
pub fn load_private_key(pem: &String) -> (r: Result<PKey<Private>, KeyError>)
    ensures
        !private_pem_usable(pem@) ==> r == Err::<PKey<Private>, KeyError>(KeyError::MalformedKey),
        r is Ok ==> private_pem_usable(pem@),
        r is Err ==> r->Err_0 == KeyError::MalformedKey,
{
    let bytes = pem.as_str().as_bytes_vec();
    if bytes.len() > MAX_PEM_LEN {
        return Err(KeyError::MalformedKey);
    }
    match rsa_from_private_pem(bytes.as_slice()) {
        Ok(rsa) => match pkey_from_rsa(rsa) {
            Ok(key) => Ok(key),
            Err(_) => Err(KeyError::MalformedKey),
        },
        Err(_) => Err(KeyError::MalformedKey),
    }
}

/// Signs `data` with the private key `pem` (RSA PKCS#1 v1.5 over SHA-256). A
/// failure is a `SigningBackendError`.
pub fn sign_with_pem(pem: &String, data: &[u8]) -> (r: Result<Vec<u8>, KeyError>)
    requires
        encode_utf8(pem@).len() <= MAX_PEM_LEN,
    ensures
        r is Ok ==> r->Ok_0@ == rsa_sha256_signature(encode_utf8(pem@), data@),
        r is Err ==> r->Err_0 == KeyError::SigningBackendError,
{
    let bytes = pem.as_str().as_bytes_vec();
    match rsa_sign_sha256(bytes.as_slice(), data) {
        Ok(sig) => Ok(sig),
        Err(_) => Err(KeyError::SigningBackendError),
    }
}

} // verus!
