//! Cryptographic primitives consumed by the PIN/UV auth protocols: SHA-256,
//! HMAC-SHA-256, HKDF-SHA-256, AES-256-CBC, and ECDH over P-256. The
//! primitives themselves are outside libraries; each is reached through one
//! trusted wrapper whose contract names or bounds its result.

use vstd::prelude::*;

use aes::Aes256;
use cbc::cipher::block_padding::NoPadding;
use cbc::cipher::{BlockDecryptMut, BlockEncryptMut, KeyIvInit};
use hkdf::Hkdf;
use hmac::Mac;
use p256::elliptic_curve::generic_array::GenericArray;
use p256::elliptic_curve::sec1::{FromEncodedPoint, ToEncodedPoint};
use rand::RngCore;
use sha2::Digest;

verus! {

/// The SHA-256 digest of a byte sequence.
pub uninterp spec fn spec_sha256(data: Seq<u8>) -> Seq<u8>;

/// The HMAC-SHA-256 tag over a message under a key.
pub uninterp spec fn spec_hmac_sha256(key: Seq<u8>, msg: Seq<u8>) -> Seq<u8>;

/// The first 32 bytes of HKDF-SHA-256 output for the given salt, input key
/// material and info string.
pub uninterp spec fn spec_hkdf_sha256(salt: Seq<u8>, ikm: Seq<u8>, info: Seq<u8>) -> Seq<u8>;

/// The AES-256-CBC encryption (no padding) of a whole number of blocks under
/// a 32-byte key and a 16-byte initialization vector.
pub uninterp spec fn spec_aes256_cbc_enc(key: Seq<u8>, iv: Seq<u8>, msg: Seq<u8>) -> Seq<u8>;

/// Relies on sha2::Sha256 through the `Digest` interface: the digest is a
/// pure function of the input bytes and is exactly 32 bytes long.
#[verifier::external_body]
pub fn sha256(data: &[u8]) -> (r: Vec<u8>)
    ensures
        r@ == spec_sha256(data@),
        r@.len() == 32,
{
    sha2::Sha256::digest(data).to_vec()
}

/// Relies on hmac::Hmac over sha2::Sha256: the tag is a pure function of key
/// and message and is exactly 32 bytes long. HMAC accepts keys of any length.
#[verifier::external_body]
pub fn hmac_sha256(key: &[u8], msg: &[u8]) -> (r: Vec<u8>)
    ensures
        r@ == spec_hmac_sha256(key@, msg@),
        r@.len() == 32,
{
    let mut mac = hmac::Hmac::<sha2::Sha256>::new_from_slice(key).expect("any key length");
    mac.update(msg);
    mac.finalize().into_bytes().to_vec()
}

/// Relies on hkdf::Hkdf over sha2::Sha256: a 32-byte expansion is a pure
/// function of salt, input key material and info, and never exceeds the
/// output bound of one SHA-256 block times 255.
#[verifier::external_body]
pub fn hkdf_sha256(salt: &[u8], ikm: &[u8], info: &[u8]) -> (r: Vec<u8>)
    ensures
        r@ == spec_hkdf_sha256(salt@, ikm@, info@),
        r@.len() == 32,
{
    let hk = Hkdf::<sha2::Sha256>::new(Some(salt), ikm);
    let mut okm = [0u8; 32];
    hk.expand(info, &mut okm).expect("32 bytes is a valid output length");
    okm.to_vec()
}

/// Relies on cbc::Encryptor over aes::Aes256 with no padding: the ciphertext
/// is a pure function of key, initialization vector and plaintext, and has
/// the plaintext's length.
#[verifier::external_body]
pub fn aes256_cbc_encrypt(key: &[u8], iv: &[u8], msg: &Vec<u8>) -> (r: Vec<u8>)
    requires
        key@.len() == 32,
        iv@.len() == 16,
        msg@.len() % 16 == 0,
    ensures
        r@ == spec_aes256_cbc_enc(key@, iv@, msg@),
        r@.len() == msg@.len(),
{
    let enc = cbc::Encryptor::<Aes256>::new_from_slices(key, iv).expect("key and iv lengths");
    let mut buf = msg.clone();
    let n = buf.len();
    enc.encrypt_padded_mut::<NoPadding>(&mut buf, n).expect("whole blocks");
    buf
}

/// Relies on cbc::Decryptor over aes::Aes256 with no padding: decryption
/// inverts cbc::Encryptor under the same key and initialization vector, and
/// keeps the length.
#[verifier::external_body]
pub fn aes256_cbc_decrypt(key: &[u8], iv: &[u8], ct: &Vec<u8>) -> (r: Vec<u8>)
    requires
        key@.len() == 32,
        iv@.len() == 16,
        ct@.len() % 16 == 0,
    ensures
        r@.len() == ct@.len(),
        forall|msg: Seq<u8>| ct@ == spec_aes256_cbc_enc(key@, iv@, msg) ==> r@ == msg,
{
    let dec = cbc::Decryptor::<Aes256>::new_from_slices(key, iv).expect("key and iv lengths");
    let mut buf = ct.clone();
    dec.decrypt_padded_mut::<NoPadding>(&mut buf).expect("whole blocks");
    buf
}

/// An ephemeral ECDH agreement: the platform's fresh P-256 public key
/// (affine coordinates) and the x-coordinate of the shared point.
pub struct EcdhAgreement {
    pub platform_x: Vec<u8>,
    pub platform_y: Vec<u8>,
    pub shared_z: Vec<u8>,
}

impl EcdhAgreement {
    /// All three parts are 32-byte field elements.
    pub open spec fn wf(&self) -> bool {
        self.platform_x@.len() == 32 && self.platform_y@.len() == 32 && self.shared_z@.len()
            == 32
    }
}

/// Relies on p256::ecdh::EphemeralSecret: a fresh platform key pair is drawn
/// from the system's randomness, so nothing is promised of the values beyond
/// their lengths; the secret scalar is zeroised when the ephemeral secret
/// drops. Returns nothing when the peer's coordinates are not a point on the
/// curve.
#[verifier::external_body]
pub fn ecdh_p256(peer_x: &[u8], peer_y: &[u8]) -> (r: Option<EcdhAgreement>)
    requires
        peer_x@.len() == 32,
        peer_y@.len() == 32,
    ensures
        r matches Some(agreement) ==> agreement.wf(),
{
    let point = p256::EncodedPoint::from_affine_coordinates(
        GenericArray::from_slice(peer_x),
        GenericArray::from_slice(peer_y),
        false,
    );
    let peer: Option<p256::PublicKey> = p256::PublicKey::from_encoded_point(&point).into();
    let peer = peer?;
    let secret = p256::ecdh::EphemeralSecret::random(&mut rand::rngs::OsRng);
    let platform = secret.public_key().to_encoded_point(false);
    Some(EcdhAgreement {
        platform_x: platform.x().expect("uncompressed").to_vec(),
        platform_y: platform.y().expect("uncompressed").to_vec(),
        shared_z: secret.diffie_hellman(&peer).raw_secret_bytes().to_vec(),
    })
}

/// Relies on rand::rngs::OsRng: 16 bytes of operating-system randomness.
/// Nothing is promised of the values.
#[verifier::external_body]
pub fn random_iv() -> (r: Vec<u8>)
    ensures
        r@.len() == 16,
{
    let mut buf = [0u8; 16];
    rand::rngs::OsRng.fill_bytes(&mut buf);
    buf.to_vec()
}

} // verus!
