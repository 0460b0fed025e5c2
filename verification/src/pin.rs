//! PIN/UV authentication protocols, versions 1 and 2: shared-secret
//! derivation, the encryption/decryption envelope, and authentication-tag
//! computation. Both versions present the same capability surface; the
//! version is a tagged variant, with no dynamic dispatch.

use vstd::prelude::*;

use unicode_normalization::UnicodeNormalization;
use vstd::string::StrSliceExecFns;
use vstd::utf8::encode_utf8;

use crate::crypto::{
    aes256_cbc_decrypt, aes256_cbc_encrypt, ecdh_p256, hkdf_sha256, hmac_sha256, random_iv,
    sha256, spec_aes256_cbc_enc, spec_hkdf_sha256, spec_hmac_sha256, spec_sha256,
};
use crate::errors::{CtapError, Error};

verus! {

/// A PIN/UV auth protocol version, negotiated from the authenticator's
/// `pinUvAuthProtocols` list.
#[derive(Clone, Copy, Debug, PartialEq, Eq, Structural)]
pub enum PinUvAuthProtocol {
    One,
    Two,
}

/// A sequence of `n` zero bytes (the all-zero IV and the all-zero HKDF salt).
pub open spec fn spec_zero_bytes(n: nat) -> Seq<u8> {
    Seq::new(n, |i: int| 0u8)
}

/// The HKDF info string "CTAP2 HMAC key", as UTF-8 bytes.
pub open spec fn spec_hmac_key_info() -> Seq<u8> {
    seq![0x43u8, 0x54, 0x41, 0x50, 0x32, 0x20, 0x48, 0x4D, 0x41, 0x43, 0x20, 0x6B, 0x65, 0x79]
}

/// The HKDF info string "CTAP2 AES key", as UTF-8 bytes.
pub open spec fn spec_aes_key_info() -> Seq<u8> {
    seq![0x43u8, 0x54, 0x41, 0x50, 0x32, 0x20, 0x41, 0x45, 0x53, 0x20, 0x6B, 0x65, 0x79]
}

/// The shared secret each protocol derives from the ECDH shared point's
/// x-coordinate `z`: version 1 hashes it (32 bytes); version 2 expands an
/// HMAC key and an AES key and concatenates them (64 bytes).
pub open spec fn spec_shared_secret(proto: PinUvAuthProtocol, z: Seq<u8>) -> Seq<u8> {
    match proto {
        PinUvAuthProtocol::One => spec_sha256(z),
        PinUvAuthProtocol::Two => spec_hkdf_sha256(spec_zero_bytes(32), z, spec_hmac_key_info())
            + spec_hkdf_sha256(spec_zero_bytes(32), z, spec_aes_key_info()),
    }
}

/// The length of each protocol's shared secret.
pub open spec fn spec_secret_len(proto: PinUvAuthProtocol) -> nat {
    match proto {
        PinUvAuthProtocol::One => 32,
        PinUvAuthProtocol::Two => 64,
    }
}

/// The AES half of a protocol's key: all of it in version 1, the second
/// 32 bytes in version 2.
pub open spec fn spec_aes_half(proto: PinUvAuthProtocol, key: Seq<u8>) -> Seq<u8> {
    match proto {
        PinUvAuthProtocol::One => key,
        PinUvAuthProtocol::Two => key.skip(32),
    }
}

/// `ct` is a ciphertext that the protocol's `encrypt` may produce for `msg`
/// under `key`: version 1 encrypts with the all-zero IV; version 2 draws a
/// random IV and prepends it.
pub open spec fn spec_is_encryption_of(
    proto: PinUvAuthProtocol,
    key: Seq<u8>,
    ct: Seq<u8>,
    msg: Seq<u8>,
) -> bool {
    match proto {
        PinUvAuthProtocol::One => ct == spec_aes256_cbc_enc(key, spec_zero_bytes(16), msg),
        PinUvAuthProtocol::Two => ct.len() == msg.len() + 16 && ct.skip(16)
            == spec_aes256_cbc_enc(spec_aes_half(proto, key), ct.take(16), msg),
    }
}

/// The authentication tag: version 1 is the first 16 bytes of the HMAC;
/// version 2 is the full 32-byte HMAC, keyed by the HMAC half when the key
/// is a 64-byte shared secret and by the key itself (a pinUvAuthToken)
/// otherwise.
pub open spec fn spec_authenticate(
    proto: PinUvAuthProtocol,
    key: Seq<u8>,
    msg: Seq<u8>,
) -> Seq<u8> {
    match proto {
        PinUvAuthProtocol::One => spec_hmac_sha256(key, msg).take(16),
        PinUvAuthProtocol::Two => if key.len() == 64 {
            spec_hmac_sha256(key.take(32), msg)
        } else {
            spec_hmac_sha256(key, msg)
        },
    }
}

/// The NFKC normalization of a Unicode string.
pub uninterp spec fn spec_nfkc(s: Seq<char>) -> Seq<char>;

/// Relies on unicode_normalization's `nfkc` recomposition: the result is a
/// pure function of the characters alone.
#[verifier::external_body]
fn nfkc(s: &str) -> (r: String)
    ensures
        r@ == spec_nfkc(s@),
{
    s.nfkc().collect()
}

/// The UTF-8 bytes that a raw Unicode PIN is hashed over: the PIN
/// normalized to NFKC, then encoded.
pub fn pin_bytes(pin: &str) -> (r: Vec<u8>)
    ensures
        r@ == encode_utf8(spec_nfkc(pin@)),
{
    let normalized = nfkc(pin);
    normalized.as_str().as_bytes_vec()
}

/// The PIN hash sent to the authenticator: the first 16 bytes of the
/// SHA-256 of the UTF-8 PIN.
pub open spec fn spec_pin_hash(pin: Seq<u8>) -> Seq<u8> {
    spec_sha256(pin).take(16)
}

/// Hash a UTF-8 PIN down to the 16-byte value the `ClientPIN` envelope
/// carries.
pub fn pin_hash(pin: &[u8]) -> (r: Vec<u8>)
    ensures
        r@ == spec_pin_hash(pin@),
        r@.len() == 16,
{
    let mut digest = sha256(pin);
    digest.truncate(16);
    assert(digest@ =~= spec_pin_hash(pin@));
    digest
}

impl PinUvAuthProtocol {
    /// The version number this protocol answers to in `pinUvAuthProtocols`.
    pub open spec fn spec_version(&self) -> u32 {
        match self {
            PinUvAuthProtocol::One => 1,
            PinUvAuthProtocol::Two => 2,
        }
    }

    /// The protocol answering to a version number, for the two versions
    /// this library implements.
    pub fn from_version(version: u32) -> (r: Option<PinUvAuthProtocol>)
        ensures
            version == 1 ==> r == Some(PinUvAuthProtocol::One),
            version == 2 ==> r == Some(PinUvAuthProtocol::Two),
            version != 1 && version != 2 ==> r is None,
    {
        match version {
            1 => Some(PinUvAuthProtocol::One),
            2 => Some(PinUvAuthProtocol::Two),
            _ => None,
        }
    }

    /// The version number this protocol answers to.
    pub fn version(&self) -> (r: u32)
        ensures
            r == self.spec_version(),
    {
        match self {
            PinUvAuthProtocol::One => 1,
            PinUvAuthProtocol::Two => 2,
        }
    }

    /// Perform ECDH against the authenticator's public key and derive this
    /// protocol's shared secret. Returns the platform's ephemeral public key
    /// (to be sent as the key-agreement key) and the derived secret. The
    /// ephemeral scalar is fresh randomness, so the secret's value cannot be
    /// pinned down; it is this protocol's derivation of some 32-byte shared
    /// coordinate. Fails with `PINAuthInvalid` when the peer's coordinates
    /// are not on the curve.
    pub fn encapsulate(&self, peer_x: &Vec<u8>, peer_y: &Vec<u8>) -> (r: Result<
        (Vec<u8>, Vec<u8>, Vec<u8>),
        Error,
    >)
        requires
            peer_x@.len() == 32,
            peer_y@.len() == 32,
        ensures
            r matches Ok((px, py, secret)) ==> px@.len() == 32 && py@.len() == 32 && secret@.len()
                == spec_secret_len(*self) && exists|z: Seq<u8>|
                z.len() == 32 && secret@ == spec_shared_secret(*self, z),
            r is Err ==> r == Err::<(Vec<u8>, Vec<u8>, Vec<u8>), Error>(
                Error::Ctap(CtapError::PINAuthInvalid),
            ),
    {
        let agreement = match ecdh_p256(peer_x.as_slice(), peer_y.as_slice()) {
            Some(a) => a,
            None => {
                return Err(Error::Ctap(CtapError::PINAuthInvalid));
            },
        };
        let secret = self.derive_shared_secret(&agreement.shared_z);
        assert(agreement.shared_z@.len() == 32 && secret@ == spec_shared_secret(
            *self,
            agreement.shared_z@,
        ));
        Ok((agreement.platform_x, agreement.platform_y, secret))
    }

    /// Derive this protocol's shared secret from the ECDH x-coordinate.
    pub fn derive_shared_secret(&self, z: &Vec<u8>) -> (r: Vec<u8>)
        ensures
            r@ == spec_shared_secret(*self, z@),
            r@.len() == spec_secret_len(*self),
    {
        match self {
            PinUvAuthProtocol::One => sha256(z.as_slice()),
            PinUvAuthProtocol::Two => {
                let salt: Vec<u8> = zero_bytes(32);
                let hmac_info: Vec<u8> = vec![
                    0x43u8, 0x54, 0x41, 0x50, 0x32, 0x20, 0x48, 0x4D, 0x41, 0x43, 0x20, 0x6B,
                    0x65, 0x79,
                ];
                let aes_info: Vec<u8> = vec![
                    0x43u8, 0x54, 0x41, 0x50, 0x32, 0x20, 0x41, 0x45, 0x53, 0x20, 0x6B, 0x65,
                    0x79,
                ];
                assert(hmac_info@ =~= spec_hmac_key_info());
                assert(aes_info@ =~= spec_aes_key_info());
                let mut key = hkdf_sha256(salt.as_slice(), z.as_slice(), hmac_info.as_slice());
                let mut aes_key = hkdf_sha256(salt.as_slice(), z.as_slice(), aes_info.as_slice());
                key.append(&mut aes_key);
                key
            },
        }
    }

    /// Encrypt a whole number of blocks under this protocol's envelope.
    pub fn encrypt(&self, key: &Vec<u8>, msg: &Vec<u8>) -> (r: Vec<u8>)
        requires
            key@.len() == spec_secret_len(*self),
            msg@.len() % 16 == 0,
        ensures
            spec_is_encryption_of(*self, key@, r@, msg@),
    {
        match self {
            PinUvAuthProtocol::One => {
                let iv: Vec<u8> = zero_bytes(16);
                aes256_cbc_encrypt(key.as_slice(), iv.as_slice(), msg)
            },
            PinUvAuthProtocol::Two => {
                let iv = random_iv();
                let aes_key = second_half(key);
                let mut ct = aes256_cbc_encrypt(aes_key.as_slice(), iv.as_slice(), msg);
                let ghost iv_view = iv@;
                let ghost ct_view = ct@;
                let mut out = iv;
                out.append(&mut ct);
                assert(out@.take(16) =~= iv_view);
                assert(out@.skip(16) =~= ct_view);
                out
            },
        }
    }

    /// Decrypt a ciphertext of this protocol's envelope. Fails with
    /// `PINAuthInvalid` when the ciphertext's shape is impossible (not a
    /// whole number of blocks, or, in version 2, too short to carry its IV).
    pub fn decrypt(&self, key: &Vec<u8>, ct: &Vec<u8>) -> (r: Result<Vec<u8>, Error>)
        requires
            key@.len() == spec_secret_len(*self),
        ensures
            r matches Ok(msg) ==> forall|m: Seq<u8>|
                spec_is_encryption_of(*self, key@, ct@, m) ==> msg@ == m,
            r is Err <==> !spec_valid_ciphertext(*self, ct@),
            r is Err ==> r == Err::<Vec<u8>, Error>(Error::Ctap(CtapError::PINAuthInvalid)),
    {
        match self {
            PinUvAuthProtocol::One => {
                if ct.len() % 16 != 0 {
                    return Err(Error::Ctap(CtapError::PINAuthInvalid));
                }
                let iv: Vec<u8> = zero_bytes(16);
                Ok(aes256_cbc_decrypt(key.as_slice(), iv.as_slice(), ct))
            },
            PinUvAuthProtocol::Two => {
                if ct.len() < 16 || (ct.len() - 16) % 16 != 0 {
                    return Err(Error::Ctap(CtapError::PINAuthInvalid));
                }
                let aes_key = second_half(key);
                let mut iv: Vec<u8> = Vec::new();
                let mut body: Vec<u8> = Vec::new();
                let mut i: usize = 0;
                while i < 16
                    invariant
                        i <= 16,
                        ct@.len() >= 16,
                        iv@ =~= ct@.subrange(0, i as int),
                    decreases 16 - i,
                {
                    iv.push(ct[i]);
                    i = i + 1;
                }
                let mut j: usize = 16;
                while j < ct.len()
                    invariant
                        16 <= j <= ct@.len(),
                        body@ =~= ct@.subrange(16, j as int),
                    decreases ct@.len() - j,
                {
                    body.push(ct[j]);
                    j = j + 1;
                }
                assert(iv@ =~= ct@.take(16));
                assert(body@ =~= ct@.skip(16));
                let msg = aes256_cbc_decrypt(aes_key.as_slice(), iv.as_slice(), &body);
                Ok(msg)
            },
        }
    }

    /// Compute the authentication tag over a message. Deterministic in both
    /// versions: the tag is a function of the protocol, the key and the
    /// message alone.
    pub fn authenticate(&self, key: &Vec<u8>, msg: &Vec<u8>) -> (r: Vec<u8>)
        ensures
            r@ == spec_authenticate(*self, key@, msg@),
    {
        match self {
            PinUvAuthProtocol::One => {
                let mut tag = hmac_sha256(key.as_slice(), msg.as_slice());
                tag.truncate(16);
                assert(tag@ =~= spec_hmac_sha256(key@, msg@).take(16));
                tag
            },
            PinUvAuthProtocol::Two => {
                if key.len() == 64 {
                    let hmac_key = first_half(key);
                    hmac_sha256(hmac_key.as_slice(), msg.as_slice())
                } else {
                    hmac_sha256(key.as_slice(), msg.as_slice())
                }
            },
        }
    }
}

/// A ciphertext whose shape the protocol's `decrypt` accepts.
pub open spec fn spec_valid_ciphertext(proto: PinUvAuthProtocol, ct: Seq<u8>) -> bool {
    match proto {
        PinUvAuthProtocol::One => ct.len() % 16 == 0,
        PinUvAuthProtocol::Two => ct.len() >= 16 && (ct.len() - 16) % 16 == 0,
    }
}

/// A vector of `n` zero bytes.
pub fn zero_bytes(n: usize) -> (r: Vec<u8>)
    ensures
        r@ =~= spec_zero_bytes(n as nat),
{
    let mut v: Vec<u8> = Vec::new();
    let mut i: usize = 0;
    while i < n
        invariant
            i <= n,
            v@ =~= spec_zero_bytes(i as nat),
        decreases n - i,
    {
        v.push(0u8);
        i = i + 1;
    }
    v
}

/// Overwrite a secret buffer with zeros before it is dropped. The
/// vector's allocation is retained, so the zero bytes are written over
/// the secret ones in place.
pub fn zeroize_bytes(buf: &mut Vec<u8>)
    ensures
        final(buf)@ == spec_zero_bytes(old(buf)@.len() as nat),
{
    let n = buf.len();
    buf.clear();
    let mut i: usize = 0;
    while i < n
        invariant
            i <= n,
            buf@ =~= spec_zero_bytes(i as nat),
        decreases n - i,
    {
        buf.push(0u8);
        i = i + 1;
    }
    assert(buf@ =~= spec_zero_bytes(n as nat));
}

/// The first 32 bytes of a 64-byte key.
fn first_half(key: &Vec<u8>) -> (r: Vec<u8>)
    requires
        key@.len() == 64,
    ensures
        r@ =~= key@.take(32),
{
    let mut v: Vec<u8> = Vec::new();
    let mut i: usize = 0;
    while i < 32
        invariant
            i <= 32,
            key@.len() == 64,
            v@ =~= key@.subrange(0, i as int),
        decreases 32 - i,
    {
        v.push(key[i]);
        i = i + 1;
    }
    v
}

/// The last 32 bytes of a 64-byte key.
fn second_half(key: &Vec<u8>) -> (r: Vec<u8>)
    requires
        key@.len() == 64,
    ensures
        r@ =~= key@.skip(32),
{
    let mut v: Vec<u8> = Vec::new();
    let mut i: usize = 32;
    while i < 64
        invariant
            32 <= i <= 64,
            key@.len() == 64,
            v@ =~= key@.subrange(32, i as int),
        decreases 64 - i,
    {
        v.push(key[i]);
        i = i + 1;
    }
    v
}

/// Tag computation is deterministic in both protocol versions: what
/// `authenticate` ensures of its result pins one tag per protocol, key and
/// message, so two conforming computations over the same inputs agree.
pub proof fn lemma_authenticate_deterministic(
    proto: PinUvAuthProtocol,
    key: Seq<u8>,
    msg: Seq<u8>,
    tag1: Seq<u8>,
    tag2: Seq<u8>,
)
    requires
        tag1 == spec_authenticate(proto, key, msg),
        tag2 == spec_authenticate(proto, key, msg),
    ensures
        tag1 == tag2,
{
}

/// Decryption inverts encryption: for either protocol version, any
/// ciphertext that `encrypt` may produce for `msg` under `key` is taken
/// back to `msg` by what `decrypt` ensures of its result.
pub proof fn lemma_decrypt_inverts_encrypt(
    proto: PinUvAuthProtocol,
    key: Seq<u8>,
    msg: Seq<u8>,
    ct: Seq<u8>,
    decrypted: Seq<u8>,
)
    requires
        msg.len() % 16 == 0,
        spec_is_encryption_of(proto, key, ct, msg),
        forall|m: Seq<u8>| spec_is_encryption_of(proto, key, ct, m) ==> decrypted == m,
    ensures
        decrypted == msg,
{
}

} // verus!
