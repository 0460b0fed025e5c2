//! PIN/UV auth protocols: shared-secret derivation, the encryption
//! envelope, tag computation, and the PIN hash, cross-checked against the
//! primitives directly.

use hmac::Mac;
use p256::elliptic_curve::sec1::{FromEncodedPoint, ToEncodedPoint};
use sha2::Digest;
use webauthn_core::pin::{pin_bytes, pin_hash, zero_bytes, PinUvAuthProtocol};

fn hmac_sha256(key: &[u8], msg: &[u8]) -> Vec<u8> {
    let mut mac = hmac::Hmac::<sha2::Sha256>::new_from_slice(key).unwrap();
    mac.update(msg);
    mac.finalize().into_bytes().to_vec()
}

#[test]
fn protocol_versions() {
    assert_eq!(PinUvAuthProtocol::One.version(), 1);
    assert_eq!(PinUvAuthProtocol::Two.version(), 2);
    assert_eq!(PinUvAuthProtocol::from_version(1), Some(PinUvAuthProtocol::One));
    assert_eq!(PinUvAuthProtocol::from_version(2), Some(PinUvAuthProtocol::Two));
    assert_eq!(PinUvAuthProtocol::from_version(3), None);
}

#[test]
fn pin_hash_is_left_half_of_sha256() {
    let pin = b"1234";
    let digest = sha2::Sha256::digest(pin);
    assert_eq!(pin_hash(pin), digest[..16].to_vec());
}

#[test]
fn v1_shared_secret_is_sha256_of_z() {
    let z: Vec<u8> = (0u8..32).collect();
    let secret = PinUvAuthProtocol::One.derive_shared_secret(&z);
    assert_eq!(secret, sha2::Sha256::digest(&z).to_vec());
}

#[test]
fn v2_shared_secret_is_hkdf_pair() {
    let z: Vec<u8> = (0u8..32).collect();
    let secret = PinUvAuthProtocol::Two.derive_shared_secret(&z);
    assert_eq!(secret.len(), 64);
    let hk = hkdf::Hkdf::<sha2::Sha256>::new(Some(&[0u8; 32]), &z);
    let mut hmac_key = [0u8; 32];
    hk.expand(b"CTAP2 HMAC key", &mut hmac_key).unwrap();
    let mut aes_key = [0u8; 32];
    hk.expand(b"CTAP2 AES key", &mut aes_key).unwrap();
    assert_eq!(&secret[..32], &hmac_key);
    assert_eq!(&secret[32..], &aes_key);
}

#[test]
fn v1_decrypt_inverts_encrypt() {
    let key: Vec<u8> = (100u8..132).collect();
    for &blocks in &[1usize, 2, 4, 8] {
        let msg: Vec<u8> = (0..16 * blocks).map(|i| (i % 256) as u8).collect();
        let ct = PinUvAuthProtocol::One.encrypt(&key, &msg);
        assert_eq!(ct.len(), msg.len());
        let back = PinUvAuthProtocol::One.decrypt(&key, &ct).unwrap();
        assert_eq!(back, msg);
    }
}

#[test]
fn v2_decrypt_inverts_encrypt() {
    let key: Vec<u8> = (0u8..64).collect();
    for &blocks in &[1usize, 2, 3, 16] {
        let msg: Vec<u8> = (0..16 * blocks).map(|i| (i * 7 % 256) as u8).collect();
        let ct = PinUvAuthProtocol::Two.encrypt(&key, &msg);
        assert_eq!(ct.len(), msg.len() + 16);
        let back = PinUvAuthProtocol::Two.decrypt(&key, &ct).unwrap();
        assert_eq!(back, msg);
    }
}

#[test]
fn v2_encrypt_prepends_fresh_iv() {
    let key: Vec<u8> = (0u8..64).collect();
    let msg = vec![0u8; 16];
    let c1 = PinUvAuthProtocol::Two.encrypt(&key, &msg);
    let c2 = PinUvAuthProtocol::Two.encrypt(&key, &msg);
    // The IVs are random: two encryptions of one message differ.
    assert_ne!(c1[..16], c2[..16]);
}

#[test]
fn decrypt_rejects_malformed_ciphertexts() {
    let key1 = vec![1u8; 32];
    assert!(PinUvAuthProtocol::One.decrypt(&key1, &vec![0u8; 15]).is_err());
    let key2 = vec![2u8; 64];
    assert!(PinUvAuthProtocol::Two.decrypt(&key2, &vec![0u8; 8]).is_err());
    assert!(PinUvAuthProtocol::Two.decrypt(&key2, &vec![0u8; 17]).is_err());
}

#[test]
fn v1_tag_is_left_half_of_hmac_and_deterministic() {
    let key = vec![9u8; 32];
    let msg: Vec<u8> = (0u8..32).collect();
    let tag1 = PinUvAuthProtocol::One.authenticate(&key, &msg);
    let tag2 = PinUvAuthProtocol::One.authenticate(&key, &msg);
    assert_eq!(tag1, tag2);
    assert_eq!(tag1, hmac_sha256(&key, &msg)[..16].to_vec());
}

#[test]
fn v2_tag_is_full_hmac_and_deterministic() {
    let msg: Vec<u8> = (0u8..32).collect();
    // Keyed by a 32-byte pinUvAuthToken: the token itself is the HMAC key.
    let token = vec![7u8; 32];
    let tag1 = PinUvAuthProtocol::Two.authenticate(&token, &msg);
    let tag2 = PinUvAuthProtocol::Two.authenticate(&token, &msg);
    assert_eq!(tag1, tag2);
    assert_eq!(tag1, hmac_sha256(&token, &msg));
    // Keyed by a 64-byte shared secret: the HMAC half is the key.
    let secret: Vec<u8> = (0u8..64).collect();
    let tag3 = PinUvAuthProtocol::Two.authenticate(&secret, &msg);
    assert_eq!(tag3, hmac_sha256(&secret[..32], &msg));
}

#[test]
fn encapsulate_agrees_with_the_authenticator() {
    // Play the authenticator: draw a key pair, hand its coordinates to
    // encapsulate, and derive the same secret from the other side.
    let auth_secret = p256::SecretKey::random(&mut rand::rngs::OsRng);
    let auth_point = auth_secret.public_key().to_encoded_point(false);
    let auth_x = auth_point.x().unwrap().to_vec();
    let auth_y = auth_point.y().unwrap().to_vec();

    let (px, py, secret) = PinUvAuthProtocol::One.encapsulate(&auth_x, &auth_y).unwrap();
    assert_eq!(px.len(), 32);
    assert_eq!(py.len(), 32);
    assert_eq!(secret.len(), 32);

    let platform_point = p256::EncodedPoint::from_affine_coordinates(
        px.as_slice().into(),
        py.as_slice().into(),
        false,
    );
    let platform_pub = p256::PublicKey::from_encoded_point(&platform_point).unwrap();
    let z = p256::ecdh::diffie_hellman(
        auth_secret.to_nonzero_scalar(),
        platform_pub.as_affine(),
    );
    let expected = sha2::Sha256::digest(z.raw_secret_bytes()).to_vec();
    assert_eq!(secret, expected);
}

#[test]
fn encapsulate_rejects_points_off_the_curve() {
    let x = vec![0xFFu8; 32];
    let y = vec![0xFFu8; 32];
    assert!(PinUvAuthProtocol::Two.encapsulate(&x, &y).is_err());
}

#[test]
fn zero_bytes_are_zero() {
    assert_eq!(zero_bytes(4), vec![0u8, 0, 0, 0]);
    assert_eq!(zero_bytes(0), Vec::<u8>::new());
}

#[test]
fn pin_bytes_normalize_to_nfkc() {
    // ASCII PINs pass through unchanged.
    assert_eq!(pin_bytes("1234"), b"1234".to_vec());
    // A circled digit one compatibility-normalizes to the plain digit.
    assert_eq!(pin_bytes("\u{2460}234"), b"1234".to_vec());
    // A decomposed e with acute recomposes to the single code point.
    assert_eq!(pin_bytes("e\u{0301}"), "\u{00E9}".as_bytes().to_vec());
}
