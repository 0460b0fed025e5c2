//! The WebAuthn orchestrator against a scripted authenticator: protocol
//! negotiation, the U2F down/up-grades, and the user-verification call
//! sequences.

use std::cell::Cell;

use cbc::cipher::block_padding::NoPadding;
use cbc::cipher::{BlockDecryptMut, BlockEncryptMut, KeyIvInit};
use hmac::Mac;
use p256::elliptic_curve::sec1::{FromEncodedPoint, ToEncodedPoint};
use sha2::Digest;

use webauthn_core::ctap1::ApduRequest;
use webauthn_core::ctap2::{
    Ctap2COSEAlgorithmIdentifier, Ctap2CredentialType, Ctap2GetAssertionResponse,
    Ctap2GetInfoResponse, Ctap2MakeCredentialResponse, Ctap2ClientPinResponse,
    Ctap2PublicKeyCredentialDescriptor, Ctap2PublicKeyCredentialRpEntity,
    Ctap2PublicKeyCredentialUserEntity, P256PublicKey, UserVerificationRequirement,
    CLIENT_PIN_GET_KEY_AGREEMENT, CLIENT_PIN_GET_PIN_RETRIES, CLIENT_PIN_GET_PIN_TOKEN,
    CLIENT_PIN_GET_TOKEN_PIN, CLIENT_PIN_GET_TOKEN_UV, PERMISSION_MC,
};
use webauthn_core::errors::{CtapError, Error, TransportError};
use webauthn_core::transport::{
    CborRequest, CborResponse, CborResponsePayload, Channel, ChannelStatus, SupportedProtocols,
};
use webauthn_core::webauthn::{
    Downgrade, GetAssertionRequest, MakeCredentialRequest, PinProvider, WebAuthn,
};

fn hmac_sha256(key: &[u8], msg: &[u8]) -> Vec<u8> {
    let mut mac = hmac::Hmac::<sha2::Sha256>::new_from_slice(key).unwrap();
    mac.update(msg);
    mac.finalize().into_bytes().to_vec()
}

fn aes_cbc_encrypt(key: &[u8], iv: &[u8], msg: &[u8]) -> Vec<u8> {
    let enc = cbc::Encryptor::<aes::Aes256>::new_from_slices(key, iv).unwrap();
    let mut buf = msg.to_vec();
    let n = buf.len();
    enc.encrypt_padded_mut::<NoPadding>(&mut buf, n).unwrap();
    buf
}

fn aes_cbc_decrypt(key: &[u8], iv: &[u8], ct: &[u8]) -> Vec<u8> {
    let dec = cbc::Decryptor::<aes::Aes256>::new_from_slices(key, iv).unwrap();
    let mut buf = ct.to_vec();
    dec.decrypt_padded_mut::<NoPadding>(&mut buf).unwrap();
    buf
}

/// Derive the protocol's shared secret on the authenticator's side from
/// the platform key the request carried.
fn authenticator_shared_secret(
    auth_secret: &p256::SecretKey,
    platform: &P256PublicKey,
    protocol: u32,
) -> Vec<u8> {
    let point = p256::EncodedPoint::from_affine_coordinates(
        platform.x.as_slice().into(),
        platform.y.as_slice().into(),
        false,
    );
    let platform_pub = p256::PublicKey::from_encoded_point(&point).unwrap();
    let z = p256::ecdh::diffie_hellman(auth_secret.to_nonzero_scalar(), platform_pub.as_affine());
    let z = z.raw_secret_bytes().to_vec();
    if protocol == 1 {
        sha2::Sha256::digest(&z).to_vec()
    } else {
        let hk = hkdf::Hkdf::<sha2::Sha256>::new(Some(&[0u8; 32]), &z);
        let mut hmac_key = [0u8; 32];
        hk.expand(b"CTAP2 HMAC key", &mut hmac_key).unwrap();
        let mut aes_key = [0u8; 32];
        hk.expand(b"CTAP2 AES key", &mut aes_key).unwrap();
        [hmac_key.to_vec(), aes_key.to_vec()].concat()
    }
}

fn envelope_encrypt(protocol: u32, secret: &[u8], msg: &[u8]) -> Vec<u8> {
    if protocol == 1 {
        aes_cbc_encrypt(secret, &[0u8; 16], msg)
    } else {
        let iv: [u8; 16] = rand::random();
        let ct = aes_cbc_encrypt(&secret[32..], &iv, msg);
        [iv.to_vec(), ct].concat()
    }
}

fn envelope_decrypt(protocol: u32, secret: &[u8], ct: &[u8]) -> Vec<u8> {
    if protocol == 1 {
        aes_cbc_decrypt(secret, &[0u8; 16], ct)
    } else {
        aes_cbc_decrypt(&secret[32..], &ct[..16], &ct[16..])
    }
}

const TOKEN: [u8; 32] = [0xA7; 32];

struct MockAuthenticator {
    supported: SupportedProtocols,
    info: Ctap2GetInfoResponse,
    expected_pin: Option<Vec<u8>>,
    auth_secret: Option<p256::SecretKey>,
    register_body: Vec<u8>,
    sign_script: Vec<Result<Vec<u8>, u16>>,
    assertion_script: Vec<Ctap2GetAssertionResponse>,
    apdu_log: Vec<ApduRequest>,
    cbor_log: Vec<CborRequest>,
    pending_apdu: Option<Vec<u8>>,
    pending_cbor: Option<CborResponse>,
    sign_calls: usize,
}

fn bare_info() -> Ctap2GetInfoResponse {
    Ctap2GetInfoResponse {
        versions: vec![String::from("FIDO_2_0")],
        option_client_pin: None,
        option_uv: None,
        option_pin_uv_auth_token: None,
        pin_auth_protos: None,
    }
}

fn made_credential() -> Ctap2MakeCredentialResponse {
    Ctap2MakeCredentialResponse {
        format: String::from("packed"),
        rp_id_hash: sha2::Sha256::digest(b"example.org").to_vec(),
        flags: 0x45,
        sign_count: 7,
        aaguid: vec![0xEE; 16],
        credential_id: vec![0x11; 20],
        credential_public_key: vec![0x04; 65],
        attestation_certificate: vec![0x30, 0x00],
        attestation_signature: vec![0x30, 0x01, 0x00],
    }
}

impl MockAuthenticator {
    fn new(supported: SupportedProtocols) -> MockAuthenticator {
        MockAuthenticator {
            supported,
            info: bare_info(),
            expected_pin: None,
            auth_secret: None,
            register_body: Vec::new(),
            sign_script: Vec::new(),
            assertion_script: Vec::new(),
            apdu_log: Vec::new(),
            cbor_log: Vec::new(),
            pending_apdu: None,
            pending_cbor: None,
            sign_calls: 0,
        }
    }

    fn client_pin_reply(&mut self, request: &webauthn_core::ctap2::Ctap2ClientPinRequest) -> Ctap2ClientPinResponse {
        let mut reply = Ctap2ClientPinResponse {
            key_agreement: None,
            pin_uv_auth_token: None,
            pin_retries: None,
            uv_retries: None,
        };
        if request.sub_command == CLIENT_PIN_GET_PIN_RETRIES {
            reply.pin_retries = Some(5);
        } else if request.sub_command == CLIENT_PIN_GET_KEY_AGREEMENT {
            let secret = p256::SecretKey::random(&mut rand::rngs::OsRng);
            let point = secret.public_key().to_encoded_point(false);
            reply.key_agreement = Some(P256PublicKey {
                x: point.x().unwrap().to_vec(),
                y: point.y().unwrap().to_vec(),
            });
            self.auth_secret = Some(secret);
        } else {
            // A token-minting subcommand.
            let protocol = request.protocol.unwrap();
            let platform = request.key_agreement.as_ref().unwrap();
            let secret = authenticator_shared_secret(
                self.auth_secret.as_ref().unwrap(),
                platform,
                protocol,
            );
            if request.sub_command == CLIENT_PIN_GET_PIN_TOKEN
                || request.sub_command == webauthn_core::ctap2::CLIENT_PIN_GET_TOKEN_PIN
            {
                let pin_hash_enc = request.pin_hash_enc.as_ref().unwrap();
                let pin_hash = envelope_decrypt(protocol, &secret, pin_hash_enc);
                let expected_pin = self.expected_pin.as_ref().unwrap();
                let expected = sha2::Sha256::digest(expected_pin)[..16].to_vec();
                assert_eq!(pin_hash, expected, "the encrypted PIN hash must open to LEFT16(SHA-256(pin))");
            }
            reply.pin_uv_auth_token = Some(envelope_encrypt(protocol, &secret, &TOKEN));
        }
        reply
    }
}

impl Channel for MockAuthenticator {
    fn supported_protocols(&mut self) -> Result<SupportedProtocols, Error> {
        Ok(self.supported)
    }

    fn status(&self) -> ChannelStatus {
        ChannelStatus::Ready
    }

    fn close(&mut self) {}

    fn apdu_send(&mut self, request: &ApduRequest, _timeout_ms: u32) -> Result<(), Error> {
        let mut raw: Vec<u8>;
        match request.ins {
            0x03 => {
                raw = b"U2F_V2".to_vec();
                raw.extend_from_slice(&[0x90, 0x00]);
            }
            0x01 => {
                raw = self.register_body.clone();
                raw.extend_from_slice(&[0x90, 0x00]);
            }
            0x02 => {
                let step = self.sign_script[self.sign_calls].clone();
                self.sign_calls += 1;
                match step {
                    Ok(body) => {
                        raw = body;
                        raw.extend_from_slice(&[0x90, 0x00]);
                    }
                    Err(sw) => {
                        raw = vec![(sw >> 8) as u8, (sw & 0xFF) as u8];
                    }
                }
            }
            _ => {
                raw = vec![0x6F, 0x00];
            }
        }
        self.apdu_log.push(request.clone());
        self.pending_apdu = Some(raw);
        Ok(())
    }

    fn apdu_recv(&mut self, _timeout_ms: u32) -> Result<webauthn_core::ctap1::ApduResponse, Error> {
        let raw = self.pending_apdu.take().expect("recv without a send");
        webauthn_core::ctap1::ApduResponse::parse(&raw)
    }

    fn cbor_send(&mut self, request: &CborRequest, _timeout_ms: u32) -> Result<(), Error> {
        let payload = match request {
            CborRequest::GetInfo => CborResponsePayload::GetInfo(self.info.clone()),
            CborRequest::ClientPin(req) => {
                CborResponsePayload::ClientPin(self.client_pin_reply(req))
            }
            CborRequest::MakeCredential(_) => {
                CborResponsePayload::MakeCredential(made_credential())
            }
            CborRequest::GetAssertion(_) => {
                CborResponsePayload::GetAssertion(self.assertion_script.remove(0))
            }
            CborRequest::GetNextAssertion => {
                CborResponsePayload::GetAssertion(self.assertion_script.remove(0))
            }
        };
        self.cbor_log.push(request.clone());
        self.pending_cbor = Some(CborResponse { status_code: 0, payload });
        Ok(())
    }

    fn cbor_recv(&mut self, _timeout_ms: u32) -> Result<CborResponse, Error> {
        Ok(self.pending_cbor.take().expect("recv without a send"))
    }
}

struct CountingPinProvider {
    pin: Option<String>,
    calls: Cell<u32>,
}

impl PinProvider for CountingPinProvider {
    fn provide_pin(&self, _attempts_left: Option<u32>) -> Option<String> {
        self.calls.set(self.calls.get() + 1);
        self.pin.clone()
    }
}

fn es256() -> Vec<Ctap2CredentialType> {
    vec![Ctap2CredentialType { algorithm: Ctap2COSEAlgorithmIdentifier::ES256 }]
}

fn make_credential_request(uv: UserVerificationRequirement) -> MakeCredentialRequest {
    MakeCredentialRequest {
        relying_party: Ctap2PublicKeyCredentialRpEntity {
            id: String::from("example.org"),
            name: String::from("Example"),
        },
        user: Ctap2PublicKeyCredentialUserEntity {
            id: vec![1, 2, 3],
            name: String::from("user"),
            display_name: String::from("User"),
        },
        hash: (1u8..=32).collect(),
        algorithms: es256(),
        exclude: None,
        require_resident_key: false,
        user_verification: uv,
        timeout_ms: 20_000,
        options_uv: None,
        pin_uv_auth_proto: None,
        pin_uv_auth_param: None,
    }
}

fn u2f_register_body() -> Vec<u8> {
    let mut body = vec![0x05, 0x04];
    body.extend_from_slice(&[0x42u8; 64]);
    body.push(24);
    body.extend_from_slice(&[0x77u8; 24]);
    body.extend_from_slice(&[0x30, 0x03, 0x01, 0x02, 0x03]);
    body.extend_from_slice(&[0x30, 0x01, 0x0F]);
    body
}

#[test]
fn u2f_only_device_register_and_upgrade() {
    // U2F-only device, ES256, no exclude list: the CTAP1 version is
    // probed, Register carries SHA-256 of the application id, and the
    // response upgrades to a fido-u2f attestation with a zero AAGUID.
    let mut device = MockAuthenticator::new(SupportedProtocols { u2f: true, fido2: false });
    device.register_body = u2f_register_body();
    let provider = CountingPinProvider { pin: None, calls: Cell::new(0) };
    let op = make_credential_request(UserVerificationRequirement::Discouraged);
    let response = device.webauthn_make_credential(&op, &provider).unwrap();

    assert_eq!(device.apdu_log.len(), 2);
    assert_eq!(device.apdu_log[0].ins, 0x03);
    assert_eq!(device.apdu_log[1].ins, 0x01);
    let data = &device.apdu_log[1].data;
    assert_eq!(&data[..32], (1u8..=32).collect::<Vec<u8>>().as_slice());
    assert_eq!(&data[32..], sha2::Sha256::digest(b"example.org").as_slice());

    assert_eq!(response.format, "fido-u2f");
    assert_eq!(response.aaguid, vec![0u8; 16]);
    assert_eq!(response.flags, 0x41);
    assert_eq!(response.credential_id, vec![0x77u8; 24]);
    assert_eq!(response.rp_id_hash, sha2::Sha256::digest(b"example.org").to_vec());
    assert_eq!(provider.calls.get(), 0);
}

#[test]
fn fido2_device_with_pin_uses_legacy_pin_token() {
    // FIDO2 device with a PIN, UV required, protocols [2, 1]: the call
    // sequence is GetInfo, GetPinRetries, GetKeyAgreement, GetPinToken
    // (with the encrypted PIN hash), then MakeCredential carrying
    // pinUvAuthProtocol 2 and the token's MAC over the hash.
    let mut device = MockAuthenticator::new(SupportedProtocols { u2f: true, fido2: true });
    device.info.option_client_pin = Some(true);
    device.info.pin_auth_protos = Some(vec![2, 1]);
    device.expected_pin = Some(b"1234".to_vec());
    let provider = CountingPinProvider { pin: Some(String::from("1234")), calls: Cell::new(0) };
    let op = make_credential_request(UserVerificationRequirement::Required);
    device.webauthn_make_credential(&op, &provider).unwrap();

    assert_eq!(provider.calls.get(), 1);
    assert_eq!(device.cbor_log.len(), 5);
    assert!(matches!(device.cbor_log[0], CborRequest::GetInfo));
    match &device.cbor_log[1] {
        CborRequest::ClientPin(r) => assert_eq!(r.sub_command, CLIENT_PIN_GET_PIN_RETRIES),
        other => panic!("expected ClientPIN, got {:?}", other),
    }
    match &device.cbor_log[2] {
        CborRequest::ClientPin(r) => {
            assert_eq!(r.sub_command, CLIENT_PIN_GET_KEY_AGREEMENT);
            assert_eq!(r.protocol, Some(2));
        }
        other => panic!("expected ClientPIN, got {:?}", other),
    }
    match &device.cbor_log[3] {
        CborRequest::ClientPin(r) => {
            assert_eq!(r.sub_command, CLIENT_PIN_GET_PIN_TOKEN);
            assert_eq!(r.protocol, Some(2));
            assert!(r.pin_hash_enc.is_some());
            assert!(r.permissions.is_none());
        }
        other => panic!("expected ClientPIN, got {:?}", other),
    }
    match &device.cbor_log[4] {
        CborRequest::MakeCredential(r) => {
            assert_eq!(r.pin_uv_auth_proto, Some(2));
            let expected = hmac_sha256(&TOKEN, &op.hash);
            assert_eq!(r.pin_uv_auth_param.as_ref().unwrap(), &expected);
        }
        other => panic!("expected MakeCredential, got {:?}", other),
    }
}

#[test]
fn fido2_device_with_internal_uv_skips_pin_prompt() {
    // FIDO2 device with built-in UV and token permissions: the token is
    // obtained through getPinUvAuthTokenUsingUvWithPermissions with the
    // MakeCredential permission and the request's relying-party id, and
    // the PIN provider is never consulted.
    let mut device = MockAuthenticator::new(SupportedProtocols { u2f: true, fido2: true });
    device.info.option_uv = Some(true);
    device.info.option_pin_uv_auth_token = Some(true);
    device.info.pin_auth_protos = Some(vec![2]);
    let provider = CountingPinProvider { pin: None, calls: Cell::new(0) };
    let op = make_credential_request(UserVerificationRequirement::Required);
    device.webauthn_make_credential(&op, &provider).unwrap();

    assert_eq!(provider.calls.get(), 0);
    assert_eq!(device.cbor_log.len(), 4);
    assert!(matches!(device.cbor_log[0], CborRequest::GetInfo));
    match &device.cbor_log[1] {
        CborRequest::ClientPin(r) => assert_eq!(r.sub_command, CLIENT_PIN_GET_KEY_AGREEMENT),
        other => panic!("expected ClientPIN, got {:?}", other),
    }
    match &device.cbor_log[2] {
        CborRequest::ClientPin(r) => {
            assert_eq!(r.sub_command, CLIENT_PIN_GET_TOKEN_UV);
            assert_eq!(r.permissions, Some(PERMISSION_MC));
            assert_eq!(r.permissions_rpid, Some(String::from("example.org")));
            assert!(r.pin_hash_enc.is_none());
        }
        other => panic!("expected ClientPIN, got {:?}", other),
    }
    assert!(matches!(device.cbor_log[3], CborRequest::MakeCredential(_)));
}

#[test]
fn no_uv_capability_means_no_client_pin_traffic() {
    // GetInfo with neither clientPin nor uv: the UV step is a no-op and
    // no shared-secret exchange occurs.
    let mut device = MockAuthenticator::new(SupportedProtocols { u2f: false, fido2: true });
    let provider = CountingPinProvider { pin: None, calls: Cell::new(0) };
    let op = make_credential_request(UserVerificationRequirement::Preferred);
    device.webauthn_make_credential(&op, &provider).unwrap();
    assert_eq!(device.cbor_log.len(), 2);
    assert!(matches!(device.cbor_log[0], CborRequest::GetInfo));
    assert!(matches!(device.cbor_log[1], CborRequest::MakeCredential(_)));
    assert_eq!(provider.calls.get(), 0);
}

#[test]
fn uv_required_without_capability_is_pin_not_set() {
    let mut device = MockAuthenticator::new(SupportedProtocols { u2f: false, fido2: true });
    let provider = CountingPinProvider { pin: None, calls: Cell::new(0) };
    let op = make_credential_request(UserVerificationRequirement::Required);
    let result = device.webauthn_make_credential(&op, &provider);
    assert_eq!(result.unwrap_err(), Error::Ctap(CtapError::PINNotSet));
}

fn get_assertion_request(handles: &[Vec<u8>]) -> GetAssertionRequest {
    GetAssertionRequest {
        rp_id: String::from("example.org"),
        hash: (1u8..=32).collect(),
        allow: handles
            .iter()
            .map(|h| Ctap2PublicKeyCredentialDescriptor { id: h.clone() })
            .collect(),
        user_verification: UserVerificationRequirement::Discouraged,
        timeout_ms: 20_000,
        options_uv: None,
        pin_uv_auth_proto: None,
        pin_uv_auth_param: None,
    }
}

#[test]
fn u2f_assertion_tries_each_credential_until_one_matches() {
    // Three allowed credentials; the first two answer wrong data. Three
    // Authenticate APDUs go out in order and the response wraps the third
    // credential's key handle, counter and signature.
    let kh1 = vec![0x01; 16];
    let kh2 = vec![0x02; 16];
    let kh3 = vec![0x03; 16];
    let signature = vec![0x30, 0x02, 0xAB, 0xCD];
    let mut body = vec![0x01, 0x00, 0x00, 0x01, 0x05];
    body.extend_from_slice(&signature);
    let mut device = MockAuthenticator::new(SupportedProtocols { u2f: true, fido2: false });
    device.sign_script = vec![Err(0x6A80), Err(0x6A80), Ok(body)];
    let provider = CountingPinProvider { pin: None, calls: Cell::new(0) };
    let op = get_assertion_request(&[kh1.clone(), kh2.clone(), kh3.clone()]);
    let response = device.webauthn_get_assertion(&op, &provider).unwrap();

    let auth_apdus: Vec<&ApduRequest> =
        device.apdu_log.iter().filter(|a| a.ins == 0x02).collect();
    assert_eq!(auth_apdus.len(), 3);
    assert_eq!(&auth_apdus[0].data[65..], kh1.as_slice());
    assert_eq!(&auth_apdus[1].data[65..], kh2.as_slice());
    assert_eq!(&auth_apdus[2].data[65..], kh3.as_slice());

    assert_eq!(response.assertions.len(), 1);
    let assertion = &response.assertions[0];
    assert_eq!(assertion.credential_id.as_ref().unwrap(), &kh3);
    assert_eq!(assertion.sign_count, 0x105);
    assert_eq!(assertion.signature, signature);
}

#[test]
fn u2f_assertion_exhausting_the_list_is_no_credentials() {
    let mut device = MockAuthenticator::new(SupportedProtocols { u2f: true, fido2: false });
    device.sign_script = vec![Err(0x6A80), Err(0x6A80)];
    let provider = CountingPinProvider { pin: None, calls: Cell::new(0) };
    let op = get_assertion_request(&[vec![1; 8], vec![2; 8]]);
    let result = device.webauthn_get_assertion(&op, &provider);
    assert_eq!(result.unwrap_err(), Error::Ctap(CtapError::NoCredentials));
}

#[test]
fn u2f_assertion_aborts_on_unexpected_error() {
    let mut device = MockAuthenticator::new(SupportedProtocols { u2f: true, fido2: false });
    device.sign_script = vec![Err(0x6A80), Err(0x6F00)];
    let provider = CountingPinProvider { pin: None, calls: Cell::new(0) };
    let op = get_assertion_request(&[vec![1; 8], vec![2; 8], vec![3; 8]]);
    let result = device.webauthn_get_assertion(&op, &provider);
    assert_eq!(result.unwrap_err(), Error::Ctap(CtapError::Other));
    assert_eq!(device.sign_calls, 2);
}

#[test]
fn fido2_assertion_collects_additional_credentials() {
    let mut device = MockAuthenticator::new(SupportedProtocols { u2f: false, fido2: true });
    let one = Ctap2GetAssertionResponse {
        credential_id: Some(vec![1]),
        flags: 0x01,
        sign_count: 1,
        signature: vec![0xAA],
        user_id: None,
        credentials_count: Some(2),
    };
    let two = Ctap2GetAssertionResponse {
        credential_id: Some(vec![2]),
        flags: 0x01,
        sign_count: 2,
        signature: vec![0xBB],
        user_id: None,
        credentials_count: None,
    };
    device.assertion_script = vec![one, two];
    let provider = CountingPinProvider { pin: None, calls: Cell::new(0) };
    let op = get_assertion_request(&[vec![9; 8]]);
    let response = device.webauthn_get_assertion(&op, &provider).unwrap();
    assert_eq!(response.assertions.len(), 2);
    assert_eq!(response.assertions[0].credential_id.as_ref().unwrap(), &vec![1]);
    assert_eq!(response.assertions[1].credential_id.as_ref().unwrap(), &vec![2]);
    assert!(matches!(device.cbor_log.last().unwrap(), CborRequest::GetNextAssertion));
}

#[test]
fn negotiation_fails_without_any_protocol() {
    let mut device = MockAuthenticator::new(SupportedProtocols { u2f: false, fido2: false });
    let provider = CountingPinProvider { pin: None, calls: Cell::new(0) };
    let op = make_credential_request(UserVerificationRequirement::Discouraged);
    let result = device.webauthn_make_credential(&op, &provider);
    assert_eq!(
        result.unwrap_err(),
        Error::Transport(TransportError::NegotiationFailed)
    );
}

#[test]
fn non_downgradable_request_on_u2f_only_device_fails() {
    let mut device = MockAuthenticator::new(SupportedProtocols { u2f: true, fido2: false });
    let provider = CountingPinProvider { pin: None, calls: Cell::new(0) };
    let mut op = make_credential_request(UserVerificationRequirement::Discouraged);
    op.require_resident_key = true;
    let result = device.webauthn_make_credential(&op, &provider);
    assert_eq!(
        result.unwrap_err(),
        Error::Transport(TransportError::NegotiationFailed)
    );
}

#[test]
fn enabling_fido2_keeps_make_credential_succeeding() {
    // Negotiation is monotone: a request that succeeded on a U2F-only
    // device still succeeds after the device gains FIDO2.
    let op = make_credential_request(UserVerificationRequirement::Discouraged);
    let provider = CountingPinProvider { pin: None, calls: Cell::new(0) };

    let mut before = MockAuthenticator::new(SupportedProtocols { u2f: true, fido2: false });
    before.register_body = u2f_register_body();
    assert!(before.webauthn_make_credential(&op, &provider).is_ok());

    let mut after = MockAuthenticator::new(SupportedProtocols { u2f: true, fido2: true });
    after.register_body = u2f_register_body();
    assert!(after.webauthn_make_credential(&op, &provider).is_ok());
}

#[test]
fn resident_key_demand_blocks_downgrade() {
    let mut op = make_credential_request(UserVerificationRequirement::Discouraged);
    assert!(op.is_downgradable());
    op.require_resident_key = true;
    assert!(!op.is_downgradable());
}

#[test]
fn downgrade_needs_es256_and_no_required_uv() {
    let mut op = make_credential_request(UserVerificationRequirement::Discouraged);
    op.algorithms = vec![Ctap2CredentialType { algorithm: Ctap2COSEAlgorithmIdentifier::EDDSA }];
    assert!(!op.is_downgradable());
    let op = make_credential_request(UserVerificationRequirement::Required);
    assert!(!op.is_downgradable());
}

#[test]
fn downgrade_maps_exclude_list_to_registered_keys() {
    let mut op = make_credential_request(UserVerificationRequirement::Discouraged);
    op.exclude = Some(vec![
        Ctap2PublicKeyCredentialDescriptor { id: vec![1, 2] },
        Ctap2PublicKeyCredentialDescriptor { id: vec![3] },
    ]);
    let register = op.downgrade().unwrap();
    assert_eq!(register.app_id, "example.org");
    assert_eq!(register.challenge, op.hash);
    assert_eq!(register.registered_keys.len(), 2);
    assert_eq!(register.registered_keys[0].key_handle, vec![1, 2]);
    assert_eq!(register.registered_keys[1].key_handle, vec![3]);
}

#[test]
fn assertion_downgrade_requires_allowed_credentials() {
    let op = get_assertion_request(&[]);
    assert!(!op.is_downgradable());
    let op = get_assertion_request(&[vec![1; 8]]);
    assert!(op.is_downgradable());
    let mut op = get_assertion_request(&[vec![1; 8]]);
    op.user_verification = UserVerificationRequirement::Required;
    assert!(!op.is_downgradable());
    let op = get_assertion_request(&[vec![1; 300]]);
    assert!(!op.is_downgradable());
}

#[test]
fn fido2_device_with_pin_and_permissions_scopes_the_token() {
    // A PIN-protected device that supports token permissions: the token
    // comes through getPinUvAuthTokenUsingPinWithPermissions, scoped to
    // the MakeCredential permission and the relying-party id.
    let mut device = MockAuthenticator::new(SupportedProtocols { u2f: false, fido2: true });
    device.info.option_client_pin = Some(true);
    device.info.option_pin_uv_auth_token = Some(true);
    device.info.pin_auth_protos = Some(vec![1]);
    device.expected_pin = Some(b"9876".to_vec());
    let provider = CountingPinProvider { pin: Some(String::from("9876")), calls: Cell::new(0) };
    let op = make_credential_request(UserVerificationRequirement::Preferred);
    device.webauthn_make_credential(&op, &provider).unwrap();

    assert_eq!(provider.calls.get(), 1);
    match &device.cbor_log[3] {
        CborRequest::ClientPin(r) => {
            assert_eq!(r.sub_command, CLIENT_PIN_GET_TOKEN_PIN);
            assert_eq!(r.protocol, Some(1));
            assert!(r.pin_hash_enc.is_some());
            assert_eq!(r.permissions, Some(PERMISSION_MC));
            assert_eq!(r.permissions_rpid, Some(String::from("example.org")));
        }
        other => panic!("expected ClientPIN, got {:?}", other),
    }
    match &device.cbor_log[4] {
        CborRequest::MakeCredential(r) => {
            assert_eq!(r.pin_uv_auth_proto, Some(1));
            // Protocol 1 tags are the left 16 bytes of the HMAC.
            let expected = hmac_sha256(&TOKEN, &op.hash)[..16].to_vec();
            assert_eq!(r.pin_uv_auth_param.as_ref().unwrap(), &expected);
        }
        other => panic!("expected MakeCredential, got {:?}", other),
    }
}

#[test]
fn cancelling_the_pin_prompt_is_pin_required() {
    let mut device = MockAuthenticator::new(SupportedProtocols { u2f: false, fido2: true });
    device.info.option_client_pin = Some(true);
    device.info.pin_auth_protos = Some(vec![1]);
    let provider = CountingPinProvider { pin: None, calls: Cell::new(0) };
    let op = make_credential_request(UserVerificationRequirement::Required);
    let result = device.webauthn_make_credential(&op, &provider);
    assert_eq!(result.unwrap_err(), Error::Ctap(CtapError::PINRequired));
    assert_eq!(provider.calls.get(), 1);
}
