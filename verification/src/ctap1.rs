//! CTAP1 (U2F): APDU framing with extended length, the Register,
//! Authenticate and Version operations, and the parsing of their response
//! bodies.

use vstd::prelude::*;

use crate::bytes::{copy_range, push_all, spec_u16_be, spec_u32_be, u32_from_be};
use crate::crypto::{sha256, spec_sha256};
use crate::errors::{CtapError, Error, ProtocolError};
use vstd::string::StringSliceAdditionalSpecFns;
use vstd::utf8::encode_utf8;

verus! {

/// APDU instruction byte: U2F Register.
pub const APDU_INS_REGISTER: u8 = 0x01;

/// APDU instruction byte: U2F Authenticate.
pub const APDU_INS_AUTHENTICATE: u8 = 0x02;

/// APDU instruction byte: U2F Version.
pub const APDU_INS_VERSION: u8 = 0x03;

/// Authenticate control byte: enforce user presence and sign.
pub const APDU_P1_ENFORCE_UP: u8 = 0x03;

/// Authenticate control byte: check only.
pub const APDU_P1_CHECK_ONLY: u8 = 0x07;

/// Authenticate control byte: do not enforce user presence.
pub const APDU_P1_DONT_ENFORCE_UP: u8 = 0x08;

/// Status word: no error.
pub const SW_NO_ERROR: u16 = 0x9000;

/// Status word: conditions not satisfied (user presence required).
pub const SW_CONDITIONS_NOT_SATISFIED: u16 = 0x6985;

/// Status word: wrong data (the key handle is not this authenticator's).
pub const SW_WRONG_DATA: u16 = 0x6A80;

/// One CTAP1 request in APDU form.
#[derive(Clone, Debug)]
pub struct ApduRequest {
    pub cla: u8,
    pub ins: u8,
    pub p1: u8,
    pub p2: u8,
    pub data: Vec<u8>,
}

/// The extended-length wire form of an APDU request:
/// `CLA | INS | P1 | P2 | 0x00 | L_hi | L_lo | data | 0x00 0x00`
/// (Le = 0 requests as many response bytes as available).
pub open spec fn spec_apdu_encode(req: ApduRequest) -> Seq<u8> {
    seq![
        req.cla,
        req.ins,
        req.p1,
        req.p2,
        0u8,
        ((req.data@.len() as nat) / 256) as u8,
        ((req.data@.len() as nat) % 256) as u8,
    ] + req.data@ + seq![0u8, 0u8]
}

impl ApduRequest {
    /// Encode with extended length. The data field is bounded by the
    /// 16-bit length.
    pub fn encode_extended(&self) -> (r: Vec<u8>)
        requires
            self.data@.len() <= 0xFFFF,
        ensures
            r@ == spec_apdu_encode(*self),
    {
        let mut out: Vec<u8> = Vec::new();
        out.push(self.cla);
        out.push(self.ins);
        out.push(self.p1);
        out.push(self.p2);
        out.push(0u8);
        out.push((self.data.len() / 256) as u8);
        out.push((self.data.len() % 256) as u8);
        push_all(&mut out, self.data.as_slice());
        out.push(0u8);
        out.push(0u8);
        assert(out@ =~= spec_apdu_encode(*self));
        out
    }
}

/// One CTAP1 response: the body and the trailing status word.
#[derive(Clone, Debug)]
pub struct ApduResponse {
    pub data: Vec<u8>,
    pub sw1: u8,
    pub sw2: u8,
}

impl ApduResponse {
    /// The 16-bit status word.
    pub open spec fn spec_status_word(&self) -> int {
        spec_u16_be(self.sw1, self.sw2)
    }

    /// The 16-bit status word.
    pub fn status_word(&self) -> (r: u16)
        ensures
            r as int == self.spec_status_word(),
    {
        (self.sw1 as u16) * 256 + (self.sw2 as u16)
    }

    /// Split raw transport bytes into body and status word. Fails when the
    /// transport handed back fewer than the two status bytes.
    pub fn parse(raw: &Vec<u8>) -> (r: Result<ApduResponse, Error>)
        ensures
            r matches Ok(resp) ==> raw@.len() >= 2 && resp.data@ == raw@.subrange(
                0,
                raw@.len() - 2,
            ) && resp.sw1 == raw@[raw@.len() - 2] && resp.sw2 == raw@[raw@.len() - 1],
            r is Err <==> raw@.len() < 2,
            r is Err ==> r == Err::<ApduResponse, Error>(Error::Ctap(CtapError::InvalidLength)),
    {
        if raw.len() < 2 {
            return Err(Error::Ctap(CtapError::InvalidLength));
        }
        let n = raw.len();
        let data = copy_range(raw.as_slice(), 0, n - 2);
        Ok(ApduResponse { data, sw1: raw[n - 2], sw2: raw[n - 1] })
    }
}

/// The CTAP error a U2F status word denotes: success for `SW_NO_ERROR`,
/// `NoCredentials` for `SW_WRONG_DATA`, `PINRequired` for
/// `SW_CONDITIONS_NOT_SATISFIED` (user presence still missing), and `Other`
/// for anything else.
pub open spec fn spec_sw_result(sw: int) -> Result<(), CtapError> {
    if sw == 0x9000 {
        Ok(())
    } else if sw == 0x6A80 {
        Err(CtapError::NoCredentials)
    } else if sw == 0x6985 {
        Err(CtapError::PINRequired)
    } else {
        Err(CtapError::Other)
    }
}

/// Map a status word to success or the CTAP error it denotes.
pub fn sw_to_result(sw: u16) -> (r: Result<(), CtapError>)
    ensures
        r == spec_sw_result(sw as int),
{
    if sw == 0x9000 {
        Ok(())
    } else if sw == 0x6A80 {
        Err(CtapError::NoCredentials)
    } else if sw == 0x6985 {
        Err(CtapError::PINRequired)
    } else {
        Err(CtapError::Other)
    }
}

/// A key already registered with the relying party, in U2F form.
#[derive(Clone, Debug)]
pub struct Ctap1RegisteredKey {
    pub key_handle: Vec<u8>,
}

impl Ctap1RegisteredKey {
    /// Wrap a credential id as a U2F_V2 registered key.
    pub fn new_u2f_v2(key_handle: &Vec<u8>) -> (r: Ctap1RegisteredKey)
        ensures
            r.key_handle@ == key_handle@,
    {
        Ctap1RegisteredKey { key_handle: key_handle.clone() }
    }
}

/// A U2F Register request: the relying party's application id, the
/// challenge (the client data hash), and the keys to exclude.
#[derive(Clone, Debug)]
pub struct RegisterRequest {
    pub app_id: String,
    pub challenge: Vec<u8>,
    pub registered_keys: Vec<Ctap1RegisteredKey>,
    pub timeout_ms: u32,
}

impl RegisterRequest {
    /// The register request is well-formed: the challenge is a 32-byte
    /// hash.
    pub open spec fn wf(&self) -> bool {
        self.challenge@.len() == 32
    }

    /// Build a U2F_V2 register request.
    pub fn new_u2f_v2(
        app_id: &String,
        challenge: &Vec<u8>,
        registered_keys: Vec<Ctap1RegisteredKey>,
        timeout_ms: u32,
    ) -> (r: RegisterRequest)
        requires
            challenge@.len() == 32,
        ensures
            r.app_id@ == app_id@,
            r.challenge@ == challenge@,
            r.registered_keys == registered_keys,
            r.timeout_ms == timeout_ms,
            r.wf(),
    {
        RegisterRequest {
            app_id: app_id.clone(),
            challenge: challenge.clone(),
            registered_keys,
            timeout_ms,
        }
    }

    /// The APDU for this request: instruction Register, body
    /// `challenge (32) | appIdHash (32)` with `appIdHash` the SHA-256 of
    /// the UTF-8 application id — the authenticator receives the challenge
    /// byte-for-byte and the hashed relying-party id.
    pub fn to_apdu(&self) -> (r: ApduRequest)
        requires
            self.wf(),
        ensures
            r.cla == 0,
            r.ins == APDU_INS_REGISTER,
            r.p1 == 0,
            r.p2 == 0,
            r.data@ == self.challenge@ + spec_sha256(encode_utf8(self.app_id@)),
            r.data@.len() == 64,
    {
        let app_id_hash = sha256(self.app_id.as_str().as_bytes());
        let mut data = self.challenge.clone();
        push_all(&mut data, app_id_hash.as_slice());
        ApduRequest { cla: 0, ins: APDU_INS_REGISTER, p1: 0, p2: 0, data }
    }
}

/// A U2F Authenticate request for one credential.
#[derive(Clone, Debug)]
pub struct SignRequest {
    pub app_id: String,
    pub challenge: Vec<u8>,
    pub key_handle: Vec<u8>,
    pub timeout_ms: u32,
    pub require_user_presence: bool,
}

impl SignRequest {
    /// The sign request is well-formed: a 32-byte challenge and a key
    /// handle that fits the one-byte length field.
    pub open spec fn wf(&self) -> bool {
        self.challenge@.len() == 32 && self.key_handle@.len() <= 255
    }

    /// Build an authenticate request for one credential.
    pub fn new(
        app_id: &String,
        challenge: &Vec<u8>,
        key_handle: &Vec<u8>,
        timeout_ms: u32,
        require_user_presence: bool,
    ) -> (r: SignRequest)
        requires
            challenge@.len() == 32,
            key_handle@.len() <= 255,
        ensures
            r.app_id@ == app_id@,
            r.challenge@ == challenge@,
            r.key_handle@ == key_handle@,
            r.timeout_ms == timeout_ms,
            r.require_user_presence == require_user_presence,
            r.wf(),
    {
        SignRequest {
            app_id: app_id.clone(),
            challenge: challenge.clone(),
            key_handle: key_handle.clone(),
            timeout_ms,
            require_user_presence,
        }
    }

    /// The APDU for this request: instruction Authenticate, control byte
    /// per user-presence choice, body
    /// `challenge (32) | appIdHash (32) | L | keyHandle (L)`.
    pub fn to_apdu(&self) -> (r: ApduRequest)
        requires
            self.wf(),
        ensures
            r.cla == 0,
            r.ins == APDU_INS_AUTHENTICATE,
            r.p1 == (if self.require_user_presence {
                APDU_P1_ENFORCE_UP
            } else {
                APDU_P1_DONT_ENFORCE_UP
            }),
            r.p2 == 0,
            r.data@ == self.challenge@ + spec_sha256(encode_utf8(self.app_id@)) + seq![
                self.key_handle@.len() as u8,
            ] + self.key_handle@,
    {
        let app_id_hash = sha256(self.app_id.as_str().as_bytes());
        let mut data = self.challenge.clone();
        push_all(&mut data, app_id_hash.as_slice());
        data.push(self.key_handle.len() as u8);
        push_all(&mut data, self.key_handle.as_slice());
        let p1 = if self.require_user_presence {
            APDU_P1_ENFORCE_UP
        } else {
            APDU_P1_DONT_ENFORCE_UP
        };
        assert(data@ =~= self.challenge@ + spec_sha256(encode_utf8(self.app_id@)) + seq![
            self.key_handle@.len() as u8,
        ] + self.key_handle@);
        ApduRequest { cla: 0, ins: APDU_INS_AUTHENTICATE, p1, p2: 0, data }
    }
}

/// The APDU for the U2F Version operation: instruction Version, no body.
pub fn version_apdu() -> (r: ApduRequest)
    ensures
        r.cla == 0,
        r.ins == APDU_INS_VERSION,
        r.p1 == 0,
        r.p2 == 0,
        r.data@.len() == 0,
{
    ApduRequest { cla: 0, ins: APDU_INS_VERSION, p1: 0, p2: 0, data: Vec::new() }
}

/// The length of a DER element's content and header starting at `o`: the
/// short form, or the one- or two-byte long forms.
pub open spec fn spec_der_len(b: Seq<u8>, o: int) -> Option<(int, int)> {
    if 0 <= o && o + 1 < b.len() {
        let l = b[o + 1];
        if l < 0x80 {
            Some(((l as int, 2)))
        } else if l == 0x81 && o + 2 < b.len() {
            Some(((b[o + 2] as int, 3)))
        } else if l == 0x82 && o + 3 < b.len() {
            Some(((spec_u16_be(b[o + 2], b[o + 3]), 4)))
        } else {
            None
        }
    } else {
        None
    }
}

/// A parsed U2F register response body.
#[derive(Clone, Debug)]
pub struct Ctap1RegisterResponse {
    pub user_public_key: Vec<u8>,
    pub key_handle: Vec<u8>,
    pub attestation_certificate: Vec<u8>,
    pub signature: Vec<u8>,
}

/// What the register response body
/// `0x05 | userPubKey (65) | L | keyHandle (L) | attestCert (DER) | signature (DER)`
/// parses to, when well-formed: the public key, the key handle, the
/// certificate and the (non-empty) signature, as byte sequences.
pub open spec fn spec_parse_register_response(b: Seq<u8>) -> Option<
    (Seq<u8>, Seq<u8>, Seq<u8>, Seq<u8>),
> {
    if b.len() >= 67 && b[0] == 0x05 {
        let kh_len = b[66] as int;
        let cert_start = 67 + kh_len;
        if cert_start < b.len() && b[cert_start] == 0x30 {
            match spec_der_len(b, cert_start) {
                Some((content_len, header_len)) => {
                    let cert_end = cert_start + header_len + content_len;
                    if cert_end < b.len() {
                        Some(
                            (
                                b.subrange(1, 66),
                                b.subrange(67, cert_start),
                                b.subrange(cert_start, cert_end),
                                b.subrange(cert_end, b.len() as int),
                            ),
                        )
                    } else {
                        None
                    }
                },
                None => None,
            }
        } else {
            None
        }
    } else {
        None
    }
}

impl Ctap1RegisterResponse {
    /// Parse a register response body. Fails with `MissingField` when the
    /// body is truncated or malformed.
    pub fn parse_body(b: &Vec<u8>) -> (r: Result<Ctap1RegisterResponse, Error>)
        ensures
            r matches Ok(resp) ==> spec_parse_register_response(b@) == Some(
                (
                    resp.user_public_key@,
                    resp.key_handle@,
                    resp.attestation_certificate@,
                    resp.signature@,
                ),
            ),
            r is Err <==> spec_parse_register_response(b@) is None,
            r is Err ==> r == Err::<Ctap1RegisterResponse, Error>(
                Error::Protocol(ProtocolError::MissingField),
            ),
    {
        if b.len() < 67 || b[0] != 0x05 {
            return Err(Error::Protocol(ProtocolError::MissingField));
        }
        let kh_len = b[66] as usize;
        let cert_start = 67 + kh_len;
        if cert_start >= b.len() || b[cert_start] != 0x30 {
            return Err(Error::Protocol(ProtocolError::MissingField));
        }
        let (content_len, header_len) = match der_len(b.as_slice(), cert_start) {
            Some(pair) => pair,
            None => {
                return Err(Error::Protocol(ProtocolError::MissingField));
            },
        };
        let cert_end = cert_start + header_len + content_len;
        if cert_end >= b.len() {
            return Err(Error::Protocol(ProtocolError::MissingField));
        }
        Ok(
            Ctap1RegisterResponse {
                user_public_key: copy_range(b.as_slice(), 1, 66),
                key_handle: copy_range(b.as_slice(), 67, cert_start),
                attestation_certificate: copy_range(b.as_slice(), cert_start, cert_end),
                signature: copy_range(b.as_slice(), cert_end, b.len()),
            },
        )
    }

    /// The registered key this response creates, for a later authenticate
    /// call.
    pub fn as_registered_key(&self) -> (r: Ctap1RegisteredKey)
        ensures
            r.key_handle@ == self.key_handle@,
    {
        Ctap1RegisteredKey { key_handle: self.key_handle.clone() }
    }
}

/// Read a DER element's content and header lengths at `o`, as
/// `spec_der_len` gives them.
fn der_len(b: &[u8], o: usize) -> (r: Option<(usize, usize)>)
    ensures
        r matches Some((content_len, header_len)) ==> spec_der_len(b@, o as int) == Some(
            ((content_len as int, header_len as int)),
        ),
        r is None <==> spec_der_len(b@, o as int) is None,
{
    if o >= b.len() || b.len() - o < 2 {
        return None;
    }
    let l = b[o + 1];
    if l < 0x80 {
        Some((l as usize, 2))
    } else if l == 0x81 && b.len() - o > 2 {
        Some((b[o + 2] as usize, 3))
    } else if l == 0x82 && b.len() - o > 3 {
        Some(((b[o + 2] as usize) * 256 + (b[o + 3] as usize), 4))
    } else {
        None
    }
}

/// A parsed U2F authenticate response body: the user-presence byte, the
/// big-endian counter, and the signature.
#[derive(Clone, Debug)]
pub struct Ctap1SignResponse {
    pub user_presence: u8,
    pub counter: u32,
    pub signature: Vec<u8>,
}

/// What the authenticate response body
/// `userPresence (1) | counter (4, big-endian) | signature (DER)` parses
/// to, when it holds at least those five bytes and a non-empty signature.
pub open spec fn spec_parse_sign_response(b: Seq<u8>) -> Option<(u8, int, Seq<u8>)> {
    if b.len() >= 6 {
        Some(((b[0], spec_u32_be(b[1], b[2], b[3], b[4]), b.subrange(5, b.len() as int))))
    } else {
        None
    }
}

impl Ctap1SignResponse {
    /// Parse an authenticate response body. Fails with `MissingField` when
    /// the body is truncated.
    pub fn parse_body(b: &Vec<u8>) -> (r: Result<Ctap1SignResponse, Error>)
        ensures
            r matches Ok(resp) ==> spec_parse_sign_response(b@) == Some(
                ((resp.user_presence, resp.counter as int, resp.signature@)),
            ),
            r is Err <==> spec_parse_sign_response(b@) is None,
            r is Err ==> r == Err::<Ctap1SignResponse, Error>(
                Error::Protocol(ProtocolError::MissingField),
            ),
    {
        if b.len() < 6 {
            return Err(Error::Protocol(ProtocolError::MissingField));
        }
        Ok(
            Ctap1SignResponse {
                user_presence: b[0],
                counter: u32_from_be(b[1], b[2], b[3], b[4]),
                signature: copy_range(b.as_slice(), 5, b.len()),
            },
        )
    }
}

} // verus!
