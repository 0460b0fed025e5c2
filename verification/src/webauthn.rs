//! The WebAuthn orchestrator: protocol negotiation, the
//! user-verification state machine, the down/up-grade between WebAuthn and
//! U2F, and the `WebAuthn` operations any channel gains.

use vstd::prelude::*;

use crate::crypto::spec_sha256;
use crate::ctap1::{Ctap1RegisterResponse, Ctap1RegisteredKey, Ctap1SignResponse, RegisterRequest, SignRequest};
use crate::ctap2::{
    Ctap2COSEAlgorithmIdentifier, Ctap2GetAssertionRequest, Ctap2GetAssertionResponse,
    Ctap2GetInfoResponse, Ctap2MakeCredentialRequest, Ctap2ClientPinRequest, Ctap2CredentialType,
    Ctap2UserVerifiableRequest, Ctap2UserVerificationOperation, GetAssertionResponse,
    MakeCredentialResponse, P256PublicKey, UserVerificationRequirement, FLAG_ATTESTED_CREDENTIAL_DATA,
    FLAG_USER_PRESENT,
};
use crate::errors::{CtapError, Error, ProtocolError};
use crate::pin::{pin_hash, spec_authenticate, spec_nfkc, spec_secret_len, spec_shared_secret, spec_zero_bytes, zero_bytes, zeroize_bytes, PinUvAuthProtocol};
use crate::transport::{
    ctap1_register, ctap1_sign, ctap1_version, ctap2_client_pin, ctap2_get_assertion,
    ctap2_get_info, ctap2_get_next_assertion, ctap2_make_credential, negotiate_protocol, Channel,
    FidoProtocol,
};
use vstd::string::StrSliceExecFns;
use vstd::utf8::encode_utf8;

verus! {

/// The WebAuthn-level MakeCredential request (its CTAP2 form carries every
/// WebAuthn attribute).
pub type MakeCredentialRequest = Ctap2MakeCredentialRequest;

/// The WebAuthn-level GetAssertion request.
pub type GetAssertionRequest = Ctap2GetAssertionRequest;

/// A request that can be downgraded to its U2F counterpart.
pub trait Downgrade<T>: Sized {
    /// The request is downgradable.
    spec fn spec_is_downgradable(&self) -> bool;

    /// `t` is the faithful U2F counterpart of this request.
    spec fn spec_downgrade_ok(&self, t: &T) -> bool;

    /// Whether the request is downgradable.
    fn is_downgradable(&self) -> (r: bool)
        ensures
            r == self.spec_is_downgradable(),
    ;

    /// The U2F counterpart, exactly when the request is downgradable.
    fn downgrade(&self) -> (r: Option<T>)
        ensures
            r is Some <==> self.spec_is_downgradable(),
            r matches Some(t) ==> self.spec_downgrade_ok(&t),
    ;
}

/// The algorithm list offers ES256.
pub open spec fn spec_supports_es256(algorithms: Seq<Ctap2CredentialType>) -> bool {
    exists|i: int|
        0 <= i < algorithms.len() && algorithms[i].algorithm
            == Ctap2COSEAlgorithmIdentifier::ES256
}

impl Downgrade<RegisterRequest> for Ctap2MakeCredentialRequest {
    /// A MakeCredential is downgradable iff its parameters include ES256,
    /// no resident key is demanded, and user verification is not demanded.
    open spec fn spec_is_downgradable(&self) -> bool {
        &&& spec_supports_es256(self.algorithms@)
        &&& !self.require_resident_key
        &&& !self.user_verification.spec_is_required()
    }

    /// The register request maps the relying-party id to the application
    /// id, the client data hash to the challenge, and each excluded
    /// credential to a registered-key stub.
    open spec fn spec_downgrade_ok(&self, t: &RegisterRequest) -> bool {
        &&& t.app_id@ == self.relying_party.id@
        &&& t.challenge@ == self.hash@
        &&& t.timeout_ms == self.timeout_ms
        &&& t.registered_keys@.len() == spec_exclude_list(self).len()
        &&& forall|k: int|
            0 <= k < t.registered_keys@.len() ==> (#[trigger] t.registered_keys@[k]).key_handle@
                == spec_exclude_list(self)[k].id@
    }

    fn is_downgradable(&self) -> (r: bool) {
        let mut found_es256 = false;
        let mut i: usize = 0;
        while i < self.algorithms.len()
            invariant
                i <= self.algorithms@.len(),
                found_es256 == exists|j: int|
                    0 <= j < i && self.algorithms@[j].algorithm
                        == Ctap2COSEAlgorithmIdentifier::ES256,
            decreases self.algorithms@.len() - i,
        {
            if self.algorithms[i].algorithm == Ctap2COSEAlgorithmIdentifier::ES256 {
                found_es256 = true;
            }
            i = i + 1;
        }
        found_es256 && !self.require_resident_key && !self.user_verification.is_required()
    }

    fn downgrade(&self) -> (r: Option<RegisterRequest>) {
        if !self.is_downgradable() {
            return None;
        }
        let mut registered_keys: Vec<Ctap1RegisteredKey> = Vec::new();
        match &self.exclude {
            Some(excluded) => {
                let mut i: usize = 0;
                while i < excluded.len()
                    invariant
                        i <= excluded@.len(),
                        registered_keys@.len() == i,
                        forall|k: int|
                            0 <= k < i ==> (#[trigger] registered_keys@[k]).key_handle@
                                == excluded@[k].id@,
                    decreases excluded@.len() - i,
                {
                    registered_keys.push(Ctap1RegisteredKey::new_u2f_v2(&excluded[i].id));
                    i = i + 1;
                }
            },
            None => {},
        }
        Some(
            RegisterRequest {
                app_id: self.relying_party.id.clone(),
                challenge: self.hash.clone(),
                registered_keys,
                timeout_ms: self.timeout_ms,
            },
        )
    }
}

/// The exclude list of a MakeCredential request, empty when absent.
pub open spec fn spec_exclude_list(req: &Ctap2MakeCredentialRequest) -> Seq<
    crate::ctap2::Ctap2PublicKeyCredentialDescriptor,
> {
    match req.exclude {
        Some(l) => l@,
        None => Seq::empty(),
    }
}

/// A MakeCredential that demands a resident key is never downgradable:
/// U2F has no resident credentials.
pub proof fn lemma_resident_key_never_downgradable(req: Ctap2MakeCredentialRequest)
    requires
        req.require_resident_key,
    ensures
        !req.spec_is_downgradable(),
{
}

impl Downgrade<Vec<SignRequest>> for Ctap2GetAssertionRequest {
    /// A GetAssertion is downgradable iff it carries at least one allowed
    /// credential, none of their handles outgrows U2F's one-byte length,
    /// and user verification is not demanded: U2F cannot verify a user.
    open spec fn spec_is_downgradable(&self) -> bool {
        &&& self.allow@.len() > 0
        &&& forall|k: int| 0 <= k < self.allow@.len() ==> (#[trigger] self.allow@[k]).id@.len()
            <= 255
        &&& !self.user_verification.spec_is_required()
    }

    /// One U2F authenticate request per allowed credential, in order, each
    /// enforcing user presence and carrying the relying-party id and the
    /// client data hash.
    open spec fn spec_downgrade_ok(&self, t: &Vec<SignRequest>) -> bool {
        &&& t@.len() == self.allow@.len()
        &&& forall|k: int|
            0 <= k < t@.len() ==> {
                &&& (#[trigger] t@[k]).app_id@ == self.rp_id@
                &&& t@[k].challenge@ == self.hash@
                &&& t@[k].key_handle@ == self.allow@[k].id@
                &&& t@[k].timeout_ms == self.timeout_ms
                &&& t@[k].require_user_presence
            }
    }

    fn is_downgradable(&self) -> (r: bool) {
        if self.user_verification.is_required() || self.allow.len() == 0 {
            return false;
        }
        let mut i: usize = 0;
        while i < self.allow.len()
            invariant
                i <= self.allow@.len(),
                forall|k: int| 0 <= k < i ==> (#[trigger] self.allow@[k]).id@.len() <= 255,
            decreases self.allow@.len() - i,
        {
            if self.allow[i].id.len() > 255 {
                return false;
            }
            i = i + 1;
        }
        true
    }

    fn downgrade(&self) -> (r: Option<Vec<SignRequest>>) {
        if !self.is_downgradable() {
            return None;
        }
        let mut requests: Vec<SignRequest> = Vec::new();
        let mut i: usize = 0;
        while i < self.allow.len()
            invariant
                i <= self.allow@.len(),
                requests@.len() == i,
                forall|k: int|
                    0 <= k < i ==> {
                        &&& (#[trigger] requests@[k]).app_id@ == self.rp_id@
                        &&& requests@[k].challenge@ == self.hash@
                        &&& requests@[k].key_handle@ == self.allow@[k].id@
                        &&& requests@[k].timeout_ms == self.timeout_ms
                        &&& requests@[k].require_user_presence
                    },
            decreases self.allow@.len() - i,
        {
            requests.push(
                SignRequest {
                    app_id: self.rp_id.clone(),
                    challenge: self.hash.clone(),
                    key_handle: self.allow[i].id.clone(),
                    timeout_ms: self.timeout_ms,
                    require_user_presence: true,
                },
            );
            i = i + 1;
        }
        Some(requests)
    }
}

/// In the U2F register downgrade the authenticator receives the challenge
/// and the hashed relying-party id byte-for-byte: the APDU body of the
/// downgraded request opens with the request's client data hash and closes
/// with the SHA-256 of its relying-party id.
pub proof fn lemma_u2f_register_carries_hashes(
    op: Ctap2MakeCredentialRequest,
    req: RegisterRequest,
    apdu_data: Seq<u8>,
)
    requires
        op.wf(),
        op.spec_downgrade_ok(&req),
        apdu_data == req.challenge@ + spec_sha256(encode_utf8(req.app_id@)),
    ensures
        apdu_data.take(32) == op.hash@,
        apdu_data.skip(32) == spec_sha256(encode_utf8(op.relying_party.id@)),
{
    assert(apdu_data.take(32) =~= op.hash@);
    assert(apdu_data.skip(32) =~= spec_sha256(encode_utf8(op.relying_party.id@)));
}

impl Ctap1RegisterResponse {
    /// Reconstitute a U2F register response as a WebAuthn attestation:
    /// format `fido-u2f`, an all-zero AAGUID, flag bits UP and AT, the
    /// hashed relying-party id, and the X.509 statement from the device.
    pub fn try_upgrade(&self, op: &Ctap2MakeCredentialRequest) -> (r: Result<
        MakeCredentialResponse,
        Error,
    >)
        ensures
            r matches Ok(resp) ==> {
                &&& resp.format@ == "fido-u2f"@
                &&& resp.rp_id_hash@ == spec_sha256(encode_utf8(op.relying_party.id@))
                &&& resp.rp_id_hash@.len() == 32
                &&& resp.flags == (FLAG_USER_PRESENT | FLAG_ATTESTED_CREDENTIAL_DATA)
                &&& resp.sign_count == 0
                &&& resp.aaguid@ == spec_zero_bytes(16)
                &&& resp.credential_id@ == self.key_handle@
                &&& resp.credential_public_key@ == self.user_public_key@
                &&& resp.attestation_certificate@ == self.attestation_certificate@
                &&& resp.attestation_signature@ == self.signature@
            },
            r is Ok,
    {
        let rp_id_hash = crate::crypto::sha256(op.relying_party.id.as_str().as_bytes());
        let aaguid = zero_bytes(16);
        Ok(
            MakeCredentialResponse {
                format: "fido-u2f".to_owned(),
                rp_id_hash,
                flags: FLAG_USER_PRESENT | FLAG_ATTESTED_CREDENTIAL_DATA,
                sign_count: 0,
                aaguid,
                credential_id: self.key_handle.clone(),
                credential_public_key: self.user_public_key.clone(),
                attestation_certificate: self.attestation_certificate.clone(),
                attestation_signature: self.signature.clone(),
            },
        )
    }
}

impl Ctap1SignResponse {
    /// Reconstitute a U2F authenticate response as a WebAuthn assertion
    /// wrapping the credential's key handle, counter and signature.
    pub fn try_upgrade(&self, request: &SignRequest) -> (r: Result<GetAssertionResponse, Error>)
        ensures
            r matches Ok(resp) ==> {
                &&& resp.assertions@.len() == 1
                &&& resp.assertions@[0].credential_id matches Some(id) && id@
                    == request.key_handle@
                &&& resp.assertions@[0].flags == self.user_presence
                &&& resp.assertions@[0].sign_count == self.counter
                &&& resp.assertions@[0].signature@ == self.signature@
                &&& resp.assertions@[0].user_id is None
                &&& resp.assertions@[0].credentials_count is None
            },
            r is Ok,
    {
        let assertion = Ctap2GetAssertionResponse {
            credential_id: Some(request.key_handle.clone()),
            flags: self.user_presence,
            sign_count: self.counter,
            signature: self.signature.clone(),
            user_id: None,
            credentials_count: None,
        };
        let mut assertions: Vec<Ctap2GetAssertionResponse> = Vec::new();
        assertions.push(assertion);
        Ok(GetAssertionResponse { assertions })
    }
}

/// The host's surface for prompting the user's PIN. Returning nothing
/// signals that the user cancelled.
pub trait PinProvider {
    /// Prompt for the PIN, showing how many attempts remain when known.
    fn provide_pin(&self, attempts_left: Option<u32>) -> (r: Option<String>);
}

/// What the user-verification state machine decides from the device's
/// capabilities and the relying party's demand.
#[derive(Clone, Copy, Debug, PartialEq, Eq, Structural)]
pub enum UvPlan {
    /// Nothing to do: verification neither asked nor available.
    Skip,
    /// Verification is demanded but the device cannot verify its user.
    Reject,
    /// No token-capable operation: set the legacy `options.uv` flag only.
    SetLegacyUv,
    /// Obtain a pinUvAuthToken by the given operation.
    ObtainToken(Ctap2UserVerificationOperation),
}

/// The user-verification decision: skip when nobody wants verification or
/// when only preferred and the device cannot verify; reject a hard demand
/// the device cannot meet; otherwise run the operation the capability set
/// selects.
pub open spec fn spec_uv_plan(
    info: Ctap2GetInfoResponse,
    requirement: UserVerificationRequirement,
) -> UvPlan {
    let dev_uv = info.spec_is_uv_protected();
    if !requirement.spec_is_preferred() && !dev_uv {
        UvPlan::Skip
    } else if !dev_uv && requirement.spec_is_required() {
        UvPlan::Reject
    } else if !dev_uv {
        UvPlan::Skip
    } else if info.spec_uv_operation() == Ctap2UserVerificationOperation::LegacyUv {
        UvPlan::SetLegacyUv
    } else {
        UvPlan::ObtainToken(info.spec_uv_operation())
    }
}

/// Decide the user-verification plan.
pub fn plan_user_verification(
    info: &Ctap2GetInfoResponse,
    requirement: UserVerificationRequirement,
) -> (r: UvPlan)
    ensures
        r == spec_uv_plan(*info, requirement),
{
    let dev_uv = info.is_uv_protected();
    if !requirement.is_preferred() && !dev_uv {
        return UvPlan::Skip;
    }
    if !dev_uv && requirement.is_required() {
        return UvPlan::Reject;
    }
    if !dev_uv {
        return UvPlan::Skip;
    }
    let operation = info.uv_operation();
    if operation == Ctap2UserVerificationOperation::LegacyUv {
        UvPlan::SetLegacyUv
    } else {
        UvPlan::ObtainToken(operation)
    }
}

/// Where a GetInfo publishes neither `clientPin` nor `uv`, no token
/// operation is selected and no shared-secret exchange occurs: the plan
/// either skips user verification or rejects the request outright.
pub proof fn lemma_no_uv_capability_no_exchange(
    info: Ctap2GetInfoResponse,
    requirement: UserVerificationRequirement,
)
    requires
        info.option_client_pin is None,
        info.option_uv is None,
    ensures
        info.spec_uv_operation() == Ctap2UserVerificationOperation::LegacyUv,
        spec_uv_plan(info, requirement) == UvPlan::Skip || spec_uv_plan(info, requirement)
            == UvPlan::Reject,
{
}

/// The first PIN/UV auth protocol in the authenticator's preference list
/// that this library implements.
pub open spec fn spec_first_supported_proto(protos: Seq<u32>) -> Option<PinUvAuthProtocol>
    decreases protos.len(),
{
    if protos.len() == 0 {
        None
    } else if protos[0] == 1 {
        Some(PinUvAuthProtocol::One)
    } else if protos[0] == 2 {
        Some(PinUvAuthProtocol::Two)
    } else {
        spec_first_supported_proto(protos.skip(1))
    }
}

/// Select the PIN/UV auth protocol: walk `pinUvAuthProtocols` in the
/// authenticator's order and take the first version this library
/// implements; fail with `Other` when there is none.
pub fn select_uv_proto(info: &Ctap2GetInfoResponse) -> (r: Result<PinUvAuthProtocol, Error>)
    ensures
        r matches Ok(p) ==> info.pin_auth_protos matches Some(l) && spec_first_supported_proto(
            l@,
        ) == Some(p),
        r is Err <==> (info.pin_auth_protos is None || (info.pin_auth_protos matches Some(l)
            && spec_first_supported_proto(l@) is None)),
        r is Err ==> r == Err::<PinUvAuthProtocol, Error>(Error::Ctap(CtapError::Other)),
{
    match &info.pin_auth_protos {
        None => Err(Error::Ctap(CtapError::Other)),
        Some(protos) => {
            assert(protos@.skip(0) =~= protos@);
            let mut i: usize = 0;
            while i < protos.len()
                invariant
                    i <= protos@.len(),
                    info.pin_auth_protos == Some(*protos),
                    spec_first_supported_proto(protos@.skip(i as int))
                        == spec_first_supported_proto(protos@),
                decreases protos@.len() - i,
            {
                proof {
                    assert(protos@.skip(i as int)[0] == protos@[i as int]);
                    assert(protos@.skip(i as int).skip(1) =~= protos@.skip(i as int + 1));
                }
                if protos[i] == 1 {
                    assert(spec_first_supported_proto(protos@.skip(i as int)) == Some(
                        PinUvAuthProtocol::One,
                    ));
                    assert(info.pin_auth_protos matches Some(l) && l@ == protos@);
                    return Ok(PinUvAuthProtocol::One);
                }
                if protos[i] == 2 {
                    assert(spec_first_supported_proto(protos@.skip(i as int)) == Some(
                        PinUvAuthProtocol::Two,
                    ));
                    assert(info.pin_auth_protos matches Some(l) && l@ == protos@);
                    return Ok(PinUvAuthProtocol::Two);
                }
                i = i + 1;
            }
            assert(protos@.skip(i as int) =~= Seq::<u32>::empty());
            Err(Error::Ctap(CtapError::Other))
        },
    }
}

/// Fetch the PIN from the host: read the remaining attempts from the
/// authenticator, prompt through the provider, and fail with
/// `PINRequired` when the user cancels. The PIN comes back normalized to
/// NFKC and encoded as UTF-8, ready for hashing.
pub fn obtain_pin<C: Channel, P: PinProvider>(
    channel: &mut C,
    pin_provider: &P,
    timeout_ms: u32,
) -> (r: Result<Vec<u8>, Error>)
    ensures
        r matches Ok(p) ==> exists|raw: Seq<char>| p@ == encode_utf8(spec_nfkc(raw)),
{
    let retries_response = ctap2_client_pin(
        channel,
        Ctap2ClientPinRequest::new_get_pin_retries(),
        timeout_ms,
    )?;
    match pin_provider.provide_pin(retries_response.pin_retries) {
        Some(raw_pin) => {
            let p = crate::pin::pin_bytes(raw_pin.as_str());
            proof {
                assert(p@ == encode_utf8(spec_nfkc(raw_pin@)));
            }
            Ok(p)
        },
        None => Err(Error::Ctap(CtapError::PINRequired)),
    }
}

/// Obtain the shared secret: ask the authenticator for its key-agreement
/// key, reject a key whose coordinates are not 32-byte field elements as
/// a UV-protocol mismatch, and encapsulate with the chosen protocol.
/// Returns the platform's public key (for the token request) and the
/// derived secret, whose length is the protocol's.
pub fn obtain_shared_secret<C: Channel>(
    channel: &mut C,
    proto: PinUvAuthProtocol,
    timeout_ms: u32,
) -> (r: Result<(P256PublicKey, Vec<u8>), Error>)
    ensures
        r matches Ok((pk, secret)) ==> pk.wf() && secret@.len() == spec_secret_len(proto)
            && exists|z: Seq<u8>| z.len() == 32 && secret@ == spec_shared_secret(proto, z),
{
    let request = Ctap2ClientPinRequest::new_get_key_agreement(proto.version());
    let response = ctap2_client_pin(channel, request, timeout_ms)?;
    let peer = match response.key_agreement {
        Some(k) => k,
        None => {
            return Err(Error::Ctap(CtapError::Other));
        },
    };
    if peer.x.len() != 32 || peer.y.len() != 32 {
        return Err(Error::Protocol(ProtocolError::UnsupportedUvProtocol));
    }
    let (platform_x, platform_y, secret) = proto.encapsulate(&peer.x, &peer.y)?;
    Ok((P256PublicKey { x: platform_x, y: platform_y }, secret))
}

/// The user-verification state machine: fetch the capability set, decide
/// the plan, and where a token operation is selected fetch the PIN first
/// (shared secrets expire while the user types), establish the shared
/// secret, obtain the pinUvAuthToken, and attach
/// `MAC(token, clientDataHash)` with the protocol version to the request.
pub fn user_verification<R: Ctap2UserVerifiableRequest, C: Channel, P: PinProvider>(
    channel: &mut C,
    requirement: UserVerificationRequirement,
    ctap2_request: &mut R,
    pin_provider: &P,
    timeout_ms: u32,
) -> (r: Result<(), Error>)
    ensures
        r is Err ==> *final(ctap2_request) == *old(ctap2_request),
        r is Ok ==> (*final(ctap2_request) == *old(ctap2_request) || *final(ctap2_request)
            == old(ctap2_request).spec_with_uv_set() || exists|
            proto: PinUvAuthProtocol,
            token: Seq<u8>,
        |
            old(ctap2_request).spec_uv_auth_applied(
                *final(ctap2_request),
                proto.spec_version(),
                spec_authenticate(proto, token, old(ctap2_request).spec_client_data_hash()),
            )),
{
    let info = ctap2_get_info(channel, timeout_ms)?;
    let plan = plan_user_verification(&info, requirement);
    let operation = match plan {
        UvPlan::Skip => {
            return Ok(());
        },
        UvPlan::Reject => {
            return Err(Error::Ctap(CtapError::PINNotSet));
        },
        UvPlan::SetLegacyUv => {
            ctap2_request.ensure_uv_set();
            return Ok(());
        },
        UvPlan::ObtainToken(op) => op,
    };
    // For PIN-based operations the PIN comes before the shared secret:
    // secrets expire while the user types.
    let pin: Option<Vec<u8>> = match operation {
        Ctap2UserVerificationOperation::GetPinToken
        | Ctap2UserVerificationOperation::GetPinUvAuthTokenUsingPinWithPermissions => Some(
            obtain_pin(channel, pin_provider, timeout_ms)?,
        ),
        _ => None,
    };
    let proto = match select_uv_proto(&info) {
        Ok(p) => p,
        Err(e) => {
            discard_pin(pin);
            return Err(e);
        },
    };
    let (public_key, mut shared_secret) = match obtain_shared_secret(channel, proto, timeout_ms) {
        Ok(v) => v,
        Err(e) => {
            discard_pin(pin);
            return Err(e);
        },
    };
    let token_request = match operation {
        Ctap2UserVerificationOperation::GetPinToken => {
            let mut pin_vec = match pin {
                Some(p) => p,
                None => {
                    zeroize_bytes(&mut shared_secret);
                    return Err(Error::Ctap(CtapError::Other));
                },
            };
            let mut hashed = pin_hash(pin_vec.as_slice());
            zeroize_bytes(&mut pin_vec);
            let pin_hash_enc = proto.encrypt(&shared_secret, &hashed);
            zeroize_bytes(&mut hashed);
            Ctap2ClientPinRequest::new_get_pin_token(proto.version(), public_key, &pin_hash_enc)
        },
        Ctap2UserVerificationOperation::GetPinUvAuthTokenUsingPinWithPermissions => {
            let mut pin_vec = match pin {
                Some(p) => p,
                None => {
                    zeroize_bytes(&mut shared_secret);
                    return Err(Error::Ctap(CtapError::Other));
                },
            };
            let mut hashed = pin_hash(pin_vec.as_slice());
            zeroize_bytes(&mut pin_vec);
            let pin_hash_enc = proto.encrypt(&shared_secret, &hashed);
            zeroize_bytes(&mut hashed);
            Ctap2ClientPinRequest::new_get_pin_token_with_perm(
                proto.version(),
                public_key,
                &pin_hash_enc,
                ctap2_request.permissions(),
                ctap2_request.permissions_rpid(),
            )
        },
        Ctap2UserVerificationOperation::GetPinUvAuthTokenUsingUvWithPermissions => {
            Ctap2ClientPinRequest::new_get_uv_token_with_perm(
                proto.version(),
                public_key,
                ctap2_request.permissions(),
                ctap2_request.permissions_rpid(),
            )
        },
        Ctap2UserVerificationOperation::LegacyUv => {
            zeroize_bytes(&mut shared_secret);
            return Err(Error::Ctap(CtapError::Other));
        },
    };
    let token_response = match ctap2_client_pin(channel, token_request, timeout_ms) {
        Ok(t) => t,
        Err(e) => {
            zeroize_bytes(&mut shared_secret);
            return Err(e);
        },
    };
    let encrypted_token = match token_response.pin_uv_auth_token {
        Some(t) => t,
        None => {
            zeroize_bytes(&mut shared_secret);
            return Err(Error::Ctap(CtapError::Other));
        },
    };
    let mut uv_auth_token = match proto.decrypt(&shared_secret, &encrypted_token) {
        Ok(t) => t,
        Err(e) => {
            zeroize_bytes(&mut shared_secret);
            return Err(e);
        },
    };
    zeroize_bytes(&mut shared_secret);
    let client_data_hash = ctap2_request.client_data_hash();
    let ghost token_view = uv_auth_token@;
    let uv_auth_param = proto.authenticate(&uv_auth_token, &client_data_hash);
    zeroize_bytes(&mut uv_auth_token);
    ctap2_request.set_uv_auth(proto.version(), &uv_auth_param);
    proof {
        assert(old(ctap2_request).spec_uv_auth_applied(
            *ctap2_request,
            proto.spec_version(),
            spec_authenticate(proto, token_view, old(ctap2_request).spec_client_data_hash()),
        ));
    }
    Ok(())
}

/// Overwrite a fetched PIN that will not be used.
fn discard_pin(pin: Option<Vec<u8>>) {
    match pin {
        Some(mut p) => zeroize_bytes(&mut p),
        None => {},
    }
}

/// The WebAuthn operations: every channel gains them. Negotiation prefers
/// FIDO2 and falls back to U2F only for downgradable requests.
pub trait WebAuthn<P: PinProvider>: Sized {
    /// Create a credential: negotiate, verify the user where needed, and
    /// run MakeCredential or the U2F register downgrade. Whichever path
    /// answered, a successful attestation carries a 32-byte relying-party
    /// id hash and a 16-byte AAGUID.
    fn webauthn_make_credential(
        &mut self,
        op: &MakeCredentialRequest,
        pin_provider: &P,
    ) -> (r: Result<MakeCredentialResponse, Error>)
        requires
            op.wf(),
        ensures
            r matches Ok(resp) ==> resp.rp_id_hash@.len() == 32 && resp.aaguid@.len() == 16,
    ;

    /// Get an assertion: negotiate, verify the user where needed, and run
    /// GetAssertion or the U2F authenticate downgrade. A successful
    /// response carries at least one assertion.
    fn webauthn_get_assertion(
        &mut self,
        op: &GetAssertionRequest,
        pin_provider: &P,
    ) -> (r: Result<GetAssertionResponse, Error>)
        requires
            op.wf(),
        ensures
            r matches Ok(resp) ==> resp.assertions@.len() >= 1,
    ;

    /// The FIDO2 MakeCredential path. The attestation is the
    /// authenticator's; success means it passed the decoder's shape
    /// check.
    fn _webauthn_make_credential_fido2(
        &mut self,
        op: &MakeCredentialRequest,
        pin_provider: &P,
    ) -> (r: Result<MakeCredentialResponse, Error>)
        requires
            op.wf(),
        ensures
            r matches Ok(resp) ==> resp.rp_id_hash@.len() == 32 && resp.aaguid@.len() == 16,
    ;

    /// The U2F register downgrade path: a non-downgradable request is
    /// refused outright; a successful response is the upgraded
    /// attestation — format `fido-u2f`, the hashed relying-party id, flag
    /// bits UP and AT, a zero counter and an all-zero AAGUID.
    fn _webauthn_make_credential_u2f(&mut self, op: &MakeCredentialRequest) -> (r: Result<
        MakeCredentialResponse,
        Error,
    >)
        requires
            op.wf(),
        ensures
            !op.spec_is_downgradable() ==> r == Err::<MakeCredentialResponse, Error>(
                Error::Ctap(CtapError::Other),
            ),
            r matches Ok(resp) ==> {
                &&& resp.format@ == "fido-u2f"@
                &&& resp.rp_id_hash@ == spec_sha256(encode_utf8(op.relying_party.id@))
                &&& resp.rp_id_hash@.len() == 32
                &&& resp.flags == (FLAG_USER_PRESENT | FLAG_ATTESTED_CREDENTIAL_DATA)
                &&& resp.sign_count == 0
                &&& resp.aaguid@ == spec_zero_bytes(16)
            },
    ;

    /// The FIDO2 GetAssertion path, collecting every additional assertion
    /// through GetNextAssertion. A successful response carries at least
    /// the first assertion.
    fn _webauthn_get_assertion_fido2(
        &mut self,
        op: &GetAssertionRequest,
        pin_provider: &P,
    ) -> (r: Result<GetAssertionResponse, Error>)
        requires
            op.wf(),
        ensures
            r matches Ok(resp) ==> resp.assertions@.len() >= 1,
    ;

    /// The U2F authenticate downgrade path: a non-downgradable request is
    /// refused outright; otherwise each allowed credential is tried in
    /// order, absorbing `NoCredentials` until one succeeds, and a
    /// successful response wraps exactly one assertion for one of the
    /// allowed credentials.
    fn _webauthn_get_assertion_u2f(&mut self, op: &GetAssertionRequest) -> (r: Result<
        GetAssertionResponse,
        Error,
    >)
        requires
            op.wf(),
        ensures
            !op.spec_is_downgradable() ==> r == Err::<GetAssertionResponse, Error>(
                Error::Ctap(CtapError::Other),
            ),
            r matches Ok(resp) ==> resp.assertions@.len() == 1 && exists|k: int|
                0 <= k < op.allow@.len() && (resp.assertions@[0].credential_id matches Some(id)
                    && id@ == (#[trigger] op.allow@[k]).id@),
    ;

    /// Negotiate the protocol, probing the CTAP1 version on a U2F
    /// fallback. U2F is settled on only where the request allowed it.
    fn _negotiate_protocol(&mut self, allow_u2f: bool) -> (r: Result<FidoProtocol, Error>)
        ensures
            r == Ok::<FidoProtocol, Error>(FidoProtocol::U2F) ==> allow_u2f,
    ;
}

impl<C: Channel, P: PinProvider> WebAuthn<P> for C {
    fn webauthn_make_credential(
        &mut self,
        op: &MakeCredentialRequest,
        pin_provider: &P,
    ) -> (r: Result<MakeCredentialResponse, Error>) {
        let allow_u2f = op.is_downgradable();
        let protocol = <C as WebAuthn<P>>::_negotiate_protocol(self, allow_u2f)?;
        match protocol {
            FidoProtocol::FIDO2 => <C as WebAuthn<P>>::_webauthn_make_credential_fido2(self, op, pin_provider),
            FidoProtocol::U2F => <C as WebAuthn<P>>::_webauthn_make_credential_u2f(self, op),
        }
    }

    fn _webauthn_make_credential_fido2(
        &mut self,
        op: &MakeCredentialRequest,
        pin_provider: &P,
    ) -> (r: Result<MakeCredentialResponse, Error>) {
        let mut ctap2_request = op.clone();
        user_verification(
            self,
            op.user_verification,
            &mut ctap2_request,
            pin_provider,
            op.timeout_ms,
        )?;
        ctap2_make_credential(self, &ctap2_request, op.timeout_ms)
    }

    fn _webauthn_make_credential_u2f(&mut self, op: &MakeCredentialRequest) -> (r: Result<
        MakeCredentialResponse,
        Error,
    >) {
        let register_request = match op.downgrade() {
            Some(req) => req,
            None => {
                return Err(Error::Ctap(CtapError::Other));
            },
        };
        let response = ctap1_register(self, &register_request)?;
        response.try_upgrade(op)
    }

    fn webauthn_get_assertion(
        &mut self,
        op: &GetAssertionRequest,
        pin_provider: &P,
    ) -> (r: Result<GetAssertionResponse, Error>) {
        let allow_u2f = op.is_downgradable();
        let protocol = <C as WebAuthn<P>>::_negotiate_protocol(self, allow_u2f)?;
        match protocol {
            FidoProtocol::FIDO2 => <C as WebAuthn<P>>::_webauthn_get_assertion_fido2(self, op, pin_provider),
            FidoProtocol::U2F => <C as WebAuthn<P>>::_webauthn_get_assertion_u2f(self, op),
        }
    }

    fn _webauthn_get_assertion_fido2(
        &mut self,
        op: &GetAssertionRequest,
        pin_provider: &P,
    ) -> (r: Result<GetAssertionResponse, Error>) {
        let mut ctap2_request = op.clone();
        user_verification(
            self,
            op.user_verification,
            &mut ctap2_request,
            pin_provider,
            op.timeout_ms,
        )?;
        let response = ctap2_get_assertion(self, &ctap2_request, op.timeout_ms)?;
        let count: u32 = match response.credentials_count {
            Some(n) => n,
            None => 1,
        };
        let mut assertions: Vec<Ctap2GetAssertionResponse> = Vec::new();
        assertions.push(response);
        let mut i: u32 = 1;
        while i < count
            invariant
                assertions@.len() >= 1,
            decreases count - i,
        {
            let next = ctap2_get_next_assertion(self, op.timeout_ms)?;
            assertions.push(next);
            i = i + 1;
        }
        Ok(GetAssertionResponse::from_assertions(assertions))
    }

    fn _webauthn_get_assertion_u2f(&mut self, op: &GetAssertionRequest) -> (r: Result<
        GetAssertionResponse,
        Error,
    >) {
        let sign_requests = match op.downgrade() {
            Some(reqs) => reqs,
            None => {
                return Err(Error::Ctap(CtapError::Other));
            },
        };
        let mut i: usize = 0;
        while i < sign_requests.len()
            invariant
                op.wf(),
                op.spec_is_downgradable(),
                op.spec_downgrade_ok(&sign_requests),
                i <= sign_requests@.len(),
            decreases sign_requests@.len() - i,
        {
            let sign_request = &sign_requests[i];
            proof {
                assert(sign_requests@[i as int].key_handle@ == op.allow@[i as int].id@);
                assert(op.allow@[i as int].id@.len() <= 255);
            }
            assert(sign_request.wf());
            match ctap1_sign(self, sign_request) {
                Ok(response) => {
                    let upgraded = response.try_upgrade(sign_request);
                    proof {
                        let k0 = i as int;
                        match &upgraded {
                            Ok(resp) => {
                                assert(0 <= k0 < op.allow@.len()
                                    && (resp.assertions@[0].credential_id matches Some(id) && id@
                                    == op.allow@[k0].id@));
                            },
                            Err(_) => {},
                        }
                    }
                    return upgraded;
                },
                Err(Error::Ctap(CtapError::NoCredentials)) => {
                    // This credential is not the authenticator's: try the
                    // next one.
                },
                Err(err) => {
                    return Err(err);
                },
            }
            i = i + 1;
        }
        Err(Error::Ctap(CtapError::NoCredentials))
    }

    fn _negotiate_protocol(&mut self, allow_u2f: bool) -> (r: Result<FidoProtocol, Error>) {
        let supported = self.supported_protocols()?;
        let protocol = negotiate_protocol(supported, allow_u2f)?;
        if protocol == FidoProtocol::U2F {
            // Ensure the CTAP1 version is reported correctly before
            // committing to the downgrade.
            let _version = ctap1_version(self, 0)?;
        }
        Ok(protocol)
    }
}

} // verus!
