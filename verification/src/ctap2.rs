//! CTAP2 data model: the GetInfo, MakeCredential, GetAssertion and
//! ClientPIN requests and responses, the user-verification operation
//! selection that GetInfo drives, and the trait by which the
//! user-verification machinery decorates a request with its PIN/UV
//! parameters.

use vstd::prelude::*;

verus! {

/// CTAP2 command byte: MakeCredential.
pub const CTAP2_CMD_MAKE_CREDENTIAL: u8 = 0x01;

/// CTAP2 command byte: GetAssertion.
pub const CTAP2_CMD_GET_ASSERTION: u8 = 0x02;

/// CTAP2 command byte: GetInfo.
pub const CTAP2_CMD_GET_INFO: u8 = 0x04;

/// CTAP2 command byte: ClientPIN.
pub const CTAP2_CMD_CLIENT_PIN: u8 = 0x06;

/// CTAP2 command byte: GetNextAssertion.
pub const CTAP2_CMD_GET_NEXT_ASSERTION: u8 = 0x08;

/// ClientPIN subcommand: getPinRetries.
pub const CLIENT_PIN_GET_PIN_RETRIES: u8 = 0x01;

/// ClientPIN subcommand: getKeyAgreement.
pub const CLIENT_PIN_GET_KEY_AGREEMENT: u8 = 0x02;

/// ClientPIN subcommand: setPin.
pub const CLIENT_PIN_SET_PIN: u8 = 0x03;

/// ClientPIN subcommand: changePin.
pub const CLIENT_PIN_CHANGE_PIN: u8 = 0x04;

/// ClientPIN subcommand: getPinToken.
pub const CLIENT_PIN_GET_PIN_TOKEN: u8 = 0x05;

/// ClientPIN subcommand: getPinUvAuthTokenUsingUvWithPermissions.
pub const CLIENT_PIN_GET_TOKEN_UV: u8 = 0x06;

/// ClientPIN subcommand: getUVRetries.
pub const CLIENT_PIN_GET_UV_RETRIES: u8 = 0x07;

/// ClientPIN subcommand: getPinUvAuthTokenUsingPinWithPermissions.
pub const CLIENT_PIN_GET_TOKEN_PIN: u8 = 0x09;

/// pinUvAuthToken permission bit: MakeCredential.
pub const PERMISSION_MC: u8 = 0x01;

/// pinUvAuthToken permission bit: GetAssertion.
pub const PERMISSION_GA: u8 = 0x02;

/// pinUvAuthToken permission bit: CredentialManagement.
pub const PERMISSION_CM: u8 = 0x04;

/// pinUvAuthToken permission bit: BioEnrollment.
pub const PERMISSION_BE: u8 = 0x08;

/// pinUvAuthToken permission bit: LargeBlobWrite.
pub const PERMISSION_LBW: u8 = 0x10;

/// pinUvAuthToken permission bit: AuthenticatorConfiguration.
pub const PERMISSION_ACFG: u8 = 0x20;

/// Authenticator-data flag bit: user present.
pub const FLAG_USER_PRESENT: u8 = 0x01;

/// Authenticator-data flag bit: user verified.
pub const FLAG_USER_VERIFIED: u8 = 0x04;

/// Authenticator-data flag bit: attested credential data included.
pub const FLAG_ATTESTED_CREDENTIAL_DATA: u8 = 0x40;

/// How strongly the relying party asks for user verification.
#[derive(Clone, Copy, Debug, PartialEq, Eq, Structural)]
pub enum UserVerificationRequirement {
    Discouraged,
    Preferred,
    Required,
}

impl UserVerificationRequirement {
    /// User verification is wanted: asked for either preferably or
    /// unconditionally.
    pub open spec fn spec_is_preferred(&self) -> bool {
        *self == UserVerificationRequirement::Preferred || *self
            == UserVerificationRequirement::Required
    }

    /// User verification is demanded unconditionally.
    pub open spec fn spec_is_required(&self) -> bool {
        *self == UserVerificationRequirement::Required
    }

    /// User verification is wanted: asked for either preferably or
    /// unconditionally.
    pub fn is_preferred(&self) -> (r: bool)
        ensures
            r == self.spec_is_preferred(),
    {
        match self {
            UserVerificationRequirement::Discouraged => false,
            _ => true,
        }
    }

    /// User verification is demanded unconditionally.
    pub fn is_required(&self) -> (r: bool)
        ensures
            r == self.spec_is_required(),
    {
        match self {
            UserVerificationRequirement::Required => true,
            _ => false,
        }
    }
}

/// A COSE algorithm identifier, as far as this library negotiates them.
#[derive(Clone, Copy, Debug, PartialEq, Eq, Structural)]
pub enum Ctap2COSEAlgorithmIdentifier {
    ES256,
    EDDSA,
    Unknown,
}

/// One entry of `pubKeyCredParams`.
#[derive(Clone, Copy, Debug, PartialEq, Eq, Structural)]
pub struct Ctap2CredentialType {
    pub algorithm: Ctap2COSEAlgorithmIdentifier,
}

/// The relying party entity of a MakeCredential request.
#[derive(Clone, Debug)]
pub struct Ctap2PublicKeyCredentialRpEntity {
    pub id: String,
    pub name: String,
}

/// The user entity of a MakeCredential request.
#[derive(Clone, Debug)]
pub struct Ctap2PublicKeyCredentialUserEntity {
    pub id: Vec<u8>,
    pub name: String,
    pub display_name: String,
}

/// A credential descriptor: one entry of an exclude or allow list.
#[derive(Clone, Debug)]
pub struct Ctap2PublicKeyCredentialDescriptor {
    pub id: Vec<u8>,
}

/// A P-256 public key by its affine coordinates, as COSE key agreement
/// carries it.
#[derive(Clone, Debug)]
pub struct P256PublicKey {
    pub x: Vec<u8>,
    pub y: Vec<u8>,
}

impl P256PublicKey {
    /// Both coordinates are 32-byte field elements.
    pub open spec fn wf(&self) -> bool {
        self.x@.len() == 32 && self.y@.len() == 32
    }
}

/// A WebAuthn MakeCredential request, carried in its CTAP2 form.
#[derive(Clone, Debug)]
pub struct Ctap2MakeCredentialRequest {
    pub relying_party: Ctap2PublicKeyCredentialRpEntity,
    pub user: Ctap2PublicKeyCredentialUserEntity,
    pub hash: Vec<u8>,
    pub algorithms: Vec<Ctap2CredentialType>,
    pub exclude: Option<Vec<Ctap2PublicKeyCredentialDescriptor>>,
    pub require_resident_key: bool,
    pub user_verification: UserVerificationRequirement,
    pub timeout_ms: u32,
    pub options_uv: Option<bool>,
    pub pin_uv_auth_proto: Option<u32>,
    pub pin_uv_auth_param: Option<Vec<u8>>,
}

impl Ctap2MakeCredentialRequest {
    /// The request is well-formed: the client data hash is 32 bytes.
    pub open spec fn wf(&self) -> bool {
        self.hash@.len() == 32
    }
}

/// A WebAuthn GetAssertion request, carried in its CTAP2 form.
#[derive(Clone, Debug)]
pub struct Ctap2GetAssertionRequest {
    pub rp_id: String,
    pub hash: Vec<u8>,
    pub allow: Vec<Ctap2PublicKeyCredentialDescriptor>,
    pub user_verification: UserVerificationRequirement,
    pub timeout_ms: u32,
    pub options_uv: Option<bool>,
    pub pin_uv_auth_proto: Option<u32>,
    pub pin_uv_auth_param: Option<Vec<u8>>,
}

impl Ctap2GetAssertionRequest {
    /// The request is well-formed: the client data hash is 32 bytes.
    pub open spec fn wf(&self) -> bool {
        self.hash@.len() == 32
    }
}

/// The capability set a CTAP2 GetInfo response publishes, as far as the
/// orchestrator reads it.
#[derive(Clone, Debug)]
pub struct Ctap2GetInfoResponse {
    pub versions: Vec<String>,
    pub option_client_pin: Option<bool>,
    pub option_uv: Option<bool>,
    pub option_pin_uv_auth_token: Option<bool>,
    pub pin_auth_protos: Option<Vec<u32>>,
}

/// The user-verification operation a GetInfo capability set selects.
#[derive(Clone, Copy, Debug, PartialEq, Eq, Structural)]
pub enum Ctap2UserVerificationOperation {
    GetPinToken,
    GetPinUvAuthTokenUsingPinWithPermissions,
    GetPinUvAuthTokenUsingUvWithPermissions,
    LegacyUv,
}

impl Ctap2GetInfoResponse {
    /// The device can verify its user: a PIN is set or built-in user
    /// verification is configured.
    pub open spec fn spec_is_uv_protected(&self) -> bool {
        self.option_client_pin == Some(true) || self.option_uv == Some(true)
    }

    /// The device can verify its user: a PIN is set or built-in user
    /// verification is configured.
    pub fn is_uv_protected(&self) -> (r: bool)
        ensures
            r == self.spec_is_uv_protected(),
    {
        self.option_client_pin == Some(true) || self.option_uv == Some(true)
    }

    /// Which operation obtains user verification on this device: built-in
    /// UV with permissions where supported, else PIN with permissions,
    /// else the legacy PIN token; where neither a token-capable UV nor any
    /// PIN is offered, the legacy `options.uv` flag.
    pub open spec fn spec_uv_operation(&self) -> Ctap2UserVerificationOperation {
        if self.option_uv == Some(true) {
            if self.option_pin_uv_auth_token == Some(true) {
                Ctap2UserVerificationOperation::GetPinUvAuthTokenUsingUvWithPermissions
            } else {
                Ctap2UserVerificationOperation::LegacyUv
            }
        } else if self.option_client_pin == Some(true) {
            if self.option_pin_uv_auth_token == Some(true) {
                Ctap2UserVerificationOperation::GetPinUvAuthTokenUsingPinWithPermissions
            } else {
                Ctap2UserVerificationOperation::GetPinToken
            }
        } else {
            Ctap2UserVerificationOperation::LegacyUv
        }
    }

    /// Which operation obtains user verification on this device.
    pub fn uv_operation(&self) -> (r: Ctap2UserVerificationOperation)
        ensures
            r == self.spec_uv_operation(),
    {
        if self.option_uv == Some(true) {
            if self.option_pin_uv_auth_token == Some(true) {
                Ctap2UserVerificationOperation::GetPinUvAuthTokenUsingUvWithPermissions
            } else {
                Ctap2UserVerificationOperation::LegacyUv
            }
        } else if self.option_client_pin == Some(true) {
            if self.option_pin_uv_auth_token == Some(true) {
                Ctap2UserVerificationOperation::GetPinUvAuthTokenUsingPinWithPermissions
            } else {
                Ctap2UserVerificationOperation::GetPinToken
            }
        } else {
            Ctap2UserVerificationOperation::LegacyUv
        }
    }
}

/// A ClientPIN request: subcommand plus the parameters the subcommand
/// takes.
#[derive(Clone, Debug)]
pub struct Ctap2ClientPinRequest {
    pub protocol: Option<u32>,
    pub sub_command: u8,
    pub key_agreement: Option<P256PublicKey>,
    pub pin_hash_enc: Option<Vec<u8>>,
    pub permissions: Option<u8>,
    pub permissions_rpid: Option<String>,
}

impl Ctap2ClientPinRequest {
    /// The getPinRetries request: no protocol, no parameters.
    pub fn new_get_pin_retries() -> (r: Ctap2ClientPinRequest)
        ensures
            r.protocol is None,
            r.sub_command == CLIENT_PIN_GET_PIN_RETRIES,
            r.key_agreement is None,
            r.pin_hash_enc is None,
            r.permissions is None,
            r.permissions_rpid is None,
    {
        Ctap2ClientPinRequest {
            protocol: None,
            sub_command: CLIENT_PIN_GET_PIN_RETRIES,
            key_agreement: None,
            pin_hash_enc: None,
            permissions: None,
            permissions_rpid: None,
        }
    }

    /// The getKeyAgreement request for one PIN/UV protocol.
    pub fn new_get_key_agreement(protocol: u32) -> (r: Ctap2ClientPinRequest)
        ensures
            r.protocol == Some(protocol),
            r.sub_command == CLIENT_PIN_GET_KEY_AGREEMENT,
            r.key_agreement is None,
            r.pin_hash_enc is None,
            r.permissions is None,
            r.permissions_rpid is None,
    {
        Ctap2ClientPinRequest {
            protocol: Some(protocol),
            sub_command: CLIENT_PIN_GET_KEY_AGREEMENT,
            key_agreement: None,
            pin_hash_enc: None,
            permissions: None,
            permissions_rpid: None,
        }
    }

    /// The legacy getPinToken request: platform key plus the encrypted PIN
    /// hash.
    pub fn new_get_pin_token(
        protocol: u32,
        public_key: P256PublicKey,
        pin_hash_enc: &Vec<u8>,
    ) -> (r: Ctap2ClientPinRequest)
        ensures
            r.protocol == Some(protocol),
            r.sub_command == CLIENT_PIN_GET_PIN_TOKEN,
            r.key_agreement == Some(public_key),
            r.pin_hash_enc matches Some(p) && p@ == pin_hash_enc@,
            r.permissions is None,
            r.permissions_rpid is None,
    {
        Ctap2ClientPinRequest {
            protocol: Some(protocol),
            sub_command: CLIENT_PIN_GET_PIN_TOKEN,
            key_agreement: Some(public_key),
            pin_hash_enc: Some(pin_hash_enc.clone()),
            permissions: None,
            permissions_rpid: None,
        }
    }

    /// The getPinUvAuthTokenUsingPinWithPermissions request: platform key,
    /// encrypted PIN hash, permissions and their relying-party id.
    pub fn new_get_pin_token_with_perm(
        protocol: u32,
        public_key: P256PublicKey,
        pin_hash_enc: &Vec<u8>,
        permissions: u8,
        permissions_rpid: Option<String>,
    ) -> (r: Ctap2ClientPinRequest)
        ensures
            r.protocol == Some(protocol),
            r.sub_command == CLIENT_PIN_GET_TOKEN_PIN,
            r.key_agreement == Some(public_key),
            r.pin_hash_enc matches Some(p) && p@ == pin_hash_enc@,
            r.permissions == Some(permissions),
            r.permissions_rpid == permissions_rpid,
    {
        Ctap2ClientPinRequest {
            protocol: Some(protocol),
            sub_command: CLIENT_PIN_GET_TOKEN_PIN,
            key_agreement: Some(public_key),
            pin_hash_enc: Some(pin_hash_enc.clone()),
            permissions: Some(permissions),
            permissions_rpid,
        }
    }

    /// The getPinUvAuthTokenUsingUvWithPermissions request: platform key,
    /// permissions and their relying-party id; no PIN hash.
    pub fn new_get_uv_token_with_perm(
        protocol: u32,
        public_key: P256PublicKey,
        permissions: u8,
        permissions_rpid: Option<String>,
    ) -> (r: Ctap2ClientPinRequest)
        ensures
            r.protocol == Some(protocol),
            r.sub_command == CLIENT_PIN_GET_TOKEN_UV,
            r.key_agreement == Some(public_key),
            r.pin_hash_enc is None,
            r.permissions == Some(permissions),
            r.permissions_rpid == permissions_rpid,
    {
        Ctap2ClientPinRequest {
            protocol: Some(protocol),
            sub_command: CLIENT_PIN_GET_TOKEN_UV,
            key_agreement: Some(public_key),
            pin_hash_enc: None,
            permissions: Some(permissions),
            permissions_rpid,
        }
    }
}

/// A ClientPIN response: whichever fields the subcommand returns.
#[derive(Clone, Debug)]
pub struct Ctap2ClientPinResponse {
    pub key_agreement: Option<P256PublicKey>,
    pub pin_uv_auth_token: Option<Vec<u8>>,
    pub pin_retries: Option<u32>,
    pub uv_retries: Option<u32>,
}

/// A MakeCredential response, reconstituted to its attestation parts.
#[derive(Clone, Debug)]
pub struct Ctap2MakeCredentialResponse {
    pub format: String,
    pub rp_id_hash: Vec<u8>,
    pub flags: u8,
    pub sign_count: u32,
    pub aaguid: Vec<u8>,
    pub credential_id: Vec<u8>,
    pub credential_public_key: Vec<u8>,
    pub attestation_certificate: Vec<u8>,
    pub attestation_signature: Vec<u8>,
}

/// One assertion of a GetAssertion response.
#[derive(Clone, Debug)]
pub struct Ctap2GetAssertionResponse {
    pub credential_id: Option<Vec<u8>>,
    pub flags: u8,
    pub sign_count: u32,
    pub signature: Vec<u8>,
    pub user_id: Option<Vec<u8>>,
    pub credentials_count: Option<u32>,
}

/// The WebAuthn-level MakeCredential response.
pub type MakeCredentialResponse = Ctap2MakeCredentialResponse;

/// The WebAuthn-level GetAssertion response: every assertion the
/// authenticator returned, in order.
#[derive(Clone, Debug)]
pub struct GetAssertionResponse {
    pub assertions: Vec<Ctap2GetAssertionResponse>,
}

impl GetAssertionResponse {
    /// Wrap collected assertions.
    pub fn from_assertions(assertions: Vec<Ctap2GetAssertionResponse>) -> (r:
        GetAssertionResponse)
        ensures
            r.assertions == assertions,
    {
        GetAssertionResponse { assertions }
    }
}

/// A CTAP2 request that user verification can decorate: it exposes its
/// client data hash, its token permissions and their relying-party id, and
/// takes the negotiated protocol and authentication tag.
pub trait Ctap2UserVerifiableRequest: Sized {
    /// The request's client data hash.
    spec fn spec_client_data_hash(&self) -> Seq<u8>;

    /// The pinUvAuthToken permission bits this request needs.
    spec fn spec_permissions(&self) -> u8;

    /// The relying-party id the permissions are scoped to.
    spec fn spec_rp_id(&self) -> Seq<char>;

    /// The request with the deprecated `options.uv` flag set.
    spec fn spec_with_uv_set(&self) -> Self;

    /// `post` is `pre` with the PIN/UV auth protocol and tag attached and
    /// nothing else changed.
    spec fn spec_uv_auth_applied(&self, post: Self, protocol: u32, param: Seq<u8>) -> bool;

    /// The request's client data hash.
    fn client_data_hash(&self) -> (r: Vec<u8>)
        ensures
            r@ == self.spec_client_data_hash(),
    ;

    /// The pinUvAuthToken permission bits this request needs.
    fn permissions(&self) -> (r: u8)
        ensures
            r == self.spec_permissions(),
    ;

    /// The relying-party id the permissions are scoped to.
    fn permissions_rpid(&self) -> (r: Option<String>)
        ensures
            r matches Some(s) && s@ == self.spec_rp_id(),
    ;

    /// Set the deprecated `options.uv` flag.
    fn ensure_uv_set(&mut self)
        ensures
            *final(self) == old(self).spec_with_uv_set(),
    ;

    /// Attach the negotiated protocol version and the computed
    /// pinUvAuthParam.
    fn set_uv_auth(&mut self, protocol: u32, param: &Vec<u8>)
        ensures
            old(self).spec_uv_auth_applied(*final(self), protocol, param@),
    ;
}

impl Ctap2UserVerifiableRequest for Ctap2MakeCredentialRequest {
    open spec fn spec_client_data_hash(&self) -> Seq<u8> {
        self.hash@
    }

    open spec fn spec_permissions(&self) -> u8 {
        PERMISSION_MC
    }

    open spec fn spec_rp_id(&self) -> Seq<char> {
        self.relying_party.id@
    }

    open spec fn spec_with_uv_set(&self) -> Self {
        Ctap2MakeCredentialRequest { options_uv: Some(true), ..*self }
    }

    open spec fn spec_uv_auth_applied(&self, post: Self, protocol: u32, param: Seq<u8>) -> bool {
        &&& post.pin_uv_auth_proto == Some(protocol)
        &&& post.pin_uv_auth_param matches Some(p) && p@ == param
        &&& post == (Ctap2MakeCredentialRequest {
            pin_uv_auth_proto: post.pin_uv_auth_proto,
            pin_uv_auth_param: post.pin_uv_auth_param,
            ..*self
        })
    }

    fn client_data_hash(&self) -> (r: Vec<u8>) {
        self.hash.clone()
    }

    fn permissions(&self) -> (r: u8) {
        PERMISSION_MC
    }

    fn permissions_rpid(&self) -> (r: Option<String>) {
        Some(self.relying_party.id.clone())
    }

    fn ensure_uv_set(&mut self) {
        self.options_uv = Some(true);
    }

    fn set_uv_auth(&mut self, protocol: u32, param: &Vec<u8>) {
        self.pin_uv_auth_proto = Some(protocol);
        self.pin_uv_auth_param = Some(param.clone());
    }
}

impl Ctap2UserVerifiableRequest for Ctap2GetAssertionRequest {
    open spec fn spec_client_data_hash(&self) -> Seq<u8> {
        self.hash@
    }

    open spec fn spec_permissions(&self) -> u8 {
        PERMISSION_GA
    }

    open spec fn spec_rp_id(&self) -> Seq<char> {
        self.rp_id@
    }

    open spec fn spec_with_uv_set(&self) -> Self {
        Ctap2GetAssertionRequest { options_uv: Some(true), ..*self }
    }

    open spec fn spec_uv_auth_applied(&self, post: Self, protocol: u32, param: Seq<u8>) -> bool {
        &&& post.pin_uv_auth_proto == Some(protocol)
        &&& post.pin_uv_auth_param matches Some(p) && p@ == param
        &&& post == (Ctap2GetAssertionRequest {
            pin_uv_auth_proto: post.pin_uv_auth_proto,
            pin_uv_auth_param: post.pin_uv_auth_param,
            ..*self
        })
    }

    fn client_data_hash(&self) -> (r: Vec<u8>) {
        self.hash.clone()
    }

    fn permissions(&self) -> (r: u8) {
        PERMISSION_GA
    }

    fn permissions_rpid(&self) -> (r: Option<String>) {
        Some(self.rp_id.clone())
    }

    fn ensure_uv_set(&mut self) {
        self.options_uv = Some(true);
    }

    fn set_uv_auth(&mut self, protocol: u32, param: &Vec<u8>) {
        self.pin_uv_auth_proto = Some(protocol);
        self.pin_uv_auth_param = Some(param.clone());
    }
}

} // verus!
