//! The transport abstraction: a duplex channel carrying one APDU or one
//! CBOR frame per exchange, the protocol-negotiation decision, and the
//! CTAP1/CTAP2 operation drivers that pair each send with one receive and
//! decode what came back.

use vstd::prelude::*;

use crate::ctap1::{
    spec_parse_register_response, spec_parse_sign_response, sw_to_result,
    ApduRequest, ApduResponse, Ctap1RegisterResponse, Ctap1SignResponse, RegisterRequest,
    SignRequest,
};
use crate::ctap2::{
    Ctap2ClientPinRequest, Ctap2ClientPinResponse, Ctap2GetAssertionRequest,
    Ctap2GetInfoResponse, Ctap2MakeCredentialRequest, Ctap2MakeCredentialResponse,
    Ctap2GetAssertionResponse, CTAP2_CMD_CLIENT_PIN, CTAP2_CMD_GET_ASSERTION,
    CTAP2_CMD_GET_INFO, CTAP2_CMD_GET_NEXT_ASSERTION, CTAP2_CMD_MAKE_CREDENTIAL,
};
use crate::errors::{CtapError, Error, ProtocolError, TransportError};
use crate::errors::spec_ctap_error_from_code;

verus! {

/// A transport family (USB-HID, BLE, NFC): a marker its devices hang off.
pub trait Transport {

}

/// Which protocols a device answers to.
#[derive(Clone, Copy, Debug, PartialEq, Eq, Structural)]
pub struct SupportedProtocols {
    pub u2f: bool,
    pub fido2: bool,
}

impl SupportedProtocols {
    /// Both protocols.
    pub fn all() -> (r: SupportedProtocols)
        ensures
            r.u2f,
            r.fido2,
    {
        SupportedProtocols { u2f: true, fido2: true }
    }

    /// U2F only.
    pub fn u2f_only() -> (r: SupportedProtocols)
        ensures
            r.u2f,
            !r.fido2,
    {
        SupportedProtocols { u2f: true, fido2: false }
    }

    /// FIDO2 only.
    pub fn fido2_only() -> (r: SupportedProtocols)
        ensures
            !r.u2f,
            r.fido2,
    {
        SupportedProtocols { u2f: false, fido2: true }
    }
}

/// The state of a channel: transitions `Ready → Busy` on send, `Busy →
/// Ready` on a completed receive or an error, and anything to `Closed` on
/// close or an unrecoverable transport error.
#[derive(Clone, Copy, Debug, PartialEq, Eq, Structural)]
pub enum ChannelStatus {
    Ready,
    Busy,
    Closed,
}

/// The protocol a negotiation settles on.
#[derive(Clone, Copy, Debug, PartialEq, Eq, Structural)]
pub enum FidoProtocol {
    FIDO2,
    U2F,
}

/// A CTAP2 request as one CBOR frame: the command byte is determined by
/// the variant; the map is the variant's payload, encoded at the
/// transport.
#[derive(Clone, Debug)]
pub enum CborRequest {
    GetInfo,
    MakeCredential(Ctap2MakeCredentialRequest),
    GetAssertion(Ctap2GetAssertionRequest),
    GetNextAssertion,
    ClientPin(Ctap2ClientPinRequest),
}

impl CborRequest {
    /// The command byte that leads this request on the wire.
    pub open spec fn spec_command_byte(&self) -> u8 {
        match self {
            CborRequest::GetInfo => CTAP2_CMD_GET_INFO,
            CborRequest::MakeCredential(_) => CTAP2_CMD_MAKE_CREDENTIAL,
            CborRequest::GetAssertion(_) => CTAP2_CMD_GET_ASSERTION,
            CborRequest::GetNextAssertion => CTAP2_CMD_GET_NEXT_ASSERTION,
            CborRequest::ClientPin(_) => CTAP2_CMD_CLIENT_PIN,
        }
    }

    /// The command byte that leads this request on the wire.
    pub fn command_byte(&self) -> (r: u8)
        ensures
            r == self.spec_command_byte(),
    {
        match self {
            CborRequest::GetInfo => CTAP2_CMD_GET_INFO,
            CborRequest::MakeCredential(_) => CTAP2_CMD_MAKE_CREDENTIAL,
            CborRequest::GetAssertion(_) => CTAP2_CMD_GET_ASSERTION,
            CborRequest::GetNextAssertion => CTAP2_CMD_GET_NEXT_ASSERTION,
            CborRequest::ClientPin(_) => CTAP2_CMD_CLIENT_PIN,
        }
    }
}

/// The decoded payload of a CTAP2 response frame.
#[derive(Clone, Debug)]
pub enum CborResponsePayload {
    GetInfo(Ctap2GetInfoResponse),
    MakeCredential(Ctap2MakeCredentialResponse),
    GetAssertion(Ctap2GetAssertionResponse),
    ClientPin(Ctap2ClientPinResponse),
    Empty,
}

/// A CTAP2 response frame: the leading status byte, then the decoded map
/// (empty on error).
#[derive(Clone, Debug)]
pub struct CborResponse {
    pub status_code: u8,
    pub payload: CborResponsePayload,
}

/// A per-transport duplex channel. Each `send` is paired with exactly one
/// `recv` on the same channel; overlapping operations are undefined, so
/// the orchestrator serialises its exchanges. Timeouts are in
/// milliseconds.
pub trait Channel: Sized {
    /// Which protocols the device answers to; may probe, and is
    /// idempotent.
    fn supported_protocols(&mut self) -> (r: Result<SupportedProtocols, Error>);

    /// The channel's current state.
    fn status(&self) -> (r: ChannelStatus);

    /// Release the channel.
    fn close(&mut self);

    /// Send one APDU request.
    fn apdu_send(&mut self, request: &ApduRequest, timeout_ms: u32) -> (r: Result<(), Error>);

    /// Receive one APDU response.
    fn apdu_recv(&mut self, timeout_ms: u32) -> (r: Result<ApduResponse, Error>);

    /// Send one CBOR request.
    fn cbor_send(&mut self, request: &CborRequest, timeout_ms: u32) -> (r: Result<(), Error>);

    /// Receive one CBOR response.
    fn cbor_recv(&mut self, timeout_ms: u32) -> (r: Result<CborResponse, Error>);
}

/// What protocol negotiation decides from the device's capabilities:
/// FIDO2 where offered; U2F where allowed and offered; otherwise
/// `NegotiationFailed`.
pub open spec fn spec_negotiate(supported: SupportedProtocols, allow_u2f: bool) -> Result<
    FidoProtocol,
    Error,
> {
    if !supported.u2f && !supported.fido2 {
        Err(Error::Transport(TransportError::NegotiationFailed))
    } else if !allow_u2f && !supported.fido2 {
        Err(Error::Transport(TransportError::NegotiationFailed))
    } else if supported.fido2 {
        Ok(FidoProtocol::FIDO2)
    } else {
        Ok(FidoProtocol::U2F)
    }
}

/// Decide the protocol from the device's capabilities.
pub fn negotiate_protocol(supported: SupportedProtocols, allow_u2f: bool) -> (r: Result<
    FidoProtocol,
    Error,
>)
    ensures
        r == spec_negotiate(supported, allow_u2f),
{
    if !supported.u2f && !supported.fido2 {
        return Err(Error::Transport(TransportError::NegotiationFailed));
    }
    if !allow_u2f && !supported.fido2 {
        return Err(Error::Transport(TransportError::NegotiationFailed));
    }
    if supported.fido2 {
        Ok(FidoProtocol::FIDO2)
    } else {
        Ok(FidoProtocol::U2F)
    }
}

/// Protocol negotiation is monotone: enabling FIDO2 on a device never
/// turns a successful negotiation into a failure, whatever the U2F
/// capability and whether U2F was allowed.
pub proof fn lemma_negotiation_monotone(supported: SupportedProtocols, allow_u2f: bool)
    requires
        spec_negotiate(supported, allow_u2f) is Ok,
    ensures
        spec_negotiate(
            SupportedProtocols { fido2: true, ..supported },
            allow_u2f,
        ) == Ok::<FidoProtocol, Error>(FidoProtocol::FIDO2),
{
}

/// Run one APDU exchange: send the request, receive the response.
pub fn apdu_exchange<C: Channel>(channel: &mut C, request: &ApduRequest, timeout_ms: u32) -> (r:
    Result<ApduResponse, Error>)
{
    match channel.apdu_send(request, timeout_ms) {
        Ok(()) => channel.apdu_recv(timeout_ms),
        Err(e) => Err(e),
    }
}

/// Run one CBOR exchange: send the request, receive the response.
pub fn cbor_exchange<C: Channel>(channel: &mut C, request: &CborRequest, timeout_ms: u32) -> (r:
    Result<CborResponse, Error>)
{
    match channel.cbor_send(request, timeout_ms) {
        Ok(()) => channel.cbor_recv(timeout_ms),
        Err(e) => Err(e),
    }
}

/// The error a non-zero CTAP2 status byte surfaces as.
pub open spec fn spec_ctap2_status_error(status: u8) -> Error {
    Error::Ctap(spec_ctap_error_from_code(status))
}

/// Check a CTAP2 response's status byte: success exactly on zero, the
/// mapped CTAP error otherwise.
pub fn ctap2_check_status(status: u8) -> (r: Result<(), Error>)
    ensures
        status == 0 ==> r is Ok,
        status != 0 ==> r == Err::<(), Error>(spec_ctap2_status_error(status)),
{
    if status == 0 {
        Ok(())
    } else {
        Err(Error::Ctap(CtapError::from_code(status)))
    }
}

/// Decode a GetInfo response frame: the payload on success status, the
/// mapped CTAP error on any other status, `InvalidCbor` when a success
/// frame carries the wrong payload shape.
pub fn decode_get_info(response: CborResponse) -> (r: Result<Ctap2GetInfoResponse, Error>)
    ensures
        response.status_code != 0 ==> r == Err::<Ctap2GetInfoResponse, Error>(
            spec_ctap2_status_error(response.status_code),
        ),
        response.status_code == 0 ==> match response.payload {
            CborResponsePayload::GetInfo(info) => r == Ok::<Ctap2GetInfoResponse, Error>(info),
            _ => r == Err::<Ctap2GetInfoResponse, Error>(
                Error::Protocol(ProtocolError::InvalidCbor),
            ),
        },
{
    ctap2_check_status(response.status_code)?;
    match response.payload {
        CborResponsePayload::GetInfo(info) => Ok(info),
        _ => Err(Error::Protocol(ProtocolError::InvalidCbor)),
    }
}

/// Decode a ClientPIN response frame, as `decode_get_info` does for its
/// payload shape.
pub fn decode_client_pin(response: CborResponse) -> (r: Result<Ctap2ClientPinResponse, Error>)
    ensures
        response.status_code != 0 ==> r == Err::<Ctap2ClientPinResponse, Error>(
            spec_ctap2_status_error(response.status_code),
        ),
        response.status_code == 0 ==> match response.payload {
            CborResponsePayload::ClientPin(p) => r == Ok::<Ctap2ClientPinResponse, Error>(p),
            _ => r == Err::<Ctap2ClientPinResponse, Error>(
                Error::Protocol(ProtocolError::InvalidCbor),
            ),
        },
{
    ctap2_check_status(response.status_code)?;
    match response.payload {
        CborResponsePayload::ClientPin(p) => Ok(p),
        _ => Err(Error::Protocol(ProtocolError::InvalidCbor)),
    }
}

/// Decode a MakeCredential response frame, as `decode_get_info` does for
/// its payload shape — and hold the attestation to the data model: the
/// relying-party id hash is 32 bytes and the AAGUID 16, else the frame is
/// malformed.
pub fn decode_make_credential(response: CborResponse) -> (r: Result<
    Ctap2MakeCredentialResponse,
    Error,
>)
    ensures
        response.status_code != 0 ==> r == Err::<Ctap2MakeCredentialResponse, Error>(
            spec_ctap2_status_error(response.status_code),
        ),
        response.status_code == 0 ==> match response.payload {
            CborResponsePayload::MakeCredential(p) => if p.rp_id_hash@.len() == 32
                && p.aaguid@.len() == 16 {
                r == Ok::<Ctap2MakeCredentialResponse, Error>(p)
            } else {
                r == Err::<Ctap2MakeCredentialResponse, Error>(
                    Error::Protocol(ProtocolError::InvalidCbor),
                )
            },
            _ => r == Err::<Ctap2MakeCredentialResponse, Error>(
                Error::Protocol(ProtocolError::InvalidCbor),
            ),
        },
{
    ctap2_check_status(response.status_code)?;
    match response.payload {
        CborResponsePayload::MakeCredential(p) => {
            if p.rp_id_hash.len() == 32 && p.aaguid.len() == 16 {
                Ok(p)
            } else {
                Err(Error::Protocol(ProtocolError::InvalidCbor))
            }
        },
        _ => Err(Error::Protocol(ProtocolError::InvalidCbor)),
    }
}

/// Decode a GetAssertion (or GetNextAssertion) response frame, as
/// `decode_get_info` does for its payload shape.
pub fn decode_get_assertion(response: CborResponse) -> (r: Result<
    Ctap2GetAssertionResponse,
    Error,
>)
    ensures
        response.status_code != 0 ==> r == Err::<Ctap2GetAssertionResponse, Error>(
            spec_ctap2_status_error(response.status_code),
        ),
        response.status_code == 0 ==> match response.payload {
            CborResponsePayload::GetAssertion(p) => r == Ok::<Ctap2GetAssertionResponse, Error>(
                p,
            ),
            _ => r == Err::<Ctap2GetAssertionResponse, Error>(
                Error::Protocol(ProtocolError::InvalidCbor),
            ),
        },
{
    ctap2_check_status(response.status_code)?;
    match response.payload {
        CborResponsePayload::GetAssertion(p) => Ok(p),
        _ => Err(Error::Protocol(ProtocolError::InvalidCbor)),
    }
}

/// CTAP2 GetInfo: command `0x04`, no parameters. Cached by callers within
/// one request flow only.
pub fn ctap2_get_info<C: Channel>(channel: &mut C, timeout_ms: u32) -> (r: Result<
    Ctap2GetInfoResponse,
    Error,
>) {
    let response = cbor_exchange(channel, &CborRequest::GetInfo, timeout_ms)?;
    decode_get_info(response)
}

/// CTAP2 ClientPIN: command `0x06`, subcommand-dispatched.
pub fn ctap2_client_pin<C: Channel>(
    channel: &mut C,
    request: Ctap2ClientPinRequest,
    timeout_ms: u32,
) -> (r: Result<Ctap2ClientPinResponse, Error>) {
    let response = cbor_exchange(channel, &CborRequest::ClientPin(request), timeout_ms)?;
    decode_client_pin(response)
}

/// CTAP2 MakeCredential: command `0x01`. Whatever the authenticator
/// answered, a successful result has passed the decoder's shape check.
pub fn ctap2_make_credential<C: Channel>(
    channel: &mut C,
    request: &Ctap2MakeCredentialRequest,
    timeout_ms: u32,
) -> (r: Result<Ctap2MakeCredentialResponse, Error>)
    ensures
        r matches Ok(resp) ==> resp.rp_id_hash@.len() == 32 && resp.aaguid@.len() == 16,
{
    let response = cbor_exchange(
        channel,
        &CborRequest::MakeCredential(request.clone()),
        timeout_ms,
    )?;
    decode_make_credential(response)
}

/// CTAP2 GetAssertion: command `0x02`.
pub fn ctap2_get_assertion<C: Channel>(
    channel: &mut C,
    request: &Ctap2GetAssertionRequest,
    timeout_ms: u32,
) -> (r: Result<Ctap2GetAssertionResponse, Error>) {
    let response = cbor_exchange(
        channel,
        &CborRequest::GetAssertion(request.clone()),
        timeout_ms,
    )?;
    decode_get_assertion(response)
}

/// CTAP2 GetNextAssertion: command `0x08`, no parameters; must
/// immediately follow a GetAssertion that reported more credentials.
pub fn ctap2_get_next_assertion<C: Channel>(channel: &mut C, timeout_ms: u32) -> (r: Result<
    Ctap2GetAssertionResponse,
    Error,
>) {
    let response = cbor_exchange(channel, &CborRequest::GetNextAssertion, timeout_ms)?;
    decode_get_assertion(response)
}

/// CTAP1 Register: encode the APDU, run the exchange, check the status
/// word, parse the body.
pub fn ctap1_register<C: Channel>(channel: &mut C, request: &RegisterRequest) -> (r: Result<
    Ctap1RegisterResponse,
    Error,
>)
    requires
        request.wf(),
    ensures
        r matches Ok(resp) ==> exists|b: Seq<u8>|
            spec_parse_register_response(b) == Some(
                (
                    resp.user_public_key@,
                    resp.key_handle@,
                    resp.attestation_certificate@,
                    resp.signature@,
                ),
            ),
{
    let apdu = request.to_apdu();
    let response = apdu_exchange(channel, &apdu, request.timeout_ms)?;
    let sw = response.status_word();
    match sw_to_result(sw) {
        Ok(()) => {},
        Err(e) => {
            return Err(Error::Ctap(e));
        },
    }
    Ctap1RegisterResponse::parse_body(&response.data)
}

/// CTAP1 Authenticate (sign) for one credential: encode the APDU, run the
/// exchange, check the status word, parse the body. `SW_WRONG_DATA`
/// surfaces as `NoCredentials`.
pub fn ctap1_sign<C: Channel>(channel: &mut C, request: &SignRequest) -> (r: Result<
    Ctap1SignResponse,
    Error,
>)
    requires
        request.wf(),
    ensures
        r matches Ok(resp) ==> exists|b: Seq<u8>|
            spec_parse_sign_response(b) == Some(
                ((resp.user_presence, resp.counter as int, resp.signature@)),
            ),
{
    let apdu = request.to_apdu();
    let response = apdu_exchange(channel, &apdu, request.timeout_ms)?;
    let sw = response.status_word();
    match sw_to_result(sw) {
        Ok(()) => {},
        Err(e) => {
            return Err(Error::Ctap(e));
        },
    }
    Ctap1SignResponse::parse_body(&response.data)
}

/// CTAP1 Version: issue the version APDU and demand `SW_NO_ERROR`. The
/// body ("U2F_V2") is returned unparsed.
pub fn ctap1_version<C: Channel>(channel: &mut C, timeout_ms: u32) -> (r: Result<Vec<u8>, Error>)
{
    let apdu = crate::ctap1::version_apdu();
    let response = apdu_exchange(channel, &apdu, timeout_ms)?;
    let sw = response.status_word();
    match sw_to_result(sw) {
        Ok(()) => Ok(response.data),
        Err(e) => Err(Error::Ctap(e)),
    }
}

} // verus!
