//! Transports and glue: the NFC handle and netlink framing, discovery
//! selection, portal-service decisions, and CTAP2 response decoding.

use webauthn_core::ctap2::Ctap2GetInfoResponse;
use webauthn_core::discovery::{devices_with_uuid, find_first_by_uuid, has_uuid};
use webauthn_core::errors::{CtapError, Error, ProtocolError, TransportError};
use webauthn_core::nfc::{list_devices, netlink_get_device_list_request, NfcChannel, NfcDevice};
use webauthn_core::service::{choose_request_handle, response_status_code, ResponseStatus};
use webauthn_core::transport::{
    ctap2_check_status, decode_get_info, decode_make_credential, negotiate_protocol,
    CborResponse, CborResponsePayload, Channel, FidoProtocol, SupportedProtocols,
};

#[test]
fn nfc_device_holds_its_names() {
    let device = NfcDevice::new("pn532", "pn532_uart:/dev/ttyUSB0");
    assert_eq!(device.name, "pn532");
    assert_eq!(device.connstring, "pn532_uart:/dev/ttyUSB0");
}

#[test]
fn nfc_channel_awaits_a_driver() {
    let device = NfcDevice::new("pn532", "conn");
    let mut channel = NfcChannel::new(&device).unwrap();
    let err = channel.apdu_recv(1000).unwrap_err();
    assert_eq!(err, Error::Transport(TransportError::TransportUnavailable));
    let supported = channel.supported_protocols().unwrap();
    assert!(supported.u2f && supported.fido2);
    assert!(list_devices().is_err());
}

#[test]
fn netlink_device_list_request_layout() {
    let msg = netlink_get_device_list_request();
    assert_eq!(
        msg,
        vec![
            20, 0, 0, 0, // length: 16-byte header plus 4-byte payload
            3, 0, // type
            1, 0, // flags
            0, 0, 0, 0, // sequence
            0, 0, 0, 0, // port id
            0, 0, 0, 0, // payload
        ]
    );
}

#[test]
fn discovery_picks_first_matching_uuid() {
    let items = vec![
        (String::from("/char1"), String::from("aaaa")),
        (String::from("/char2"), String::from("bbbb")),
        (String::from("/char3"), String::from("bbbb")),
    ];
    assert_eq!(
        find_first_by_uuid(&items, &String::from("bbbb")),
        Ok(String::from("/char2"))
    );
    assert_eq!(
        find_first_by_uuid(&items, &String::from("cccc")),
        Err(TransportError::InvalidEndpoint)
    );
}

#[test]
fn discovery_filters_devices_by_profile() {
    let fido = String::from("0000fffd-0000-1000-8000-00805f9b34fb");
    let devices = vec![
        (String::from("/dev1"), vec![String::from("180f")]),
        (String::from("/dev2"), vec![String::from("180f"), fido.clone()]),
        (String::from("/dev3"), vec![fido.clone()]),
    ];
    assert!(has_uuid(&devices[1].1, &fido));
    assert!(!has_uuid(&devices[0].1, &fido));
    assert_eq!(
        devices_with_uuid(&devices, &fido),
        vec![String::from("/dev2"), String::from("/dev3")]
    );
}

#[test]
fn portal_response_codes() {
    assert_eq!(response_status_code(ResponseStatus::Success), 0);
    assert_eq!(response_status_code(ResponseStatus::UserCancel), 1);
    assert_eq!(response_status_code(ResponseStatus::Other), 2);
}

#[test]
fn portal_handle_prefers_the_callers_token() {
    assert_eq!(
        choose_request_handle(Some(String::from("tok")), String::from("rand")),
        "tok"
    );
    assert_eq!(choose_request_handle(None, String::from("rand")), "rand");
}

#[test]
fn ctap2_status_byte_mapping() {
    assert_eq!(ctap2_check_status(0x00), Ok(()));
    assert_eq!(ctap2_check_status(0x31), Err(Error::Ctap(CtapError::PINInvalid)));
    assert_eq!(ctap2_check_status(0x2E), Err(Error::Ctap(CtapError::NoCredentials)));
    assert_eq!(ctap2_check_status(0x32), Err(Error::Ctap(CtapError::PINBlocked)));
    assert_eq!(ctap2_check_status(0x34), Err(Error::Ctap(CtapError::PINAuthBlocked)));
    assert_eq!(ctap2_check_status(0x99), Err(Error::Ctap(CtapError::Other)));
}

#[test]
fn decoding_rejects_the_wrong_payload_shape() {
    let response = CborResponse { status_code: 0, payload: CborResponsePayload::Empty };
    assert!(matches!(
        decode_get_info(response),
        Err(Error::Protocol(ProtocolError::InvalidCbor))
    ));
    let info = Ctap2GetInfoResponse {
        versions: Vec::new(),
        option_client_pin: None,
        option_uv: None,
        option_pin_uv_auth_token: None,
        pin_auth_protos: None,
    };
    let response = CborResponse {
        status_code: 0x36,
        payload: CborResponsePayload::GetInfo(info),
    };
    assert!(matches!(
        decode_get_info(response),
        Err(Error::Ctap(CtapError::PINRequired))
    ));
}

#[test]
fn negotiation_prefers_fido2() {
    assert_eq!(
        negotiate_protocol(SupportedProtocols { u2f: true, fido2: true }, true),
        Ok(FidoProtocol::FIDO2)
    );
    assert_eq!(
        negotiate_protocol(SupportedProtocols { u2f: true, fido2: false }, true),
        Ok(FidoProtocol::U2F)
    );
    assert_eq!(
        negotiate_protocol(SupportedProtocols { u2f: true, fido2: false }, false),
        Err(Error::Transport(TransportError::NegotiationFailed))
    );
    assert_eq!(
        negotiate_protocol(SupportedProtocols { u2f: false, fido2: false }, true),
        Err(Error::Transport(TransportError::NegotiationFailed))
    );
}

#[test]
fn decoding_rejects_a_malformed_attestation_shape() {
    // A MakeCredential payload whose AAGUID is not 16 bytes is malformed,
    // whatever else it carries.
    let response = CborResponse {
        status_code: 0,
        payload: CborResponsePayload::MakeCredential(
            webauthn_core::ctap2::Ctap2MakeCredentialResponse {
                format: String::from("packed"),
                rp_id_hash: vec![0u8; 32],
                flags: 0x41,
                sign_count: 0,
                aaguid: vec![0u8; 4],
                credential_id: vec![1, 2, 3],
                credential_public_key: vec![0x04; 65],
                attestation_certificate: vec![0x30, 0x00],
                attestation_signature: vec![0x30, 0x00],
            },
        ),
    };
    assert!(matches!(
        decode_make_credential(response),
        Err(Error::Protocol(ProtocolError::InvalidCbor))
    ));
}
