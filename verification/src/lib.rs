//! Client-side WebAuthn/FIDO authenticator engine: CTAP1 (U2F) and CTAP2
//! protocol drivers, PIN/UV authentication, BLE framing, and the
//! WebAuthn-to-CTAP orchestration that ties them together.

pub mod ble;
pub mod bytes;
pub mod crypto;
pub mod ctap1;
pub mod ctap2;
pub mod discovery;
pub mod errors;
pub mod nfc;
pub mod pin;
pub mod service;
pub mod transport;
pub mod webauthn;
