//! The outcome of a derive-and-sign command sent to the hardware wallet.

use vstd::prelude::*;

verus! {

#[verifier::external_type_specification]
#[verifier::external_body]
pub struct ExSignature(bitcoin::secp256k1::ecdsa::Signature);

/// Whether the bytes are a compact ECDSA signature that secp256k1 accepts.
pub uninterp spec fn compact_signature_valid(bytes: Seq<u8>) -> bool;

/// Relies on secp256k1's `ecdsa::Signature::from_compact`, which refuses any
/// input that is not 64 bytes long.
#[verifier::external_body]
fn signature_from_compact(bytes: &[u8]) -> (r: Option<bitcoin::secp256k1::ecdsa::Signature>)
    ensures
        r is Some <==> compact_signature_valid(bytes@),
        bytes@.len() != 64 ==> r is None,
{
    bitcoin::secp256k1::ecdsa::Signature::from_compact(bytes).ok()
}

/// The status that the hardware reports for a derive-and-sign command.
#[derive(Clone, Copy, Debug, PartialEq, Eq, Structural)]
pub enum DeriveAndSignRspStatus {
    Unspecified,
    Success,
    DerivationFailed,
    Error,
    Unauthenticated,
}

/// The hardware's answer to a derive-and-sign command. `status` is `None`
/// when the reported code is not one of the known statuses.
#[derive(Debug)]
pub struct DeriveAndSignRsp {
    pub status: Option<DeriveAndSignRspStatus>,
    pub signature: Vec<u8>,
}

/// Why a hardware command failed.
#[derive(Clone, Copy, Debug, PartialEq, Eq, Structural)]
pub enum CommandError {
    MissingMessage,
    KeyGenerationFailed,
    GeneralCommandError,
    Unauthenticated,
    UnspecifiedCommandError,
    InvalidResponse,
    InvalidSignature,
}

/// The error that the answer stands for, or `None` for a signature to parse.
pub open spec fn response_error(message: Option<DeriveAndSignRsp>) -> Option<CommandError> {
    match message {
        None => Some(CommandError::MissingMessage),
        Some(rsp) => match rsp.status {
            Some(DeriveAndSignRspStatus::Success) => if compact_signature_valid(rsp.signature@) {
                None
            } else {
                Some(CommandError::InvalidSignature)
            },
            Some(DeriveAndSignRspStatus::DerivationFailed) => Some(CommandError::KeyGenerationFailed),
            Some(DeriveAndSignRspStatus::Error) => Some(CommandError::GeneralCommandError),
            Some(DeriveAndSignRspStatus::Unauthenticated) => Some(CommandError::Unauthenticated),
            Some(DeriveAndSignRspStatus::Unspecified) => Some(CommandError::UnspecifiedCommandError),
            None => Some(CommandError::InvalidResponse),
        },
    }
}

/// Turns the hardware's answer to a derive-and-sign command into the
/// signature it carries, or the error it reports. `None` is an answer that
/// held some other message.
pub fn derive_and_sign_result(message: Option<DeriveAndSignRsp>) -> (r: Result<
    bitcoin::secp256k1::ecdsa::Signature,
    CommandError,
>)
    ensures
        r is Ok <==> response_error(message) is None,
        r matches Err(e) ==> response_error(message) == Some(e),
{
    match message {
        None => Err(CommandError::MissingMessage),
        Some(rsp) => match rsp.status {
            Some(DeriveAndSignRspStatus::Success) => match signature_from_compact(rsp.signature.as_slice()) {
                Some(sig) => Ok(sig),
                None => Err(CommandError::InvalidSignature),
            },
            Some(DeriveAndSignRspStatus::DerivationFailed) => Err(CommandError::KeyGenerationFailed),
            Some(DeriveAndSignRspStatus::Error) => Err(CommandError::GeneralCommandError),
            Some(DeriveAndSignRspStatus::Unauthenticated) => Err(CommandError::Unauthenticated),
            Some(DeriveAndSignRspStatus::Unspecified) => Err(CommandError::UnspecifiedCommandError),
            None => Err(CommandError::InvalidResponse),
        },
    }
}

} // verus!
