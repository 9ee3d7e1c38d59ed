//! Requests and responses exchanged with the wallet signing module.

use vstd::prelude::*;

verus! {

pub struct InitiateDistributedKeygenRequest {
    pub root_key_id: String,
    pub network: bitcoin::Network,
    pub sealed_request: String,
}

pub struct ContinueDistributedKeygenRequest {
    pub root_key_id: String,
    pub network: bitcoin::Network,
    pub sealed_request: String,
}

#[derive(Debug)]
pub struct ContinueDistributedKeygenResponse {
    pub root_key_id: String,
}

pub struct CreateRootKeyRequest {
    pub root_key_id: String,
    pub network: bitcoin::Network,
}

#[derive(Debug)]
pub struct CreatedSigningKey {
    pub root_key_id: String,
    pub xpub: String,
    /// Signature over the xpub; empty when the signer gave none.
    pub xpub_sig: String,
}

#[derive(Debug)]
pub struct SignPsbtRequest {
    pub root_key_id: String,
    pub descriptor: String,
    pub change_descriptor: String,
    pub psbt: String,
}

#[derive(Debug)]
pub struct SignedPsbt {
    pub psbt: String,
    pub root_key_id: String,
}

#[derive(Debug)]
pub struct SignBlobRequest {
    pub root_key_id: String,
    pub blob: String,
}

#[derive(Debug)]
pub struct GenerateIntegrityKeyResponse {
    pub wrapped_privkey: String,
    pub pubkey: String,
}

#[derive(Debug)]
pub struct GetIntegritySigRequest {
    pub root_key_id: String,
}

#[derive(Debug)]
pub struct GetIntegritySigResponse {
    pub signature: String,
}

#[derive(Debug)]
pub struct AttestationDocRequest {}

#[derive(Debug)]
pub struct AttestationDocResponse {
    pub document: Vec<u8>,
}

} // verus!
