//! Typed parameter and result records for the daemon's domain operations.
//! Each operation parses its own record out of the dynamic `params` value and
//! answers with its result record; the records here hold the plain data the
//! wire carries, while values with no fixed shape stay dynamic JSON.

use crate::Network;
use vstd::prelude::*;

verus! {

// Address types
#[derive(Debug)]
pub struct AddressCreateRequest {
    pub network: Option<Network>,
    pub pubkey: Option<String>,
    pub script: Option<String>,
    pub blinder: Option<String>,
}

#[derive(Debug)]
pub struct AddressInspectRequest {
    pub address: String,
}

// Block types
#[derive(Debug)]
pub struct BlockCreateRequest {
    pub block_info: serde_json::Value,
}

#[derive(Debug)]
pub struct BlockCreateResponse {
    pub raw_block: String,
}

#[derive(Debug)]
pub struct BlockDecodeRequest {
    pub raw_block: String,
    pub network: Option<Network>,
    pub txids: Option<bool>,
}

// Transaction types
#[derive(Debug)]
pub struct TxCreateRequest {
    pub tx_info: serde_json::Value,
}

#[derive(Debug)]
pub struct TxCreateResponse {
    pub raw_tx: String,
}

#[derive(Debug)]
pub struct TxDecodeRequest {
    pub raw_tx: String,
    pub network: Option<Network>,
}

// Keypair types
#[derive(Debug)]
pub struct KeypairGenerateRequest {}

// Simplicity types
#[derive(Debug)]
pub struct SimplicityInfoRequest {
    pub program: String,
    pub witness: Option<String>,
    pub state: Option<String>,
    pub network: Option<String>,
}

#[derive(Debug)]
pub struct SimplicitySighashRequest {
    pub tx: String,
    pub input_index: u32,
    pub cmr: String,
    pub control_block: Option<String>,
    pub genesis_hash: Option<String>,
    pub secret_key: Option<String>,
    pub public_key: Option<String>,
    pub signature: Option<String>,
    pub input_utxos: Option<Vec<String>>,
}

// PSET types
#[derive(Debug)]
pub struct PsetCreateRequest {
    pub inputs: String,
    pub outputs: String,
    pub network: Option<String>,
}

#[derive(Debug)]
pub struct PsetCreateResponse {
    pub pset: String,
    pub updated_values: Vec<String>,
}

#[derive(Debug)]
pub struct PsetExtractRequest {
    pub pset: String,
}

#[derive(Debug)]
pub struct PsetExtractResponse {
    pub raw_tx: String,
}

#[derive(Debug)]
pub struct PsetFinalizeRequest {
    pub pset: String,
    pub input_index: u32,
    pub program: String,
    pub witness: String,
    pub genesis_hash: Option<String>,
}

#[derive(Debug)]
pub struct PsetFinalizeResponse {
    pub pset: String,
    pub updated_values: Vec<String>,
}

#[derive(Debug)]
pub struct PsetRunRequest {
    pub pset: String,
    pub input_index: u32,
    pub program: String,
    pub witness: String,
    pub genesis_hash: Option<String>,
}

#[derive(Debug)]
pub struct PsetRunResponse {
    pub success: bool,
    pub jets: Vec<JetCall>,
}

#[derive(Debug)]
pub struct JetCall {
    pub jet: String,
    pub source_ty: String,
    pub target_ty: String,
    pub success: bool,
    pub input_hex: String,
    pub output_hex: String,
    pub equality_check: Option<(String, String)>,
}

#[derive(Debug)]
pub struct PsetUpdateInputRequest {
    pub pset: String,
    pub input_index: u32,
    pub input_utxo: String,
    pub internal_key: Option<String>,
    pub cmr: Option<String>,
    pub state: Option<String>,
}

#[derive(Debug)]
pub struct PsetUpdateInputResponse {
    pub pset: String,
    pub updated_values: Vec<String>,
}

} // verus!
