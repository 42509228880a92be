//! Method-name dispatch: the closed set of operations the daemon knows, and
//! the default handler built on it.  The operations themselves belong to the
//! surrounding system and reach the engine only through the handler seam.

use crate::daemon::jsonrpc::{ErrorCode, JsonRpcService, RpcError, RpcHandler};
use crate::text::str_eq;
use vstd::prelude::*;

verus! {

/// RPC method names.
#[derive(Debug, Clone, Copy, PartialEq, Eq, Structural)]
pub enum RpcMethod {
    AddressCreate,
    AddressInspect,
    BlockCreate,
    BlockDecode,
    TxCreate,
    TxDecode,
    KeypairGenerate,
    SimplicityInfo,
    SimplicitySighash,
    PsetCreate,
    PsetExtract,
    PsetFinalize,
    PsetRun,
    PsetUpdateInput,
}

/// The method registered under a name, if any: the dispatch table as a
/// mathematical function.
pub open spec fn spec_method_of(s: Seq<char>) -> Option<RpcMethod> {
    if s == "address_create"@ {
        Some(RpcMethod::AddressCreate)
    } else if s == "address_inspect"@ {
        Some(RpcMethod::AddressInspect)
    } else if s == "block_create"@ {
        Some(RpcMethod::BlockCreate)
    } else if s == "block_decode"@ {
        Some(RpcMethod::BlockDecode)
    } else if s == "tx_create"@ {
        Some(RpcMethod::TxCreate)
    } else if s == "tx_decode"@ {
        Some(RpcMethod::TxDecode)
    } else if s == "keypair_generate"@ {
        Some(RpcMethod::KeypairGenerate)
    } else if s == "simplicity_info"@ {
        Some(RpcMethod::SimplicityInfo)
    } else if s == "simplicity_sighash"@ {
        Some(RpcMethod::SimplicitySighash)
    } else if s == "pset_create"@ {
        Some(RpcMethod::PsetCreate)
    } else if s == "pset_extract"@ {
        Some(RpcMethod::PsetExtract)
    } else if s == "pset_finalize"@ {
        Some(RpcMethod::PsetFinalize)
    } else if s == "pset_run"@ {
        Some(RpcMethod::PsetRun)
    } else if s == "pset_update_input"@ {
        Some(RpcMethod::PsetUpdateInput)
    } else {
        None
    }
}

impl RpcMethod {
    /// Looks a method name up in the dispatch table; an unregistered name is
    /// exactly a `MethodNotFound` error.
    pub fn from_str(s: &str) -> (r: Result<RpcMethod, RpcError>)
        ensures
            spec_method_of(s@) matches Some(m) ==> r == Ok::<RpcMethod, RpcError>(m),
            spec_method_of(s@) is None ==> (r matches Err(e) && e.code == -32601 && e.message@
                == "Method not found"@ && e.data is None),
    {
        let method = if str_eq(s, "address_create") {
            RpcMethod::AddressCreate
        } else if str_eq(s, "address_inspect") {
            RpcMethod::AddressInspect
        } else if str_eq(s, "block_create") {
            RpcMethod::BlockCreate
        } else if str_eq(s, "block_decode") {
            RpcMethod::BlockDecode
        } else if str_eq(s, "tx_create") {
            RpcMethod::TxCreate
        } else if str_eq(s, "tx_decode") {
            RpcMethod::TxDecode
        } else if str_eq(s, "keypair_generate") {
            RpcMethod::KeypairGenerate
        } else if str_eq(s, "simplicity_info") {
            RpcMethod::SimplicityInfo
        } else if str_eq(s, "simplicity_sighash") {
            RpcMethod::SimplicitySighash
        } else if str_eq(s, "pset_create") {
            RpcMethod::PsetCreate
        } else if str_eq(s, "pset_extract") {
            RpcMethod::PsetExtract
        } else if str_eq(s, "pset_finalize") {
            RpcMethod::PsetFinalize
        } else if str_eq(s, "pset_run") {
            RpcMethod::PsetRun
        } else if str_eq(s, "pset_update_input") {
            RpcMethod::PsetUpdateInput
        } else {
            return Err(RpcError::new(ErrorCode::MethodNotFound));
        };
        Ok(method)
    }
}

/// Default RPC handler over the daemon's method table.  The domain operations
/// behind the table belong to the surrounding system; a host embeds the
/// engine with a handler that implements them, and this default answers every
/// registered method with an internal error saying so.  Unregistered names
/// get the protocol's `MethodNotFound` in either case.
pub struct DefaultRpcHandler;

impl DefaultRpcHandler {
    pub fn new() -> Self {
        DefaultRpcHandler
    }
}

impl RpcHandler for DefaultRpcHandler {
    fn handle(&self, method: &str, params: Option<serde_json::Value>) -> Result<
        serde_json::Value,
        RpcError,
    > {
        let _ = params;
        match RpcMethod::from_str(method) {
            Err(e) => Err(e),
            Ok(_) => Err(
                RpcError::custom(
                    ErrorCode::InternalError.code(),
                    "no implementation of this method is attached to the handler".to_owned(),
                ),
            ),
        }
    }
}

/// Create a JSON-RPC service with the default handler.
pub fn create_service() -> JsonRpcService<DefaultRpcHandler> {
    JsonRpcService::new(DefaultRpcHandler::new())
}

} // verus!
