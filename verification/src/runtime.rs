//! The executor on which the state machine's asynchronous work is run to
//! completion, one call at a time.

use vstd::prelude::*;
use matrix_sdk_crypto::CryptoStoreError as InnerStoreError;
use tokio::runtime::Runtime;

verus! {

#[verifier::external_type_specification]
#[verifier::external_body]
pub struct ExRuntime(Runtime);

/// Calls `tokio::runtime::Runtime::new`.  Where the system refuses the
/// threads, the failure comes back as the store's I/O error.
#[verifier::external_body]
pub(crate) fn new_runtime() -> Result<Runtime, InnerStoreError> {
    Runtime::new().map_err(InnerStoreError::from)
}

} // verus!
