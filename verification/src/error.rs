//! The flat, host-visible error taxonomy.

use vstd::prelude::*;

verus! {

/// Why a call was refused or failed.
///
/// The first error ends the call; there is no recovery inside the core.
#[derive(Clone, Copy, Debug, PartialEq, Eq, Structural)]
pub enum EnclaveError {
    /// Malformed env, signature info, address or secret-message envelope.
    FailedToDeserialize,
    /// The env cannot be re-encoded for the contract.
    FailedToSerialize,
    /// The signature does not authenticate the envelope.
    FailedTxVerification,
    /// The contract key is absent, has the wrong length or does not
    /// authenticate against the contract's code and address.
    FailedContractAuthentication,
    /// The decrypted payload does not begin with the expected code-hash prefix.
    ValidationFailure,
    /// Generic engine or invocation failure, including a query input that is
    /// too short, wasm traps and running out of gas.
    FailedFunctionCall,
    /// Authenticated decryption failed.
    DecryptionError,
    /// Encrypting the output failed.
    EncryptionError,
}

} // verus!
