//! The mathematical model of a call: its state, the results that the
//! outside hands back, the work it asks for next, and the rule that takes
//! one state to the next.
//!
//! Everything here is specification. The executable [`crate::dispatch::Call`]
//! is proved to follow it step for step, and the laws in [`crate::laws`] are
//! proved of every state it can reach.

use vstd::prelude::*;
use crate::env::env_for_contract;
use crate::env::stamped;
use crate::env::code_hash_seen;
use crate::env::key_hidden;
use crate::env::ContractEnvView;
use crate::env::CosmWasmApiVersion;
use crate::env::EnvV010View;
use crate::error::EnclaveError;
use crate::hexcode::hex_string;
use crate::keys::claimed_key;
use crate::keys::is_authentic;
use crate::keys::key_tag;
use crate::message::parse_query_input;
use crate::message::parse_secret_message;
use crate::message::SecretMessageView;
use crate::validation::validated_payload;

verus! {

/// The entry point of a contract that a call invokes.
#[derive(Clone, Copy, Debug, PartialEq, Eq, Structural)]
pub enum ContractOperation {
    Init,
    Handle,
    Query,
}

/// The outside work that a call is waiting on.
#[derive(Clone, Copy, Debug, PartialEq, Eq, Structural)]
pub enum Pending {
    ParseEnv,
    ResolveAddress,
    DeriveKeyTag,
    DeriveKeySeed,
    ParseSigInfo,
    VerifyParams,
    Decrypt,
    StartEngine,
    SerializeEnv,
    WriteEnv,
    WriteMessage,
    Invoke,
    ExtractOutput,
    EncryptOutput,
    ReadGas,
    /// The call is over; only its outcome is left to collect.
    Nothing,
}

/// Where a call stands, in the large.
#[derive(Clone, Copy, Debug, PartialEq, Eq, Structural)]
pub enum Stage {
    Parse,
    KeyResolve,
    Authenticate,
    Decrypt,
    Validate,
    EngineReady,
    Executing,
    Encrypting,
    Done,
    Failed(EnclaveError),
}

/// The state of one call.
pub struct CallState {
    pub operation: ContractOperation,
    pub gas_limit: u64,
    pub code_hash: Seq<u8>,
    pub pending: Pending,
    /// The first error, once there is one.
    pub failure: Option<EnclaveError>,
    /// Whether an engine was constructed for this call.
    pub engine_started: bool,
    /// What the engine reported as consumed, once it was asked.
    pub gas_used: Option<u64>,
    /// The stamped env, from its parsing until the engine has started.
    pub env: Option<EnvV010View>,
    /// Canonical address of the contract; empty on a query.
    pub address: Seq<u8>,
    pub contract_key: Seq<u8>,
    /// The secret message, unless the input was too short to hold one.
    pub message: Option<SecretMessageView>,
    /// The validated plaintext with its code-hash prefix stripped.
    pub payload: Seq<u8>,
    /// The env as the contract is to receive it.
    pub contract_env: Option<ContractEnvView>,
    pub env_bytes: Seq<u8>,
    pub env_ptr: Option<u32>,
    pub msg_ptr: u32,
    pub vec_ptr: u32,
    /// The contract's output: plain once extracted, encrypted once sealed.
    pub output: Seq<u8>,
}

/// What the outside hands back after the work a call asked for.
pub enum EventView {
    /// The host's env bytes read as an env, or nothing if they are malformed.
    EnvParsed(Option<EnvV010View>),
    /// The canonical form of the contract's address, or nothing if the
    /// human address is malformed.
    AddressResolved(Option<Seq<u8>>),
    KeyTagDerived(Result<Seq<u8>, EnclaveError>),
    KeySeedDerived(Result<Seq<u8>, EnclaveError>),
    /// Whether the host's signature info could be read.
    SigInfoParsed(bool),
    ParamsVerified(Result<(), EnclaveError>),
    Decrypted(Result<Seq<u8>, EnclaveError>),
    EngineStarted(Result<CosmWasmApiVersion, EnclaveError>),
    /// The contract's env as bytes, or nothing if it cannot be encoded.
    EnvSerialized(Option<Seq<u8>>),
    Written(Result<u32, EnclaveError>),
    Invoked(Result<u32, EnclaveError>),
    Extracted(Result<Seq<u8>, EnclaveError>),
    Encrypted(Result<Seq<u8>, EnclaveError>),
    GasRead(u64),
}

impl EventView {
    /// Whether the result has the shape that the outside can produce:
    /// derived tags and seeds are 32 bytes long.
    pub open spec fn wf(self) -> bool {
        match self {
            EventView::KeyTagDerived(Ok(tag)) => tag.len() == 32,
            EventView::KeySeedDerived(Ok(seed)) => seed.len() == 32,
            _ => true,
        }
    }
}

/// The work a call asks for, with exactly the values to hand to it.
pub enum ActionView {
    ParseEnv,
    ResolveAddress { human: Seq<char> },
    DeriveKeyTag { address: Seq<u8>, code_hash: Seq<u8> },
    DeriveKeySeed { env: EnvV010View, code_hash: Seq<u8>, address: Seq<u8> },
    ParseSigInfo,
    VerifyParams { env: EnvV010View, message: SecretMessageView },
    Decrypt { message: SecretMessageView },
    StartEngine {
        operation: ContractOperation,
        gas_limit: u64,
        contract_key: Seq<u8>,
        nonce: Seq<u8>,
        user_public_key: Seq<u8>,
    },
    SerializeEnv { contract_env: ContractEnvView },
    WriteToMemory { bytes: Seq<u8> },
    Invoke { operation: ContractOperation, env_ptr: Option<u32>, msg_ptr: u32 },
    ExtractVector { vec_ptr: u32 },
    EncryptOutput {
        output: Seq<u8>,
        nonce: Seq<u8>,
        user_public_key: Seq<u8>,
        contract_address: Seq<u8>,
    },
    ReadGas,
    Finish,
}

/// What a finished call hands to the host on success.
pub enum SuccessView {
    Init { output: Seq<u8>, contract_key: Seq<u8> },
    Handle { output: Seq<u8> },
    Query { output: Seq<u8> },
}

/// A run of `len` zero bytes.
pub open spec fn zeros(len: nat) -> Seq<u8> {
    Seq::new(len, |i: int| 0u8)
}

/// A call of which nothing is known yet but its inputs.
pub open spec fn blank(
    operation: ContractOperation,
    gas_limit: u64,
    code_hash: Seq<u8>,
) -> CallState {
    CallState {
        operation,
        gas_limit,
        code_hash,
        pending: Pending::Nothing,
        failure: None,
        engine_started: false,
        gas_used: None,
        env: None,
        address: Seq::empty(),
        contract_key: zeros(64),
        message: None,
        payload: Seq::empty(),
        contract_env: None,
        env_bytes: Seq::empty(),
        env_ptr: None,
        msg_ptr: 0,
        vec_ptr: 0,
        output: Seq::empty(),
    }
}

/// The state in which an `init` or `handle` call starts: the message is
/// read at once, the env is the first thing asked for.
pub open spec fn begin(
    operation: ContractOperation,
    gas_limit: u64,
    code_hash: Seq<u8>,
    msg: Seq<u8>,
) -> CallState {
    CallState {
        pending: Pending::ParseEnv,
        message: parse_secret_message(msg),
        ..blank(operation, gas_limit, code_hash)
    }
}

/// The state in which a `query` call starts. The input opens with a raw
/// contract key, which is taken as it is; the rest is the secret message.
pub open spec fn begin_query(gas_limit: u64, code_hash: Seq<u8>, msg: Seq<u8>) -> CallState {
    let start = blank(ContractOperation::Query, gas_limit, code_hash);
    match parse_query_input(msg) {
        None => CallState { failure: Some(EnclaveError::FailedFunctionCall), ..start },
        Some((key, rest)) => match parse_secret_message(rest) {
            None => CallState {
                contract_key: key,
                failure: Some(EnclaveError::FailedToDeserialize),
                ..start
            },
            Some(message) => CallState {
                contract_key: key,
                message: Some(message),
                pending: Pending::Decrypt,
                ..start
            },
        },
    }
}

/// The call after its first error. If an engine exists its gas is still to
/// be read; otherwise the call is over.
pub open spec fn fail(s: CallState, error: EnclaveError) -> CallState {
    CallState {
        failure: Some(error),
        pending: if s.engine_started {
            Pending::ReadGas
        } else {
            Pending::Nothing
        },
        ..s
    }
}

/// After the env was read: it is stamped with the code hash, and the
/// contract's address is resolved next. A malformed env ends the call.
pub open spec fn on_env_parsed(s: CallState, parsed: Option<EnvV010View>) -> CallState {
    match parsed {
        None => fail(s, EnclaveError::FailedToDeserialize),
        Some(env) => CallState {
            env: Some(stamped(env, s.code_hash)),
            pending: Pending::ResolveAddress,
            ..s
        },
    }
}

/// After the address was resolved: `init` goes on to mint a key; any other
/// call takes the key that the host claims from the env, and ends if there
/// is none of the right length. A malformed address ends the call.
pub open spec fn on_address_resolved(s: CallState, resolved: Option<Seq<u8>>) -> CallState {
    match resolved {
        None => fail(s, EnclaveError::FailedToDeserialize),
        Some(address) => {
            let located = CallState { address, ..s };
            if s.operation == ContractOperation::Init {
                CallState { pending: Pending::DeriveKeyTag, ..located }
            } else {
                match claimed_key(s.env.unwrap()) {
                    None => fail(located, EnclaveError::FailedContractAuthentication),
                    Some(key) => CallState {
                        contract_key: key,
                        pending: Pending::DeriveKeyTag,
                        ..located
                    },
                }
            }
        },
    }
}

/// After the tag was derived. On `init` it becomes the first half of the
/// new key. Otherwise the claimed key must carry it: a key with another tag,
/// or a tag that could not be derived, ends the call.
pub open spec fn on_key_tag_derived(
    s: CallState,
    derived: Result<Seq<u8>, EnclaveError>,
) -> CallState {
    if s.operation == ContractOperation::Init {
        match derived {
            Err(error) => fail(s, error),
            Ok(tag) => CallState {
                contract_key: tag + zeros(32),
                pending: Pending::DeriveKeySeed,
                ..s
            },
        }
    } else {
        match derived {
            Err(_) => fail(s, EnclaveError::FailedContractAuthentication),
            Ok(tag) => if is_authentic(s.contract_key, tag) {
                CallState { pending: Pending::ParseSigInfo, ..s }
            } else {
                fail(s, EnclaveError::FailedContractAuthentication)
            },
        }
    }
}

/// After the seed was derived: it becomes the second half of the new key.
pub open spec fn on_key_seed_derived(
    s: CallState,
    derived: Result<Seq<u8>, EnclaveError>,
) -> CallState {
    match derived {
        Err(error) => fail(s, error),
        Ok(seed) => CallState {
            contract_key: key_tag(s.contract_key) + seed,
            pending: Pending::ParseSigInfo,
            ..s
        },
    }
}

/// After the signature info was read. Here an input too short to hold a
/// secret message ends the call, as unreadable signature info does.
pub open spec fn on_sig_info_parsed(s: CallState, readable: bool) -> CallState {
    if !readable || s.message is None {
        fail(s, EnclaveError::FailedToDeserialize)
    } else {
        CallState { pending: Pending::VerifyParams, ..s }
    }
}

/// After the signature was checked: a mismatch ends the call.
pub open spec fn on_params_verified(s: CallState, verified: Result<(), EnclaveError>) -> CallState {
    match verified {
        Err(error) => fail(s, error),
        Ok(_) => CallState { pending: Pending::Decrypt, ..s },
    }
}

/// After decryption: the plaintext must open with the hexadecimal text of
/// the code hash, and what follows it is the payload for the contract.
pub open spec fn on_decrypted(s: CallState, decrypted: Result<Seq<u8>, EnclaveError>) -> CallState {
    match decrypted {
        Err(error) => fail(s, error),
        Ok(plaintext) => match validated_payload(plaintext, s.code_hash) {
            None => fail(s, EnclaveError::ValidationFailure),
            Some(payload) => CallState { payload, pending: Pending::StartEngine, ..s },
        },
    }
}

/// After the engine was started. From here on the gas is read before the
/// call ends, whatever happens. A query goes straight to writing its
/// payload; any other call first prepares the env for the contract, in the
/// schema of its module, and gives up the env it held.
pub open spec fn on_engine_started(
    s: CallState,
    started: Result<CosmWasmApiVersion, EnclaveError>,
) -> CallState {
    match started {
        Err(error) => fail(s, error),
        Ok(version) => {
            let running = CallState { engine_started: true, env: None, ..s };
            if s.operation == ContractOperation::Query {
                CallState { pending: Pending::WriteMessage, ..running }
            } else {
                match env_for_contract(version, s.env.unwrap()) {
                    None => fail(running, EnclaveError::FailedToSerialize),
                    Some(contract_env) => CallState {
                        contract_env: Some(contract_env),
                        pending: Pending::SerializeEnv,
                        ..running
                    },
                }
            }
        },
    }
}

/// After the contract's env was encoded.
pub open spec fn on_env_serialized(s: CallState, serialized: Option<Seq<u8>>) -> CallState {
    match serialized {
        None => fail(s, EnclaveError::FailedToSerialize),
        Some(bytes) => CallState { env_bytes: bytes, pending: Pending::WriteEnv, ..s },
    }
}

/// After a buffer was copied into wasm memory: first the env, if there is
/// one, then the payload.
pub open spec fn on_written(s: CallState, written: Result<u32, EnclaveError>) -> CallState {
    match written {
        Err(error) => fail(s, error),
        Ok(ptr) => if s.pending == Pending::WriteEnv {
            CallState { env_ptr: Some(ptr), pending: Pending::WriteMessage, ..s }
        } else {
            CallState { msg_ptr: ptr, pending: Pending::Invoke, ..s }
        },
    }
}

/// After the entry point returned.
pub open spec fn on_invoked(s: CallState, invoked: Result<u32, EnclaveError>) -> CallState {
    match invoked {
        Err(error) => fail(s, error),
        Ok(ptr) => CallState { vec_ptr: ptr, pending: Pending::ExtractOutput, ..s },
    }
}

/// After the output was read from wasm memory.
pub open spec fn on_extracted(s: CallState, extracted: Result<Seq<u8>, EnclaveError>) -> CallState {
    match extracted {
        Err(error) => fail(s, error),
        Ok(bytes) => CallState { output: bytes, pending: Pending::EncryptOutput, ..s },
    }
}

/// After the output was encrypted: all that is left is to read the gas.
pub open spec fn on_encrypted(s: CallState, encrypted: Result<Seq<u8>, EnclaveError>) -> CallState {
    match encrypted {
        Err(error) => fail(s, error),
        Ok(bytes) => CallState { output: bytes, pending: Pending::ReadGas, ..s },
    }
}

/// After the gas was read: the call is over.
pub open spec fn on_gas_read(s: CallState, gas: u64) -> CallState {
    CallState { gas_used: Some(gas), pending: Pending::Nothing, ..s }
}

/// The result that answers the work `pending` asks for.
pub open spec fn answers(pending: Pending, event: EventView) -> bool {
    match pending {
        Pending::ParseEnv => event is EnvParsed,
        Pending::ResolveAddress => event is AddressResolved,
        Pending::DeriveKeyTag => event is KeyTagDerived,
        Pending::DeriveKeySeed => event is KeySeedDerived,
        Pending::ParseSigInfo => event is SigInfoParsed,
        Pending::VerifyParams => event is ParamsVerified,
        Pending::Decrypt => event is Decrypted,
        Pending::StartEngine => event is EngineStarted,
        Pending::SerializeEnv => event is EnvSerialized,
        Pending::WriteEnv => event is Written,
        Pending::WriteMessage => event is Written,
        Pending::Invoke => event is Invoked,
        Pending::ExtractOutput => event is Extracted,
        Pending::EncryptOutput => event is Encrypted,
        Pending::ReadGas => event is GasRead,
        Pending::Nothing => false,
    }
}

/// The state after a result that answers what the call is waiting on.
pub open spec fn answered(s: CallState, event: EventView) -> CallState {
    match event {
        EventView::EnvParsed(parsed) => on_env_parsed(s, parsed),
        EventView::AddressResolved(resolved) => on_address_resolved(s, resolved),
        EventView::KeyTagDerived(derived) => on_key_tag_derived(s, derived),
        EventView::KeySeedDerived(derived) => on_key_seed_derived(s, derived),
        EventView::SigInfoParsed(readable) => on_sig_info_parsed(s, readable),
        EventView::ParamsVerified(verified) => on_params_verified(s, verified),
        EventView::Decrypted(decrypted) => on_decrypted(s, decrypted),
        EventView::EngineStarted(started) => on_engine_started(s, started),
        EventView::EnvSerialized(serialized) => on_env_serialized(s, serialized),
        EventView::Written(written) => on_written(s, written),
        EventView::Invoked(invoked) => on_invoked(s, invoked),
        EventView::Extracted(extracted) => on_extracted(s, extracted),
        EventView::Encrypted(encrypted) => on_encrypted(s, encrypted),
        EventView::GasRead(gas) => on_gas_read(s, gas),
    }
}

/// The state after `event`. A result that does not answer what the call is
/// waiting on changes nothing.
///
/// The definition is revealed on demand, so that proofs about many steps in
/// a row take each step when they ask for it.
#[verifier::opaque]
pub open spec fn advance(s: CallState, event: EventView) -> CallState {
    if answers(s.pending, event) {
        answered(s, event)
    } else {
        s
    }
}

/// The work that a call in state `s` asks for, with its arguments.
pub open spec fn action_of(s: CallState) -> ActionView {
    match s.pending {
        Pending::ParseEnv => ActionView::ParseEnv,
        Pending::ResolveAddress => ActionView::ResolveAddress {
            human: s.env.unwrap().contract.address,
        },
        Pending::DeriveKeyTag => ActionView::DeriveKeyTag {
            address: s.address,
            code_hash: s.code_hash,
        },
        Pending::DeriveKeySeed => ActionView::DeriveKeySeed {
            env: s.env.unwrap(),
            code_hash: s.code_hash,
            address: s.address,
        },
        Pending::ParseSigInfo => ActionView::ParseSigInfo,
        Pending::VerifyParams => ActionView::VerifyParams {
            env: s.env.unwrap(),
            message: s.message.unwrap(),
        },
        Pending::Decrypt => ActionView::Decrypt { message: s.message.unwrap() },
        Pending::StartEngine => ActionView::StartEngine {
            operation: s.operation,
            gas_limit: s.gas_limit,
            contract_key: s.contract_key,
            nonce: s.message.unwrap().nonce,
            user_public_key: s.message.unwrap().user_public_key,
        },
        Pending::SerializeEnv => ActionView::SerializeEnv {
            contract_env: s.contract_env.unwrap(),
        },
        Pending::WriteEnv => ActionView::WriteToMemory { bytes: s.env_bytes },
        Pending::WriteMessage => ActionView::WriteToMemory { bytes: s.payload },
        Pending::Invoke => ActionView::Invoke {
            operation: s.operation,
            env_ptr: s.env_ptr,
            msg_ptr: s.msg_ptr,
        },
        Pending::ExtractOutput => ActionView::ExtractVector { vec_ptr: s.vec_ptr },
        Pending::EncryptOutput => ActionView::EncryptOutput {
            output: s.output,
            nonce: s.message.unwrap().nonce,
            user_public_key: s.message.unwrap().user_public_key,
            contract_address: s.address,
        },
        Pending::ReadGas => ActionView::ReadGas,
        Pending::Nothing => ActionView::Finish,
    }
}

/// Where a call in state `s` stands, in the large.
pub open spec fn stage_of(s: CallState) -> Stage {
    match s.failure {
        Some(error) => Stage::Failed(error),
        None => match s.pending {
            Pending::ParseEnv => Stage::Parse,
            Pending::ResolveAddress => Stage::KeyResolve,
            Pending::DeriveKeyTag => Stage::KeyResolve,
            Pending::DeriveKeySeed => Stage::KeyResolve,
            Pending::ParseSigInfo => Stage::Authenticate,
            Pending::VerifyParams => Stage::Authenticate,
            Pending::Decrypt => Stage::Decrypt,
            Pending::StartEngine => Stage::Validate,
            Pending::SerializeEnv => Stage::EngineReady,
            Pending::WriteEnv => Stage::EngineReady,
            Pending::WriteMessage => Stage::EngineReady,
            Pending::Invoke => Stage::Executing,
            Pending::ExtractOutput => Stage::Executing,
            Pending::EncryptOutput => Stage::Encrypting,
            Pending::ReadGas => Stage::Encrypting,
            Pending::Nothing => Stage::Done,
        },
    }
}

/// Whether the call is over.
pub open spec fn finished(s: CallState) -> bool {
    s.pending == Pending::Nothing
}

/// What a finished call returns to the host.
pub open spec fn outcome_of(s: CallState) -> Result<SuccessView, EnclaveError> {
    match s.failure {
        Some(error) => Err(error),
        None => Ok(
            match s.operation {
                ContractOperation::Init => SuccessView::Init {
                    output: s.output,
                    contract_key: s.contract_key,
                },
                ContractOperation::Handle => SuccessView::Handle { output: s.output },
                ContractOperation::Query => SuccessView::Query { output: s.output },
            },
        ),
    }
}

/// The value of the host's gas counter after a finished call: what the
/// engine reported if there was an engine, and what it was before if not.
pub open spec fn gas_written(s: CallState, before: u64) -> u64 {
    match s.gas_used {
        Some(gas) => gas,
        None => before,
    }
}

/// Whether the work that `pending` names belongs to the part of a call in
/// which the env is held.
pub open spec fn holds_env(pending: Pending) -> bool {
    pending == Pending::ResolveAddress || pending == Pending::DeriveKeyTag || pending
        == Pending::DeriveKeySeed || pending == Pending::ParseSigInfo || pending
        == Pending::VerifyParams || pending == Pending::Decrypt || pending == Pending::StartEngine
}

/// Whether the work that `pending` names is done on an engine.
pub open spec fn uses_engine(pending: Pending) -> bool {
    pending == Pending::SerializeEnv || pending == Pending::WriteEnv || pending
        == Pending::WriteMessage || pending == Pending::Invoke || pending
        == Pending::ExtractOutput || pending == Pending::EncryptOutput || pending
        == Pending::ReadGas
}

/// Whether the work that `pending` names needs the secret message.
pub open spec fn needs_message(pending: Pending) -> bool {
    pending == Pending::VerifyParams || pending == Pending::Decrypt || pending
        == Pending::StartEngine || (uses_engine(pending) && pending != Pending::ReadGas)
}

/// Whether the work that `pending` names is ever asked of a query.
pub open spec fn open_to_query(pending: Pending) -> bool {
    pending == Pending::Decrypt || pending == Pending::StartEngine || pending
        == Pending::WriteMessage || pending == Pending::Invoke || pending
        == Pending::ExtractOutput || pending == Pending::EncryptOutput || pending
        == Pending::ReadGas || pending == Pending::Nothing
}

impl CallState {
    /// Whether this is a state that a call can be in. Every call starts in
    /// such a state and every step keeps it.
    pub open spec fn wf(self) -> bool {
        &&& self.code_hash.len() == 32
        &&& self.contract_key.len() == 64
        &&& (self.message matches Some(message) ==> message.nonce.len() == 32
            && message.user_public_key.len() == 32)
        &&& (self.env matches Some(env) ==> env.contract_code_hash == hex_string(self.code_hash))
        &&& (self.contract_env matches Some(contract_env) ==> code_hash_seen(contract_env)
            == hex_string(self.code_hash) && key_hidden(contract_env))
        &&& (self.failure is Some ==> self.pending == Pending::ReadGas || self.pending
            == Pending::Nothing)
        &&& (self.operation == ContractOperation::Query ==> open_to_query(self.pending)
            && self.env is None && self.contract_env is None && self.env_ptr is None
            && self.address.len() == 0)
        &&& (self.operation != ContractOperation::Init ==> self.pending != Pending::DeriveKeySeed)
        &&& (self.pending == Pending::ParseEnv ==> self.env is None)
        &&& (holds_env(self.pending) && self.operation != ContractOperation::Query
            ==> self.env is Some)
        &&& (needs_message(self.pending) ==> self.message is Some)
        &&& (self.pending == Pending::SerializeEnv ==> self.contract_env is Some)
        &&& (self.engine_started <==> uses_engine(self.pending) || self.gas_used is Some)
        &&& (self.gas_used is Some <==> self.pending == Pending::Nothing && self.engine_started)
        &&& (self.pending == Pending::Nothing && self.failure is None ==> self.engine_started)
        &&& (self.operation != ContractOperation::Query && (self.pending == Pending::WriteMessage
            || self.pending == Pending::Invoke || self.pending == Pending::ExtractOutput
            || self.pending == Pending::EncryptOutput) ==> self.env_ptr is Some)
    }
}

} // verus!
