//! The operation dispatcher: one [`Call`] per host call.
//!
//! A call never performs outside work itself. It says what is to be done
//! next ([`Call::next_action`]), takes the result ([`Call::step`]), and in
//! the end hands out what the host is to receive ([`Call::finish`]). The
//! caller owns the collaborators: the JSON codec, the address codec, the
//! enclave's key derivation and ciphers, and the metered engine.

use vstd::prelude::*;
use crate::env::project_env;
use crate::env::stamp_code_hash;
use crate::env::ContractEnv;
use crate::env::CosmWasmApiVersion;
use crate::env::EnvV010;
use crate::error::EnclaveError;
use crate::keys::assemble_contract_key;
use crate::keys::extract_contract_key;
use crate::keys::validate_contract_key;
use crate::message::copy32;
use crate::message::split_query_input;
use crate::message::ContractKey;
use crate::message::SecretMessage;
use crate::model::action_of;
use crate::model::advance;
use crate::model::answered;
use crate::model::answers;
use crate::model::begin;
use crate::model::begin_query;
use crate::model::finished;
use crate::model::gas_written;
use crate::model::outcome_of;
use crate::model::stage_of;
use crate::model::ActionView;
use crate::model::CallState;
use crate::model::ContractOperation;
use crate::model::EventView;
use crate::model::Pending;
use crate::model::Stage;
use crate::model::SuccessView;
use crate::validation::validate_msg;

verus! {

/// What the outside hands back after the work a call asked for.
#[derive(Debug, PartialEq, Eq)]
pub enum Event {
    /// The host's env bytes read as an env, or `None` if they are malformed.
    EnvParsed(Option<EnvV010>),
    /// The canonical form of the contract's address, or `None` if the human
    /// address is malformed.
    AddressResolved(Option<Vec<u8>>),
    /// The authentication tag that the enclave derives for the contract's
    /// address and code hash.
    KeyTagDerived(Result<[u8; 32], EnclaveError>),
    /// The encryption seed that the enclave derives for a new instance.
    KeySeedDerived(Result<[u8; 32], EnclaveError>),
    /// Whether the host's signature info could be read.
    SigInfoParsed(bool),
    /// Whether the signature authenticates the env and the message.
    ParamsVerified(Result<(), EnclaveError>),
    /// The plaintext of the secret message.
    Decrypted(Result<Vec<u8>, EnclaveError>),
    /// The ABI generation of the module that the engine was started on.
    EngineStarted(Result<CosmWasmApiVersion, EnclaveError>),
    /// The contract's env as bytes, or `None` if it cannot be encoded.
    EnvSerialized(Option<Vec<u8>>),
    /// The pointer to a buffer that was copied into wasm memory.
    Written(Result<u32, EnclaveError>),
    /// The pointer to the vector that the entry point returned.
    Invoked(Result<u32, EnclaveError>),
    /// The bytes of the vector that the entry point returned.
    Extracted(Result<Vec<u8>, EnclaveError>),
    /// The output, encrypted to the user.
    Encrypted(Result<Vec<u8>, EnclaveError>),
    /// The gas that the engine has consumed.
    GasRead(u64),
}

impl View for Event {
    type V = EventView;

    open spec fn view(&self) -> EventView {
        match self {
            Event::EnvParsed(parsed) => EventView::EnvParsed(
                match parsed {
                    Some(env) => Some(env@),
                    None => None,
                },
            ),
            Event::AddressResolved(resolved) => EventView::AddressResolved(
                match resolved {
                    Some(address) => Some(address@),
                    None => None,
                },
            ),
            Event::KeyTagDerived(derived) => EventView::KeyTagDerived(
                match derived {
                    Ok(tag) => Ok(tag@),
                    Err(error) => Err(*error),
                },
            ),
            Event::KeySeedDerived(derived) => EventView::KeySeedDerived(
                match derived {
                    Ok(seed) => Ok(seed@),
                    Err(error) => Err(*error),
                },
            ),
            Event::SigInfoParsed(readable) => EventView::SigInfoParsed(*readable),
            Event::ParamsVerified(verified) => EventView::ParamsVerified(*verified),
            Event::Decrypted(decrypted) => EventView::Decrypted(
                match decrypted {
                    Ok(plaintext) => Ok(plaintext@),
                    Err(error) => Err(*error),
                },
            ),
            Event::EngineStarted(started) => EventView::EngineStarted(*started),
            Event::EnvSerialized(serialized) => EventView::EnvSerialized(
                match serialized {
                    Some(bytes) => Some(bytes@),
                    None => None,
                },
            ),
            Event::Written(written) => EventView::Written(*written),
            Event::Invoked(invoked) => EventView::Invoked(*invoked),
            Event::Extracted(extracted) => EventView::Extracted(
                match extracted {
                    Ok(bytes) => Ok(bytes@),
                    Err(error) => Err(*error),
                },
            ),
            Event::Encrypted(encrypted) => EventView::Encrypted(
                match encrypted {
                    Ok(bytes) => Ok(bytes@),
                    Err(error) => Err(*error),
                },
            ),
            Event::GasRead(gas) => EventView::GasRead(*gas),
        }
    }
}

/// The work a call asks for, with exactly the values to hand to it.
#[derive(Debug, PartialEq, Eq)]
pub enum Action<'a> {
    /// Read the host's env bytes as an env.
    ParseEnv,
    /// Turn the contract's human address into its canonical form.
    ResolveAddress { human: &'a str },
    /// Derive the authentication tag for this address and code hash.
    DeriveKeyTag { address: &'a [u8], code_hash: &'a [u8; 32] },
    /// Derive the encryption seed of a new instance.
    DeriveKeySeed { env: &'a EnvV010, code_hash: &'a [u8; 32], address: &'a [u8] },
    /// Read the host's signature info.
    ParseSigInfo,
    /// Check the signature against this env and this message.
    VerifyParams { env: &'a EnvV010, message: &'a SecretMessage },
    /// Decrypt this message.
    Decrypt { message: &'a SecretMessage },
    /// Start a metered engine on the contract's module.
    StartEngine {
        operation: ContractOperation,
        gas_limit: u64,
        contract_key: &'a ContractKey,
        nonce: &'a [u8; 32],
        user_public_key: &'a [u8; 32],
    },
    /// Encode this env for the contract.
    SerializeEnv { contract_env: &'a ContractEnv },
    /// Copy these bytes into wasm memory.
    WriteToMemory { bytes: &'a [u8] },
    /// Call the entry point; a query has no env pointer.
    Invoke { operation: ContractOperation, env_ptr: Option<u32>, msg_ptr: u32 },
    /// Read the vector that the entry point returned.
    ExtractVector { vec_ptr: u32 },
    /// Encrypt the output to the user.
    EncryptOutput {
        output: &'a [u8],
        nonce: &'a [u8; 32],
        user_public_key: &'a [u8; 32],
        contract_address: &'a [u8],
    },
    /// Ask the engine how much gas it has consumed.
    ReadGas,
    /// Nothing is left to do but to collect the outcome.
    Finish,
}

impl<'a> View for Action<'a> {
    type V = ActionView;

    open spec fn view(&self) -> ActionView {
        match self {
            Action::ParseEnv => ActionView::ParseEnv,
            Action::ResolveAddress { human } => ActionView::ResolveAddress { human: human@ },
            Action::DeriveKeyTag { address, code_hash } => ActionView::DeriveKeyTag {
                address: address@,
                code_hash: code_hash@,
            },
            Action::DeriveKeySeed { env, code_hash, address } => ActionView::DeriveKeySeed {
                env: env@,
                code_hash: code_hash@,
                address: address@,
            },
            Action::ParseSigInfo => ActionView::ParseSigInfo,
            Action::VerifyParams { env, message } => ActionView::VerifyParams {
                env: env@,
                message: message@,
            },
            Action::Decrypt { message } => ActionView::Decrypt { message: message@ },
            Action::StartEngine {
                operation,
                gas_limit,
                contract_key,
                nonce,
                user_public_key,
            } => ActionView::StartEngine {
                operation: *operation,
                gas_limit: *gas_limit,
                contract_key: contract_key@,
                nonce: nonce@,
                user_public_key: user_public_key@,
            },
            Action::SerializeEnv { contract_env } => ActionView::SerializeEnv {
                contract_env: contract_env@,
            },
            Action::WriteToMemory { bytes } => ActionView::WriteToMemory { bytes: bytes@ },
            Action::Invoke { operation, env_ptr, msg_ptr } => ActionView::Invoke {
                operation: *operation,
                env_ptr: *env_ptr,
                msg_ptr: *msg_ptr,
            },
            Action::ExtractVector { vec_ptr } => ActionView::ExtractVector { vec_ptr: *vec_ptr },
            Action::EncryptOutput {
                output,
                nonce,
                user_public_key,
                contract_address,
            } => ActionView::EncryptOutput {
                output: output@,
                nonce: nonce@,
                user_public_key: user_public_key@,
                contract_address: contract_address@,
            },
            Action::ReadGas => ActionView::ReadGas,
            Action::Finish => ActionView::Finish,
        }
    }
}

/// What a successful `init` returns: the encrypted output and the key that
/// was minted for the new instance.
#[derive(Debug, PartialEq, Eq)]
pub struct InitSuccess {
    pub output: Vec<u8>,
    pub contract_key: ContractKey,
}

/// What a successful `handle` returns.
#[derive(Debug, PartialEq, Eq)]
pub struct HandleSuccess {
    pub output: Vec<u8>,
}

/// What a successful `query` returns.
#[derive(Debug, PartialEq, Eq)]
pub struct QuerySuccess {
    pub output: Vec<u8>,
}

/// What a successful call returns, by operation.
#[derive(Debug, PartialEq, Eq)]
pub enum Success {
    Init(InitSuccess),
    Handle(HandleSuccess),
    Query(QuerySuccess),
}

impl View for Success {
    type V = SuccessView;

    open spec fn view(&self) -> SuccessView {
        match self {
            Success::Init(success) => SuccessView::Init {
                output: success.output@,
                contract_key: success.contract_key@,
            },
            Success::Handle(success) => SuccessView::Handle { output: success.output@ },
            Success::Query(success) => SuccessView::Query { output: success.output@ },
        }
    }
}

/// The outcome of a finished call, as a value of the model.
pub open spec fn outcome_view(outcome: Result<Success, EnclaveError>) -> Result<
    SuccessView,
    EnclaveError,
> {
    match outcome {
        Ok(success) => Ok(success@),
        Err(error) => Err(error),
    }
}

/// One host call in progress.
pub struct Call {
    operation: ContractOperation,
    gas_limit: u64,
    code_hash: [u8; 32],
    pending: Pending,
    failure: Option<EnclaveError>,
    engine_started: bool,
    gas_used: Option<u64>,
    env: Option<EnvV010>,
    address: Vec<u8>,
    contract_key: ContractKey,
    message: Option<SecretMessage>,
    payload: Vec<u8>,
    contract_env: Option<ContractEnv>,
    env_bytes: Vec<u8>,
    env_ptr: Option<u32>,
    msg_ptr: u32,
    vec_ptr: u32,
    output: Vec<u8>,
}

impl View for Call {
    type V = CallState;

    closed spec fn view(&self) -> CallState {
        CallState {
            operation: self.operation,
            gas_limit: self.gas_limit,
            code_hash: self.code_hash@,
            pending: self.pending,
            failure: self.failure,
            engine_started: self.engine_started,
            gas_used: self.gas_used,
            env: match self.env {
                Some(env) => Some(env@),
                None => None,
            },
            address: self.address@,
            contract_key: self.contract_key@,
            message: match self.message {
                Some(message) => Some(message@),
                None => None,
            },
            payload: self.payload@,
            contract_env: match self.contract_env {
                Some(contract_env) => Some(contract_env@),
                None => None,
            },
            env_bytes: self.env_bytes@,
            env_ptr: self.env_ptr,
            msg_ptr: self.msg_ptr,
            vec_ptr: self.vec_ptr,
            output: self.output@,
        }
    }
}

impl Call {
    #[verifier::type_invariant]
    spec fn inv(self) -> bool {
        self@.wf()
    }

    /// The operation this call dispatches.
    pub fn operation(&self) -> (operation: ContractOperation)
        ensures
            operation == self@.operation,
    {
        self.operation
    }

    /// Where the call stands, in the large.
    pub fn stage(&self) -> (stage: Stage)
        ensures
            stage == stage_of(self@),
    {
        match self.failure {
            Some(error) => Stage::Failed(error),
            None => match self.pending {
                Pending::ParseEnv => Stage::Parse,
                Pending::ResolveAddress => Stage::KeyResolve,
                Pending::DeriveKeyTag => Stage::KeyResolve,
                Pending::DeriveKeySeed => Stage::KeyResolve,
                Pending::ParseSigInfo => Stage::Authenticate,
                Pending::VerifyParams => Stage::Authenticate,
                Pending::Decrypt => Stage::Decrypt,
                Pending::StartEngine => Stage::Validate,
                Pending::SerializeEnv => Stage::EngineReady,
                Pending::WriteEnv => Stage::EngineReady,
                Pending::WriteMessage => Stage::EngineReady,
                Pending::Invoke => Stage::Executing,
                Pending::ExtractOutput => Stage::Executing,
                Pending::EncryptOutput => Stage::Encrypting,
                Pending::ReadGas => Stage::Encrypting,
                Pending::Nothing => Stage::Done,
            },
        }
    }

    /// Whether the call is over, so that `finish` will hand out its outcome.
    pub fn is_finished(&self) -> (over: bool)
        ensures
            over == finished(self@),
    {
        self.pending == Pending::Nothing
    }

    /// Whether an engine was constructed for this call.
    pub fn engine_started(&self) -> (started: bool)
        ensures
            started == self@.engine_started,
    {
        self.engine_started
    }

    /// The work to do next, with exactly the values to hand to it.
    pub fn next_action(&self) -> (action: Action<'_>)
        ensures
            action@ == action_of(self@),
            self@.wf(),
    {
        proof {
            use_type_invariant(self);
        }
        match self.pending {
            Pending::ParseEnv => Action::ParseEnv,
            Pending::ResolveAddress => match &self.env {
                Some(env) => Action::ResolveAddress { human: env.contract.address.as_str() },
                None => vstd::pervasive::unreached(),
            },
            Pending::DeriveKeyTag => Action::DeriveKeyTag {
                address: self.address.as_slice(),
                code_hash: &self.code_hash,
            },
            Pending::DeriveKeySeed => match &self.env {
                Some(env) => Action::DeriveKeySeed {
                    env,
                    code_hash: &self.code_hash,
                    address: self.address.as_slice(),
                },
                None => vstd::pervasive::unreached(),
            },
            Pending::ParseSigInfo => Action::ParseSigInfo,
            Pending::VerifyParams => match (&self.env, &self.message) {
                (Some(env), Some(message)) => Action::VerifyParams { env, message },
                _ => vstd::pervasive::unreached(),
            },
            Pending::Decrypt => match &self.message {
                Some(message) => Action::Decrypt { message },
                None => vstd::pervasive::unreached(),
            },
            Pending::StartEngine => match &self.message {
                Some(message) => Action::StartEngine {
                    operation: self.operation,
                    gas_limit: self.gas_limit,
                    contract_key: &self.contract_key,
                    nonce: &message.nonce,
                    user_public_key: &message.user_public_key,
                },
                None => vstd::pervasive::unreached(),
            },
            Pending::SerializeEnv => match &self.contract_env {
                Some(contract_env) => Action::SerializeEnv { contract_env },
                None => vstd::pervasive::unreached(),
            },
            Pending::WriteEnv => Action::WriteToMemory { bytes: self.env_bytes.as_slice() },
            Pending::WriteMessage => Action::WriteToMemory { bytes: self.payload.as_slice() },
            Pending::Invoke => Action::Invoke {
                operation: self.operation,
                env_ptr: self.env_ptr,
                msg_ptr: self.msg_ptr,
            },
            Pending::ExtractOutput => Action::ExtractVector { vec_ptr: self.vec_ptr },
            Pending::EncryptOutput => match &self.message {
                Some(message) => Action::EncryptOutput {
                    output: self.output.as_slice(),
                    nonce: &message.nonce,
                    user_public_key: &message.user_public_key,
                    contract_address: self.address.as_slice(),
                },
                None => vstd::pervasive::unreached(),
            },
            Pending::ReadGas => Action::ReadGas,
            Pending::Nothing => Action::Finish,
        }
    }

    /// Ends the call on its first error.
    fn fail(self, error: EnclaveError) -> (next: Call)
        requires
            self@.pending != Pending::ReadGas,
            self@.pending != Pending::Nothing,
        ensures
            next@ == crate::model::fail(self@, error),
    {
        proof {
            use_type_invariant(&self);
        }
        let pending = if self.engine_started {
            Pending::ReadGas
        } else {
            Pending::Nothing
        };
        Call { failure: Some(error), pending, ..self }
    }

    fn on_env_parsed(self, parsed: Option<EnvV010>) -> (next: Call)
        requires
            self@.pending == Pending::ParseEnv,
        ensures
            next@ == crate::model::on_env_parsed(
                self@,
                (match parsed {
                    Some(env) => Some(env@),
                    None => None,
                }),
            ),
    {
        proof {
            use_type_invariant(&self);
        }
        match parsed {
            None => self.fail(EnclaveError::FailedToDeserialize),
            Some(env) => {
                let env = stamp_code_hash(env, &self.code_hash);
                Call { env: Some(env), pending: Pending::ResolveAddress, ..self }
            },
        }
    }

    fn on_address_resolved(self, resolved: Option<Vec<u8>>) -> (next: Call)
        requires
            self@.pending == Pending::ResolveAddress,
        ensures
            next@ == crate::model::on_address_resolved(
                self@,
                (match resolved {
                    Some(address) => Some(address@),
                    None => None,
                }),
            ),
    {
        proof {
            use_type_invariant(&self);
        }
        match resolved {
            None => self.fail(EnclaveError::FailedToDeserialize),
            Some(address) => {
                if self.operation == ContractOperation::Init {
                    Call { address, pending: Pending::DeriveKeyTag, ..self }
                } else {
                    let claimed = match &self.env {
                        Some(env) => extract_contract_key(env),
                        None => vstd::pervasive::unreached(),
                    };
                    match claimed {
                        Err(error) => Call {
                            address,
                            failure: Some(error),
                            pending: Pending::Nothing,
                            ..self
                        },
                        Ok(key) => Call {
                            address,
                            contract_key: key,
                            pending: Pending::DeriveKeyTag,
                            ..self
                        },
                    }
                }
            },
        }
    }

    fn on_key_tag_derived(self, derived: Result<[u8; 32], EnclaveError>) -> (next: Call)
        requires
            self@.pending == Pending::DeriveKeyTag,
        ensures
            next@ == crate::model::on_key_tag_derived(
                self@,
                (match derived {
                    Ok(tag) => Ok(tag@),
                    Err(error) => Err(error),
                }),
            ),
    {
        proof {
            use_type_invariant(&self);
        }
        if self.operation == ContractOperation::Init {
            match derived {
                Err(error) => self.fail(error),
                Ok(tag) => {
                    let blank: [u8; 32] = [0u8; 32];
                    assert(blank@ =~= crate::model::zeros(32));
                    let key = assemble_contract_key(&tag, &blank);
                    Call { contract_key: key, pending: Pending::DeriveKeySeed, ..self }
                },
            }
        } else {
            match derived {
                Err(_) => self.fail(EnclaveError::FailedContractAuthentication),
                Ok(tag) => {
                    if validate_contract_key(&self.contract_key, &tag) {
                        Call { pending: Pending::ParseSigInfo, ..self }
                    } else {
                        self.fail(EnclaveError::FailedContractAuthentication)
                    }
                },
            }
        }
    }

    fn on_key_seed_derived(self, derived: Result<[u8; 32], EnclaveError>) -> (next: Call)
        requires
            self@.pending == Pending::DeriveKeySeed,
        ensures
            next@ == crate::model::on_key_seed_derived(
                self@,
                (match derived {
                    Ok(seed) => Ok(seed@),
                    Err(error) => Err(error),
                }),
            ),
    {
        proof {
            use_type_invariant(&self);
        }
        match derived {
            Err(error) => self.fail(error),
            Ok(seed) => {
                let tag = copy32(self.contract_key.as_slice(), 0);
                let key = assemble_contract_key(&tag, &seed);
                Call { contract_key: key, pending: Pending::ParseSigInfo, ..self }
            },
        }
    }

    fn on_sig_info_parsed(self, readable: bool) -> (next: Call)
        requires
            self@.pending == Pending::ParseSigInfo,
        ensures
            next@ == crate::model::on_sig_info_parsed(self@, readable),
    {
        proof {
            use_type_invariant(&self);
        }
        if !readable || self.message.is_none() {
            self.fail(EnclaveError::FailedToDeserialize)
        } else {
            Call { pending: Pending::VerifyParams, ..self }
        }
    }

    fn on_params_verified(self, verified: Result<(), EnclaveError>) -> (next: Call)
        requires
            self@.pending == Pending::VerifyParams,
        ensures
            next@ == crate::model::on_params_verified(self@, verified),
    {
        proof {
            use_type_invariant(&self);
        }
        match verified {
            Err(error) => self.fail(error),
            Ok(_) => Call { pending: Pending::Decrypt, ..self },
        }
    }

    fn on_decrypted(self, decrypted: Result<Vec<u8>, EnclaveError>) -> (next: Call)
        requires
            self@.pending == Pending::Decrypt,
        ensures
            next@ == crate::model::on_decrypted(
                self@,
                (match decrypted {
                    Ok(plaintext) => Ok(plaintext@),
                    Err(error) => Err(error),
                }),
            ),
    {
        proof {
            use_type_invariant(&self);
        }
        match decrypted {
            Err(error) => self.fail(error),
            Ok(plaintext) => match validate_msg(plaintext.as_slice(), &self.code_hash) {
                Err(error) => self.fail(error),
                Ok(payload) => Call { payload, pending: Pending::StartEngine, ..self },
            },
        }
    }

    fn on_engine_started(self, started: Result<CosmWasmApiVersion, EnclaveError>) -> (next: Call)
        requires
            self@.pending == Pending::StartEngine,
        ensures
            next@ == crate::model::on_engine_started(self@, started),
    {
        proof {
            use_type_invariant(&self);
        }
        match started {
            Err(error) => self.fail(error),
            Ok(version) => {
                if self.operation == ContractOperation::Query {
                    Call { engine_started: true, env: None, pending: Pending::WriteMessage, ..self }
                } else {
                    match self.env {
                        None => vstd::pervasive::unreached(),
                        Some(env) => match project_env(version, env) {
                            Err(error) => Call {
                                engine_started: true,
                                env: None,
                                failure: Some(error),
                                pending: Pending::ReadGas,
                                ..self
                            },
                            Ok(contract_env) => Call {
                                engine_started: true,
                                env: None,
                                contract_env: Some(contract_env),
                                pending: Pending::SerializeEnv,
                                ..self
                            },
                        },
                    }
                }
            },
        }
    }

    fn on_env_serialized(self, serialized: Option<Vec<u8>>) -> (next: Call)
        requires
            self@.pending == Pending::SerializeEnv,
        ensures
            next@ == crate::model::on_env_serialized(
                self@,
                (match serialized {
                    Some(bytes) => Some(bytes@),
                    None => None,
                }),
            ),
    {
        proof {
            use_type_invariant(&self);
        }
        match serialized {
            None => self.fail(EnclaveError::FailedToSerialize),
            Some(bytes) => Call { env_bytes: bytes, pending: Pending::WriteEnv, ..self },
        }
    }

    fn on_written(self, written: Result<u32, EnclaveError>) -> (next: Call)
        requires
            self@.pending == Pending::WriteEnv || self@.pending == Pending::WriteMessage,
        ensures
            next@ == crate::model::on_written(self@, written),
    {
        proof {
            use_type_invariant(&self);
        }
        match written {
            Err(error) => self.fail(error),
            Ok(ptr) => {
                if self.pending == Pending::WriteEnv {
                    Call { env_ptr: Some(ptr), pending: Pending::WriteMessage, ..self }
                } else {
                    Call { msg_ptr: ptr, pending: Pending::Invoke, ..self }
                }
            },
        }
    }

    fn on_invoked(self, invoked: Result<u32, EnclaveError>) -> (next: Call)
        requires
            self@.pending == Pending::Invoke,
        ensures
            next@ == crate::model::on_invoked(self@, invoked),
    {
        proof {
            use_type_invariant(&self);
        }
        match invoked {
            Err(error) => self.fail(error),
            Ok(ptr) => Call { vec_ptr: ptr, pending: Pending::ExtractOutput, ..self },
        }
    }

    fn on_extracted(self, extracted: Result<Vec<u8>, EnclaveError>) -> (next: Call)
        requires
            self@.pending == Pending::ExtractOutput,
        ensures
            next@ == crate::model::on_extracted(
                self@,
                (match extracted {
                    Ok(bytes) => Ok(bytes@),
                    Err(error) => Err(error),
                }),
            ),
    {
        proof {
            use_type_invariant(&self);
        }
        match extracted {
            Err(error) => self.fail(error),
            Ok(bytes) => Call { output: bytes, pending: Pending::EncryptOutput, ..self },
        }
    }

    fn on_encrypted(self, encrypted: Result<Vec<u8>, EnclaveError>) -> (next: Call)
        requires
            self@.pending == Pending::EncryptOutput,
        ensures
            next@ == crate::model::on_encrypted(
                self@,
                (match encrypted {
                    Ok(bytes) => Ok(bytes@),
                    Err(error) => Err(error),
                }),
            ),
    {
        proof {
            use_type_invariant(&self);
        }
        match encrypted {
            Err(error) => self.fail(error),
            Ok(bytes) => Call { output: bytes, pending: Pending::ReadGas, ..self },
        }
    }

    fn on_gas_read(self, gas: u64) -> (next: Call)
        requires
            self@.pending == Pending::ReadGas,
        ensures
            next@ == crate::model::on_gas_read(self@, gas),
    {
        proof {
            use_type_invariant(&self);
        }
        Call { gas_used: Some(gas), pending: Pending::Nothing, ..self }
    }

    /// Takes the result of the work that was asked for and moves on.
    ///
    /// A result that does not answer what the call is waiting on is
    /// ignored: the call stays as it is and asks for the same work again.
    /// The new state is that of the model; the second clause spells it out.
    pub fn step(self, event: Event) -> (next: Call)
        ensures
            next@ == advance(self@, event@),
            next@ == (if answers(self@.pending, event@) {
                answered(self@, event@)
            } else {
                self@
            }),
            self@.wf(),
            next@.wf(),
    {
        proof {
            use_type_invariant(&self);
            reveal(advance);
        }
        let next = match (self.pending, event) {
            (Pending::ParseEnv, Event::EnvParsed(parsed)) => self.on_env_parsed(parsed),
            (Pending::ResolveAddress, Event::AddressResolved(resolved)) => self.on_address_resolved(
                resolved,
            ),
            (Pending::DeriveKeyTag, Event::KeyTagDerived(derived)) => self.on_key_tag_derived(
                derived,
            ),
            (Pending::DeriveKeySeed, Event::KeySeedDerived(derived)) => self.on_key_seed_derived(
                derived,
            ),
            (Pending::ParseSigInfo, Event::SigInfoParsed(readable)) => self.on_sig_info_parsed(
                readable,
            ),
            (Pending::VerifyParams, Event::ParamsVerified(verified)) => self.on_params_verified(
                verified,
            ),
            (Pending::Decrypt, Event::Decrypted(decrypted)) => self.on_decrypted(decrypted),
            (Pending::StartEngine, Event::EngineStarted(started)) => self.on_engine_started(
                started,
            ),
            (Pending::SerializeEnv, Event::EnvSerialized(serialized)) => self.on_env_serialized(
                serialized,
            ),
            (Pending::WriteEnv, Event::Written(written)) => self.on_written(written),
            (Pending::WriteMessage, Event::Written(written)) => self.on_written(written),
            (Pending::Invoke, Event::Invoked(invoked)) => self.on_invoked(invoked),
            (Pending::ExtractOutput, Event::Extracted(extracted)) => self.on_extracted(extracted),
            (Pending::EncryptOutput, Event::Encrypted(encrypted)) => self.on_encrypted(encrypted),
            (Pending::ReadGas, Event::GasRead(gas)) => self.on_gas_read(gas),
            _ => self,
        };
        proof {
            use_type_invariant(&next);
        }
        next
    }

    /// Collects the outcome of a finished call and settles the gas account.
    ///
    /// On a call that is over, returns what the host is to receive, and
    /// writes to `used_gas` what the engine reported if an engine was ever
    /// constructed; if none was, `used_gas` keeps its value. A call that is
    /// not over is handed back untouched, and so is `used_gas`.
    pub fn finish(self, used_gas: &mut u64) -> (result: Result<Result<Success, EnclaveError>, Call>)
        ensures
            self@.wf(),
            (match result {
                Ok(outcome) => finished(self@) && outcome_view(outcome) == outcome_of(self@)
                    && *final(used_gas) == gas_written(self@, *old(used_gas)),
                Err(call) => !finished(self@) && call@ == self@ && *final(used_gas) == *old(
                    used_gas,
                ),
            }),
    {
        proof {
            use_type_invariant(&self);
        }
        if self.pending != Pending::Nothing {
            return Err(self);
        }
        match self.gas_used {
            Some(gas) => {
                *used_gas = gas;
            },
            None => {},
        }
        match self.failure {
            Some(error) => Ok(Err(error)),
            None => Ok(
                Ok(
                    match self.operation {
                        ContractOperation::Init => Success::Init(
                            InitSuccess { output: self.output, contract_key: self.contract_key },
                        ),
                        ContractOperation::Handle => Success::Handle(
                            HandleSuccess { output: self.output },
                        ),
                        ContractOperation::Query => Success::Query(
                            QuerySuccess { output: self.output },
                        ),
                    },
                ),
            ),
        }
    }
}

/// A call that starts by asking for the env.
fn start(operation: ContractOperation, gas_limit: u64, code_hash: [u8; 32], msg: &[u8]) -> (call:
    Call)
    requires
        operation != ContractOperation::Query,
    ensures
        call@ == begin(operation, gas_limit, code_hash@, msg@),
        call@.wf(),
{
    let message = match SecretMessage::from_slice(msg) {
        Ok(message) => Some(message),
        Err(_) => None,
    };
    let blank: [u8; 64] = [0u8; 64];
    assert(blank@ =~= crate::model::zeros(64));
    Call {
        operation,
        gas_limit,
        code_hash,
        pending: Pending::ParseEnv,
        failure: None,
        engine_started: false,
        gas_used: None,
        env: None,
        address: Vec::new(),
        contract_key: blank,
        message,
        payload: Vec::new(),
        contract_env: None,
        env_bytes: Vec::new(),
        env_ptr: None,
        msg_ptr: 0,
        vec_ptr: 0,
        output: Vec::new(),
    }
}

/// Begins the instantiation of a contract.
///
/// `code_hash` is the digest of the contract's code and `msg` the secret
/// message as the user sent it. The call first asks for the host's env.
pub fn init(gas_limit: u64, code_hash: [u8; 32], msg: &[u8]) -> (call: Call)
    ensures
        call@ == begin(ContractOperation::Init, gas_limit, code_hash@, msg@),
        call@.wf(),
{
    start(ContractOperation::Init, gas_limit, code_hash, msg)
}

/// Begins the execution of a message on an instantiated contract.
///
/// `code_hash` is the digest of the contract's code and `msg` the secret
/// message as the user sent it. The call first asks for the host's env.
pub fn handle(gas_limit: u64, code_hash: [u8; 32], msg: &[u8]) -> (call: Call)
    ensures
        call@ == begin(ContractOperation::Handle, gas_limit, code_hash@, msg@),
        call@.wf(),
{
    start(ContractOperation::Handle, gas_limit, code_hash, msg)
}

/// Begins a query of an instantiated contract.
///
/// `msg` opens with the raw contract key, which is taken as it is and never
/// authenticated; the secret message follows. An input shorter than a
/// contract key ends the call at once with `FailedFunctionCall`, one whose
/// rest is too short for a secret message with `FailedToDeserialize`.
/// Otherwise the call first asks for the message to be decrypted.
pub fn query(gas_limit: u64, code_hash: [u8; 32], msg: &[u8]) -> (call: Call)
    ensures
        call@ == begin_query(gas_limit, code_hash@, msg@),
        call@.wf(),
{
    let blank: [u8; 64] = [0u8; 64];
    assert(blank@ =~= crate::model::zeros(64));
    let (contract_key, failure, message) = match split_query_input(msg) {
        Err(error) => (blank, Some(error), None),
        Ok((key, rest)) => match SecretMessage::from_slice(rest) {
            Err(error) => (key, Some(error), None),
            Ok(message) => (key, None, Some(message)),
        },
    };
    let pending = if failure.is_none() {
        Pending::Decrypt
    } else {
        Pending::Nothing
    };
    Call {
        operation: ContractOperation::Query,
        gas_limit,
        code_hash,
        pending,
        failure,
        engine_started: false,
        gas_used: None,
        env: None,
        address: Vec::new(),
        contract_key,
        message,
        payload: Vec::new(),
        contract_env: None,
        env_bytes: Vec::new(),
        env_ptr: None,
        msg_ptr: 0,
        vec_ptr: 0,
        output: Vec::new(),
    }
}

} // verus!
