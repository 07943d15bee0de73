//! The blockchain view that is handed to a contract, in both schemas.
//!
//! The host supplies the older schema. Before a contract sees it, the core
//! stamps the code hash into it, and then either clears the contract key
//! (older contracts) or projects it into the newer schema.

use vstd::prelude::*;
use crate::error::EnclaveError;
use crate::hexcode::hex_encode;
use crate::hexcode::hex_string;

verus! {

/// Nanoseconds in one second.
pub const NANOS_PER_SECOND: u64 = 1_000_000_000;

/// The contract ABI generation that a compiled module speaks.
#[derive(Clone, Copy, Debug, PartialEq, Eq, Structural)]
pub enum CosmWasmApiVersion {
    V010,
    V016,
}

/// An amount of one denomination.
#[derive(Debug, PartialEq, Eq)]
pub struct Coin {
    pub denom: String,
    pub amount: u128,
}

/// A [`Coin`] with its text as a sequence of characters.
pub struct CoinView {
    pub denom: Seq<char>,
    pub amount: u128,
}

impl View for Coin {
    type V = CoinView;

    open spec fn view(&self) -> CoinView {
        CoinView { denom: self.denom@, amount: self.amount }
    }
}

/// The block a call executes in; `time` is in seconds since the epoch.
#[derive(Debug, PartialEq, Eq)]
pub struct BlockInfo {
    pub height: u64,
    pub time: u64,
    pub chain_id: String,
}

/// A [`BlockInfo`] with its text as a sequence of characters.
pub struct BlockInfoView {
    pub height: u64,
    pub time: u64,
    pub chain_id: Seq<char>,
}

impl View for BlockInfo {
    type V = BlockInfoView;

    open spec fn view(&self) -> BlockInfoView {
        BlockInfoView { height: self.height, time: self.time, chain_id: self.chain_id@ }
    }
}

/// Who sent the transaction, and the funds that came with it.
#[derive(Debug, PartialEq, Eq)]
pub struct MessageInfo {
    /// Human (bech32) address of the sender.
    pub sender: String,
    pub sent_funds: Vec<Coin>,
}

/// A [`MessageInfo`] over sequences.
pub struct MessageInfoView {
    pub sender: Seq<char>,
    pub sent_funds: Seq<CoinView>,
}

impl View for MessageInfo {
    type V = MessageInfoView;

    open spec fn view(&self) -> MessageInfoView {
        MessageInfoView {
            sender: self.sender@,
            sent_funds: self.sent_funds@.map_values(|coin: Coin| coin@),
        }
    }
}

/// The contract that is called.
#[derive(Debug, PartialEq, Eq)]
pub struct ContractInfo {
    /// Human (bech32) address of the contract.
    pub address: String,
}

/// A [`ContractInfo`] with its text as a sequence of characters.
pub struct ContractInfoView {
    pub address: Seq<char>,
}

impl View for ContractInfo {
    type V = ContractInfoView;

    open spec fn view(&self) -> ContractInfoView {
        ContractInfoView { address: self.address@ }
    }
}

/// The env in the older schema, as the host supplies it.
#[derive(Debug, PartialEq, Eq)]
pub struct EnvV010 {
    pub block: BlockInfo,
    pub message: MessageInfo,
    pub contract: ContractInfo,
    /// The key the host claims is bound to the contract; absent on `init`.
    pub contract_key: Option<Vec<u8>>,
    /// Hexadecimal text of the code hash. Whatever the host put here is
    /// overwritten before anything reads it.
    pub contract_code_hash: String,
}

/// An [`EnvV010`] over sequences.
pub struct EnvV010View {
    pub block: BlockInfoView,
    pub message: MessageInfoView,
    pub contract: ContractInfoView,
    pub contract_key: Option<Seq<u8>>,
    pub contract_code_hash: Seq<char>,
}

impl View for EnvV010 {
    type V = EnvV010View;

    open spec fn view(&self) -> EnvV010View {
        EnvV010View {
            block: self.block@,
            message: self.message@,
            contract: self.contract@,
            contract_key: match self.contract_key {
                Some(key) => Some(key@),
                None => None,
            },
            contract_code_hash: self.contract_code_hash@,
        }
    }
}

/// A point in time, in nanoseconds since the epoch.
#[derive(Clone, Copy, Debug, PartialEq, Eq, Structural)]
pub struct Timestamp {
    pub nanos: u64,
}

impl Timestamp {
    /// The timestamp of a whole number of seconds: that number times 10^9.
    ///
    /// `None` exactly when the product does not fit in 64 bits.
    pub fn from_seconds(seconds: u64) -> (result: Option<Timestamp>)
        ensures
            (match result {
                Some(t) => t.nanos == seconds * 1_000_000_000,
                None => seconds * 1_000_000_000 > u64::MAX,
            }),
    {
        match seconds.checked_mul(NANOS_PER_SECOND) {
            Some(nanos) => Some(Timestamp { nanos }),
            None => None,
        }
    }
}

/// The block of the newer schema; `time` is in nanoseconds.
#[derive(Debug, PartialEq, Eq)]
pub struct BlockInfoV016 {
    pub height: u64,
    pub time: Timestamp,
    pub chain_id: String,
}

/// A [`BlockInfoV016`] with its text as a sequence of characters.
pub struct BlockInfoV016View {
    pub height: u64,
    pub time: Timestamp,
    pub chain_id: Seq<char>,
}

impl View for BlockInfoV016 {
    type V = BlockInfoV016View;

    open spec fn view(&self) -> BlockInfoV016View {
        BlockInfoV016View { height: self.height, time: self.time, chain_id: self.chain_id@ }
    }
}

/// The contract of the newer schema, which carries the code hash.
#[derive(Debug, PartialEq, Eq)]
pub struct ContractInfoV016 {
    pub address: String,
    pub code_hash: String,
}

/// A [`ContractInfoV016`] with its text as sequences of characters.
pub struct ContractInfoV016View {
    pub address: Seq<char>,
    pub code_hash: Seq<char>,
}

impl View for ContractInfoV016 {
    type V = ContractInfoV016View;

    open spec fn view(&self) -> ContractInfoV016View {
        ContractInfoV016View { address: self.address@, code_hash: self.code_hash@ }
    }
}

/// The env in the newer schema.
#[derive(Debug, PartialEq, Eq)]
pub struct EnvV016 {
    pub block: BlockInfoV016,
    pub contract: ContractInfoV016,
}

/// An [`EnvV016`] over sequences.
pub struct EnvV016View {
    pub block: BlockInfoV016View,
    pub contract: ContractInfoV016View,
}

impl View for EnvV016 {
    type V = EnvV016View;

    open spec fn view(&self) -> EnvV016View {
        EnvV016View { block: self.block@, contract: self.contract@ }
    }
}

/// The env as a contract receives it, in the schema its module speaks.
#[derive(Debug, PartialEq, Eq)]
pub enum ContractEnv {
    V010(EnvV010),
    V016(EnvV016),
}

/// A [`ContractEnv`] over sequences.
pub enum ContractEnvView {
    V010(EnvV010View),
    V016(EnvV016View),
}

impl View for ContractEnv {
    type V = ContractEnvView;

    open spec fn view(&self) -> ContractEnvView {
        match self {
            ContractEnv::V010(env) => ContractEnvView::V010(env@),
            ContractEnv::V016(env) => ContractEnvView::V016(env@),
        }
    }
}

/// The env with the hexadecimal text of `code_hash` in place of whatever
/// code hash it held.
pub open spec fn stamped(env: EnvV010View, code_hash: Seq<u8>) -> EnvV010View {
    EnvV010View { contract_code_hash: hex_string(code_hash), ..env }
}

/// The env without a contract key.
pub open spec fn without_contract_key(env: EnvV010View) -> EnvV010View {
    EnvV010View { contract_key: None, ..env }
}

/// Whether the block time of `env`, in nanoseconds, fits in 64 bits.
pub open spec fn time_fits(env: EnvV010View) -> bool {
    env.block.time * 1_000_000_000 <= u64::MAX
}

/// The newer-schema reading of an older-schema env: height, chain id and
/// contract address carried over, seconds turned into nanoseconds, the code
/// hash moved next to the address; sender, funds and contract key dropped.
pub open spec fn projected_v016(env: EnvV010View) -> EnvV016View {
    EnvV016View {
        block: BlockInfoV016View {
            height: env.block.height,
            time: Timestamp { nanos: (env.block.time * 1_000_000_000) as u64 },
            chain_id: env.block.chain_id,
        },
        contract: ContractInfoV016View {
            address: env.contract.address,
            code_hash: env.contract_code_hash,
        },
    }
}

/// What a contract with the given ABI generation receives for `env`, or
/// nothing when the newer schema cannot hold the block time.
pub open spec fn env_for_contract(version: CosmWasmApiVersion, env: EnvV010View) -> Option<
    ContractEnvView,
> {
    match version {
        CosmWasmApiVersion::V010 => Some(ContractEnvView::V010(without_contract_key(env))),
        CosmWasmApiVersion::V016 => if time_fits(env) {
            Some(ContractEnvView::V016(projected_v016(env)))
        } else {
            None
        },
    }
}

/// Overwrites the code hash of `env` with the hexadecimal text of
/// `code_hash`, whatever the host had supplied there.
pub fn stamp_code_hash(env: EnvV010, code_hash: &[u8; 32]) -> (result: EnvV010)
    ensures
        result@ == stamped(env@, code_hash@),
{
    let mut env = env;
    env.contract_code_hash = hex_encode(code_hash.as_slice());
    env
}

/// The env for a contract of the older generation: the contract key is
/// cleared and nothing else changes.
pub fn clear_contract_key(env: EnvV010) -> (result: EnvV010)
    ensures
        result@ == without_contract_key(env@),
{
    let mut env = env;
    env.contract_key = None;
    env
}

/// The env for a contract of the newer generation.
///
/// Fails with `FailedToSerialize` exactly when the block time in
/// nanoseconds does not fit in 64 bits.
pub fn project_v016(env: EnvV010) -> (result: Result<EnvV016, EnclaveError>)
    ensures
        (match result {
            Ok(projected) => time_fits(env@) && projected@ == projected_v016(env@),
            Err(e) => e == EnclaveError::FailedToSerialize && !time_fits(env@),
        }),
{
    match Timestamp::from_seconds(env.block.time) {
        Some(time) => Ok(
            EnvV016 {
                block: BlockInfoV016 {
                    height: env.block.height,
                    time,
                    chain_id: env.block.chain_id,
                },
                contract: ContractInfoV016 {
                    address: env.contract.address,
                    code_hash: env.contract_code_hash,
                },
            },
        ),
        None => Err(EnclaveError::FailedToSerialize),
    }
}

/// Prepares `env` for a contract whose module speaks `version`.
///
/// For the older generation the contract key is cleared and nothing else
/// changes. For the newer one the env is projected into the newer schema;
/// this fails with `FailedToSerialize` exactly when the block time in
/// nanoseconds does not fit in 64 bits.
pub fn project_env(version: CosmWasmApiVersion, env: EnvV010) -> (result: Result<
    ContractEnv,
    EnclaveError,
>)
    ensures
        (match result {
            Ok(contract_env) => env_for_contract(version, env@) == Some(contract_env@),
            Err(e) => e == EnclaveError::FailedToSerialize && env_for_contract(version, env@)
                is None,
        }),
{
    match version {
        CosmWasmApiVersion::V010 => Ok(ContractEnv::V010(clear_contract_key(env))),
        CosmWasmApiVersion::V016 => match project_v016(env) {
            Ok(projected) => Ok(ContractEnv::V016(projected)),
            Err(e) => Err(e),
        },
    }
}

/// The code hash that a contract reads in its env.
pub open spec fn code_hash_seen(env: ContractEnvView) -> Seq<char> {
    match env {
        ContractEnvView::V010(e) => e.contract_code_hash,
        ContractEnvView::V016(e) => e.contract.code_hash,
    }
}

/// Whether the env that a contract reads holds no contract key.
pub open spec fn key_hidden(env: ContractEnvView) -> bool {
    match env {
        ContractEnvView::V010(e) => e.contract_key is None,
        ContractEnvView::V016(_) => true,
    }
}

/// Projecting into the newer schema keeps the block height, the chain id
/// and the contract address, and turns the block time from seconds into
/// nanoseconds by multiplying by 10^9.
pub proof fn lemma_projection_preserves(env: EnvV010View)
    requires
        time_fits(env),
    ensures
        env_for_contract(CosmWasmApiVersion::V016, env) == Some(
            ContractEnvView::V016(projected_v016(env)),
        ),
        projected_v016(env).block.height == env.block.height,
        projected_v016(env).block.chain_id == env.block.chain_id,
        projected_v016(env).contract.address == env.contract.address,
        projected_v016(env).block.time.nanos == env.block.time * 1_000_000_000,
{
}

/// Whatever code hash the host supplied, a stamped env that is prepared for
/// a contract shows the hexadecimal text of the true code hash and no
/// contract key, in either schema.
pub proof fn lemma_stamped_env_seen(
    version: CosmWasmApiVersion,
    env: EnvV010View,
    code_hash: Seq<u8>,
)
    requires
        env_for_contract(version, stamped(env, code_hash)) is Some,
    ensures
        code_hash_seen(env_for_contract(version, stamped(env, code_hash)).unwrap()) == hex_string(
            code_hash,
        ),
        key_hidden(env_for_contract(version, stamped(env, code_hash)).unwrap()),
{
}

} // verus!
