//! What holds of every call, proved over the model.
//!
//! Every [`crate::dispatch::Call`] is, at every moment, a well-formed
//! [`CallState`], and each of its steps is [`advance`]. So what is proved
//! here of well-formed states and of `advance` holds of every call that the
//! library hands out.

use vstd::prelude::*;
use crate::env::CosmWasmApiVersion;
use crate::env::EnvV010View;
use crate::env::code_hash_seen;
use crate::env::env_for_contract;
use crate::env::key_hidden;
use crate::env::stamped;
use crate::error::EnclaveError;
use crate::hexcode::hex_string;
use crate::keys::claimed_key;
use crate::keys::is_authentic;
use crate::keys::lemma_assembled_key;
use crate::message::parse_query_input;
use crate::message::parse_secret_message;
use crate::model::ActionView;
use crate::model::CallState;
use crate::model::ContractOperation;
use crate::model::EventView;
use crate::model::Pending;
use crate::model::Stage;
use crate::model::SuccessView;
use crate::model::action_of;
use crate::model::advance;
use crate::model::answered;
use crate::model::answers;
use crate::model::begin;
use crate::model::begin_query;
use crate::model::finished;
use crate::model::gas_written;
use crate::model::outcome_of;
use crate::model::stage_of;
use crate::validation::validated_payload;

verus! {

/// How far a stage lies along the path of a call.
pub open spec fn stage_rank(stage: Stage) -> nat {
    match stage {
        Stage::Parse => 0,
        Stage::KeyResolve => 1,
        Stage::Authenticate => 2,
        Stage::Decrypt => 3,
        Stage::Validate => 4,
        Stage::EngineReady => 5,
        Stage::Executing => 6,
        Stage::Encrypting => 7,
        Stage::Done => 8,
        Stage::Failed(_) => 9,
    }
}

/// A result that answers what the call is waiting on takes the call to the
/// state that [`answered`] gives.
pub proof fn lemma_advance_answered(s: CallState, event: EventView)
    requires
        answers(s.pending, event),
    ensures
        advance(s, event) == answered(s, event),
{
    reveal(advance);
}

/// A result that does not answer what the call is waiting on changes
/// nothing: the call asks for the same work again.
pub proof fn lemma_advance_unanswered(s: CallState, event: EventView)
    requires
        !answers(s.pending, event),
    ensures
        advance(s, event) == s,
        action_of(advance(s, event)) == action_of(s),
{
    reveal(advance);
}

/// An `init` or `handle` call starts in a well-formed state, waiting for
/// the env, with no engine and no error.
pub proof fn lemma_begin_wf(
    operation: ContractOperation,
    gas_limit: u64,
    code_hash: Seq<u8>,
    msg: Seq<u8>,
)
    requires
        operation != ContractOperation::Query,
        code_hash.len() == 32,
    ensures
        begin(operation, gas_limit, code_hash, msg).wf(),
        action_of(begin(operation, gas_limit, code_hash, msg)) == ActionView::ParseEnv,
        stage_of(begin(operation, gas_limit, code_hash, msg)) == Stage::Parse,
        !begin(operation, gas_limit, code_hash, msg).engine_started,
        begin(operation, gas_limit, code_hash, msg).failure is None,
{
}

/// A `query` call starts in a well-formed state. An input shorter than a
/// contract key has already failed with `FailedFunctionCall`, and no engine
/// will ever be constructed for it.
pub proof fn lemma_begin_query_wf(gas_limit: u64, code_hash: Seq<u8>, msg: Seq<u8>)
    requires
        code_hash.len() == 32,
    ensures
        begin_query(gas_limit, code_hash, msg).wf(),
        msg.len() < 64 ==> finished(begin_query(gas_limit, code_hash, msg)) && outcome_of(
            begin_query(gas_limit, code_hash, msg),
        ) == Err::<SuccessView, EnclaveError>(EnclaveError::FailedFunctionCall)
            && !begin_query(gas_limit, code_hash, msg).engine_started,
{
}

/// In every state, the values that the work asked for is to be done with
/// are at hand: an env is held whenever one is handed out, and so are the
/// secret message and the env for the contract.
pub proof fn lemma_action_is_defined(s: CallState)
    requires
        s.wf(),
    ensures
        action_of(s) is ResolveAddress || action_of(s) is DeriveKeySeed || action_of(s)
            is VerifyParams ==> s.env is Some,
        action_of(s) is VerifyParams || action_of(s) is Decrypt || action_of(s) is StartEngine
            || action_of(s) is EncryptOutput ==> s.message is Some,
        action_of(s) is SerializeEnv ==> s.contract_env is Some,
        action_of(s) is Finish <==> finished(s),
{
}

/// Every step takes a well-formed state to a well-formed state, and leaves
/// the operation, the gas limit and the code hash as they were.
pub proof fn lemma_advance_wf(s: CallState, event: EventView)
    requires
        s.wf(),
        event.wf(),
    ensures
        advance(s, event).wf(),
        advance(s, event).operation == s.operation,
        advance(s, event).gas_limit == s.gas_limit,
        advance(s, event).code_hash == s.code_hash,
{
    reveal(advance);
}

/// The first error is the last: once a call has failed, no result changes
/// the error, and all that can still happen is that the gas is read.
pub proof fn lemma_failure_is_final(s: CallState, event: EventView)
    requires
        s.wf(),
        s.failure is Some,
    ensures
        advance(s, event).failure == s.failure,
        stage_of(advance(s, event)) == stage_of(s),
        advance(s, event) == s || (s.pending == Pending::ReadGas && event is GasRead),
{
    reveal(advance);
}

/// A finished call is not moved by any result.
pub proof fn lemma_finished_is_absorbing(s: CallState, event: EventView)
    requires
        finished(s),
    ensures
        advance(s, event) == s,
{
    reveal(advance);
}

/// A call never goes back to an earlier stage.
pub proof fn lemma_stage_never_recedes(s: CallState, event: EventView)
    requires
        s.wf(),
    ensures
        stage_rank(stage_of(advance(s, event))) >= stage_rank(stage_of(s)),
{
    reveal(advance);
}

/// Whatever code hash the host put into its env, the env that the call
/// holds from then on carries the hexadecimal text of the true code hash.
pub proof fn lemma_env_is_stamped(s: CallState, env: EnvV010View)
    requires
        s.wf(),
        s.pending == Pending::ParseEnv,
    ensures
        advance(s, EventView::EnvParsed(Some(env))).env is Some,
        advance(s, EventView::EnvParsed(Some(env))).env.unwrap().contract_code_hash == hex_string(
            s.code_hash,
        ),
{
    reveal(advance);
}

/// In every state, an env that is handed out, to the signature check, to
/// the key derivation or to the contract, carries the hexadecimal text of
/// the true code hash; and the env that is encoded for the contract holds
/// no contract key.
pub proof fn lemma_env_handed_out(s: CallState)
    requires
        s.wf(),
    ensures
        (action_of(s) matches ActionView::VerifyParams { env, .. } ==> env.contract_code_hash
            == hex_string(s.code_hash)),
        (action_of(s) matches ActionView::DeriveKeySeed { env, .. } ==> env.contract_code_hash
            == hex_string(s.code_hash)),
        (action_of(s) matches ActionView::SerializeEnv { contract_env } ==> code_hash_seen(
            contract_env,
        ) == hex_string(s.code_hash) && key_hidden(contract_env)),
{
}

/// A query never asks for the env, the signature info, the signature check
/// or the key derivations by which a contract key is minted or
/// authenticated, in any state; and it never hands an env to the contract.
pub proof fn lemma_query_independence(s: CallState)
    requires
        s.wf(),
        s.operation == ContractOperation::Query,
    ensures
        !(action_of(s) is ParseEnv),
        !(action_of(s) is ResolveAddress),
        !(action_of(s) is DeriveKeyTag),
        !(action_of(s) is DeriveKeySeed),
        !(action_of(s) is ParseSigInfo),
        !(action_of(s) is VerifyParams),
        !(action_of(s) is SerializeEnv),
        (action_of(s) matches ActionView::Invoke { env_ptr, .. } ==> env_ptr is None),
        (action_of(s) matches ActionView::EncryptOutput { contract_address, .. }
            ==> contract_address.len() == 0),
{
}

/// An `init` or `handle` call invokes the entry point with a pointer to the
/// env that was written into wasm memory.
pub proof fn lemma_entry_point_receives_env(s: CallState)
    requires
        s.wf(),
        s.operation != ContractOperation::Query,
    ensures
        (action_of(s) matches ActionView::Invoke { env_ptr, .. } ==> env_ptr is Some),
{
}

/// The key that `init` mints is the derived tag followed by the derived
/// seed, whatever else the call holds. It authenticates against the tag it
/// was minted with, and against no other.
pub proof fn lemma_init_mints_key(s: CallState, tag: Seq<u8>, seed: Seq<u8>, recomputed: Seq<u8>)
    requires
        s.wf(),
        s.operation == ContractOperation::Init,
        s.pending == Pending::DeriveKeyTag,
        tag.len() == 32,
        seed.len() == 32,
    ensures
        ({
            let minted = advance(
                advance(s, EventView::KeyTagDerived(Ok(tag))),
                EventView::KeySeedDerived(Ok(seed)),
            );
            &&& minted.contract_key == tag + seed
            &&& minted.failure is None
            &&& minted.pending == Pending::ParseSigInfo
            &&& is_authentic(minted.contract_key, tag)
            &&& (is_authentic(minted.contract_key, recomputed) <==> recomputed == tag)
        }),
{
    reveal(advance);
    lemma_assembled_key(tag, seed, recomputed);
    let tagged = advance(s, EventView::KeyTagDerived(Ok(tag)));
    assert(crate::keys::key_tag(tagged.contract_key) =~= tag);
}

/// Two `init` calls for which the enclave derives the same tag and the same
/// seed mint the same key, byte for byte.
pub proof fn lemma_init_key_is_determined(
    first: CallState,
    second: CallState,
    tag: Seq<u8>,
    seed: Seq<u8>,
)
    requires
        first.wf(),
        second.wf(),
        first.operation == ContractOperation::Init,
        second.operation == ContractOperation::Init,
        first.pending == Pending::DeriveKeyTag,
        second.pending == Pending::DeriveKeyTag,
        tag.len() == 32,
        seed.len() == 32,
    ensures
        advance(
            advance(first, EventView::KeyTagDerived(Ok(tag))),
            EventView::KeySeedDerived(Ok(seed)),
        ).contract_key == advance(
            advance(second, EventView::KeyTagDerived(Ok(tag))),
            EventView::KeySeedDerived(Ok(seed)),
        ).contract_key,
{
    lemma_init_mints_key(first, tag, seed, tag);
    lemma_init_mints_key(second, tag, seed, tag);
}

/// On `handle`, the key that the host presents passes if and only if its
/// tag is the one recomputed for the contract; otherwise the call ends with
/// `FailedContractAuthentication`, without an engine.
pub proof fn lemma_handle_authenticates_key(s: CallState, recomputed: Seq<u8>)
    requires
        s.wf(),
        s.operation == ContractOperation::Handle,
        s.pending == Pending::DeriveKeyTag,
        recomputed.len() == 32,
    ensures
        ({
            let next = advance(s, EventView::KeyTagDerived(Ok(recomputed)));
            if is_authentic(s.contract_key, recomputed) {
                next.failure is None && next.pending == Pending::ParseSigInfo
            } else {
                next.failure == Some(EnclaveError::FailedContractAuthentication) && finished(next)
                    && !next.engine_started
            }
        }),
{
    reveal(advance);
}

/// The gas account of a finished call: the host's counter is written if and
/// only if an engine was constructed, and then with exactly what the engine
/// reported. A call that ended without an engine leaves it as it was.
pub proof fn lemma_gas_account(s: CallState, before: u64)
    requires
        s.wf(),
        finished(s),
    ensures
        s.engine_started <==> s.gas_used is Some,
        s.engine_started ==> gas_written(s, before) == s.gas_used.unwrap(),
        !s.engine_started ==> gas_written(s, before) == before,
        !s.engine_started ==> s.failure is Some,
{
}

/// Once an engine exists, no call ends before the engine's gas was read:
/// every error leads to the reading of the gas, and only that reading ends
/// the call.
pub proof fn lemma_gas_is_read_on_every_exit(s: CallState, event: EventView)
    requires
        s.wf(),
        s.engine_started,
        !finished(s),
    ensures
        finished(advance(s, event)) ==> s.pending == Pending::ReadGas && event is GasRead,
        advance(s, event).failure is Some && !finished(advance(s, event)) ==> advance(
            s,
            event,
        ).pending == Pending::ReadGas,
{
    reveal(advance);
}

/// What is written to the host's gas counter is what the engine reported:
/// if the engine keeps within the limit, so does the counter, and if the
/// engine reports the whole limit, as it does when it runs out of gas, the
/// counter holds the whole limit.
pub proof fn lemma_gas_within_limit(s: CallState, reported: u64, before: u64)
    requires
        s.wf(),
        s.pending == Pending::ReadGas,
    ensures
        finished(advance(s, EventView::GasRead(reported))),
        gas_written(advance(s, EventView::GasRead(reported)), before) == reported,
        reported <= s.gas_limit ==> gas_written(
            advance(s, EventView::GasRead(reported)),
            before,
        ) <= s.gas_limit,
        reported == s.gas_limit ==> gas_written(
            advance(s, EventView::GasRead(reported)),
            before,
        ) == s.gas_limit,
{
    reveal(advance);
}

/// How many results a call in which nothing goes wrong still has to take
/// before it is over, at most.
pub open spec fn steps_left(pending: Pending) -> nat {
    match pending {
        Pending::ParseEnv => 15,
        Pending::ResolveAddress => 14,
        Pending::DeriveKeyTag => 13,
        Pending::DeriveKeySeed => 12,
        Pending::ParseSigInfo => 11,
        Pending::VerifyParams => 10,
        Pending::Decrypt => 9,
        Pending::StartEngine => 8,
        Pending::SerializeEnv => 7,
        Pending::WriteEnv => 6,
        Pending::WriteMessage => 5,
        Pending::Invoke => 4,
        Pending::ExtractOutput => 3,
        Pending::EncryptOutput => 2,
        Pending::ReadGas => 1,
        Pending::Nothing => 0,
    }
}

/// Every result that answers what the call is waiting on brings the call
/// nearer to its end: whoever keeps answering is done after at most fifteen
/// results.
pub proof fn lemma_answer_makes_progress(s: CallState, event: EventView)
    requires
        s.wf(),
        answers(s.pending, event),
    ensures
        steps_left(advance(s, event).pending) < steps_left(s.pending),
{
    reveal(advance);
}

/// The signature is the only way to the plaintext: a call other than a
/// query comes to ask for decryption only by a signature check that passed.
pub proof fn lemma_decryption_follows_verification(s: CallState, event: EventView)
    requires
        s.wf(),
        s.operation != ContractOperation::Query,
        s.pending != Pending::Decrypt,
        advance(s, event).pending == Pending::Decrypt,
    ensures
        s.pending == Pending::VerifyParams,
        event matches EventView::ParamsVerified(Ok(_)),
{
    reveal(advance);
}

/// On `handle`, an authentic key is the only way past the key: the call
/// comes to ask for the signature info only after the key that the host
/// claims, of the right length, was found to carry the recomputed tag.
pub proof fn lemma_handle_proceeds_on_authentic_key(s: CallState, event: EventView)
    requires
        s.wf(),
        s.operation == ContractOperation::Handle,
        s.pending != Pending::ParseSigInfo,
        advance(s, event).pending == Pending::ParseSigInfo,
    ensures
        s.pending == Pending::DeriveKeyTag,
        event matches EventView::KeyTagDerived(Ok(tag)) && is_authentic(s.contract_key, tag),
        advance(s, event).contract_key == s.contract_key,
{
    reveal(advance);
}

/// On `handle`, the key that is held against the recomputed tag, and later
/// handed to the engine, is the key that the host put into the env.
pub proof fn lemma_handle_takes_claimed_key(s: CallState, event: EventView)
    requires
        s.wf(),
        s.operation == ContractOperation::Handle,
        s.pending != Pending::DeriveKeyTag,
        advance(s, event).pending == Pending::DeriveKeyTag,
    ensures
        s.pending == Pending::ResolveAddress,
        event matches EventView::AddressResolved(Some(address)) && advance(s, event).address
            == address,
        claimed_key(s.env.unwrap()) == Some(advance(s, event).contract_key),
{
    reveal(advance);
}

/// A validated plaintext is the only way to an engine: a call comes to ask
/// for an engine only after a plaintext that opens with the hexadecimal
/// text of the code hash, and the payload it holds for the contract is that
/// plaintext without the prefix.
pub proof fn lemma_engine_follows_validation(s: CallState, event: EventView)
    requires
        s.wf(),
        s.pending != Pending::StartEngine,
        advance(s, event).pending == Pending::StartEngine,
    ensures
        s.pending == Pending::Decrypt,
        event matches EventView::Decrypted(Ok(plaintext)) && validated_payload(
            plaintext,
            s.code_hash,
        ) == Some(advance(s, event).payload),
{
    reveal(advance);
}

/// Whether the call is past the settling of its key: it waits for the
/// signature info or for something later.
pub open spec fn key_settled(pending: Pending) -> bool {
    steps_left(pending) <= steps_left(Pending::ParseSigInfo)
}

/// Once the key of a call is settled, it stays: from the reading of the
/// signature info on, and in a query from the start, no step changes the
/// contract key, the canonical address or the secret message.
pub proof fn lemma_settled_values_stay(s: CallState, event: EventView)
    requires
        s.wf(),
        key_settled(s.pending),
    ensures
        advance(s, event).contract_key == s.contract_key,
        advance(s, event).address == s.address,
        advance(s, event).message == s.message,
{
    reveal(advance);
}

/// What the outside hands back, step by step, to a call in which nothing
/// goes wrong.
pub struct Collaboration {
    pub env: EnvV010View,
    pub address: Seq<u8>,
    pub key_tag: Seq<u8>,
    pub key_seed: Seq<u8>,
    pub plaintext: Seq<u8>,
    pub version: CosmWasmApiVersion,
    pub env_bytes: Seq<u8>,
    pub env_ptr: u32,
    pub msg_ptr: u32,
    pub vec_ptr: u32,
    pub plain_output: Seq<u8>,
    pub sealed_output: Seq<u8>,
    pub gas_used: u64,
}

/// The state of an `init` or `handle` call once the key of the contract is
/// settled and the signature is checked, if all went well so far.
pub open spec fn after_authentication(start: CallState, c: Collaboration) -> CallState {
    let parsed = advance(start, EventView::EnvParsed(Some(c.env)));
    let located = advance(parsed, EventView::AddressResolved(Some(c.address)));
    let tagged = advance(located, EventView::KeyTagDerived(Ok(c.key_tag)));
    let keyed = if start.operation == ContractOperation::Init {
        advance(tagged, EventView::KeySeedDerived(Ok(c.key_seed)))
    } else {
        tagged
    };
    let readable = advance(keyed, EventView::SigInfoParsed(true));
    advance(readable, EventView::ParamsVerified(Ok(())))
}

/// The state of a call that waited for the plaintext, once it has gone
/// through the engine and back, if all went well.
pub open spec fn after_execution(decrypting: CallState, c: Collaboration) -> CallState {
    let validated = advance(decrypting, EventView::Decrypted(Ok(c.plaintext)));
    let started = advance(validated, EventView::EngineStarted(Ok(c.version)));
    let staged = if decrypting.operation == ContractOperation::Query {
        started
    } else {
        advance(
            advance(started, EventView::EnvSerialized(Some(c.env_bytes))),
            EventView::Written(Ok(c.env_ptr)),
        )
    };
    let written = advance(staged, EventView::Written(Ok(c.msg_ptr)));
    let invoked = advance(written, EventView::Invoked(Ok(c.vec_ptr)));
    let extracted = advance(invoked, EventView::Extracted(Ok(c.plain_output)));
    let sealed = advance(extracted, EventView::Encrypted(Ok(c.sealed_output)));
    advance(sealed, EventView::GasRead(c.gas_used))
}

/// Where the settling of the key and the checking of the signature leave
/// an `init` or `handle` call in which nothing goes wrong: waiting for the
/// plaintext, holding the stamped env, the canonical address and the key.
pub proof fn lemma_authentication_path(
    operation: ContractOperation,
    gas_limit: u64,
    code_hash: Seq<u8>,
    msg: Seq<u8>,
    c: Collaboration,
)
    requires
        operation != ContractOperation::Query,
        code_hash.len() == 32,
        c.key_tag.len() == 32,
        c.key_seed.len() == 32,
        parse_secret_message(msg) is Some,
        operation == ContractOperation::Handle ==> claimed_key(c.env) is Some && is_authentic(
            claimed_key(c.env).unwrap(),
            c.key_tag,
        ),
    ensures
        after_authentication(begin(operation, gas_limit, code_hash, msg), c) == (CallState {
            pending: Pending::Decrypt,
            env: Some(stamped(c.env, code_hash)),
            address: c.address,
            contract_key: if operation == ContractOperation::Init {
                c.key_tag + c.key_seed
            } else {
                claimed_key(c.env).unwrap()
            },
            ..begin(operation, gas_limit, code_hash, msg)
        }),
        after_authentication(begin(operation, gas_limit, code_hash, msg), c).wf(),
{
    let start = begin(operation, gas_limit, code_hash, msg);
    lemma_advance_answered(start, EventView::EnvParsed(Some(c.env)));
    let parsed = advance(start, EventView::EnvParsed(Some(c.env)));
    lemma_advance_answered(parsed, EventView::AddressResolved(Some(c.address)));
    let located = advance(parsed, EventView::AddressResolved(Some(c.address)));
    assert(claimed_key(stamped(c.env, code_hash)) == claimed_key(c.env));
    lemma_advance_answered(located, EventView::KeyTagDerived(Ok(c.key_tag)));
    let tagged = advance(located, EventView::KeyTagDerived(Ok(c.key_tag)));
    if operation == ContractOperation::Init {
        lemma_advance_answered(tagged, EventView::KeySeedDerived(Ok(c.key_seed)));
        let keyed = advance(tagged, EventView::KeySeedDerived(Ok(c.key_seed)));
        assert(crate::keys::key_tag(tagged.contract_key) =~= c.key_tag);
        lemma_advance_answered(keyed, EventView::SigInfoParsed(true));
        let readable = advance(keyed, EventView::SigInfoParsed(true));
        lemma_advance_answered(readable, EventView::ParamsVerified(Ok(())));
    } else {
        lemma_advance_answered(tagged, EventView::SigInfoParsed(true));
        let readable = advance(tagged, EventView::SigInfoParsed(true));
        lemma_advance_answered(readable, EventView::ParamsVerified(Ok(())));
    }
}

/// Where the engine leaves a call in which nothing goes wrong: finished,
/// without an error, holding the encrypted output and the engine's gas.
pub proof fn lemma_execution_path(decrypting: CallState, c: Collaboration)
    requires
        decrypting.wf(),
        decrypting.pending == Pending::Decrypt,
        validated_payload(c.plaintext, decrypting.code_hash) is Some,
        decrypting.operation != ContractOperation::Query ==> env_for_contract(
            c.version,
            decrypting.env.unwrap(),
        ) is Some,
    ensures
        after_execution(decrypting, c) == (CallState {
            pending: Pending::Nothing,
            engine_started: true,
            gas_used: Some(c.gas_used),
            env: None,
            payload: validated_payload(c.plaintext, decrypting.code_hash).unwrap(),
            contract_env: if decrypting.operation == ContractOperation::Query {
                None
            } else {
                env_for_contract(c.version, decrypting.env.unwrap())
            },
            env_bytes: if decrypting.operation == ContractOperation::Query {
                decrypting.env_bytes
            } else {
                c.env_bytes
            },
            env_ptr: if decrypting.operation == ContractOperation::Query {
                None
            } else {
                Some(c.env_ptr)
            },
            msg_ptr: c.msg_ptr,
            vec_ptr: c.vec_ptr,
            output: c.sealed_output,
            ..decrypting
        }),
{
    lemma_advance_answered(decrypting, EventView::Decrypted(Ok(c.plaintext)));
    let validated = advance(decrypting, EventView::Decrypted(Ok(c.plaintext)));
    lemma_advance_answered(validated, EventView::EngineStarted(Ok(c.version)));
    let started = advance(validated, EventView::EngineStarted(Ok(c.version)));
    let staged = if decrypting.operation == ContractOperation::Query {
        started
    } else {
        lemma_advance_answered(started, EventView::EnvSerialized(Some(c.env_bytes)));
        let serialized = advance(started, EventView::EnvSerialized(Some(c.env_bytes)));
        lemma_advance_answered(serialized, EventView::Written(Ok(c.env_ptr)));
        advance(serialized, EventView::Written(Ok(c.env_ptr)))
    };
    lemma_advance_answered(staged, EventView::Written(Ok(c.msg_ptr)));
    let written = advance(staged, EventView::Written(Ok(c.msg_ptr)));
    lemma_advance_answered(written, EventView::Invoked(Ok(c.vec_ptr)));
    let invoked = advance(written, EventView::Invoked(Ok(c.vec_ptr)));
    lemma_advance_answered(invoked, EventView::Extracted(Ok(c.plain_output)));
    let extracted = advance(invoked, EventView::Extracted(Ok(c.plain_output)));
    lemma_advance_answered(extracted, EventView::Encrypted(Ok(c.sealed_output)));
    let sealed = advance(extracted, EventView::Encrypted(Ok(c.sealed_output)));
    lemma_advance_answered(sealed, EventView::GasRead(c.gas_used));
}

/// An `init` in which nothing goes wrong returns the encrypted output
/// together with the freshly minted key, tag then seed, and reports the
/// engine's gas. On the way the contract is handed the stamped env, in the
/// schema of its module, and the payload without its code-hash prefix.
pub proof fn lemma_init_succeeds(
    gas_limit: u64,
    code_hash: Seq<u8>,
    msg: Seq<u8>,
    c: Collaboration,
    before: u64,
)
    requires
        code_hash.len() == 32,
        c.key_tag.len() == 32,
        c.key_seed.len() == 32,
        parse_secret_message(msg) is Some,
        validated_payload(c.plaintext, code_hash) is Some,
        env_for_contract(c.version, stamped(c.env, code_hash)) is Some,
    ensures
        ({
            let start = begin(ContractOperation::Init, gas_limit, code_hash, msg);
            let message = parse_secret_message(msg).unwrap();
            let decrypting = after_authentication(start, c);
            let validated = advance(decrypting, EventView::Decrypted(Ok(c.plaintext)));
            let started = advance(validated, EventView::EngineStarted(Ok(c.version)));
            let end = after_execution(decrypting, c);
            &&& action_of(decrypting) == ActionView::Decrypt { message }
            &&& action_of(validated) == ActionView::StartEngine {
                operation: ContractOperation::Init,
                gas_limit,
                contract_key: c.key_tag + c.key_seed,
                nonce: message.nonce,
                user_public_key: message.user_public_key,
            }
            &&& action_of(started) == ActionView::SerializeEnv {
                contract_env: env_for_contract(c.version, stamped(c.env, code_hash)).unwrap(),
            }
            &&& finished(end)
            &&& outcome_of(end) == Ok::<SuccessView, EnclaveError>(
                SuccessView::Init {
                    output: c.sealed_output,
                    contract_key: c.key_tag + c.key_seed,
                },
            )
            &&& gas_written(end, before) == c.gas_used
        }),
{
    let start = begin(ContractOperation::Init, gas_limit, code_hash, msg);
    lemma_authentication_path(ContractOperation::Init, gas_limit, code_hash, msg, c);
    let decrypting = after_authentication(start, c);
    lemma_execution_path(decrypting, c);
    lemma_advance_answered(decrypting, EventView::Decrypted(Ok(c.plaintext)));
    let validated = advance(decrypting, EventView::Decrypted(Ok(c.plaintext)));
    lemma_advance_answered(validated, EventView::EngineStarted(Ok(c.version)));
}

/// A `handle` in which nothing goes wrong, presented with a key whose tag
/// is the one recomputed for the contract, returns the encrypted output and
/// reports the engine's gas.
pub proof fn lemma_handle_succeeds(
    gas_limit: u64,
    code_hash: Seq<u8>,
    msg: Seq<u8>,
    c: Collaboration,
    before: u64,
)
    requires
        code_hash.len() == 32,
        c.key_tag.len() == 32,
        c.key_seed.len() == 32,
        parse_secret_message(msg) is Some,
        claimed_key(c.env) is Some,
        is_authentic(claimed_key(c.env).unwrap(), c.key_tag),
        validated_payload(c.plaintext, code_hash) is Some,
        env_for_contract(c.version, stamped(c.env, code_hash)) is Some,
    ensures
        ({
            let start = begin(ContractOperation::Handle, gas_limit, code_hash, msg);
            let message = parse_secret_message(msg).unwrap();
            let decrypting = after_authentication(start, c);
            let validated = advance(decrypting, EventView::Decrypted(Ok(c.plaintext)));
            let end = after_execution(decrypting, c);
            &&& action_of(decrypting) == ActionView::Decrypt { message }
            &&& action_of(validated) == ActionView::StartEngine {
                operation: ContractOperation::Handle,
                gas_limit,
                contract_key: claimed_key(c.env).unwrap(),
                nonce: message.nonce,
                user_public_key: message.user_public_key,
            }
            &&& finished(end)
            &&& outcome_of(end) == Ok::<SuccessView, EnclaveError>(
                SuccessView::Handle { output: c.sealed_output },
            )
            &&& gas_written(end, before) == c.gas_used
        }),
{
    let start = begin(ContractOperation::Handle, gas_limit, code_hash, msg);
    lemma_authentication_path(ContractOperation::Handle, gas_limit, code_hash, msg, c);
    let decrypting = after_authentication(start, c);
    lemma_execution_path(decrypting, c);
    lemma_advance_answered(decrypting, EventView::Decrypted(Ok(c.plaintext)));
    let validated = advance(decrypting, EventView::Decrypted(Ok(c.plaintext)));
    lemma_advance_answered(validated, EventView::EngineStarted(Ok(c.version)));
}

/// A `query` in which nothing goes wrong returns the encrypted output and
/// reports the engine's gas. The key that opens its input goes to the
/// engine as it is, and the output is encrypted for no contract address.
pub proof fn lemma_query_succeeds(
    gas_limit: u64,
    code_hash: Seq<u8>,
    msg: Seq<u8>,
    c: Collaboration,
    before: u64,
)
    requires
        code_hash.len() == 32,
        parse_query_input(msg) is Some,
        parse_secret_message(parse_query_input(msg).unwrap().1) is Some,
        validated_payload(c.plaintext, code_hash) is Some,
    ensures
        ({
            let start = begin_query(gas_limit, code_hash, msg);
            let key = parse_query_input(msg).unwrap().0;
            let message = parse_secret_message(parse_query_input(msg).unwrap().1).unwrap();
            let validated = advance(start, EventView::Decrypted(Ok(c.plaintext)));
            let started = advance(validated, EventView::EngineStarted(Ok(c.version)));
            let end = after_execution(start, c);
            &&& action_of(start) == ActionView::Decrypt { message }
            &&& action_of(validated) == ActionView::StartEngine {
                operation: ContractOperation::Query,
                gas_limit,
                contract_key: key,
                nonce: message.nonce,
                user_public_key: message.user_public_key,
            }
            &&& action_of(started) == ActionView::WriteToMemory {
                bytes: validated_payload(c.plaintext, code_hash).unwrap(),
            }
            &&& finished(end)
            &&& outcome_of(end) == Ok::<SuccessView, EnclaveError>(
                SuccessView::Query { output: c.sealed_output },
            )
            &&& gas_written(end, before) == c.gas_used
        }),
{
    let start = begin_query(gas_limit, code_hash, msg);
    lemma_begin_query_wf(gas_limit, code_hash, msg);
    lemma_execution_path(start, c);
    lemma_advance_answered(start, EventView::Decrypted(Ok(c.plaintext)));
    let validated = advance(start, EventView::Decrypted(Ok(c.plaintext)));
    lemma_advance_answered(validated, EventView::EngineStarted(Ok(c.version)));
}

} // verus!
