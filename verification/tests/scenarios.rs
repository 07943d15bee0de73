use contract_dispatch::dispatch::handle;
use contract_dispatch::dispatch::init;
use contract_dispatch::dispatch::query;
use contract_dispatch::dispatch::Action;
use contract_dispatch::dispatch::Call;
use contract_dispatch::dispatch::Event;
use contract_dispatch::dispatch::HandleSuccess;
use contract_dispatch::dispatch::InitSuccess;
use contract_dispatch::dispatch::QuerySuccess;
use contract_dispatch::dispatch::Success;
use contract_dispatch::env::BlockInfo;
use contract_dispatch::env::ContractEnv;
use contract_dispatch::env::ContractInfo;
use contract_dispatch::env::CosmWasmApiVersion;
use contract_dispatch::env::EnvV010;
use contract_dispatch::env::MessageInfo;
use contract_dispatch::env::Timestamp;
use contract_dispatch::error::EnclaveError;
use contract_dispatch::keys::assemble_contract_key;
use contract_dispatch::model::ContractOperation;
use contract_dispatch::model::Stage;

const CODE_HASH: [u8; 32] = [0xaa; 32];
const TAG: [u8; 32] = [7; 32];
const SEED: [u8; 32] = [9; 32];
const ADDRESS: [u8; 4] = [1, 2, 3, 4];
const CONTRACT_OUTPUT: &[u8] = b"{\"ok\":{}}";

/// A cipher for the tests: every byte is flipped.
fn seal(bytes: &[u8]) -> Vec<u8> {
    bytes.iter().map(|b| b ^ 0x5a).collect()
}

fn secret_message(plaintext: &[u8]) -> Vec<u8> {
    let mut wire = vec![0u8; 32];
    wire.extend_from_slice(&[1u8; 32]);
    wire.extend_from_slice(&seal(plaintext));
    wire
}

fn prefixed(payload: &[u8]) -> Vec<u8> {
    let mut plaintext = vec![b'a'; 64];
    plaintext.extend_from_slice(payload);
    plaintext
}

fn query_input(key: &[u8; 64], plaintext: &[u8]) -> Vec<u8> {
    let mut wire = key.to_vec();
    wire.extend_from_slice(&secret_message(plaintext));
    wire
}

fn host_env(contract_key: Option<Vec<u8>>) -> EnvV010 {
    EnvV010 {
        block: BlockInfo { height: 1, time: 2, chain_id: "t".to_string() },
        message: MessageInfo { sender: "secret1sender".to_string(), sent_funds: Vec::new() },
        contract: ContractInfo { address: "secret1abc".to_string() },
        contract_key,
        contract_code_hash: "supplied by the host".to_string(),
    }
}

/// What the collaborators answer, and what they were asked.
struct World {
    contract_key: Option<Vec<u8>>,
    env_readable: bool,
    address: Option<Vec<u8>>,
    key_tag: Result<[u8; 32], EnclaveError>,
    key_seed: Result<[u8; 32], EnclaveError>,
    sig_info_readable: bool,
    verified: Result<(), EnclaveError>,
    decrypts: Result<(), EnclaveError>,
    engine: Result<CosmWasmApiVersion, EnclaveError>,
    env_serializable: bool,
    write_env: Result<u32, EnclaveError>,
    write_msg: Result<u32, EnclaveError>,
    invoke: Result<u32, EnclaveError>,
    extract: Result<Vec<u8>, EnclaveError>,
    encrypts: Result<(), EnclaveError>,
    gas_used: u64,
    asked: Vec<&'static str>,
    written: Vec<Vec<u8>>,
    engine_key: Vec<u8>,
    seen_env: Option<String>,
    invoked_with: Option<(ContractOperation, Option<u32>, u32)>,
    encrypted_for: Option<Vec<u8>>,
}

fn world() -> World {
    World {
        contract_key: None,
        env_readable: true,
        address: Some(ADDRESS.to_vec()),
        key_tag: Ok(TAG),
        key_seed: Ok(SEED),
        sig_info_readable: true,
        verified: Ok(()),
        decrypts: Ok(()),
        engine: Ok(CosmWasmApiVersion::V010),
        env_serializable: true,
        write_env: Ok(100),
        write_msg: Ok(200),
        invoke: Ok(300),
        extract: Ok(CONTRACT_OUTPUT.to_vec()),
        encrypts: Ok(()),
        gas_used: 1234,
        asked: Vec::new(),
        written: Vec::new(),
        engine_key: Vec::new(),
        seen_env: None,
        invoked_with: None,
        encrypted_for: None,
    }
}

fn answer(world: &mut World, call: &Call) -> Option<Event> {
    match call.next_action() {
        Action::ParseEnv => {
            world.asked.push("ParseEnv");
            Some(Event::EnvParsed(if world.env_readable {
                Some(host_env(world.contract_key.clone()))
            } else {
                None
            }))
        }
        Action::ResolveAddress { human } => {
            world.asked.push("ResolveAddress");
            assert_eq!(human, "secret1abc");
            Some(Event::AddressResolved(world.address.clone()))
        }
        Action::DeriveKeyTag { address, code_hash } => {
            world.asked.push("DeriveKeyTag");
            assert_eq!(address, &ADDRESS[..]);
            assert_eq!(code_hash, &CODE_HASH);
            Some(Event::KeyTagDerived(world.key_tag))
        }
        Action::DeriveKeySeed { env, code_hash, address } => {
            world.asked.push("DeriveKeySeed");
            assert_eq!(env.message.sender, "secret1sender");
            assert_eq!(env.block.height, 1);
            assert_eq!(env.contract_code_hash, "a".repeat(64));
            assert_eq!(code_hash, &CODE_HASH);
            assert_eq!(address, &ADDRESS[..]);
            Some(Event::KeySeedDerived(world.key_seed))
        }
        Action::ParseSigInfo => {
            world.asked.push("ParseSigInfo");
            Some(Event::SigInfoParsed(world.sig_info_readable))
        }
        Action::VerifyParams { env, message } => {
            world.asked.push("VerifyParams");
            assert_eq!(env.contract_code_hash, "a".repeat(64));
            assert_eq!(message.nonce, [0u8; 32]);
            assert_eq!(message.user_public_key, [1u8; 32]);
            Some(Event::ParamsVerified(world.verified))
        }
        Action::Decrypt { message } => {
            world.asked.push("Decrypt");
            Some(Event::Decrypted(world.decrypts.map(|_| seal(&message.msg))))
        }
        Action::StartEngine { operation, gas_limit: _, contract_key, nonce, user_public_key } => {
            world.asked.push("StartEngine");
            assert_eq!(operation, call.operation());
            assert_eq!(nonce, &[0u8; 32]);
            assert_eq!(user_public_key, &[1u8; 32]);
            world.engine_key = contract_key.to_vec();
            Some(Event::EngineStarted(world.engine))
        }
        Action::SerializeEnv { contract_env } => {
            world.asked.push("SerializeEnv");
            let text = format!("{:?}", contract_env);
            world.seen_env = Some(text.clone());
            Some(Event::EnvSerialized(if world.env_serializable {
                Some(text.into_bytes())
            } else {
                None
            }))
        }
        Action::WriteToMemory { bytes } => {
            world.asked.push("WriteToMemory");
            world.written.push(bytes.to_vec());
            let first = world.written.len() == 1 && call.operation() != ContractOperation::Query;
            Some(Event::Written(if first { world.write_env } else { world.write_msg }))
        }
        Action::Invoke { operation, env_ptr, msg_ptr } => {
            world.asked.push("Invoke");
            world.invoked_with = Some((operation, env_ptr, msg_ptr));
            Some(Event::Invoked(world.invoke))
        }
        Action::ExtractVector { vec_ptr } => {
            world.asked.push("ExtractVector");
            assert_eq!(vec_ptr, 300);
            Some(Event::Extracted(world.extract.clone()))
        }
        Action::EncryptOutput { output, nonce, user_public_key, contract_address } => {
            world.asked.push("EncryptOutput");
            assert_eq!(nonce, &[0u8; 32]);
            assert_eq!(user_public_key, &[1u8; 32]);
            world.encrypted_for = Some(contract_address.to_vec());
            Some(Event::Encrypted(world.encrypts.map(|_| seal(output))))
        }
        Action::ReadGas => {
            world.asked.push("ReadGas");
            Some(Event::GasRead(world.gas_used))
        }
        Action::Finish => None,
    }
}

/// Runs a call against the world until nothing is left to do.
fn run(world: &mut World, call: Call, gas_before: u64) -> (Result<Success, EnclaveError>, u64) {
    let mut call = call;
    let mut steps = 0;
    while let Some(event) = answer(world, &call) {
        call = call.step(event);
        steps += 1;
        assert!(steps < 100);
    }
    assert!(call.is_finished());
    let mut used_gas = gas_before;
    match call.finish(&mut used_gas) {
        Ok(outcome) => (outcome, used_gas),
        Err(call) => panic!("a finished call was handed back in stage {:?}", call.stage()),
    }
}

#[test]
fn init_happy_path() {
    let mut world = world();
    let msg = secret_message(&prefixed(b"{}"));
    let (outcome, used_gas) = run(&mut world, init(5_000_000, CODE_HASH, &msg), 0);
    let mut key = TAG.to_vec();
    key.extend_from_slice(&SEED);
    match outcome {
        Ok(Success::Init(InitSuccess { output, contract_key })) => {
            assert_eq!(output, seal(CONTRACT_OUTPUT));
            assert_eq!(contract_key.to_vec(), key);
        }
        other => panic!("unexpected outcome: {:?}", other),
    }
    assert_eq!(used_gas, 1234);
    assert!(used_gas > 0);
    assert_eq!(
        world.asked,
        vec![
            "ParseEnv",
            "ResolveAddress",
            "DeriveKeyTag",
            "DeriveKeySeed",
            "ParseSigInfo",
            "VerifyParams",
            "Decrypt",
            "StartEngine",
            "SerializeEnv",
            "WriteToMemory",
            "WriteToMemory",
            "Invoke",
            "ExtractVector",
            "EncryptOutput",
            "ReadGas",
        ]
    );
    assert_eq!(world.engine_key, key);
    assert_eq!(world.written[0], world.seen_env.clone().unwrap().into_bytes());
    assert_eq!(world.written[1], b"{}".to_vec());
    assert_eq!(world.invoked_with, Some((ContractOperation::Init, Some(100), 200)));
    assert_eq!(world.encrypted_for, Some(ADDRESS.to_vec()));
}

#[test]
fn handle_happy_path() {
    let mut world = world();
    let key = assemble_contract_key(&TAG, &SEED);
    world.contract_key = Some(key.to_vec());
    let msg = secret_message(&prefixed(b"{\"transfer\":{}}"));
    let (outcome, used_gas) = run(&mut world, handle(5_000_000, CODE_HASH, &msg), 0);
    assert_eq!(outcome, Ok(Success::Handle(HandleSuccess { output: seal(CONTRACT_OUTPUT) })));
    assert_eq!(used_gas, 1234);
    assert_eq!(
        world.asked,
        vec![
            "ParseEnv",
            "ResolveAddress",
            "DeriveKeyTag",
            "ParseSigInfo",
            "VerifyParams",
            "Decrypt",
            "StartEngine",
            "SerializeEnv",
            "WriteToMemory",
            "WriteToMemory",
            "Invoke",
            "ExtractVector",
            "EncryptOutput",
            "ReadGas",
        ]
    );
    assert_eq!(world.engine_key, key.to_vec());
    assert_eq!(world.written[1], b"{\"transfer\":{}}".to_vec());
    assert_eq!(world.invoked_with, Some((ContractOperation::Handle, Some(100), 200)));
    assert_eq!(world.encrypted_for, Some(ADDRESS.to_vec()));
}

#[test]
fn query_happy_path() {
    let mut world = world();
    let key = [0x42u8; 64];
    let msg = query_input(&key, &prefixed(b"{\"balance\":{}}"));
    let (outcome, used_gas) = run(&mut world, query(5_000_000, CODE_HASH, &msg), 0);
    assert_eq!(outcome, Ok(Success::Query(QuerySuccess { output: seal(CONTRACT_OUTPUT) })));
    assert_eq!(used_gas, 1234);
    assert_eq!(
        world.asked,
        vec![
            "Decrypt",
            "StartEngine",
            "WriteToMemory",
            "Invoke",
            "ExtractVector",
            "EncryptOutput",
            "ReadGas",
        ]
    );
    assert_eq!(world.engine_key, key.to_vec());
    assert_eq!(world.written, vec![b"{\"balance\":{}}".to_vec()]);
    assert_eq!(world.invoked_with, Some((ContractOperation::Query, None, 200)));
    assert_eq!(world.encrypted_for, Some(Vec::new()));
}

#[test]
fn handle_rejects_tampered_key() {
    let mut world = world();
    let mut key = assemble_contract_key(&TAG, &SEED);
    key[5] ^= 0x01;
    world.contract_key = Some(key.to_vec());
    let msg = secret_message(&prefixed(b"{}"));
    let (outcome, used_gas) = run(&mut world, handle(5_000_000, CODE_HASH, &msg), 77);
    assert_eq!(outcome, Err(EnclaveError::FailedContractAuthentication));
    assert_eq!(used_gas, 77);
    assert!(!world.asked.contains(&"StartEngine"));
    assert!(!world.asked.contains(&"ReadGas"));
}

#[test]
fn handle_rejects_absent_key() {
    let mut world = world();
    world.contract_key = None;
    let msg = secret_message(&prefixed(b"{}"));
    let (outcome, used_gas) = run(&mut world, handle(5_000_000, CODE_HASH, &msg), 77);
    assert_eq!(outcome, Err(EnclaveError::FailedContractAuthentication));
    assert_eq!(used_gas, 77);
    assert_eq!(world.asked, vec!["ParseEnv", "ResolveAddress"]);
}

#[test]
fn handle_rejects_short_key() {
    let mut world = world();
    world.contract_key = Some(vec![7u8; 63]);
    let msg = secret_message(&prefixed(b"{}"));
    let (outcome, used_gas) = run(&mut world, handle(5_000_000, CODE_HASH, &msg), 77);
    assert_eq!(outcome, Err(EnclaveError::FailedContractAuthentication));
    assert_eq!(used_gas, 77);
    assert!(!world.asked.contains(&"StartEngine"));
}

#[test]
fn handle_treats_a_failed_tag_derivation_as_failed_authentication() {
    let mut world = world();
    world.contract_key = Some(assemble_contract_key(&TAG, &SEED).to_vec());
    world.key_tag = Err(EnclaveError::FailedFunctionCall);
    let msg = secret_message(&prefixed(b"{}"));
    let (outcome, used_gas) = run(&mut world, handle(5_000_000, CODE_HASH, &msg), 77);
    assert_eq!(outcome, Err(EnclaveError::FailedContractAuthentication));
    assert_eq!(used_gas, 77);
}

#[test]
fn prefix_mismatch_is_a_validation_failure() {
    let mut world = world();
    let mut plaintext = vec![b'b'; 64];
    plaintext.extend_from_slice(b"{}");
    let msg = secret_message(&plaintext);
    let (outcome, used_gas) = run(&mut world, init(5_000_000, CODE_HASH, &msg), 77);
    assert_eq!(outcome, Err(EnclaveError::ValidationFailure));
    assert_eq!(used_gas, 77);
    assert!(!world.asked.contains(&"StartEngine"));
}

#[test]
fn query_too_short() {
    let msg = [0u8; 63];
    let call = query(5_000_000, CODE_HASH, &msg);
    assert!(call.is_finished());
    assert!(!call.engine_started());
    assert_eq!(call.stage(), Stage::Failed(EnclaveError::FailedFunctionCall));
    assert_eq!(call.next_action(), Action::Finish);
    let mut world = world();
    let (outcome, used_gas) = run(&mut world, call, 77);
    assert_eq!(outcome, Err(EnclaveError::FailedFunctionCall));
    assert_eq!(used_gas, 77);
    assert!(world.asked.is_empty());
}

#[test]
fn query_with_a_key_but_no_room_for_a_message_fails_to_deserialize() {
    let msg = [0u8; 64 + 63];
    let mut world = world();
    let (outcome, used_gas) = run(&mut world, query(5_000_000, CODE_HASH, &msg), 77);
    assert_eq!(outcome, Err(EnclaveError::FailedToDeserialize));
    assert_eq!(used_gas, 77);
    assert!(world.asked.is_empty());
}

#[test]
fn signature_mismatch() {
    let mut world = world();
    world.verified = Err(EnclaveError::FailedTxVerification);
    let msg = secret_message(&prefixed(b"{}"));
    let (outcome, used_gas) = run(&mut world, init(5_000_000, CODE_HASH, &msg), 77);
    assert_eq!(outcome, Err(EnclaveError::FailedTxVerification));
    assert_eq!(used_gas, 77);
    assert!(!world.asked.contains(&"Decrypt"));
    assert!(!world.asked.contains(&"StartEngine"));
}

#[test]
fn out_of_gas() {
    let mut world = world();
    world.invoke = Err(EnclaveError::FailedFunctionCall);
    world.gas_used = 1000;
    let msg = secret_message(&prefixed(b"{}"));
    let (outcome, used_gas) = run(&mut world, init(1000, CODE_HASH, &msg), 0);
    assert_eq!(outcome, Err(EnclaveError::FailedFunctionCall));
    assert_eq!(used_gas, 1000);
    assert_eq!(world.asked.last(), Some(&"ReadGas"));
    assert!(!world.asked.contains(&"ExtractVector"));
}

#[test]
fn query_never_asks_for_a_signature_or_a_key_derivation() {
    let mut world = world();
    let msg = query_input(&[0x42u8; 64], &prefixed(b"{}"));
    let (outcome, _) = run(&mut world, query(5_000_000, CODE_HASH, &msg), 0);
    assert!(outcome.is_ok());
    for forbidden in [
        "ParseEnv",
        "ResolveAddress",
        "DeriveKeyTag",
        "DeriveKeySeed",
        "ParseSigInfo",
        "VerifyParams",
        "SerializeEnv",
    ] {
        assert!(!world.asked.contains(&forbidden));
    }
}

#[test]
fn query_takes_any_key_as_it_is() {
    let mut world = world();
    let key = [0u8; 64];
    let msg = query_input(&key, &prefixed(b"{}"));
    let (outcome, _) = run(&mut world, query(5_000_000, CODE_HASH, &msg), 0);
    assert!(outcome.is_ok());
    assert_eq!(world.engine_key, key.to_vec());
}

#[test]
fn older_contract_sees_stamped_env_without_key() {
    let mut call = handle(5_000_000, CODE_HASH, &secret_message(&prefixed(b"{}")));
    let key = assemble_contract_key(&TAG, &SEED);
    for event in [
        Event::EnvParsed(Some(host_env(Some(key.to_vec())))),
        Event::AddressResolved(Some(ADDRESS.to_vec())),
        Event::KeyTagDerived(Ok(TAG)),
        Event::SigInfoParsed(true),
        Event::ParamsVerified(Ok(())),
        Event::Decrypted(Ok(prefixed(b"{}"))),
        Event::EngineStarted(Ok(CosmWasmApiVersion::V010)),
    ] {
        call = call.step(event);
    }
    let mut expected = host_env(None);
    expected.contract_code_hash = "a".repeat(64);
    assert_eq!(
        call.next_action(),
        Action::SerializeEnv { contract_env: &ContractEnv::V010(expected) }
    );
}

#[test]
fn newer_contract_sees_projected_env() {
    let mut call = init(5_000_000, CODE_HASH, &secret_message(&prefixed(b"{}")));
    for event in [
        Event::EnvParsed(Some(host_env(None))),
        Event::AddressResolved(Some(ADDRESS.to_vec())),
        Event::KeyTagDerived(Ok(TAG)),
        Event::KeySeedDerived(Ok(SEED)),
        Event::SigInfoParsed(true),
        Event::ParamsVerified(Ok(())),
        Event::Decrypted(Ok(prefixed(b"{}"))),
        Event::EngineStarted(Ok(CosmWasmApiVersion::V016)),
    ] {
        call = call.step(event);
    }
    match call.next_action() {
        Action::SerializeEnv { contract_env: ContractEnv::V016(env) } => {
            assert_eq!(env.block.height, 1);
            assert_eq!(env.block.time, Timestamp { nanos: 2_000_000_000 });
            assert_eq!(env.block.chain_id, "t");
            assert_eq!(env.contract.address, "secret1abc");
            assert_eq!(env.contract.code_hash, "a".repeat(64));
        }
        other => panic!("unexpected action: {:?}", other),
    }
}

#[test]
fn malformed_env_fails_to_deserialize() {
    let mut world = world();
    world.env_readable = false;
    let msg = secret_message(&prefixed(b"{}"));
    let (outcome, used_gas) = run(&mut world, init(5_000_000, CODE_HASH, &msg), 77);
    assert_eq!(outcome, Err(EnclaveError::FailedToDeserialize));
    assert_eq!(used_gas, 77);
    assert_eq!(world.asked, vec!["ParseEnv"]);
}

#[test]
fn malformed_address_fails_to_deserialize() {
    let mut world = world();
    world.address = None;
    let msg = secret_message(&prefixed(b"{}"));
    let (outcome, _) = run(&mut world, init(5_000_000, CODE_HASH, &msg), 77);
    assert_eq!(outcome, Err(EnclaveError::FailedToDeserialize));
    assert_eq!(world.asked, vec!["ParseEnv", "ResolveAddress"]);
}

#[test]
fn malformed_sig_info_fails_to_deserialize() {
    let mut world = world();
    world.sig_info_readable = false;
    let msg = secret_message(&prefixed(b"{}"));
    let (outcome, _) = run(&mut world, init(5_000_000, CODE_HASH, &msg), 77);
    assert_eq!(outcome, Err(EnclaveError::FailedToDeserialize));
    assert_eq!(world.asked.last(), Some(&"ParseSigInfo"));
}

#[test]
fn short_message_fails_to_deserialize_after_the_sig_info_was_read() {
    let mut world = world();
    let (outcome, used_gas) = run(&mut world, init(5_000_000, CODE_HASH, &[0u8; 63]), 77);
    assert_eq!(outcome, Err(EnclaveError::FailedToDeserialize));
    assert_eq!(used_gas, 77);
    assert_eq!(world.asked.last(), Some(&"ParseSigInfo"));
    assert!(!world.asked.contains(&"VerifyParams"));
}

#[test]
fn init_passes_on_the_error_of_the_key_derivation() {
    let mut world = world();
    world.key_seed = Err(EnclaveError::FailedToDeserialize);
    let msg = secret_message(&prefixed(b"{}"));
    let (outcome, _) = run(&mut world, init(5_000_000, CODE_HASH, &msg), 77);
    assert_eq!(outcome, Err(EnclaveError::FailedToDeserialize));
    assert_eq!(world.asked.last(), Some(&"DeriveKeySeed"));

    let mut world = self::world();
    world.key_tag = Err(EnclaveError::FailedFunctionCall);
    let (outcome, _) = run(&mut world, init(5_000_000, CODE_HASH, &msg), 77);
    assert_eq!(outcome, Err(EnclaveError::FailedFunctionCall));
    assert_eq!(world.asked.last(), Some(&"DeriveKeyTag"));
}

#[test]
fn decryption_error_ends_the_call_before_the_engine() {
    let mut world = world();
    world.decrypts = Err(EnclaveError::DecryptionError);
    let msg = secret_message(&prefixed(b"{}"));
    let (outcome, used_gas) = run(&mut world, init(5_000_000, CODE_HASH, &msg), 77);
    assert_eq!(outcome, Err(EnclaveError::DecryptionError));
    assert_eq!(used_gas, 77);
    assert!(!world.asked.contains(&"StartEngine"));
}

#[test]
fn engine_that_does_not_start_leaves_the_gas_untouched() {
    let mut world = world();
    world.engine = Err(EnclaveError::FailedFunctionCall);
    let msg = secret_message(&prefixed(b"{}"));
    let (outcome, used_gas) = run(&mut world, init(5_000_000, CODE_HASH, &msg), 77);
    assert_eq!(outcome, Err(EnclaveError::FailedFunctionCall));
    assert_eq!(used_gas, 77);
    assert_eq!(world.asked.last(), Some(&"StartEngine"));
}

#[test]
fn env_that_cannot_be_encoded_fails_to_serialize_and_reports_gas() {
    let mut world = world();
    world.env_serializable = false;
    world.gas_used = 11;
    let msg = secret_message(&prefixed(b"{}"));
    let (outcome, used_gas) = run(&mut world, init(5_000_000, CODE_HASH, &msg), 77);
    assert_eq!(outcome, Err(EnclaveError::FailedToSerialize));
    assert_eq!(used_gas, 11);
    assert_eq!(world.asked.last(), Some(&"ReadGas"));
    assert!(world.written.is_empty());
}

#[test]
fn time_beyond_the_newer_schema_fails_to_serialize_and_reports_gas() {
    let mut call = init(5_000_000, CODE_HASH, &secret_message(&prefixed(b"{}")));
    let mut env = host_env(None);
    env.block.time = u64::MAX;
    for event in [
        Event::EnvParsed(Some(env)),
        Event::AddressResolved(Some(ADDRESS.to_vec())),
        Event::KeyTagDerived(Ok(TAG)),
        Event::KeySeedDerived(Ok(SEED)),
        Event::SigInfoParsed(true),
        Event::ParamsVerified(Ok(())),
        Event::Decrypted(Ok(prefixed(b"{}"))),
        Event::EngineStarted(Ok(CosmWasmApiVersion::V016)),
    ] {
        call = call.step(event);
    }
    assert_eq!(call.stage(), Stage::Failed(EnclaveError::FailedToSerialize));
    assert!(call.engine_started());
    assert_eq!(call.next_action(), Action::ReadGas);
    call = call.step(Event::GasRead(3));
    let mut used_gas = 77;
    assert_eq!(call.finish(&mut used_gas).ok().unwrap(), Err(EnclaveError::FailedToSerialize));
    assert_eq!(used_gas, 3);
}

#[test]
fn failed_write_reports_gas() {
    let mut world = world();
    world.write_env = Err(EnclaveError::FailedFunctionCall);
    world.gas_used = 21;
    let msg = secret_message(&prefixed(b"{}"));
    let (outcome, used_gas) = run(&mut world, init(5_000_000, CODE_HASH, &msg), 77);
    assert_eq!(outcome, Err(EnclaveError::FailedFunctionCall));
    assert_eq!(used_gas, 21);
    assert_eq!(world.written.len(), 1);

    let mut world = self::world();
    world.write_msg = Err(EnclaveError::FailedFunctionCall);
    world.gas_used = 22;
    let (outcome, used_gas) = run(&mut world, init(5_000_000, CODE_HASH, &msg), 77);
    assert_eq!(outcome, Err(EnclaveError::FailedFunctionCall));
    assert_eq!(used_gas, 22);
    assert_eq!(world.written.len(), 2);
    assert!(!world.asked.contains(&"Invoke"));
}

#[test]
fn failed_extraction_reports_gas() {
    let mut world = world();
    world.extract = Err(EnclaveError::FailedFunctionCall);
    world.gas_used = 500;
    let msg = secret_message(&prefixed(b"{}"));
    let (outcome, used_gas) = run(&mut world, init(5_000_000, CODE_HASH, &msg), 77);
    assert_eq!(outcome, Err(EnclaveError::FailedFunctionCall));
    assert_eq!(used_gas, 500);
    assert!(!world.asked.contains(&"EncryptOutput"));
}

#[test]
fn encryption_error_reports_gas() {
    let mut world = world();
    world.encrypts = Err(EnclaveError::EncryptionError);
    world.gas_used = 900;
    let msg = query_input(&[0x42u8; 64], &prefixed(b"{}"));
    let (outcome, used_gas) = run(&mut world, query(5_000_000, CODE_HASH, &msg), 77);
    assert_eq!(outcome, Err(EnclaveError::EncryptionError));
    assert_eq!(used_gas, 900);
    assert_eq!(world.asked.last(), Some(&"ReadGas"));
}

#[test]
fn same_derivations_mint_the_same_key() {
    let msg = secret_message(&prefixed(b"{}"));
    let mut first = world();
    let mut second = world();
    second.gas_used = 1;
    let (a, _) = run(&mut first, init(5_000_000, CODE_HASH, &msg), 0);
    let (b, _) = run(&mut second, init(9, CODE_HASH, &msg), 0);
    match (a, b) {
        (Ok(Success::Init(a)), Ok(Success::Init(b))) => {
            assert_eq!(a.contract_key, b.contract_key);
        }
        other => panic!("unexpected outcomes: {:?}", other),
    }
}

#[test]
fn minted_key_authenticates_on_handle_and_no_other_tag_does() {
    let msg = secret_message(&prefixed(b"{}"));
    let mut minting = world();
    let (minted, _) = run(&mut minting, init(5_000_000, CODE_HASH, &msg), 0);
    let key = match minted {
        Ok(Success::Init(success)) => success.contract_key,
        other => panic!("unexpected outcome: {:?}", other),
    };

    let mut same_contract = world();
    same_contract.contract_key = Some(key.to_vec());
    let (outcome, _) = run(&mut same_contract, handle(5_000_000, CODE_HASH, &msg), 0);
    assert!(outcome.is_ok());

    let mut other_contract = world();
    other_contract.contract_key = Some(key.to_vec());
    let mut other_tag = TAG;
    other_tag[31] ^= 0x80;
    other_contract.key_tag = Ok(other_tag);
    let (outcome, used_gas) = run(&mut other_contract, handle(5_000_000, CODE_HASH, &msg), 77);
    assert_eq!(outcome, Err(EnclaveError::FailedContractAuthentication));
    assert_eq!(used_gas, 77);
}

#[test]
fn result_that_was_not_asked_for_is_ignored() {
    let call = init(5_000_000, CODE_HASH, &secret_message(&prefixed(b"{}")));
    assert_eq!(call.next_action(), Action::ParseEnv);
    let call = call.step(Event::GasRead(5));
    assert_eq!(call.next_action(), Action::ParseEnv);
    assert_eq!(call.stage(), Stage::Parse);
    let call = call.step(Event::Decrypted(Ok(prefixed(b"{}"))));
    assert_eq!(call.next_action(), Action::ParseEnv);
    let call = call.step(Event::EnvParsed(Some(host_env(None))));
    assert_eq!(call.next_action(), Action::ResolveAddress { human: "secret1abc" });
    let call = call.step(Event::EnvParsed(None));
    assert_eq!(call.next_action(), Action::ResolveAddress { human: "secret1abc" });
    assert_eq!(call.stage(), Stage::KeyResolve);
}

#[test]
fn unfinished_call_is_handed_back_untouched() {
    let call = init(5_000_000, CODE_HASH, &secret_message(&prefixed(b"{}")));
    let call = call.step(Event::EnvParsed(Some(host_env(None))));
    let mut used_gas = 77;
    match call.finish(&mut used_gas) {
        Err(call) => {
            assert!(!call.is_finished());
            assert_eq!(call.next_action(), Action::ResolveAddress { human: "secret1abc" });
        }
        Ok(outcome) => panic!("an unfinished call had an outcome: {:?}", outcome),
    }
    assert_eq!(used_gas, 77);
}

#[test]
fn finished_call_is_not_moved_by_any_result() {
    let call = query(5_000_000, CODE_HASH, &[0u8; 10]);
    let call = call.step(Event::GasRead(5));
    let call = call.step(Event::EngineStarted(Ok(CosmWasmApiVersion::V010)));
    assert!(call.is_finished());
    assert!(!call.engine_started());
    let mut used_gas = 77;
    assert_eq!(call.finish(&mut used_gas).ok().unwrap(), Err(EnclaveError::FailedFunctionCall));
    assert_eq!(used_gas, 77);
}

#[test]
fn first_error_is_kept_while_the_gas_is_read() {
    let mut call = query(5_000_000, CODE_HASH, &query_input(&[0x42u8; 64], &prefixed(b"{}")));
    for event in [
        Event::Decrypted(Ok(prefixed(b"{}"))),
        Event::EngineStarted(Ok(CosmWasmApiVersion::V016)),
        Event::Written(Ok(200)),
        Event::Invoked(Err(EnclaveError::FailedFunctionCall)),
    ] {
        call = call.step(event);
    }
    assert_eq!(call.stage(), Stage::Failed(EnclaveError::FailedFunctionCall));
    assert!(!call.is_finished());
    call = call.step(Event::Encrypted(Err(EnclaveError::EncryptionError)));
    assert_eq!(call.stage(), Stage::Failed(EnclaveError::FailedFunctionCall));
    assert_eq!(call.next_action(), Action::ReadGas);
    call = call.step(Event::GasRead(40));
    assert!(call.is_finished());
    let mut used_gas = 0;
    assert_eq!(call.finish(&mut used_gas).ok().unwrap(), Err(EnclaveError::FailedFunctionCall));
    assert_eq!(used_gas, 40);
}

#[test]
fn stages_follow_the_path_of_an_init() {
    let mut call = init(5_000_000, CODE_HASH, &secret_message(&prefixed(b"{}")));
    let mut seen = vec![call.stage()];
    for event in [
        Event::EnvParsed(Some(host_env(None))),
        Event::AddressResolved(Some(ADDRESS.to_vec())),
        Event::KeyTagDerived(Ok(TAG)),
        Event::KeySeedDerived(Ok(SEED)),
        Event::SigInfoParsed(true),
        Event::ParamsVerified(Ok(())),
        Event::Decrypted(Ok(prefixed(b"{}"))),
        Event::EngineStarted(Ok(CosmWasmApiVersion::V010)),
        Event::EnvSerialized(Some(b"{}".to_vec())),
        Event::Written(Ok(100)),
        Event::Written(Ok(200)),
        Event::Invoked(Ok(300)),
        Event::Extracted(Ok(CONTRACT_OUTPUT.to_vec())),
        Event::Encrypted(Ok(seal(CONTRACT_OUTPUT))),
        Event::GasRead(1234),
    ] {
        call = call.step(event);
        seen.push(call.stage());
    }
    assert_eq!(
        seen,
        vec![
            Stage::Parse,
            Stage::KeyResolve,
            Stage::KeyResolve,
            Stage::KeyResolve,
            Stage::Authenticate,
            Stage::Authenticate,
            Stage::Decrypt,
            Stage::Validate,
            Stage::EngineReady,
            Stage::EngineReady,
            Stage::EngineReady,
            Stage::Executing,
            Stage::Executing,
            Stage::Encrypting,
            Stage::Encrypting,
            Stage::Done,
        ]
    );
}

#[test]
fn action_carries_the_values_for_the_engine() {
    let mut call = query(123_456, CODE_HASH, &query_input(&[0x42u8; 64], &prefixed(b"{}")));
    call = call.step(Event::Decrypted(Ok(prefixed(b"{}"))));
    assert_eq!(
        call.next_action(),
        Action::StartEngine {
            operation: ContractOperation::Query,
            gas_limit: 123_456,
            contract_key: &[0x42u8; 64],
            nonce: &[0u8; 32],
            user_public_key: &[1u8; 32],
        }
    );
    assert_eq!(call.operation(), ContractOperation::Query);
}
