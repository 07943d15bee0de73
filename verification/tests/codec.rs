use contract_dispatch::env::clear_contract_key;
use contract_dispatch::env::project_env;
use contract_dispatch::env::project_v016;
use contract_dispatch::env::stamp_code_hash;
use contract_dispatch::env::BlockInfo;
use contract_dispatch::env::Coin;
use contract_dispatch::env::ContractEnv;
use contract_dispatch::env::ContractInfo;
use contract_dispatch::env::CosmWasmApiVersion;
use contract_dispatch::env::EnvV010;
use contract_dispatch::env::MessageInfo;
use contract_dispatch::env::Timestamp;
use contract_dispatch::error::EnclaveError;
use contract_dispatch::keys::assemble_contract_key;
use contract_dispatch::keys::extract_contract_key;
use contract_dispatch::keys::validate_contract_key;
use contract_dispatch::message::split_query_input;
use contract_dispatch::message::SecretMessage;
use contract_dispatch::message::CONTRACT_KEY_LENGTH;
use contract_dispatch::message::ENVELOPE_HEADER_LENGTH;
use contract_dispatch::validation::validate_msg;

fn host_env(contract_key: Option<Vec<u8>>) -> EnvV010 {
    EnvV010 {
        block: BlockInfo { height: 1, time: 2, chain_id: "t".to_string() },
        message: MessageInfo {
            sender: "secret1sender".to_string(),
            sent_funds: vec![Coin { denom: "uscrt".to_string(), amount: 5 }],
        },
        contract: ContractInfo { address: "secret1abc".to_string() },
        contract_key,
        contract_code_hash: "whatever the host wrote".to_string(),
    }
}

fn counting(len: usize) -> Vec<u8> {
    (0..len).map(|i| (i % 251) as u8).collect()
}

#[test]
fn secret_message_splits_nonce_key_and_ciphertext() {
    let wire = counting(70);
    let message = SecretMessage::from_slice(&wire).unwrap();
    assert_eq!(message.nonce.to_vec(), wire[0..32].to_vec());
    assert_eq!(message.user_public_key.to_vec(), wire[32..64].to_vec());
    assert_eq!(message.msg, wire[64..].to_vec());
}

#[test]
fn secret_message_of_header_only_has_empty_ciphertext() {
    let wire = counting(ENVELOPE_HEADER_LENGTH);
    let message = SecretMessage::from_slice(&wire).unwrap();
    assert!(message.msg.is_empty());
}

#[test]
fn secret_message_shorter_than_header_is_rejected() {
    let wire = counting(ENVELOPE_HEADER_LENGTH - 1);
    assert_eq!(SecretMessage::from_slice(&wire), Err(EnclaveError::FailedToDeserialize));
    assert_eq!(SecretMessage::from_slice(&[]), Err(EnclaveError::FailedToDeserialize));
}

#[test]
fn secret_message_round_trips_through_its_wire_form() {
    let wire = counting(100);
    let message = SecretMessage::from_slice(&wire).unwrap();
    assert_eq!(message.to_vec(), wire);
    let again = SecretMessage::from_slice(&message.to_vec()).unwrap();
    assert_eq!(again, message);
}

#[test]
fn query_input_splits_key_from_message() {
    let wire = counting(CONTRACT_KEY_LENGTH + 70);
    let (key, rest) = split_query_input(&wire).unwrap();
    assert_eq!(key.to_vec(), wire[0..64].to_vec());
    assert_eq!(rest.to_vec(), wire[64..].to_vec());
}

#[test]
fn query_input_of_key_only_has_empty_rest() {
    let wire = counting(CONTRACT_KEY_LENGTH);
    let (key, rest) = split_query_input(&wire).unwrap();
    assert_eq!(key.to_vec(), wire);
    assert!(rest.is_empty());
}

#[test]
fn query_input_shorter_than_key_is_rejected() {
    let wire = [0u8; CONTRACT_KEY_LENGTH - 1];
    assert_eq!(split_query_input(&wire), Err(EnclaveError::FailedFunctionCall));
}

#[test]
fn validate_msg_strips_the_code_hash_prefix() {
    let code_hash = [0xaau8; 32];
    let mut plaintext = vec![b'a'; 64];
    plaintext.extend_from_slice(b"{}");
    assert_eq!(validate_msg(&plaintext, &code_hash), Ok(b"{}".to_vec()));
}

#[test]
fn validate_msg_accepts_a_prefix_with_nothing_after_it() {
    let code_hash = [0x01u8; 32];
    let plaintext = "01".repeat(32).into_bytes();
    assert_eq!(validate_msg(&plaintext, &code_hash), Ok(Vec::new()));
}

#[test]
fn validate_msg_writes_the_high_nibble_first() {
    let mut code_hash = [0u8; 32];
    for (i, byte) in code_hash.iter_mut().enumerate() {
        *byte = (i as u8) * 8 + 3;
    }
    let mut plaintext = hex::encode(code_hash).into_bytes();
    assert_eq!(&plaintext[0..6], b"030b13");
    plaintext.extend_from_slice(b"payload");
    assert_eq!(validate_msg(&plaintext, &code_hash), Ok(b"payload".to_vec()));
}

#[test]
fn validate_msg_rejects_the_raw_hash_as_prefix() {
    let code_hash = [0x61u8; 32];
    let mut plaintext = code_hash.to_vec();
    plaintext.extend_from_slice(&code_hash);
    plaintext.extend_from_slice(b"{}");
    assert_eq!(validate_msg(&plaintext, &code_hash), Err(EnclaveError::ValidationFailure));
}

#[test]
fn validate_msg_rejects_another_hash() {
    let code_hash = [0xaau8; 32];
    let mut plaintext = vec![b'b'; 64];
    plaintext.extend_from_slice(b"{}");
    assert_eq!(validate_msg(&plaintext, &code_hash), Err(EnclaveError::ValidationFailure));
}

#[test]
fn validate_msg_rejects_a_prefix_that_differs_in_its_last_character() {
    let code_hash = [0xaau8; 32];
    let mut plaintext = vec![b'a'; 64];
    plaintext[63] = b'b';
    plaintext.extend_from_slice(b"{}");
    assert_eq!(validate_msg(&plaintext, &code_hash), Err(EnclaveError::ValidationFailure));
}

#[test]
fn validate_msg_rejects_upper_case_digits() {
    let code_hash = [0xaau8; 32];
    let mut plaintext = vec![b'A'; 64];
    plaintext.extend_from_slice(b"{}");
    assert_eq!(validate_msg(&plaintext, &code_hash), Err(EnclaveError::ValidationFailure));
}

#[test]
fn validate_msg_rejects_a_plaintext_shorter_than_the_prefix() {
    let code_hash = [0xaau8; 32];
    assert_eq!(validate_msg(&[b'a'; 63], &code_hash), Err(EnclaveError::ValidationFailure));
    assert_eq!(validate_msg(&[], &code_hash), Err(EnclaveError::ValidationFailure));
}

#[test]
fn stamping_overwrites_the_host_supplied_code_hash() {
    let mut code_hash = [0u8; 32];
    code_hash[0] = 0xf9;
    code_hash[1] = 0xb4;
    code_hash[31] = 0xca;
    let stamped = stamp_code_hash(host_env(None), &code_hash);
    assert_eq!(stamped.contract_code_hash, hex::encode(code_hash));
    assert!(stamped.contract_code_hash.starts_with("f9b400"));
    assert!(stamped.contract_code_hash.ends_with("00ca"));
    assert_eq!(stamped.contract_code_hash.len(), 64);
}

#[test]
fn stamping_changes_nothing_else() {
    let stamped = stamp_code_hash(host_env(Some(vec![1, 2, 3])), &[0u8; 32]);
    let mut expected = host_env(Some(vec![1, 2, 3]));
    expected.contract_code_hash = "0".repeat(64);
    assert_eq!(stamped, expected);
}

#[test]
fn timestamp_counts_nanoseconds() {
    assert_eq!(Timestamp::from_seconds(0), Some(Timestamp { nanos: 0 }));
    assert_eq!(Timestamp::from_seconds(2), Some(Timestamp { nanos: 2_000_000_000 }));
    assert_eq!(
        Timestamp::from_seconds(1_600_000_000),
        Some(Timestamp { nanos: 1_600_000_000_000_000_000 })
    );
}

#[test]
fn timestamp_stops_where_nanoseconds_leave_64_bits() {
    assert_eq!(
        Timestamp::from_seconds(18_446_744_073),
        Some(Timestamp { nanos: 18_446_744_073_000_000_000 })
    );
    assert_eq!(Timestamp::from_seconds(18_446_744_074), None);
    assert_eq!(Timestamp::from_seconds(u64::MAX), None);
}

#[test]
fn older_contracts_get_the_env_without_its_key() {
    let env = stamp_code_hash(host_env(Some(vec![7; 64])), &[0xaa; 32]);
    let mut expected = stamp_code_hash(host_env(None), &[0xaa; 32]);
    expected.contract_key = None;
    assert_eq!(project_env(CosmWasmApiVersion::V010, env), Ok(ContractEnv::V010(expected)));
}

#[test]
fn newer_contracts_get_the_projected_env() {
    let env = stamp_code_hash(host_env(Some(vec![7; 64])), &[0xaa; 32]);
    match project_env(CosmWasmApiVersion::V016, env) {
        Ok(ContractEnv::V016(projected)) => {
            assert_eq!(projected.block.height, 1);
            assert_eq!(projected.block.time, Timestamp { nanos: 2_000_000_000 });
            assert_eq!(projected.block.chain_id, "t");
            assert_eq!(projected.contract.address, "secret1abc");
            assert_eq!(projected.contract.code_hash, "a".repeat(64));
        }
        other => panic!("unexpected projection: {:?}", other),
    }
}

#[test]
fn projection_fails_when_the_time_does_not_fit() {
    let mut env = host_env(None);
    env.block.time = 18_446_744_074;
    assert_eq!(
        project_env(CosmWasmApiVersion::V016, env),
        Err(EnclaveError::FailedToSerialize)
    );
    let mut env = host_env(None);
    env.block.time = 18_446_744_074;
    assert!(project_env(CosmWasmApiVersion::V010, env).is_ok());
}

#[test]
fn assembled_key_is_tag_then_seed() {
    let key = assemble_contract_key(&[7u8; 32], &[9u8; 32]);
    assert_eq!(key[0..32].to_vec(), vec![7u8; 32]);
    assert_eq!(key[32..64].to_vec(), vec![9u8; 32]);
}

#[test]
fn extract_reads_a_key_of_the_right_length() {
    let claimed = counting(64);
    let key = extract_contract_key(&host_env(Some(claimed.clone()))).unwrap();
    assert_eq!(key.to_vec(), claimed);
}

#[test]
fn extract_refuses_an_absent_key() {
    assert_eq!(
        extract_contract_key(&host_env(None)),
        Err(EnclaveError::FailedContractAuthentication)
    );
}

#[test]
fn extract_refuses_a_key_of_the_wrong_length() {
    for len in [0usize, 1, 32, 63, 65, 128] {
        assert_eq!(
            extract_contract_key(&host_env(Some(counting(len)))),
            Err(EnclaveError::FailedContractAuthentication)
        );
    }
}

#[test]
fn validate_accepts_the_tag_the_key_was_assembled_from() {
    let mut tag = [0u8; 32];
    for (i, byte) in tag.iter_mut().enumerate() {
        *byte = i as u8;
    }
    let key = assemble_contract_key(&tag, &[9u8; 32]);
    assert!(validate_contract_key(&key, &tag));
}

#[test]
fn validate_refuses_a_tag_that_differs_in_one_bit() {
    let tag = [0x10u8; 32];
    let key = assemble_contract_key(&tag, &[9u8; 32]);
    for position in 0..32 {
        for bit in 0..8 {
            let mut other = tag;
            other[position] ^= 1 << bit;
            assert!(!validate_contract_key(&key, &other));
        }
    }
}

#[test]
fn validate_refuses_a_key_whose_tag_was_tampered_with() {
    let tag = [0x10u8; 32];
    let key = assemble_contract_key(&tag, &[9u8; 32]);
    for position in 0..32 {
        let mut tampered = key;
        tampered[position] ^= 0x80;
        assert!(!validate_contract_key(&tampered, &tag));
    }
}

#[test]
fn validate_reads_only_the_tag_half() {
    let tag = [0x10u8; 32];
    let first = assemble_contract_key(&tag, &[1u8; 32]);
    let second = assemble_contract_key(&tag, &[2u8; 32]);
    assert!(validate_contract_key(&first, &tag));
    assert!(validate_contract_key(&second, &tag));
}

#[test]
fn clearing_the_key_changes_nothing_else() {
    let cleared = clear_contract_key(host_env(Some(vec![7; 64])));
    assert_eq!(cleared, host_env(None));
    assert_eq!(clear_contract_key(host_env(None)), host_env(None));
}

#[test]
fn projection_moves_the_code_hash_next_to_the_address() {
    let projected = project_v016(host_env(Some(vec![7; 64]))).unwrap();
    assert_eq!(projected.block.height, 1);
    assert_eq!(projected.block.time.nanos, 2 * 1_000_000_000);
    assert_eq!(projected.block.chain_id, "t");
    assert_eq!(projected.contract.address, "secret1abc");
    assert_eq!(projected.contract.code_hash, "whatever the host wrote");
}

#[test]
fn projection_holds_the_last_second_that_fits() {
    let mut env = host_env(None);
    env.block.time = 18_446_744_073;
    let projected = project_v016(env).unwrap();
    assert_eq!(projected.block.time.nanos, 18_446_744_073_000_000_000);
    let mut env = host_env(None);
    env.block.time = 18_446_744_074;
    assert_eq!(project_v016(env), Err(EnclaveError::FailedToSerialize));
}
