//! The contract-key service: layout, extraction and authentication of the
//! per-instance key of a contract.
//!
//! A contract key is a 32-byte authentication tag followed by a 32-byte
//! encryption seed. Both halves are derived inside the enclave from its
//! master secret; the tag depends only on the contract's canonical address
//! and code hash, so that it can be recomputed on every later call and held
//! against the key that the host presents.

use vstd::prelude::*;
use crate::env::EnvV010;
use crate::env::EnvV010View;
use crate::error::EnclaveError;
use crate::message::ContractKey;
use crate::message::CONTRACT_KEY_LENGTH;

verus! {

/// Length of the authentication tag that opens a contract key.
pub const KEY_TAG_LENGTH: usize = 32;

/// The authentication tag of a contract key: its first 32 bytes.
pub open spec fn key_tag(key: Seq<u8>) -> Seq<u8> {
    key.subrange(0, 32)
}

/// The encryption seed of a contract key: its last 32 bytes.
pub open spec fn key_seed(key: Seq<u8>) -> Seq<u8> {
    key.subrange(32, 64)
}

/// Whether `key` carries the tag `expected_tag`.
pub open spec fn is_authentic(key: Seq<u8>, expected_tag: Seq<u8>) -> bool {
    key_tag(key) == expected_tag
}

/// The key that the host claims for the contract: the env's contract key
/// when it is present and has the length of a contract key.
pub open spec fn claimed_key(env: EnvV010View) -> Option<Seq<u8>> {
    match env.contract_key {
        Some(key) => if key.len() == 64 {
            Some(key)
        } else {
            None
        },
        None => None,
    }
}

/// Joins a freshly derived tag and seed into a contract key.
pub fn assemble_contract_key(tag: &[u8; 32], seed: &[u8; 32]) -> (key: ContractKey)
    ensures
        key@ == tag@ + seed@,
{
    let mut key: [u8; 64] = [0u8; 64];
    let mut i: usize = 0;
    while i < KEY_TAG_LENGTH
        invariant
            i <= 32,
            forall|j: int| 0 <= j < i ==> key@[j] == tag@[j],
            forall|j: int| 0 <= j < i ==> key@[32 + j] == seed@[j],
        decreases 32 - i,
    {
        key[i] = tag[i];
        key[KEY_TAG_LENGTH + i] = seed[i];
        i = i + 1;
    }
    assert(key@ =~= tag@ + seed@);
    key
}

/// Reads the contract key that the host put into the env.
///
/// Fails with `FailedContractAuthentication` exactly when the key is absent
/// or its length is not that of a contract key.
pub fn extract_contract_key(env: &EnvV010) -> (result: Result<ContractKey, EnclaveError>)
    ensures
        (match result {
            Ok(key) => claimed_key(env@) == Some(key@),
            Err(e) => e == EnclaveError::FailedContractAuthentication && claimed_key(env@)
                is None,
        }),
{
    match &env.contract_key {
        None => Err(EnclaveError::FailedContractAuthentication),
        Some(bytes) => {
            if bytes.len() != CONTRACT_KEY_LENGTH {
                return Err(EnclaveError::FailedContractAuthentication);
            }
            let key = crate::message::copy64(bytes.as_slice());
            assert(key@ =~= bytes@);
            Ok(key)
        },
    }
}

/// Holds the tag of `key` against the tag recomputed for the contract.
///
/// Every byte of the tag is visited whatever the outcome, so that the time
/// taken does not tell where the first difference lies.
pub fn validate_contract_key(key: &ContractKey, expected_tag: &[u8; 32]) -> (authentic: bool)
    ensures
        authentic == is_authentic(key@, expected_tag@),
{
    let mut difference: u8 = 0;
    let mut i: usize = 0;
    while i < KEY_TAG_LENGTH
        invariant
            i <= 32,
            difference == 0 <==> forall|j: int| 0 <= j < i ==> key@[j] == expected_tag@[j],
        decreases 32 - i,
    {
        let a: u8 = key[i];
        let b: u8 = expected_tag[i];
        let before: u8 = difference;
        assert(((before | (a ^ b)) == 0u8) <==> (before == 0u8 && a == b)) by (bit_vector);
        difference = difference | (a ^ b);
        i = i + 1;
    }
    proof {
        if difference == 0 {
            assert(key_tag(key@) =~= expected_tag@);
        } else {
            let j: int = choose|j: int| 0 <= j < 32 && key@[j] != expected_tag@[j];
            assert(key_tag(key@)[j] == key@[j]);
        }
    }
    difference == 0
}

/// A key assembled from a tag and a seed has the length of a contract key,
/// carries exactly those two halves, and authenticates against a tag if and
/// only if that tag is the one it was assembled from.
pub proof fn lemma_assembled_key(tag: Seq<u8>, seed: Seq<u8>, recomputed: Seq<u8>)
    requires
        tag.len() == 32,
        seed.len() == 32,
    ensures
        (tag + seed).len() == 64,
        key_tag(tag + seed) == tag,
        key_seed(tag + seed) == seed,
        is_authentic(tag + seed, tag),
        is_authentic(tag + seed, recomputed) <==> recomputed == tag,
{
    assert(key_tag(tag + seed) =~= tag);
    assert(key_seed(tag + seed) =~= seed);
}

/// Whether a tag derivation never gives two contracts the same tag, where a
/// contract is a canonical address together with a code hash.
pub open spec fn collision_free(derive: spec_fn(Seq<u8>, Seq<u8>) -> Seq<u8>) -> bool {
    forall|address: Seq<u8>, code_hash: Seq<u8>, other_address: Seq<u8>, other_hash: Seq<u8>|
        #![trigger derive(address, code_hash), derive(other_address, other_hash)]
        derive(address, code_hash) == derive(other_address, other_hash) ==> address
            == other_address && code_hash == other_hash
}

/// Under a tag derivation that never gives two contracts the same tag, a
/// key minted for one contract authenticates for that contract and for no
/// other: change the address or the code hash, and it is refused.
pub proof fn lemma_key_binds_contract(
    derive: spec_fn(Seq<u8>, Seq<u8>) -> Seq<u8>,
    address: Seq<u8>,
    code_hash: Seq<u8>,
    seed: Seq<u8>,
    other_address: Seq<u8>,
    other_hash: Seq<u8>,
)
    requires
        collision_free(derive),
        derive(address, code_hash).len() == 32,
        seed.len() == 32,
    ensures
        is_authentic(derive(address, code_hash) + seed, derive(address, code_hash)),
        is_authentic(derive(address, code_hash) + seed, derive(other_address, other_hash)) <==> (
        other_address == address && other_hash == code_hash),
{
    lemma_assembled_key(derive(address, code_hash), seed, derive(other_address, other_hash));
}

/// Changing any byte of the tag half of an authentic key makes it fail
/// authentication against the same recomputed tag.
pub proof fn lemma_tampered_tag_rejected(
    key: Seq<u8>,
    tampered: Seq<u8>,
    recomputed: Seq<u8>,
    position: int,
)
    requires
        key.len() == 64,
        tampered.len() == 64,
        is_authentic(key, recomputed),
        0 <= position < 32,
        tampered[position] != key[position],
    ensures
        !is_authentic(tampered, recomputed),
{
    assert(key_tag(key)[position] == key[position]);
    assert(key_tag(tampered)[position] == tampered[position]);
}

} // verus!
