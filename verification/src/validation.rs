//! Binding a decrypted message to one version of a contract's code.
//!
//! A plaintext is meant for a contract only if it opens with the
//! hexadecimal text of that contract's code hash; what follows is the
//! payload the contract sees. This defeats replay of a ciphertext against a
//! contract with different code.

use vstd::prelude::*;
use vstd::slice::slice_subrange;
use vstd::slice::slice_to_vec;
use crate::error::EnclaveError;
use crate::hexcode::ascii_bytes;
use crate::hexcode::hex_encode;
use crate::hexcode::hex_string;
use crate::hexcode::lemma_hex_string_ascii;

verus! {

/// Length of the hexadecimal text of a code hash.
pub const HEX_HASH_LENGTH: usize = 64;

/// The bytes that must open a plaintext meant for the code with this hash.
pub open spec fn code_hash_prefix(code_hash: Seq<u8>) -> Seq<u8> {
    ascii_bytes(hex_string(code_hash))
}

/// Whether `plaintext` opens with the hexadecimal text of `code_hash`.
pub open spec fn has_code_hash_prefix(plaintext: Seq<u8>, code_hash: Seq<u8>) -> bool {
    let prefix = code_hash_prefix(code_hash);
    plaintext.len() >= prefix.len() && plaintext.subrange(0, prefix.len() as int) == prefix
}

/// What the contract sees of a plaintext: the bytes after the prefix, or
/// nothing when the prefix is absent or differs.
pub open spec fn validated_payload(plaintext: Seq<u8>, code_hash: Seq<u8>) -> Option<Seq<u8>> {
    if has_code_hash_prefix(plaintext, code_hash) {
        Some(plaintext.subrange(2 * code_hash.len() as int, plaintext.len() as int))
    } else {
        None
    }
}

/// Checks that a decrypted message opens with the hexadecimal text of the
/// code hash and strips that prefix.
///
/// Returns the bytes after the 64-character prefix when it is present, and
/// `ValidationFailure` on every other input.
pub fn validate_msg(msg: &[u8], code_hash: &[u8; 32]) -> (result: Result<Vec<u8>, EnclaveError>)
    ensures
        (match result {
            Ok(payload) => validated_payload(msg@, code_hash@) == Some(payload@) && payload@
                == msg@.subrange(64, msg@.len() as int),
            Err(e) => e == EnclaveError::ValidationFailure && validated_payload(
                msg@,
                code_hash@,
            ) is None,
        }),
{
    let expected = hex_encode(code_hash.as_slice());
    let expected_bytes = expected.as_str().as_bytes();
    proof {
        lemma_hex_string_ascii(code_hash@);
        vstd::utf8::is_ascii_chars_encode_utf8(expected@);
        assert(expected_bytes@ =~= code_hash_prefix(code_hash@));
    }
    if msg.len() < HEX_HASH_LENGTH {
        return Err(EnclaveError::ValidationFailure);
    }
    let mut i: usize = 0;
    while i < HEX_HASH_LENGTH
        invariant
            i <= 64,
            64 <= msg.len(),
            expected_bytes@.len() == 64,
            expected_bytes@ == code_hash_prefix(code_hash@),
            forall|j: int| 0 <= j < i ==> msg@[j] == expected_bytes@[j],
        decreases 64 - i,
    {
        if msg[i] != expected_bytes[i] {
            proof {
                let k: int = i as int;
                assert(msg@.subrange(0, 64)[k] == msg@[k]);
            }
            return Err(EnclaveError::ValidationFailure);
        }
        i = i + 1;
    }
    assert(msg@.subrange(0, 64) =~= expected_bytes@);
    Ok(slice_to_vec(slice_subrange(msg, HEX_HASH_LENGTH, msg.len())))
}

/// A plaintext is accepted for at most one code hash: whoever encrypts a
/// message for one version of the code cannot have it accepted by another.
pub proof fn lemma_prefix_names_one_hash(plaintext: Seq<u8>, first: Seq<u8>, second: Seq<u8>)
    requires
        first.len() == second.len(),
        has_code_hash_prefix(plaintext, first),
        has_code_hash_prefix(plaintext, second),
    ensures
        first == second,
{
    let first_prefix = code_hash_prefix(first);
    let second_prefix = code_hash_prefix(second);
    assert(first_prefix == second_prefix);
    assert forall|k: int| 0 <= k < first.len() implies first[k] == second[k] by {
        let a: int = first[k] as int;
        let b: int = second[k] as int;
        assert(first_prefix[2 * k] == second_prefix[2 * k]);
        assert(first_prefix[2 * k + 1] == second_prefix[2 * k + 1]);
        assert(hex_string(first)[2 * k] == crate::hexcode::hex_digit(a / 16));
        assert(hex_string(first)[2 * k + 1] == crate::hexcode::hex_digit(a % 16));
        assert(hex_string(second)[2 * k] == crate::hexcode::hex_digit(b / 16));
        assert(hex_string(second)[2 * k + 1] == crate::hexcode::hex_digit(b % 16));
        crate::hexcode::lemma_hex_digit_distinct(a / 16, b / 16);
        crate::hexcode::lemma_hex_digit_distinct(a % 16, b % 16);
    }
    assert(first =~= second);
}

} // verus!
