//! Witness addresses in the Ethereum format, and the signatures made under
//! them.

use crate::utils::hashing::{keccak256, keccak256_digest};
use anchor_lang::solana_program::secp256k1_recover::secp256k1_recover;
use vstd::prelude::*;
use vstd::string::StringSliceAdditionalSpecFns;

verus! {

/// Whether a byte is an ASCII hexadecimal digit.
pub open spec fn is_hex_digit(b: u8) -> bool {
    (0x30 <= b <= 0x39) || (0x41 <= b <= 0x46) || (0x61 <= b <= 0x66)
}

/// The value of an ASCII hexadecimal digit.
pub open spec fn hex_value(b: u8) -> int
    recommends
        is_hex_digit(b),
{
    if b <= 0x39 {
        b - 0x30
    } else if b <= 0x46 {
        b - 0x41 + 10
    } else {
        b - 0x61 + 10
    }
}

/// The format of a witness address: 42 bytes, `0x` first, hexadecimal digits
/// after it.
pub open spec fn valid_ethereum_address(text: Seq<u8>) -> bool {
    &&& text.len() == 42
    &&& text[0] == 0x30
    &&& text[1] == 0x78
    &&& forall|i: int| 2 <= i < 42 ==> is_hex_digit(#[trigger] text[i])
}

/// Byte `k` of the address that a valid text spells.
pub open spec fn address_byte(text: Seq<u8>, k: int) -> u8 {
    (hex_value(text[2 + 2 * k]) * 16 + hex_value(text[3 + 2 * k])) as u8
}

/// The 20 bytes that a valid address text spells. Upper and lower case
/// digits spell the same bytes.
pub open spec fn ethereum_address_bytes(text: Seq<u8>) -> Seq<u8> {
    Seq::new(20, |k: int| address_byte(text, k))
}

fn hex_digit(b: u8) -> (value: Option<u8>)
    ensures
        value is Some <==> is_hex_digit(b),
        value matches Some(v) ==> v as int == hex_value(b) && v < 16,
{
    if 0x30 <= b && b <= 0x39 {
        Some(b - 0x30)
    } else if 0x41 <= b && b <= 0x46 {
        Some(b - 0x41 + 10)
    } else if 0x61 <= b && b <= 0x66 {
        Some(b - 0x61 + 10)
    } else {
        None
    }
}

/// Whether `address` has the format of a witness address.
pub fn is_valid_ethereum_address(address: &str) -> (ok: bool)
    ensures
        ok == valid_ethereum_address(address.spec_bytes()),
{
    let text = address.as_bytes();
    if text.len() != 42 {
        return false;
    }
    if text[0] != 0x30 || text[1] != 0x78 {
        return false;
    }
    let mut i: usize = 2;
    while i < 42
        invariant
            2 <= i <= 42,
            text@ == address.spec_bytes(),
            text@.len() == 42,
            forall|k: int| 2 <= k < i ==> is_hex_digit(#[trigger] text@[k]),
        decreases 42 - i,
    {
        if hex_digit(text[i]).is_none() {
            assert(!is_hex_digit(text@[i as int]));
            return false;
        }
        i += 1;
    }
    true
}

/// Decodes a witness address into its 20 bytes, or `None` where the text
/// does not have the format.
pub fn parse_ethereum_address(address: &str) -> (decoded: Option<Vec<u8>>)
    ensures
        decoded is Some <==> valid_ethereum_address(address.spec_bytes()),
        decoded matches Some(bytes) ==> bytes@ == ethereum_address_bytes(address.spec_bytes()),
{
    if !is_valid_ethereum_address(address) {
        return None;
    }
    let text = address.as_bytes();
    let mut bytes: Vec<u8> = Vec::new();
    let mut k: usize = 0;
    while k < 20
        invariant
            k <= 20,
            text@ == address.spec_bytes(),
            valid_ethereum_address(text@),
            bytes@.len() == k,
            forall|j: int| 0 <= j < k ==> bytes@[j] == address_byte(text@, j),
        decreases 20 - k,
    {
        let high = hex_digit(text[2 + 2 * k]);
        let low = hex_digit(text[3 + 2 * k]);
        match (high, low) {
            (Some(h), Some(l)) => {
                bytes.push(h * 16 + l);
            },
            _ => {
                proof {
                    assert(is_hex_digit(text@[2 + 2 * k]));
                    assert(is_hex_digit(text@[3 + 2 * k]));
                }
                return None;
            },
        }
        k += 1;
    }
    assert(bytes@ =~= ethereum_address_bytes(address.spec_bytes()));
    Some(bytes)
}

/// The public key that signed a 32-byte message hash, as secp256k1 recovery
/// gives it from the 64 bytes of the signature and its recovery number, or
/// `None` where the recovery fails. It stands for the outside function on a
/// hash of 32 bytes and a signature of 64 only.
pub uninterp spec fn secp256k1_recovered(hash: Seq<u8>, recovery_id: u8, signature: Seq<u8>) -> Option<
    Seq<u8>,
>;

/// Calls `anchor_lang::solana_program::secp256k1_recover::secp256k1_recover`
/// and hands back the 64 bytes of the recovered key, or `None` for any of
/// its errors. The outside function reads 32 bytes of the hash and 64 of
/// the signature whatever the slices hold, so the caller hands it exactly
/// that many. On such arguments the outcome is a function of the three
/// alone; nothing is claimed of any others.
#[verifier::external_body]
pub(crate) fn recover_public_key(hash: &[u8], recovery_id: u8, signature: &[u8]) -> (key: Option<
    [u8; 64],
>)
    requires
        hash@.len() == 32,
        signature@.len() == 64,
    ensures
        match key {
            Some(bytes) => secp256k1_recovered(hash@, recovery_id, signature@) == Some(bytes@),
            None => secp256k1_recovered(hash@, recovery_id, signature@) is None,
        },
{
    match secp256k1_recover(hash, recovery_id, signature) {
        Ok(key) => Some(key.to_bytes()),
        Err(_) => None,
    }
}

/// The recovery number that the last byte of a signature stands for: the
/// byte itself, or the byte less 27 where the signer added that offset.
pub open spec fn recovery_id_of(v: u8) -> u8 {
    if v >= 27 {
        (v - 27) as u8
    } else {
        v
    }
}

/// The address of a public key: the last 20 bytes of the key's digest.
pub open spec fn address_of_key(key: Seq<u8>) -> Seq<u8> {
    keccak256(key).subrange(12, 32)
}

/// The address whose key signed `payload` with `signature`: the signature is
/// 65 bytes, and recovery on the digest of the payload gives a key. `None`
/// otherwise.
pub open spec fn signer_of(payload: Seq<u8>, signature: Seq<u8>) -> Option<Seq<u8>> {
    if signature.len() != 65 {
        None
    } else {
        match secp256k1_recovered(
            keccak256(payload),
            recovery_id_of(signature[64]),
            signature.subrange(0, 64),
        ) {
            Some(key) => Some(address_of_key(key)),
            None => None,
        }
    }
}

/// Whether `signature` authenticates `payload` under the address that
/// `address_text` spells.
pub open spec fn authenticates(address_text: Seq<u8>, payload: Seq<u8>, signature: Seq<u8>) -> bool {
    &&& valid_ethereum_address(address_text)
    &&& signer_of(payload, signature) == Some(ethereum_address_bytes(address_text))
}

/// The last 20 bytes of a key's digest.
pub fn address_from_digest(digest: &[u8; 32]) -> (address: Vec<u8>)
    ensures
        address@ == digest@.subrange(12, 32),
{
    let mut address: Vec<u8> = Vec::new();
    let mut i: usize = 12;
    while i < 32
        invariant
            12 <= i <= 32,
            address@ == digest@.subrange(12, i as int),
        decreases 32 - i,
    {
        address.push(digest[i]);
        i += 1;
    }
    address
}

/// Recovers the address whose key signed `payload` with `signature`.
pub fn recover_signer(payload: &[u8], signature: &[u8]) -> (signer: Option<Vec<u8>>)
    ensures
        match signer {
            Some(address) => signer_of(payload@, signature@) == Some(address@),
            None => signer_of(payload@, signature@) is None,
        },
{
    if signature.len() != 65 {
        return None;
    }
    let v = signature[64];
    let recovery_id = if v >= 27 {
        v - 27
    } else {
        v
    };
    let hash = keccak256_digest(payload);
    let mut body: Vec<u8> = Vec::new();
    let mut i: usize = 0;
    while i < 64
        invariant
            i <= 64,
            signature@.len() == 65,
            body@ == signature@.subrange(0, i as int),
        decreases 64 - i,
    {
        body.push(signature[i]);
        i += 1;
    }
    match recover_public_key(hash.as_slice(), recovery_id, body.as_slice()) {
        Some(key) => {
            let digest = keccak256_digest(key.as_slice());
            Some(address_from_digest(&digest))
        },
        None => None,
    }
}

/// Whether two byte strings are equal.
pub fn bytes_equal(a: &[u8], b: &[u8]) -> (same: bool)
    ensures
        same == (a@ == b@),
{
    if a.len() != b.len() {
        return false;
    }
    let mut i: usize = 0;
    while i < a.len()
        invariant
            i <= a.len(),
            a@.len() == b@.len(),
            forall|k: int| 0 <= k < i ==> a@[k] == b@[k],
        decreases a.len() - i,
    {
        if a[i] != b[i] {
            return false;
        }
        i += 1;
    }
    assert(a@ =~= b@);
    true
}

/// Whether `signature` authenticates `payload` under `address`.
pub fn signature_authenticates(address: &str, payload: &[u8], signature: &[u8]) -> (ok: bool)
    ensures
        ok == authenticates(address.spec_bytes(), payload@, signature@),
{
    match parse_ethereum_address(address) {
        None => false,
        Some(claimed) => match recover_signer(payload, signature) {
            None => false,
            Some(signer) => bytes_equal(signer.as_slice(), claimed.as_slice()),
        },
    }
}

} // verus!
