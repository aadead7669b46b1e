//! The address of a contract that is about to be created.
use crate::hash::{keccak, Address, H256};
use crate::uint::U256;
use vstd::prelude::*;

verus! {

/// How the address of a new contract is derived.
#[derive(Clone, Copy, Debug, PartialEq, Eq)]
pub enum CreateContractAddress {
    /// From the sender and its nonce.
    FromSenderAndNonce,
    /// From the sender, the given salt and the hash of the code.
    FromSenderSaltAndCodeHash(H256),
    /// From the sender and the hash of the code.
    FromSenderAndCodeHash,
}

/// The big-endian bytes of `n`, without leading zeros.
pub open spec fn big_endian(n: nat) -> Seq<u8>
    decreases n,
{
    if n == 0 {
        Seq::empty()
    } else {
        big_endian(n / 256).push((n % 256) as u8)
    }
}

/// The recursive-length-prefix form of a string of at most 55 bytes.
pub open spec fn rlp_string(s: Seq<u8>) -> Seq<u8> {
    if s.len() == 1 && s[0] < 0x80 {
        s
    } else {
        seq![(0x80 + s.len()) as u8] + s
    }
}

/// The recursive-length-prefix form of a list of two strings whose forms have at most 55 bytes
/// together.
pub open spec fn rlp_pair(a: Seq<u8>, b: Seq<u8>) -> Seq<u8> {
    let payload = rlp_string(a) + rlp_string(b);
    seq![(0xc0 + payload.len()) as u8] + payload
}

/// `RlpStream` of `rlp`, with `new_list`, `append` and `as_raw`: the encoding of the list that
/// holds the sender's twenty bytes and the nonce as a big-endian number without leading zeros.
#[verifier::external_body]
pub(crate) fn rlp_sender_and_nonce(sender: &Address, nonce: &U256) -> (r: Vec<u8>)
    ensures
        r@ == rlp_pair(sender@, big_endian(nonce@)),
{
    let mut stream = rlp::RlpStream::new_list(2);
    stream.append(&ethereum_types::H160(sender.bytes));
    stream.append(&ethereum_types::U256(nonce.limbs));
    stream.as_raw().to_vec()
}

/// The bytes that are hashed for an address from sender, salt and code hash.
pub fn salted_preimage(sender: &Address, salt: &H256, code_hash: &H256) -> (r: Vec<u8>)
    ensures
        r@ == sender@ + salt@ + code_hash@,
{
    let mut buffer: Vec<u8> = Vec::new();
    buffer.extend_from_slice(&sender.bytes);
    buffer.extend_from_slice(&salt.bytes);
    buffer.extend_from_slice(&code_hash.bytes);
    assert(buffer@ =~= sender@ + salt@ + code_hash@);
    buffer
}

/// The bytes that are hashed for an address from sender and code hash.
pub fn unsalted_preimage(sender: &Address, code_hash: &H256) -> (r: Vec<u8>)
    ensures
        r@ == sender@ + code_hash@,
{
    let mut buffer: Vec<u8> = Vec::new();
    buffer.extend_from_slice(&sender.bytes);
    buffer.extend_from_slice(&code_hash.bytes);
    assert(buffer@ =~= sender@ + code_hash@);
    buffer
}

/// The address in a hash: its last twenty bytes.
pub fn address_from_hash(hash: &H256) -> (r: Address)
    ensures
        r@ == hash@.subrange(12, 32),
{
    let mut bytes: [u8; 20] = [0; 20];
    let mut i: usize = 0;
    while i < 20
        invariant
            i <= 20,
            forall|j: int| 0 <= j < i ==> bytes[j] == hash.bytes[12 + j],
        decreases 20 - i,
    {
        bytes[i] = hash.bytes[12 + i];
        i = i + 1;
    }
    assert(bytes@ =~= hash@.subrange(12, 32));
    Address { bytes }
}

/// The bytes whose hash holds the address of a new contract.
pub open spec fn address_preimage(
    scheme: CreateContractAddress,
    sender: Address,
    nonce: U256,
    code: Seq<u8>,
) -> Seq<u8> {
    match scheme {
        CreateContractAddress::FromSenderAndNonce => rlp_pair(sender@, big_endian(nonce@)),
        CreateContractAddress::FromSenderSaltAndCodeHash(salt) => sender@ + salt@
            + crate::hash::keccak256(code),
        CreateContractAddress::FromSenderAndCodeHash => sender@ + crate::hash::keccak256(code),
    }
}

/// The address of a new contract: the last twenty bytes of the hash of its preimage.
pub open spec fn new_contract_address(
    scheme: CreateContractAddress,
    sender: Address,
    nonce: U256,
    code: Seq<u8>,
) -> Seq<u8> {
    crate::hash::keccak256(address_preimage(scheme, sender, nonce, code)).subrange(12, 32)
}

/// Returns new address created from address, nonce, and code hash, and the hash of the code where
/// the scheme uses it.
pub fn contract_address(
    address_scheme: CreateContractAddress,
    sender: &Address,
    nonce: &U256,
    code: &[u8],
) -> (r: (Address, Option<H256>))
    ensures
        r.0@ == new_contract_address(address_scheme, *sender, *nonce, code@),
        r.1 is None <==> address_scheme is FromSenderAndNonce,
        r.1 matches Some(hash) ==> hash@ == crate::hash::keccak256(code@),
{
    match address_scheme {
        CreateContractAddress::FromSenderAndNonce => {
            let encoded = rlp_sender_and_nonce(sender, nonce);
            (address_from_hash(&keccak(encoded.as_slice())), None)
        },
        CreateContractAddress::FromSenderSaltAndCodeHash(salt) => {
            let code_hash = keccak(code);
            let buffer = salted_preimage(sender, &salt, &code_hash);
            (address_from_hash(&keccak(buffer.as_slice())), Some(code_hash))
        },
        CreateContractAddress::FromSenderAndCodeHash => {
            let code_hash = keccak(code);
            let buffer = unsalted_preimage(sender, &code_hash);
            (address_from_hash(&keccak(buffer.as_slice())), Some(code_hash))
        },
    }
}

} // verus!
