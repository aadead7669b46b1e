//! Laws of contract addresses.
use crate::contract_address::{
    address_preimage, big_endian, new_contract_address, rlp_pair, rlp_string, CreateContractAddress,
};
use crate::hash::{group_hashes, keccak256, Address, H256};
use crate::uint::{group_words, lemma_u256_injective, u256_range, U256};
use vstd::arithmetic::power::pow;
use vstd::prelude::*;

verus! {

/// The address from sender and nonce does not depend on the code.
pub proof fn law_nonce_scheme_ignores_code(
    sender: Address,
    nonce: U256,
    code: Seq<u8>,
    other_code: Seq<u8>,
)
    ensures
        new_contract_address(CreateContractAddress::FromSenderAndNonce, sender, nonce, code)
            == new_contract_address(
            CreateContractAddress::FromSenderAndNonce,
            sender,
            nonce,
            other_code,
        ),
{
}

/// The addresses from the hash of the code do not depend on the nonce: a sender that creates the
/// same code again, under the same salt, finds the address taken.
pub proof fn law_code_hash_schemes_ignore_nonce(
    scheme: CreateContractAddress,
    sender: Address,
    nonce: U256,
    other_nonce: U256,
    code: Seq<u8>,
)
    requires
        !(scheme is FromSenderAndNonce),
    ensures
        new_contract_address(scheme, sender, nonce, code) == new_contract_address(
            scheme,
            sender,
            other_nonce,
            code,
        ),
{
}

/// Numbers with the same big-endian bytes are equal.
proof fn lemma_big_endian_injective(m: nat, n: nat)
    requires
        big_endian(m) == big_endian(n),
    ensures
        m == n,
    decreases m,
{
    if m == 0 {
        assert(n != 0 ==> big_endian(n).len() > 0);
    } else {
        assert(big_endian(m).len() > 0);
        assert(n != 0);
        assert(big_endian(m).drop_last() =~= big_endian(m / 256));
        assert(big_endian(n).drop_last() =~= big_endian(n / 256));
        assert(big_endian(m).last() == (m % 256) as u8);
        assert(big_endian(n).last() == (n % 256) as u8);
        lemma_big_endian_injective(m / 256, n / 256);
    }
}

/// Strings with the same form are equal.
proof fn lemma_rlp_string_injective(a: Seq<u8>, b: Seq<u8>)
    requires
        rlp_string(a) == rlp_string(b),
    ensures
        a == b,
{
    let (form_a, form_b) = (rlp_string(a), rlp_string(b));
    let single_a = a.len() == 1 && a[0] < 0x80;
    let single_b = b.len() == 1 && b[0] < 0x80;
    if !single_a {
        assert(form_a.skip(1) =~= a);
        assert(form_a[0] == (0x80 + a.len()) as u8);
    }
    if !single_b {
        assert(form_b.skip(1) =~= b);
        assert(form_b[0] == (0x80 + b.len()) as u8);
    }
}

/// Two pairs of an address and a number with the same form are equal.
proof fn lemma_rlp_pair_injective(a: Seq<u8>, b: Seq<u8>, other_a: Seq<u8>, other_b: Seq<u8>)
    requires
        a.len() == 20,
        other_a.len() == 20,
        rlp_pair(a, b) == rlp_pair(other_a, other_b),
    ensures
        a == other_a,
        b == other_b,
{
    let (form, other) = (rlp_pair(a, b), rlp_pair(other_a, other_b));
    assert(form.subrange(2, 22) =~= a);
    assert(other.subrange(2, 22) =~= other_a);
    assert(form.skip(22) =~= rlp_string(b));
    assert(other.skip(22) =~= rlp_string(other_b));
    lemma_rlp_string_injective(b, other_b);
}

/// What is hashed for an address from sender and nonce tells both: two such creations share their
/// address only where the hash collides.
pub proof fn law_nonce_scheme_tells_sender_and_nonce(
    sender: Address,
    nonce: U256,
    code: Seq<u8>,
    other_sender: Address,
    other_nonce: U256,
    other_code: Seq<u8>,
)
    ensures
        address_preimage(CreateContractAddress::FromSenderAndNonce, sender, nonce, code)
            == address_preimage(
            CreateContractAddress::FromSenderAndNonce,
            other_sender,
            other_nonce,
            other_code,
        ) ==> sender == other_sender && nonce == other_nonce,
{
    broadcast use group_hashes;

    if address_preimage(CreateContractAddress::FromSenderAndNonce, sender, nonce, code)
            == address_preimage(
            CreateContractAddress::FromSenderAndNonce,
            other_sender,
            other_nonce,
            other_code,
        ) {
        lemma_rlp_pair_injective(
            sender@,
            big_endian(nonce@),
            other_sender@,
            big_endian(other_nonce@),
        );
        lemma_big_endian_injective(nonce@, other_nonce@);
        lemma_u256_injective(nonce, other_nonce);
    }
}

/// What is hashed for an address from sender, salt and code hash tells all three.
pub proof fn law_salted_scheme_tells_its_parts(
    sender: Address,
    salt: H256,
    nonce: U256,
    code: Seq<u8>,
    other_sender: Address,
    other_salt: H256,
    other_nonce: U256,
    other_code: Seq<u8>,
)
    ensures
        address_preimage(
            CreateContractAddress::FromSenderSaltAndCodeHash(salt),
            sender,
            nonce,
            code,
        ) == address_preimage(
            CreateContractAddress::FromSenderSaltAndCodeHash(other_salt),
            other_sender,
            other_nonce,
            other_code,
        ) ==> sender == other_sender && salt == other_salt && keccak256(code) == keccak256(other_code),
{
    broadcast use group_hashes;

    if address_preimage(
            CreateContractAddress::FromSenderSaltAndCodeHash(salt),
            sender,
            nonce,
            code,
        ) == address_preimage(
            CreateContractAddress::FromSenderSaltAndCodeHash(other_salt),
            other_sender,
            other_nonce,
            other_code,
        ) {
        let bytes = sender@ + salt@ + keccak256(code);
        let other = other_sender@ + other_salt@ + keccak256(other_code);
        assert(bytes.take(20) =~= sender@);
        assert(other.take(20) =~= other_sender@);
        assert(bytes.subrange(20, 52) =~= salt@);
        assert(other.subrange(20, 52) =~= other_salt@);
        assert(bytes.skip(52) =~= keccak256(code));
        assert(other.skip(52) =~= keccak256(other_code));
    }
}

/// What is hashed for an address from sender and code hash tells both.
pub proof fn law_unsalted_scheme_tells_its_parts(
    sender: Address,
    nonce: U256,
    code: Seq<u8>,
    other_sender: Address,
    other_nonce: U256,
    other_code: Seq<u8>,
)
    ensures
        address_preimage(CreateContractAddress::FromSenderAndCodeHash, sender, nonce, code)
            == address_preimage(
            CreateContractAddress::FromSenderAndCodeHash,
            other_sender,
            other_nonce,
            other_code,
        ) ==> sender == other_sender && keccak256(code) == keccak256(other_code),
{
    broadcast use group_hashes;

    if address_preimage(CreateContractAddress::FromSenderAndCodeHash, sender, nonce, code)
            == address_preimage(
            CreateContractAddress::FromSenderAndCodeHash,
            other_sender,
            other_nonce,
            other_code,
        ) {
        let bytes = sender@ + keccak256(code);
        let other = other_sender@ + keccak256(other_code);
        assert(bytes.take(20) =~= sender@);
        assert(other.take(20) =~= other_sender@);
        assert(bytes.skip(20) =~= keccak256(code));
        assert(other.skip(20) =~= keccak256(other_code));
    }
}

/// The number that big-endian bytes spell.
pub open spec fn number_of(bytes: Seq<u8>) -> nat
    decreases bytes.len(),
{
    if bytes.len() == 0 {
        0
    } else {
        number_of(bytes.drop_last()) * 256 + bytes.last() as nat
    }
}

/// The big-endian bytes of a number spell it, do not start with a zero, and are as many as it
/// needs.
proof fn lemma_big_endian_spells(n: nat, digits: nat)
    requires
        n < pow(256, digits),
    ensures
        number_of(big_endian(n)) == n,
        big_endian(n).len() <= digits,
        n > 0 ==> big_endian(n).len() > 0 && big_endian(n)[0] > 0,
        n < 256 ==> big_endian(n).len() <= 1,
        n >= 256 ==> big_endian(n).len() > 1,
    decreases n,
{
    reveal(pow);
    if n > 0 {
        assert(digits > 0);
        assert(pow(256, digits) == 256 * pow(256, (digits - 1) as nat));
        lemma_big_endian_spells(n / 256, (digits - 1) as nat);
        assert(big_endian(n).drop_last() =~= big_endian(n / 256));
        assert(big_endian(n).last() == (n % 256) as u8);
        if n / 256 > 0 {
            assert(big_endian(n)[0] == big_endian(n / 256)[0]);
        }
    }
}

/// The address of a new contract is the end of a hash, its last twenty bytes. With a salt, what is
/// hashed is the sender, the salt and the hash of the code; without one, the sender and the hash of
/// the code; each as it is, one after the other.
pub proof fn law_code_hash_addresses(
    salt: H256,
    sender: Address,
    nonce: U256,
    code: Seq<u8>,
)
    ensures
        new_contract_address(
            CreateContractAddress::FromSenderSaltAndCodeHash(salt),
            sender,
            nonce,
            code,
        ) == keccak256(sender@ + salt@ + keccak256(code)).subrange(12, 32),
        new_contract_address(CreateContractAddress::FromSenderAndCodeHash, sender, nonce, code)
            == keccak256(sender@ + keccak256(code)).subrange(12, 32),
{
}

/// The address from sender and nonce is the end of the hash of a list of two strings: the sender,
/// and the nonce. The list starts with its length, and so does each string, but for a single byte
/// below 128, which stands for itself. The nonce is spelled by as few bytes as it takes.
pub proof fn law_nonce_address(sender: Address, nonce: U256, code: Seq<u8>)
    ensures
        ({
            let scheme = CreateContractAddress::FromSenderAndNonce;
            let list = address_preimage(scheme, sender, nonce, code);
            let last = list.skip(22);
            &&& new_contract_address(scheme, sender, nonce, code) == keccak256(list).subrange(12, 32)
            &&& list.len() > 22
            &&& list[0] as int == 0xc0 + list.len() - 1
            &&& list[1] == 0x80 + 20
            &&& list.subrange(2, 22) == sender@
            &&& if 0 < nonce@ < 0x80 {
                &&& last.len() == 1
                &&& last[0] as nat == nonce@
            } else {
                &&& last[0] as int == 0x80 + last.len() - 1
                &&& number_of(last.skip(1)) == nonce@
                &&& last.len() > 1 ==> last[1] > 0
            }
        }),
{
    broadcast use {group_hashes, group_words};

    let bytes = big_endian(nonce@);
    assert(pow(256, 32) == u256_range()) by {
        reveal_with_fuel(pow, 33);
    }
    lemma_big_endian_spells(nonce@, 32);
    assert(sender@.len() == 20);
    assert(rlp_string(sender@).len() == 21);
    let list = rlp_pair(sender@, bytes);
    assert(list.skip(22) =~= rlp_string(bytes));
    assert(list.subrange(2, 22) =~= sender@);
    assert(list[1] == rlp_string(sender@)[0]);
    if nonce@ < 0x80 {
        reveal_with_fuel(big_endian, 2);
        if nonce@ > 0 {
            assert(nonce@ / 256 == 0);
            assert(bytes.len() == 1 && bytes[0] as nat == nonce@);
        }
    } else if nonce@ < 256 {
        reveal_with_fuel(big_endian, 2);
        assert(nonce@ / 256 == 0);
        assert(bytes.len() == 1 && bytes[0] as nat == nonce@);
    }
    if !(0 < nonce@ < 0x80) {
        assert(rlp_string(bytes).skip(1) =~= bytes);
        assert(rlp_string(bytes).len() == bytes.len() + 1);
        assert(bytes.len() > 0 ==> rlp_string(bytes)[1] == bytes[0]);
    }
}

} // verus!
