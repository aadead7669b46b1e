//! Unsigned 256-bit and 512-bit words.
//!
//! A word is a little-endian array of 64-bit limbs, and its view is the natural number that the
//! limbs spell. The arithmetic is that of the `ethereum-types` crate; comparisons and the passage
//! from one width to the other are done on the limbs here.
use vstd::arithmetic::power2::pow2;
use vstd::prelude::*;

verus! {

/// The number of values of a `U256`.
pub open spec fn u256_range() -> nat {
    0x1_0000_0000_0000_0000_0000_0000_0000_0000_0000_0000_0000_0000_0000_0000_0000_0000nat
}

/// The number of values of a `U512`.
pub open spec fn u512_range() -> nat {
    u256_range() * u256_range()
}

/// The value that four little-endian limbs spell.
pub open spec fn value_of_limbs(l0: u64, l1: u64, l2: u64, l3: u64) -> nat {
    (l0 + l1 * 0x1_0000_0000_0000_0000nat
        + l2 * 0x1_0000_0000_0000_0000_0000_0000_0000_0000nat
        + l3 * 0x1_0000_0000_0000_0000_0000_0000_0000_0000_0000_0000_0000_0000nat) as nat
}

/// An unsigned 256-bit word.
#[derive(Clone, Copy, Debug)]
pub struct U256 {
    /// The limbs, least significant first.
    pub limbs: [u64; 4],
}

impl View for U256 {
    type V = nat;

    open spec fn view(&self) -> nat {
        value_of_limbs(self.limbs[0], self.limbs[1], self.limbs[2], self.limbs[3])
    }
}

/// An unsigned 512-bit word.
#[derive(Clone, Copy, Debug, PartialEq, Eq)]
pub struct U512 {
    /// The limbs, least significant first.
    pub limbs: [u64; 8],
}

impl View for U512 {
    type V = nat;

    open spec fn view(&self) -> nat {
        value_of_limbs(self.limbs[0], self.limbs[1], self.limbs[2], self.limbs[3])
            + u256_range() * value_of_limbs(self.limbs[4], self.limbs[5], self.limbs[6], self.limbs[7])
    }
}

/// The word whose value is `n`, for an `n` below `u256_range()`.
pub open spec fn u256(n: nat) -> U256 {
    choose|w: U256| w@ == n
}

/// The wide word whose value is `n`, for an `n` below `u512_range()`.
pub open spec fn u512(n: nat) -> U512 {
    choose|w: U512| w@ == n
}

/// A number has one lowest limb and one rest.
proof fn lemma_limb_is_unique(l1: nat, h1: nat, l2: nat, h2: nat)
    requires
        l1 < 0x1_0000_0000_0000_0000nat,
        l2 < 0x1_0000_0000_0000_0000nat,
        l1 + 0x1_0000_0000_0000_0000nat * h1 == l2 + 0x1_0000_0000_0000_0000nat * h2,
    ensures
        l1 == l2,
        h1 == h2,
{
}

/// Words of equal value are equal.
pub proof fn lemma_u256_injective(a: U256, b: U256)
    requires
        a@ == b@,
    ensures
        a == b,
{
    let base = 0x1_0000_0000_0000_0000nat;
    let (a0, a1, a2, a3) = (a.limbs[0] as nat, a.limbs[1] as nat, a.limbs[2] as nat, a.limbs[3] as nat);
    let (b0, b1, b2, b3) = (b.limbs[0] as nat, b.limbs[1] as nat, b.limbs[2] as nat, b.limbs[3] as nat);
    lemma_limb_is_unique(a0, a1 + base * (a2 + base * a3), b0, b1 + base * (b2 + base * b3));
    lemma_limb_is_unique(a1, a2 + base * a3, b1, b2 + base * b3);
    lemma_limb_is_unique(a2, a3, b2, b3);
    assert(a.limbs =~= b.limbs);
}

/// Wide words of equal value are equal.
pub proof fn lemma_u512_injective(a: U512, b: U512)
    requires
        a@ == b@,
    ensures
        a == b,
{
    let a_low = U256 { limbs: [a.limbs[0], a.limbs[1], a.limbs[2], a.limbs[3]] };
    let a_high = U256 { limbs: [a.limbs[4], a.limbs[5], a.limbs[6], a.limbs[7]] };
    let b_low = U256 { limbs: [b.limbs[0], b.limbs[1], b.limbs[2], b.limbs[3]] };
    let b_high = U256 { limbs: [b.limbs[4], b.limbs[5], b.limbs[6], b.limbs[7]] };
    lemma_u256_bound(a_low);
    lemma_u256_bound(b_low);
    assert(a@ == a_low@ + u256_range() * a_high@);
    assert(b@ == b_low@ + u256_range() * b_high@);
    lemma_split_is_unique(a_low@, a_high@, b_low@, b_high@);
    lemma_u256_injective(a_low, b_low);
    lemma_u256_injective(a_high, b_high);
    assert forall|i: int| 0 <= i < 8 implies a.limbs[i] == b.limbs[i] by {
        assert(i < 4 ==> a.limbs[i] == a_low.limbs[i] && b.limbs[i] == b_low.limbs[i]);
        assert(i >= 4 ==> a.limbs[i] == a_high.limbs[i - 4] && b.limbs[i] == b_high.limbs[i - 4]);
    }
    assert(a.limbs =~= b.limbs);
}

/// A number has one low half and one high half.
proof fn lemma_split_is_unique(l1: nat, h1: nat, l2: nat, h2: nat)
    requires
        l1 < u256_range(),
        l2 < u256_range(),
        l1 + u256_range() * h1 == l2 + u256_range() * h2,
    ensures
        l1 == l2,
        h1 == h2,
{
}

/// A word is the word of its value.
pub broadcast proof fn lemma_u256_of_value(w: U256)
    ensures
        u256(#[trigger] w@) == w,
{
    lemma_u256_injective(u256(w@), w);
}

/// A wide word is the wide word of its value.
pub broadcast proof fn lemma_u512_of_value(w: U512)
    ensures
        u512(#[trigger] w@) == w,
{
    lemma_u512_injective(u512(w@), w);
}

/// Every value is below the range.
pub broadcast proof fn lemma_u256_bound(w: U256)
    ensures
        #[trigger] w@ < u256_range(),
{
}

/// Every number below the range has its word.
pub broadcast proof fn lemma_u256_value(n: nat)
    requires
        n < u256_range(),
    ensures
        #[trigger] u256(n)@ == n,
{
    let b: nat = 0x1_0000_0000_0000_0000nat;
    let q1 = n / b;
    let q2 = q1 / b;
    let q3 = q2 / b;
    let w = U256 { limbs: [(n % b) as u64, (q1 % b) as u64, (q2 % b) as u64, q3 as u64] };
    assert(w.limbs[0] == n % b);
    assert(w.limbs[1] == q1 % b);
    assert(w.limbs[2] == q2 % b);
    assert(w.limbs[3] == q3);
    assert(w@ == n);
}

/// Every number below the range has its wide word.
pub proof fn lemma_u512_value(n: nat)
    requires
        n < u512_range(),
    ensures
        u512(n)@ == n,
{
    let range = u256_range();
    let low = u256(n % range);
    let high = u256(n / range);
    assert(n / range < range) by (nonlinear_arith)
        requires
            0 < range,
            n < range * range,
    ;
    lemma_u256_value(n % range);
    lemma_u256_value(n / range);
    let w = U512 {
        limbs: [
            low.limbs[0],
            low.limbs[1],
            low.limbs[2],
            low.limbs[3],
            high.limbs[0],
            high.limbs[1],
            high.limbs[2],
            high.limbs[3],
        ],
    };
    assert(w.limbs[0] == low.limbs[0] && w.limbs[1] == low.limbs[1] && w.limbs[2] == low.limbs[2]
        && w.limbs[3] == low.limbs[3]);
    assert(w.limbs[4] == high.limbs[0] && w.limbs[5] == high.limbs[1] && w.limbs[6]
        == high.limbs[2] && w.limbs[7] == high.limbs[3]);
    assert(w@ == low@ + range * high@);
    assert(w@ == n);
}

pub broadcast group group_words {
    lemma_u256_of_value,
    lemma_u512_of_value,
    lemma_u256_bound,
    lemma_u256_value,
}

/// The sum, held at the largest word.
pub open spec fn saturating_sum(a: nat, b: nat) -> nat {
    if a + b < u256_range() {
        a + b
    } else {
        (u256_range() - 1) as nat
    }
}

/// The product, held at the largest word.
pub open spec fn saturating_product(a: nat, b: nat) -> nat {
    if a * b < u256_range() {
        a * b
    } else {
        (u256_range() - 1) as nat
    }
}

impl U256 {
    /// The word zero.
    pub fn zero() -> (r: U256)
        ensures
            r@ == 0,
    {
        U256 { limbs: [0, 0, 0, 0] }
    }

    /// The word of a 64-bit number.
    pub fn from_u64(n: u64) -> (r: U256)
        ensures
            r@ == n,
    {
        U256 { limbs: [n, 0, 0, 0] }
    }

    /// Whether this is zero.
    pub fn is_zero(&self) -> (r: bool)
        ensures
            r == (self@ == 0),
    {
        self.limbs[0] == 0 && self.limbs[1] == 0 && self.limbs[2] == 0 && self.limbs[3] == 0
    }

    /// Whether this is below `other`.
    pub fn less_than(&self, other: &U256) -> (r: bool)
        ensures
            r == (self@ < other@),
    {
        if self.limbs[3] != other.limbs[3] {
            self.limbs[3] < other.limbs[3]
        } else if self.limbs[2] != other.limbs[2] {
            self.limbs[2] < other.limbs[2]
        } else if self.limbs[1] != other.limbs[1] {
            self.limbs[1] < other.limbs[1]
        } else {
            self.limbs[0] < other.limbs[0]
        }
    }

    /// The smaller of two words.
    pub fn smaller(self, other: U256) -> (r: U256)
        ensures
            r@ == (if self@ <= other@ { self@ } else { other@ }),
    {
        if other.less_than(&self) {
            other
        } else {
            self
        }
    }

    /// Whether the sum with `other` fits a word.
    pub fn sum_fits(&self, other: &U256) -> (r: bool)
        ensures
            r == (self@ + other@ < u256_range()),
    {
        let largest = U256 { limbs: [u64::MAX, u64::MAX, u64::MAX, u64::MAX] };
        assert(largest@ == u256_range() - 1);
        !largest.minus(*other).less_than(self)
    }

    /// Whether the product with `other` fits a word.
    pub fn product_fits(&self, other: &U256) -> (r: bool)
        ensures
            r == (self@ * other@ < u256_range()),
    {
        self.full_mul(*other).fits()
    }

    /// The same value, in a wide word.
    pub fn widen(&self) -> (r: U512)
        ensures
            r@ == self@,
    {
        U512 {
            limbs: [self.limbs[0], self.limbs[1], self.limbs[2], self.limbs[3], 0, 0, 0, 0],
        }
    }

    /// `U256 + U256` of `ethereum-types`: the sum. The operator panics when the sum does not fit.
    #[verifier::external_body]
    pub(crate) fn plus(self, other: U256) -> (r: U256)
        requires
            self@ + other@ < u256_range(),
        ensures
            r@ == self@ + other@,
    {
        U256 { limbs: (ethereum_types::U256(self.limbs) + ethereum_types::U256(other.limbs)).0 }
    }

    /// `U256 - U256` of `ethereum-types`: the difference. The operator panics when `other` is the
    /// larger.
    #[verifier::external_body]
    pub(crate) fn minus(self, other: U256) -> (r: U256)
        requires
            other@ <= self@,
        ensures
            r@ == self@ - other@,
    {
        U256 { limbs: (ethereum_types::U256(self.limbs) - ethereum_types::U256(other.limbs)).0 }
    }

    /// `U256 * U256` of `ethereum-types`: the product. The operator panics when the product does
    /// not fit.
    #[verifier::external_body]
    pub(crate) fn times(self, other: U256) -> (r: U256)
        requires
            self@ * other@ < u256_range(),
        ensures
            r@ == self@ * other@,
    {
        U256 { limbs: (ethereum_types::U256(self.limbs) * ethereum_types::U256(other.limbs)).0 }
    }

    /// `U256 >> usize` of `ethereum-types`: the value divided by two as often as `bits` says,
    /// rounded down.
    #[verifier::external_body]
    pub(crate) fn shift_right(self, bits: usize) -> (r: U256)
        ensures
            r@ == self@ / pow2(bits as nat),
    {
        U256 { limbs: (ethereum_types::U256(self.limbs) >> bits).0 }
    }

    /// `U256::saturating_add` of `ethereum-types`: the sum, or the largest word when the sum does
    /// not fit.
    #[verifier::external_body]
    pub(crate) fn saturating_add(self, other: U256) -> (r: U256)
        ensures
            r@ == saturating_sum(self@, other@),
    {
        let sum = ethereum_types::U256(self.limbs).saturating_add(ethereum_types::U256(other.limbs));
        U256 { limbs: sum.0 }
    }

    /// `U256::saturating_mul` of `ethereum-types`: the product, or the largest word when the
    /// product does not fit.
    #[verifier::external_body]
    pub(crate) fn saturating_mul(self, other: U256) -> (r: U256)
        ensures
            r@ == saturating_product(self@, other@),
    {
        let product = ethereum_types::U256(self.limbs).saturating_mul(ethereum_types::U256(other.limbs));
        U256 { limbs: product.0 }
    }

    /// `U256::full_mul` of `ethereum-types`: the whole product, which always fits a wide word.
    #[verifier::external_body]
    pub(crate) fn full_mul(self, other: U256) -> (r: U512)
        ensures
            r@ == self@ * other@,
    {
        U512 { limbs: ethereum_types::U256(self.limbs).full_mul(ethereum_types::U256(other.limbs)).0 }
    }
}

impl U512 {
    /// Whether this is below `other`.
    pub fn less_than(&self, other: &U512) -> (r: bool)
        ensures
            r == (self@ < other@),
    {
        let high_self = U256 { limbs: [self.limbs[4], self.limbs[5], self.limbs[6], self.limbs[7]] };
        let high_other = U256 {
            limbs: [other.limbs[4], other.limbs[5], other.limbs[6], other.limbs[7]],
        };
        let low_self = U256 { limbs: [self.limbs[0], self.limbs[1], self.limbs[2], self.limbs[3]] };
        let low_other = U256 {
            limbs: [other.limbs[0], other.limbs[1], other.limbs[2], other.limbs[3]],
        };
        if high_self.less_than(&high_other) {
            true
        } else if high_other.less_than(&high_self) {
            false
        } else {
            low_self.less_than(&low_other)
        }
    }

    /// Whether a narrow word can hold the value.
    pub fn fits(&self) -> (r: bool)
        ensures
            r == (self@ < u256_range()),
    {
        let low = U256 { limbs: [self.limbs[0], self.limbs[1], self.limbs[2], self.limbs[3]] };
        let high = U256 { limbs: [self.limbs[4], self.limbs[5], self.limbs[6], self.limbs[7]] };
        assert(low@ < u256_range());
        high.is_zero()
    }

    /// The same value in a narrow word, which must be able to hold it.
    pub fn narrow(&self) -> (r: U256)
        requires
            self@ < u256_range(),
        ensures
            r@ == self@,
    {
        U256 { limbs: [self.limbs[0], self.limbs[1], self.limbs[2], self.limbs[3]] }
    }

    /// `U512 + U512` of `ethereum-types`: the sum. The operator panics when the sum does not fit.
    #[verifier::external_body]
    pub(crate) fn plus(self, other: U512) -> (r: U512)
        requires
            self@ + other@ < u512_range(),
        ensures
            r@ == self@ + other@,
    {
        U512 { limbs: (ethereum_types::U512(self.limbs) + ethereum_types::U512(other.limbs)).0 }
    }
}

impl PartialEq for U256 {
    fn eq(&self, other: &U256) -> (r: bool) {
        let r = self.limbs[0] == other.limbs[0] && self.limbs[1] == other.limbs[1]
            && self.limbs[2] == other.limbs[2] && self.limbs[3] == other.limbs[3];
        proof {
            if r {
                assert(self.limbs =~= other.limbs);
            }
        }
        r
    }
}

impl vstd::std_specs::cmp::PartialEqSpecImpl for U256 {
    open spec fn obeys_eq_spec() -> bool {
        true
    }

    open spec fn eq_spec(&self, other: &U256) -> bool {
        *self == *other
    }
}

impl Eq for U256 {
}

} // verus!
