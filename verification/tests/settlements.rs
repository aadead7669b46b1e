//! The settlement of gas.
use executive::finalize::{settle, Settlement};
use executive::uint::{U256, U512};

fn word(n: u64) -> U256 {
    U256 { limbs: [n, 0, 0, 0] }
}

/// The word with one bit set.
fn bit(n: usize) -> U256 {
    let mut limbs = [0u64; 4];
    limbs[n / 64] = 1 << (n % 64);
    U256 { limbs }
}

#[test]
fn earned_refund_is_paid() {
    assert_eq!(
        settle(word(100_000), word(3), word(40_000), word(15_000)),
        Settlement {
            refunded: word(15_000),
            gas_left: word(55_000),
            gas_used: word(45_000),
            refund_value: word(165_000),
            fees_value: word(135_000),
        }
    );
}

#[test]
fn half_is_refunded_at_most() {
    let settled = settle(word(100_000), word(3), word(40_000), word(70_000));
    assert_eq!(settled.refunded, word(30_000));
    assert_eq!(settled.gas_used, word(30_000));
    // Half of an odd number is rounded down.
    let settled = settle(word(12), word(1), word(7), word(70_000));
    assert_eq!(settled.refunded, word(2));
    assert_eq!(settled.gas_used, word(3));
}

#[test]
fn unused_gas_is_given_back() {
    let settled = settle(word(21_000), word(7), word(21_000), word(5));
    assert_eq!(settled.refunded, word(0));
    assert_eq!(settled.gas_used, word(0));
    assert_eq!(settled.refund_value, word(147_000));
    assert_eq!(settled.fees_value, word(0));
}

#[test]
fn large_words_are_settled() {
    assert_eq!(
        settle(bit(128), bit(100), word(0), bit(200)),
        Settlement {
            refunded: bit(127),
            gas_left: bit(127),
            gas_used: bit(127),
            refund_value: bit(227),
            fees_value: bit(227),
        }
    );
    let almost = U256 { limbs: [u64::MAX, u64::MAX, u64::MAX, u64::MAX] };
    let settled = settle(almost, word(1), word(1), bit(64));
    assert_eq!(settled.refunded, bit(64));
    assert_eq!(settled.gas_left, U256 { limbs: [1, 1, 0, 0] });
    assert_eq!(settled.gas_used, U256 { limbs: [u64::MAX - 1, u64::MAX - 1, u64::MAX, u64::MAX] });
}

#[test]
fn gas_is_conserved() {
    for unused in [0, 1, 999, 5_000, 10_000].iter() {
        for earned in [0, 1, 500, 4_999, 20_000].iter() {
            let settled = settle(word(10_000), word(11), word(*unused), word(*earned));
            let n = |w: U256| w.limbs[0];
            assert_eq!(n(settled.gas_used) + n(settled.gas_left), 10_000);
            assert_eq!(n(settled.refund_value) + n(settled.fees_value), 110_000);
            assert!(2 * n(settled.refunded) <= 10_000 - unused);
            assert!(n(settled.refunded) <= n(settled.gas_used));
            assert!(n(settled.refunded) <= *earned);
        }
    }
}

#[test]
fn words_compare_and_fit() {
    let largest = U256 { limbs: [u64::MAX; 4] };
    assert!(bit(63).less_than(&bit(64)));
    assert!(!bit(64).less_than(&bit(64)));
    assert!(!bit(255).less_than(&bit(64)));
    assert_eq!(bit(255).smaller(bit(64)), bit(64));
    assert!(word(0).is_zero() && U256::zero().is_zero());
    assert!(!bit(192).is_zero());
    assert!(largest.sum_fits(&word(0)));
    assert!(!largest.sum_fits(&word(1)));
    assert!(bit(127).product_fits(&bit(128)));
    assert!(!bit(128).product_fits(&bit(128)));
    let wide = U512 { limbs: [0, 0, 0, 0, 1, 0, 0, 0] };
    assert!(!wide.fits());
    assert!(largest.widen().fits());
    assert!(largest.widen().less_than(&wide));
    assert!(!wide.less_than(&largest.widen()));
    assert_eq!(largest.widen().narrow(), largest);
}

#[test]
fn larger_refunds_cost_no_more_gas() {
    let mut last = u64::MAX;
    for earned in [0, 1, 10, 2_499, 2_500, 2_501, 9_999].iter() {
        let used = settle(word(10_000), word(1), word(5_000), word(*earned)).gas_used.limbs[0];
        assert!(used <= last);
        last = used;
    }
    assert_eq!(last, 2_500);
}
