use simple_token_swap::pricing::amm_calculation;
use simple_token_swap::pricing::quote;
use simple_token_swap::TokenSwapError;

fn round_trip(reserve_a: u64, reserve_b: u64, amount: u64) -> u64 {
    let paid = quote(reserve_a, reserve_b, amount).unwrap();
    quote(reserve_b - paid, reserve_a + amount, paid).unwrap()
}

#[test]
fn product_is_exact_in_128_bits() {
    assert_eq!(amm_calculation(3, 4), Ok(12));
    assert_eq!(amm_calculation(0, u64::MAX), Ok(0));
    assert_eq!(amm_calculation(1_000, 1_000), Ok(1_000_000));
    assert_eq!(
        amm_calculation(u64::MAX, u64::MAX),
        Ok(340282366920938463426481119284349108225u128)
    );
}

#[test]
fn quote_of_hundred_on_equal_thousands_is_ninety_one() {
    assert_eq!(quote(1_000, 1_000, 100), Ok(91));
}

#[test]
fn quote_rounds_what_the_pool_keeps_down() {
    // 999_900 / 1_200 is 833.25: the pool keeps 833 of 909.
    assert_eq!(quote(1_100, 909, 100), Ok(76));
    // 1_000_000 / 1_101 is 908.26...: the pool keeps 908.
    assert_eq!(quote(1_000, 1_000, 101), Ok(92));
    // No rounding: 1_000_000 / 2_000 is 500.
    assert_eq!(quote(1_000, 1_000, 1_000), Ok(500));
}

#[test]
fn quote_of_nothing_is_nothing() {
    for (reserve_in, reserve_out) in [
        (0u64, 0u64),
        (0, 5),
        (7, 0),
        (1_000, 1_000),
        (1, u64::MAX),
        (u64::MAX, 1),
        (u64::MAX, u64::MAX),
    ] {
        assert_eq!(quote(reserve_in, reserve_out, 0), Ok(0));
    }
}

#[test]
fn quote_at_the_largest_amounts_is_exact() {
    // The product and the sum both fit in 128 bits; nothing wraps and
    // nothing is refused: half of the output reserve, rounded up, is paid.
    assert_eq!(quote(u64::MAX, u64::MAX, u64::MAX), Ok(1u64 << 63));
    assert_eq!(quote(u64::MAX, u64::MAX, 1), Ok(1));
    assert_eq!(quote(1, u64::MAX, u64::MAX), Ok(u64::MAX));
}

#[test]
fn quote_never_fails_with_a_calculation_error() {
    let edges = [0u64, 1, 2, 1_000, u64::MAX / 2, u64::MAX - 1, u64::MAX];
    for reserve_in in edges {
        for reserve_out in edges {
            for amount_in in edges {
                let r = quote(reserve_in, reserve_out, amount_in);
                assert_ne!(r, Err(TokenSwapError::CalculationOverflow));
                assert!(r.is_ok());
            }
        }
    }
}

#[test]
fn quote_never_exceeds_the_output_reserve() {
    let edges = [0u64, 1, 3, 909, 1_000, u64::MAX - 1, u64::MAX];
    for reserve_in in edges {
        for reserve_out in edges {
            for amount_in in edges {
                assert!(quote(reserve_in, reserve_out, amount_in).unwrap() <= reserve_out);
            }
        }
    }
}

#[test]
fn an_empty_input_reserve_gives_the_whole_output_reserve() {
    assert_eq!(quote(0, 500, 1), Ok(500));
    assert_eq!(quote(0, u64::MAX, u64::MAX), Ok(u64::MAX));
}

#[test]
fn an_empty_output_reserve_gives_nothing() {
    assert_eq!(quote(5, 0, 3), Ok(0));
}

#[test]
fn quote_grows_with_the_amount_paid_in() {
    let mut last = 0;
    for amount_in in 0..=2_500u64 {
        let paid = quote(1_000, 1_000, amount_in).unwrap();
        assert!(paid >= last);
        last = paid;
    }
    assert_eq!(last, 715);
}

#[test]
fn unit_price_falls_where_the_larger_trade_is_exact() {
    // 1_000 in pays exactly 500; 100 in pays 91.
    let smaller = quote(1_000, 1_000, 100).unwrap();
    let larger = quote(1_000, 1_000, 1_000).unwrap();
    assert_eq!((smaller, larger), (91, 500));
    assert!(larger as u128 * 100 <= smaller as u128 * 1_000);
}

#[test]
fn unit_price_rises_by_less_than_one_unit_of_rounding() {
    let smaller = quote(1_000, 1_000, 100).unwrap();
    let larger = quote(1_000, 1_000, 101).unwrap();
    assert_eq!((smaller, larger), (91, 92));
    // Rounding lets the price per unit rise here ...
    assert!(larger * 100 > smaller * 101);
    // ... but by less than one unit of output.
    assert!(larger * 100 < smaller * 101 + 100);
    for a in 1..200u64 {
        for b in a..200u64 {
            let p = quote(777, 1_234, a).unwrap();
            let q = quote(777, 1_234, b).unwrap();
            assert!(q * a < p * b + a);
        }
    }
}

#[test]
fn round_trip_without_rounding_returns_the_amount() {
    assert_eq!(quote(1_000, 1_000, 1_000), Ok(500));
    assert_eq!(round_trip(1_000, 1_000, 1_000), 1_000);
    assert_eq!(round_trip(1_000, 1_000, 0), 0);
    assert_eq!(round_trip(1_000, 0, 17), 0);
    assert_eq!(round_trip(0, 0, 0), 0);
}

#[test]
fn round_trip_with_rounding_returns_more_than_the_amount() {
    // 100 buys 91, and 91 buys 101 back.
    assert_eq!(round_trip(1_000, 1_000, 100), 101);
    for amount in 1..300u64 {
        let back = round_trip(1_000, 1_000, amount);
        if 1_000_000 % (1_000 + amount) == 0 {
            assert_eq!(back, amount);
        } else {
            assert!(back > amount);
        }
    }
}

#[test]
fn product_after_a_trade_is_kept_up_to_rounding() {
    for amount in 1..500u128 {
        let paid = quote(1_000, 1_000, amount as u64).unwrap() as u128;
        let after = (1_000 + amount) * (1_000 - paid);
        assert!(after <= 1_000_000);
        assert!(1_000_000 < after + 1_000 + amount);
    }
}
