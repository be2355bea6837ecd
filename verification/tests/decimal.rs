use nbxdca::{ClientError, Decimal};

#[test]
fn parses_integer_and_fractional_numerals() {
    assert_eq!(Decimal::parse("7"), Ok(Decimal { m: 7, s: 0 }));
    assert_eq!(Decimal::parse("100.0"), Ok(Decimal { m: 1000, s: 1 }));
    assert_eq!(Decimal::parse("2.0"), Ok(Decimal { m: 20, s: 1 }));
    assert_eq!(Decimal::parse("0.5"), Ok(Decimal { m: 5, s: 1 }));
    assert_eq!(Decimal::parse("0.050"), Ok(Decimal { m: 50, s: 3 }));
    assert_eq!(Decimal::parse("0"), Ok(Decimal { m: 0, s: 0 }));
}

#[test]
fn rejects_malformed_numerals() {
    for bad in ["", ".", ".5", "5.", "1.2.3", "-1", "+1", "1e3", " 1", "1 ", "abc", "na.n"] {
        assert_eq!(Decimal::parse(bad), Err(ClientError::Parse), "input {:?}", bad);
    }
}

#[test]
fn mantissa_bound_is_exact() {
    // u64::MAX fits; one more does not.
    assert_eq!(
        Decimal::parse("18446744073709551615"),
        Ok(Decimal { m: 18446744073709551615, s: 0 })
    );
    assert_eq!(Decimal::parse("18446744073709551616"), Err(ClientError::Parse));
    // Leading zeros do not change the value that is bounded.
    assert_eq!(
        Decimal::parse("0018446744073709551615"),
        Ok(Decimal { m: 18446744073709551615, s: 0 })
    );
}

#[test]
fn renders_with_the_dot_inserted() {
    assert_eq!(Decimal { m: 7, s: 0 }.render(), "7");
    assert_eq!(Decimal { m: 20000, s: 2 }.render(), "200.00");
    assert_eq!(Decimal { m: 1000, s: 1 }.render(), "100.0");
    assert_eq!(Decimal { m: 5, s: 1 }.render(), "0.5");
    assert_eq!(Decimal { m: 50, s: 3 }.render(), "0.050");
    assert_eq!(Decimal { m: 5, s: 3 }.render(), "0.005");
    assert_eq!(Decimal { m: 0, s: 0 }.render(), "0");
    assert_eq!(Decimal { m: 0, s: 2 }.render(), "0.00");
}

#[test]
fn render_then_parse_gives_the_value_back() {
    for d in [
        Decimal { m: 0, s: 0 },
        Decimal { m: 7, s: 0 },
        Decimal { m: 5, s: 4 },
        Decimal { m: 12345, s: 2 },
        Decimal { m: u64::MAX as u128, s: 9 },
    ] {
        assert_eq!(Decimal::parse(&d.render()), Ok(d));
    }
}

#[test]
fn multiplication_multiplies_mantissas_and_adds_scales() {
    let price = Decimal { m: 1000, s: 1 };
    let quantity = Decimal { m: 20, s: 1 };
    assert_eq!(
        price.checked_mul(&quantity),
        Some(Decimal { m: 20000, s: 2 })
    );
    let max = Decimal { m: u128::MAX, s: 0 };
    assert_eq!(max.checked_mul(&Decimal { m: 2, s: 0 }), None);
    let deep = Decimal { m: 1, s: u64::MAX };
    assert_eq!(deep.checked_mul(&Decimal { m: 1, s: 1 }), None);
}
