use price_oracle::oracle::{Call, Module};
use price_oracle::validity::{InvalidTransaction, ValidTransaction};

#[test]
fn submission_is_admitted_eagerly_whatever_the_value() {
    for v in [0u64, 1, 100, u64::MAX] {
        let expected = ValidTransaction {
            priority: u64::MAX,
            requires: vec![],
            provides: vec![],
            longevity: u64::MAX,
            propagate: true,
        };
        assert_eq!(Module::validate_unsigned(&Call::SubmitPrice(v)), Ok(expected));
    }
}

#[test]
fn other_calls_are_rejected() {
    assert_eq!(
        Module::validate_unsigned(&Call::SetPrices(5)),
        Err(InvalidTransaction::InvalidCall)
    );
    assert_eq!(
        Module::validate_unsigned(&Call::SetPrices(0)),
        Err(InvalidTransaction::InvalidCall)
    );
}

#[test]
fn validation_reads_no_storage() {
    let mut m = Module::new();
    assert_eq!(m.set_prices(price_oracle::oracle::Origin::Privileged, 8), Ok(()));
    assert!(Module::validate_unsigned(&Call::SubmitPrice(1)).is_ok());
    assert_eq!(m.price(), 8);
}
