use ledger_accounts::fee::ChargeTransactionPayment;

#[test]
fn the_wire_tag_is_fixed() {
    assert_eq!(ChargeTransactionPayment::identifier(), "ChargeTransactionPayment");
}

#[test]
fn single_byte_mode_encodings() {
    assert_eq!(ChargeTransactionPayment::from(0).encode(), vec![0x00]);
    assert_eq!(ChargeTransactionPayment::from(1).encode(), vec![0x04]);
    assert_eq!(ChargeTransactionPayment::from(42).encode(), vec![0xa8]);
    assert_eq!(ChargeTransactionPayment::from(63).encode(), vec![0xfc]);
}

#[test]
fn two_byte_mode_encodings() {
    assert_eq!(ChargeTransactionPayment::from(64).encode(), vec![0x01, 0x01]);
    assert_eq!(ChargeTransactionPayment::from(16383).encode(), vec![0xfd, 0xff]);
}

#[test]
fn four_byte_mode_encodings() {
    assert_eq!(
        ChargeTransactionPayment::from(16384).encode(),
        vec![0x02, 0x00, 0x01, 0x00]
    );
    assert_eq!(
        ChargeTransactionPayment::from(1_000_000).encode(),
        vec![0x02, 0x09, 0x3d, 0x00]
    );
    assert_eq!(
        ChargeTransactionPayment::from(0x3fff_ffff).encode(),
        vec![0xfe, 0xff, 0xff, 0xff]
    );
}

#[test]
fn big_integer_mode_encodings() {
    assert_eq!(
        ChargeTransactionPayment::from(0x4000_0000).encode(),
        vec![0x03, 0x00, 0x00, 0x00, 0x40]
    );
    let mut expected = vec![0x33];
    expected.extend(std::iter::repeat(0xff).take(16));
    assert_eq!(ChargeTransactionPayment::from(u128::MAX).encode(), expected);
}

#[test]
fn decoding_inverts_encoding() {
    for tip in [0u128, 1, 42, 63, 64, 16383, 16384, 1_000_000, u64::MAX as u128, u128::MAX] {
        let bytes = ChargeTransactionPayment::from(tip).encode();
        let back = ChargeTransactionPayment::decode(&bytes).expect("round trip");
        assert_eq!(back.tip(), tip);
    }
}

#[test]
fn garbage_does_not_decode() {
    assert!(ChargeTransactionPayment::decode(&[]).is_none());
    // trailing bytes after a complete encoding are refused
    assert!(ChargeTransactionPayment::decode(&[0x04, 0x00]).is_none());
}
