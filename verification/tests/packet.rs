use congestion_control::packet::{MaxPacketAmountDetails, ParseError};

#[test]
fn details_encode_to_big_endian_bytes() {
    let details = MaxPacketAmountDetails::new(100, 10);
    assert_eq!(
        details.to_bytes(),
        vec![0, 0, 0, 0, 0, 0, 0, 100, 0, 0, 0, 0, 0, 0, 0, 10]
    );

    let wide = MaxPacketAmountDetails::new(0x0102030405060708, u64::MAX);
    assert_eq!(
        wide.to_bytes(),
        vec![1, 2, 3, 4, 5, 6, 7, 8, 255, 255, 255, 255, 255, 255, 255, 255]
    );
}

#[test]
fn details_decode_reads_big_endian_fields() {
    let bytes = [0, 0, 0, 0, 0, 0, 1, 0, 0, 0, 0, 0, 0, 0, 0, 7];
    let details = MaxPacketAmountDetails::from_bytes(&bytes).unwrap();
    assert_eq!(details.amount_received, 256);
    assert_eq!(details.max_amount, 7);
}

#[test]
fn details_round_trip() {
    let details = MaxPacketAmountDetails::new(123456789012345678, 42);
    let decoded = MaxPacketAmountDetails::from_bytes(&details.to_bytes()).unwrap();
    assert_eq!(decoded, details);
}

#[test]
fn details_decode_rejects_short_input() {
    assert_eq!(
        MaxPacketAmountDetails::from_bytes(&[]),
        Err(ParseError::UnexpectedEnd)
    );
    let fifteen = [0u8; 15];
    assert_eq!(
        MaxPacketAmountDetails::from_bytes(&fifteen),
        Err(ParseError::UnexpectedEnd)
    );
}

#[test]
fn details_decode_ignores_trailing_bytes() {
    let mut bytes = MaxPacketAmountDetails::new(9, 8).to_bytes();
    bytes.push(0xFF);
    let decoded = MaxPacketAmountDetails::from_bytes(&bytes).unwrap();
    assert_eq!(decoded, MaxPacketAmountDetails::new(9, 8));
}
