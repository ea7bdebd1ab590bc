use ekiden_client::cbor::Cbor;
use ekiden_client::error::Failure;

#[test]
fn text_is_written_in_its_short_form() {
    let bytes = Cbor::Text("foobar".to_string()).encode().unwrap();
    assert_eq!(bytes, vec![0x66, 0x66, 0x6f, 0x6f, 0x62, 0x61, 0x72]);
}

#[test]
fn decode_reads_what_encode_wrote() {
    let item = Cbor::Table(vec![
        (Cbor::Text("a".to_string()), Cbor::Integer(-5)),
        (Cbor::Text("bb".to_string()), Cbor::Array(vec![Cbor::Bool(true), Cbor::Null])),
    ]);
    let bytes = item.encode().unwrap();
    assert_eq!(Cbor::decode(&bytes).unwrap(), item);
}

#[test]
fn integer_out_of_range_is_not_written() {
    let item = Cbor::Array(vec![Cbor::Integer(1i128 << 64)]);
    assert!(matches!(item.encode(), Err(Failure::Unencodable)));
}

#[test]
fn float_is_read_by_its_bits_and_not_written() {
    let item = Cbor::decode(&[0xfb, 0x3f, 0xf8, 0, 0, 0, 0, 0, 0]).unwrap();
    assert_eq!(item, Cbor::Float(0x3ff8_0000_0000_0000));
    assert!(matches!(item.encode(), Err(Failure::Unencodable)));
}

#[test]
fn trailing_bytes_are_rejected() {
    assert!(matches!(Cbor::decode(&[0x01, 0x02]), Err(Failure::Codec(_))));
}
