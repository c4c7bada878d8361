use ordinal_rpc::codec::decode_value;
use ordinal_rpc::codec::encode_value;
use ordinal_rpc::dispatch::handle_request;
use ordinal_rpc::dispatch::run_call;
use ordinal_rpc::errors::RpcError;
use ordinal_rpc::proxy::decode_reply;
use ordinal_rpc::proxy::encode_call;
use ordinal_rpc::schema::WireType;
use ordinal_rpc::value::Value;
use ordinal_rpc::world::ConcreteWorld;
use ordinal_rpc::world::world_interface;

fn le(n: u64) -> Vec<u8> {
    n.to_le_bytes().to_vec()
}

#[test]
fn ping_concrete_scenario() {
    // One method `ping(num: unsigned) -> text`, ordinal 0; the client calls
    // ping(5); the wire carries encode(0) then encode(5); the server replies
    // with "pong " repeated five times.
    let iface = world_interface();
    let world = ConcreteWorld;
    let args = vec![Value::Unsigned(5)];

    let request = encode_call(&iface, 0, &args).unwrap();
    let mut expected_request = le(0);
    expected_request.extend(le(5));
    assert_eq!(request, expected_request);

    let response = handle_request(&iface, &world, &request).unwrap();
    let text = b"pong pong pong pong pong ".to_vec();
    let mut expected_response = le(25);
    expected_response.extend(text.clone());
    assert_eq!(response, expected_response);

    match decode_reply(WireType::Text, &response) {
        Ok(Value::Text(bytes)) => assert_eq!(bytes, text),
        _ => panic!("the reply must decode to the text the server computed"),
    }
}

#[test]
fn ping_round_trip_through_run_call() {
    let iface = world_interface();
    let world = ConcreteWorld;
    let args = vec![Value::Unsigned(3)];
    match run_call(&iface, &world, 0, &args) {
        Ok(Value::Text(bytes)) => assert_eq!(bytes, b"pong pong pong ".to_vec()),
        _ => panic!("a valid call must yield the implementation's value"),
    }
}

#[test]
fn ping_zero_repetitions() {
    let iface = world_interface();
    let world = ConcreteWorld;
    let args = vec![Value::Unsigned(0)];
    match run_call(&iface, &world, 0, &args) {
        Ok(Value::Text(bytes)) => assert_eq!(bytes, Vec::<u8>::new()),
        _ => panic!("ping(0) must yield the empty text"),
    }
}

#[test]
fn unknown_selector_is_reported() {
    // An ordinal outside [0, methodCount) is a reported failure, never a
    // crash of the dispatcher.
    let iface = world_interface();
    let world = ConcreteWorld;
    let request = le(7);
    assert_eq!(
        handle_request(&iface, &world, &request),
        Err(RpcError::UnknownSelector(7))
    );

    let args = vec![Value::Unsigned(1)];
    match run_call(&iface, &world, 3, &args) {
        Err(RpcError::UnknownSelector(3)) => {}
        _ => panic!("an out-of-range ordinal must be reported as unknown"),
    }
}

#[test]
fn truncated_request_is_a_decoding_failure() {
    let iface = world_interface();
    let world = ConcreteWorld;
    // Too short for an ordinal.
    let request = vec![1u8, 2u8, 3u8];
    assert_eq!(
        handle_request(&iface, &world, &request),
        Err(RpcError::DecodingFailure)
    );
    // A valid ordinal whose parameter bytes are missing.
    let request = le(0);
    assert_eq!(
        handle_request(&iface, &world, &request),
        Err(RpcError::DecodingFailure)
    );
}

#[test]
fn mismatched_arguments_are_an_encoding_failure() {
    let iface = world_interface();
    let world = ConcreteWorld;
    let args = vec![Value::Boolean(true)];
    assert_eq!(
        encode_call(&iface, 0, &args),
        Err(RpcError::EncodingFailure)
    );
    match run_call(&iface, &world, 0, &args) {
        Err(RpcError::EncodingFailure) => {}
        _ => panic!("arguments that do not fit the declared types cannot be encoded"),
    }
}

#[test]
fn unencodable_reply_is_an_encoding_failure() {
    // A reply of 5 * u64::MAX bytes cannot carry its length prefix; the
    // dispatcher reports it rather than crash.
    let iface = world_interface();
    let world = ConcreteWorld;
    let args = vec![Value::Unsigned(u64::MAX)];
    match run_call(&iface, &world, 0, &args) {
        Err(RpcError::EncodingFailure) => {}
        _ => panic!("an unservable argument must be reported"),
    }
}

#[test]
fn trailing_bytes_after_request_are_ignored() {
    let iface = world_interface();
    let world = ConcreteWorld;
    let args = vec![Value::Unsigned(2)];
    let mut request = encode_call(&iface, 0, &args).unwrap();
    let clean = handle_request(&iface, &world, &request).unwrap();
    request.extend(vec![9u8, 9u8, 9u8]);
    let noisy = handle_request(&iface, &world, &request).unwrap();
    assert_eq!(clean, noisy);
}

#[test]
fn connection_isolation_between_two_connections() {
    // Two independent connections against one server implementation: each
    // has its own request and response buffer, and handling them interleaved
    // in either order yields each connection its own answer.
    let iface = world_interface();
    let world = ConcreteWorld;
    let first = encode_call(&iface, 0, &vec![Value::Unsigned(1)]).unwrap();
    let second = encode_call(&iface, 0, &vec![Value::Unsigned(2)]).unwrap();

    let response_second = handle_request(&iface, &world, &second).unwrap();
    let response_first = handle_request(&iface, &world, &first).unwrap();

    let mut expected_first = le(5);
    expected_first.extend(b"pong ".to_vec());
    let mut expected_second = le(10);
    expected_second.extend(b"pong pong ".to_vec());
    assert_eq!(response_first, expected_first);
    assert_eq!(response_second, expected_second);
}

#[test]
fn codec_round_trips_every_wire_type() {
    let cases = vec![
        (WireType::Unit, Value::Unit),
        (WireType::Boolean, Value::Boolean(true)),
        (WireType::Boolean, Value::Boolean(false)),
        (WireType::Unsigned, Value::Unsigned(0)),
        (WireType::Unsigned, Value::Unsigned(1)),
        (WireType::Unsigned, Value::Unsigned(0xdead_beef)),
        (WireType::Unsigned, Value::Unsigned(u64::MAX)),
        (WireType::Text, Value::Text(Vec::new())),
        (WireType::Text, Value::Text(b"hello".to_vec())),
    ];
    for (ty, value) in cases {
        let mut buf = Vec::new();
        encode_value(&value, &mut buf);
        let (decoded, consumed) = decode_value(ty, &buf, 0).unwrap();
        assert_eq!(consumed, buf.len());
        match (&value, &decoded) {
            (Value::Unit, Value::Unit) => {}
            (Value::Boolean(a), Value::Boolean(b)) => assert_eq!(a, b),
            (Value::Unsigned(a), Value::Unsigned(b)) => assert_eq!(a, b),
            (Value::Text(a), Value::Text(b)) => assert_eq!(a, b),
            _ => panic!("a value must decode back to its own variant"),
        }
    }
}

#[test]
fn codec_encodings_are_exact() {
    let mut buf = Vec::new();
    encode_value(&Value::Unit, &mut buf);
    assert_eq!(buf, Vec::<u8>::new());

    let mut buf = Vec::new();
    encode_value(&Value::Boolean(true), &mut buf);
    assert_eq!(buf, vec![1u8]);

    let mut buf = Vec::new();
    encode_value(&Value::Unsigned(258), &mut buf);
    assert_eq!(buf, vec![2u8, 1u8, 0u8, 0u8, 0u8, 0u8, 0u8, 0u8]);

    let mut buf = Vec::new();
    encode_value(&Value::Text(b"hi".to_vec()), &mut buf);
    let mut expected = le(2);
    expected.extend(b"hi".to_vec());
    assert_eq!(buf, expected);
}

#[test]
fn malformed_boolean_byte_is_rejected() {
    let buf = vec![2u8];
    match decode_value(WireType::Boolean, &buf, 0) {
        Err(RpcError::DecodingFailure) => {}
        _ => panic!("a boolean byte other than 0 or 1 is malformed"),
    }
}

#[test]
fn text_with_lying_length_prefix_is_rejected() {
    // The prefix claims four bytes; only two follow.
    let mut buf = le(4);
    buf.extend(b"ab".to_vec());
    match decode_value(WireType::Text, &buf, 0) {
        Err(RpcError::DecodingFailure) => {}
        _ => panic!("a length prefix past the end of the stream is malformed"),
    }
}
