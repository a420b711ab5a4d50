use provider_client::codec::CodecError;
use provider_client::requests::{decode_request, encode_request, Request};
use provider_client::responses::{decode_response, encode_response, Response};

fn address() -> [u8; 32] {
    let mut address = [0u8; 32];
    for (i, byte) in address.iter_mut().enumerate() {
        *byte = i as u8;
    }
    address
}

fn token() -> [u8; 32] {
    let mut token = [0u8; 32];
    for (i, byte) in token.iter_mut().enumerate() {
        *byte = 200 + i as u8;
    }
    token
}

#[test]
fn register_request_has_discriminator_then_address() {
    let bytes = encode_request(&Request::Register { address: address() });
    let mut expected = vec![0u8, 1];
    expected.extend_from_slice(&address());
    assert_eq!(bytes, expected);
    assert_eq!(bytes.len(), 34);
}

#[test]
fn pull_request_has_discriminator_address_token() {
    let bytes = encode_request(&Request::Pull { address: address(), token: token() });
    let mut expected = vec![1u8, 0];
    expected.extend_from_slice(&address());
    expected.extend_from_slice(&token());
    assert_eq!(bytes, expected);
    assert_eq!(bytes.len(), 66);
}

#[test]
fn requests_round_trip() {
    let register = Request::Register { address: address() };
    assert_eq!(decode_request(&encode_request(&register)), Ok(register));
    let pull = Request::Pull { address: address(), token: token() };
    assert_eq!(decode_request(&encode_request(&pull)), Ok(pull));
}

#[test]
fn request_with_short_or_unknown_header_is_malformed() {
    assert_eq!(decode_request(&[]), Err(CodecError::UnmarshalError));
    assert_eq!(decode_request(&[0]), Err(CodecError::UnmarshalError));
    assert_eq!(decode_request(&[7, 7]), Err(CodecError::UnmarshalError));
    assert_eq!(decode_request(&[0, 0]), Err(CodecError::UnmarshalError));
    assert_eq!(decode_request(&[1, 1]), Err(CodecError::UnmarshalError));
    let mut long = vec![9u8, 9];
    long.extend_from_slice(&[0u8; 64]);
    assert_eq!(decode_request(&long), Err(CodecError::UnmarshalError));
}

#[test]
fn truncated_request_is_malformed() {
    let register = encode_request(&Request::Register { address: address() });
    assert_eq!(decode_request(&register[..33]), Err(CodecError::UnmarshalError));
    assert_eq!(decode_request(&register[..2]), Err(CodecError::UnmarshalError));
    let pull = encode_request(&Request::Pull { address: address(), token: token() });
    assert_eq!(decode_request(&pull[..65]), Err(CodecError::UnmarshalError));
    assert_eq!(decode_request(&pull[..34]), Err(CodecError::UnmarshalError));
}

#[test]
fn request_with_trailing_bytes_has_length_mismatch() {
    let mut register = encode_request(&Request::Register { address: address() });
    register.push(0);
    assert_eq!(decode_request(&register), Err(CodecError::UnmarshalErrorInvalidLength));
    let mut pull = encode_request(&Request::Pull { address: address(), token: token() });
    pull.push(0);
    assert_eq!(decode_request(&pull), Err(CodecError::UnmarshalErrorInvalidLength));
}

#[test]
fn register_response_has_discriminator_then_token() {
    let bytes = encode_response(&Response::Register { token: token() }).unwrap();
    let mut expected = vec![0u8, 1];
    expected.extend_from_slice(&token());
    assert_eq!(bytes, expected);
}

#[test]
fn pull_response_has_table_then_messages() {
    let response = Response::Pull { messages: vec![b"hello".to_vec(), b"world!".to_vec()] };
    let bytes = encode_response(&response).unwrap();
    let mut expected = vec![1u8, 0, 0, 2, 0, 5, 0, 6];
    expected.extend_from_slice(b"hello");
    expected.extend_from_slice(b"world!");
    assert_eq!(bytes, expected);
}

#[test]
fn pull_response_lengths_are_big_endian() {
    let response = Response::Pull { messages: vec![vec![7u8; 258]] };
    let bytes = encode_response(&response).unwrap();
    assert_eq!(&bytes[..6], &[1u8, 0, 0, 1, 1, 2]);
    assert_eq!(bytes.len(), 6 + 258);
    assert_eq!(decode_response(&bytes), Ok(response));
}

#[test]
fn responses_round_trip() {
    let register = Response::Register { token: token() };
    assert_eq!(decode_response(&encode_response(&register).unwrap()), Ok(register));
    let pull = Response::Pull {
        messages: vec![b"hello".to_vec(), Vec::new(), b"w".to_vec(), vec![0u8; 1000]],
    };
    assert_eq!(decode_response(&encode_response(&pull).unwrap()), Ok(pull));
}

#[test]
fn empty_pull_response_round_trips() {
    let pull = Response::Pull { messages: Vec::new() };
    let bytes = encode_response(&pull).unwrap();
    assert_eq!(bytes, vec![1u8, 0, 0, 0]);
    assert_eq!(decode_response(&bytes), Ok(pull));
}

#[test]
fn largest_message_and_count_are_encodable() {
    let pull = Response::Pull { messages: vec![vec![1u8; 65535]] };
    let bytes = encode_response(&pull).unwrap();
    assert_eq!(&bytes[..6], &[1u8, 0, 0, 1, 255, 255]);
    assert_eq!(decode_response(&bytes), Ok(pull));
    let many = Response::Pull { messages: vec![Vec::new(); 65535] };
    let bytes = encode_response(&many).unwrap();
    assert_eq!(bytes.len(), 4 + 2 * 65535);
    assert_eq!(&bytes[..4], &[1u8, 0, 255, 255]);
    assert_eq!(decode_response(&bytes), Ok(many));
}

#[test]
fn oversized_message_cannot_be_encoded() {
    let pull = Response::Pull { messages: vec![b"ok".to_vec(), vec![0u8; 65536]] };
    assert_eq!(encode_response(&pull), Err(CodecError::MarshalError));
}

#[test]
fn too_many_messages_cannot_be_encoded() {
    let pull = Response::Pull { messages: vec![Vec::new(); 65536] };
    assert_eq!(encode_response(&pull), Err(CodecError::MarshalError));
}

#[test]
fn response_with_short_or_unknown_header_is_malformed() {
    assert_eq!(decode_response(&[]), Err(CodecError::UnmarshalError));
    assert_eq!(decode_response(&[1]), Err(CodecError::UnmarshalError));
    assert_eq!(decode_response(&[2, 0, 0, 0]), Err(CodecError::UnmarshalError));
    assert_eq!(decode_response(&[0, 0]), Err(CodecError::UnmarshalError));
    assert_eq!(decode_response(&[255, 255, 0, 1, 0, 0]), Err(CodecError::UnmarshalError));
}

#[test]
fn truncated_fixed_fields_are_malformed() {
    let register = encode_response(&Response::Register { token: token() }).unwrap();
    assert_eq!(decode_response(&register[..33]), Err(CodecError::UnmarshalError));
    assert_eq!(decode_response(&register[..2]), Err(CodecError::UnmarshalError));
    assert_eq!(decode_response(&[1, 0]), Err(CodecError::UnmarshalError));
    assert_eq!(decode_response(&[1, 0, 0]), Err(CodecError::UnmarshalError));
}

#[test]
fn register_response_with_trailing_bytes_has_length_mismatch() {
    let mut register = encode_response(&Response::Register { token: token() }).unwrap();
    register.push(9);
    assert_eq!(decode_response(&register), Err(CodecError::UnmarshalErrorInvalidLength));
}

#[test]
fn length_field_beyond_remaining_bytes_is_length_mismatch() {
    // One message of five bytes declared, three present.
    let bytes = [1u8, 0, 0, 1, 0, 5, b'h', b'e', b'l'];
    assert_eq!(decode_response(&bytes), Err(CodecError::UnmarshalErrorInvalidLength));
    // Two messages declared, room for one entry of the table only.
    let bytes = [1u8, 0, 0, 2, 0, 0];
    assert_eq!(decode_response(&bytes), Err(CodecError::UnmarshalErrorInvalidLength));
    // Three messages declared, no table at all.
    let bytes = [1u8, 0, 0, 3];
    assert_eq!(decode_response(&bytes), Err(CodecError::UnmarshalErrorInvalidLength));
    // The second of two lengths runs past the end.
    let bytes = [1u8, 0, 0, 2, 0, 1, 255, 255, b'a', b'b'];
    assert_eq!(decode_response(&bytes), Err(CodecError::UnmarshalErrorInvalidLength));
}

#[test]
fn bytes_after_the_last_message_are_length_mismatch() {
    let mut bytes = encode_response(&Response::Pull { messages: vec![b"hello".to_vec()] }).unwrap();
    bytes.push(b'!');
    assert_eq!(decode_response(&bytes), Err(CodecError::UnmarshalErrorInvalidLength));
    assert_eq!(decode_response(&[1, 0, 0, 0, 0]), Err(CodecError::UnmarshalErrorInvalidLength));
}

#[test]
fn unknown_discriminator_and_overlong_length_are_told_apart() {
    let unknown = [3u8, 3, 0, 1, 0, 1, b'x'];
    assert_eq!(decode_response(&unknown), Err(CodecError::UnmarshalError));
    let overlong = [1u8, 0, 0, 1, 0, 2, b'x'];
    assert_eq!(decode_response(&overlong), Err(CodecError::UnmarshalErrorInvalidLength));
    let sound = [1u8, 0, 0, 1, 0, 1, b'x'];
    assert_eq!(decode_response(&sound), Ok(Response::Pull { messages: vec![b"x".to_vec()] }));
}

#[test]
fn decoded_messages_keep_their_order_and_bounds() {
    let bytes = [1u8, 0, 0, 3, 0, 2, 0, 0, 0, 1, b'a', b'b', b'c'];
    assert_eq!(
        decode_response(&bytes),
        Ok(Response::Pull { messages: vec![b"ab".to_vec(), Vec::new(), b"c".to_vec()] })
    );
}
