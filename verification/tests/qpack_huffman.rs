use shiguredo_http3::error::QpackError;
use shiguredo_http3::qpack::huffman::{decode, encode, encode_to_vec, encoded_len};

#[test]
fn test_encode_decode_simple() {
    let input = b"www.example.com";
    let encoded_length = encoded_len(input);
    let mut buf = vec![0u8; encoded_length];

    let len = encode(&mut buf, input).expect("test must succeed");
    assert_eq!(len, encoded_length);

    let decoded = decode(&buf).expect("test must succeed");
    assert_eq!(decoded, input);
}

#[test]
fn test_encode_decode_method() {
    let input = b"GET";
    let mut buf = vec![0u8; encoded_len(input)];

    encode(&mut buf, input).expect("test must succeed");
    let decoded = decode(&buf).expect("test must succeed");
    assert_eq!(decoded, input);
}

#[test]
fn test_encode_decode_path() {
    let input = b"/index.html";
    let mut buf = vec![0u8; encoded_len(input)];

    encode(&mut buf, input).expect("test must succeed");
    let decoded = decode(&buf).expect("test must succeed");
    assert_eq!(decoded, input);
}

#[test]
fn test_encoded_len() {
    assert_eq!(encoded_len(b"www.example.com"), 12);
}

#[test]
fn test_encode_buffer_too_short() {
    let input = b"test";
    let mut buf = [0u8; 1];
    assert!(encode(&mut buf, input).is_none());
}

#[test]
fn huffman_rfc7541_example_bytes() {
    // RFC 7541 Appendix C.4.1: "www.example.com"
    assert_eq!(
        encode_to_vec(b"www.example.com"),
        vec![0xf1, 0xe3, 0xc2, 0xe5, 0xf2, 0x3a, 0x6b, 0xa0, 0xab, 0x90, 0xf4, 0xff]
    );
    // RFC 7541 Appendix C.4.2: "no-cache"
    assert_eq!(encode_to_vec(b"no-cache"), vec![0xa8, 0xeb, 0x10, 0x64, 0x9c, 0xbf]);
}

#[test]
fn huffman_all_bytes_roundtrip() {
    let input: Vec<u8> = (0u8..=255).collect();
    let enc = encode_to_vec(&input);
    assert_eq!(decode(&enc).unwrap(), input);
    assert_eq!(decode(&[]).unwrap(), Vec::<u8>::new());
}

#[test]
fn huffman_rejects_bad_padding() {
    // A padding of eight bits is too long; zero padding is not all ones.
    assert_eq!(decode(&[0xff]), Err(QpackError::InvalidHuffman));
    assert_eq!(decode(&[0x00]), Err(QpackError::InvalidHuffman));
    // The EOS code (30 ones) is refused.
    assert_eq!(decode(&[0xff, 0xff, 0xff, 0xff]), Err(QpackError::InvalidHuffman));
}
