use audio_scope::decode_samples;

#[test]
fn decode_whole_pairs() {
    let bytes: Vec<u8> = vec![0x01, 0x00, 0xFF, 0xFF, 0x00, 0x80, 0x34, 0x12];
    let samples = decode_samples(&bytes);
    assert_eq!(samples, vec![1i16, -1i16, -32768i16, 0x1234i16]);
}

#[test]
fn decode_drops_trailing_odd_byte() {
    let bytes: Vec<u8> = vec![0x02, 0x00, 0x7F];
    let samples = decode_samples(&bytes);
    assert_eq!(samples, vec![2i16]);
}

#[test]
fn decode_empty() {
    let bytes: Vec<u8> = Vec::new();
    let samples = decode_samples(&bytes);
    assert!(samples.is_empty());
}

#[test]
fn decode_single_byte_yields_nothing() {
    let bytes: Vec<u8> = vec![0xAB];
    let samples = decode_samples(&bytes);
    assert!(samples.is_empty());
}
