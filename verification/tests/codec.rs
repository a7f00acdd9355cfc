use cute_lights::kasa::KasaLight;

#[test]
fn encrypt_has_length_prefix_and_exact_size() {
    let frame = KasaLight::encrypt("hello");
    assert_eq!(frame.len(), 4 + 5);
    assert_eq!(&frame[0..4], &[0u8, 0, 0, 5]);
}

#[test]
fn encrypt_first_cipher_byte_is_key_xor_first_plain_byte() {
    let frame = KasaLight::encrypt("hello");
    assert_eq!(frame[4], 171u8 ^ b'h');
    let frame2 = KasaLight::encrypt("A");
    assert_eq!(frame2[4], 171u8 ^ b'A');
}

#[test]
fn encrypt_known_vector() {
    // key 171 = 0xAB; '{' = 0x7B gives 0xD0; then 0xD0 ^ '}' (0x7D) = 0xAD.
    let frame = KasaLight::encrypt("{}");
    assert_eq!(frame, vec![0u8, 0, 0, 2, 0xD0, 0xAD]);
}

#[test]
fn decrypt_undoes_encrypt() {
    let samples = [
        "",
        "a",
        "{}",
        "{\"system\":{\"get_sysinfo\":{}}}",
        "the quick brown fox jumps over the lazy dog 0123456789",
    ];
    for s in samples {
        let frame = KasaLight::encrypt(s);
        let back = KasaLight::decrypt(&frame);
        assert_eq!(back, s.as_bytes().to_vec());
    }
}

#[test]
fn decrypt_honours_length_prefix() {
    // A frame announcing 2 bytes but carrying 4: only the first 2 survive.
    let mut frame = KasaLight::encrypt("abcd");
    frame[3] = 2;
    let back = KasaLight::decrypt(&frame);
    assert_eq!(back, b"ab".to_vec());
}

#[test]
fn response_complete_detects_whole_json() {
    let frame = KasaLight::encrypt("{\"ok\":1}");
    assert!(KasaLight::response_complete(&frame));
}

#[test]
fn response_complete_rejects_partial_json() {
    let frame = KasaLight::encrypt("{\"ok\":1}");
    let partial: Vec<u8> = frame[..frame.len() - 2].to_vec();
    assert!(!KasaLight::response_complete(&partial));
}

#[test]
fn response_complete_rejects_short_buffer() {
    assert!(!KasaLight::response_complete(&vec![]));
    assert!(!KasaLight::response_complete(&vec![0u8, 0, 0]));
}
