use tplink::crypto::{decrypt, decrypt_with_header, encrypt, encrypt_with_header};

#[test]
fn test_encrypt() {
    assert_eq!(encrypt(b"hello"), vec![195, 166, 202, 166, 201]);
}

#[test]
fn test_encrypt_with_unicode_chars() {
    assert_eq!(
        encrypt("{'hello': 'नमस्ते'}".as_bytes()),
        vec![
            208, 247, 159, 250, 150, 250, 149, 178, 136, 168, 143, 111, 203, 99, 131, 39, 137,
            105, 205, 117, 149, 48, 189, 93, 249, 93, 189, 24, 159, 184, 197
        ]
    );
}

#[test]
fn test_encrypt_with_header() {
    assert_eq!(
        encrypt_with_header(b"hello"),
        vec![0, 0, 0, 5, 195, 166, 202, 166, 201]
    );
}

#[test]
fn test_encrypt_with_header_with_unicode_chars() {
    assert_eq!(
        encrypt_with_header("{'hello': 'नमस्ते'}".as_bytes()),
        vec![
            0, 0, 0, 31, 208, 247, 159, 250, 150, 250, 149, 178, 136, 168, 143, 111, 203, 99,
            131, 39, 137, 105, 205, 117, 149, 48, 189, 93, 249, 93, 189, 24, 159, 184, 197
        ]
    );
}

#[test]
fn test_decrypt() {
    assert_eq!(decrypt(&[195, 166, 202, 166, 201]), b"hello");
}

#[test]
fn test_decrypt_with_unicode_chars() {
    assert_eq!(
        decrypt(&[
            208, 247, 159, 250, 150, 250, 149, 178, 136, 168, 143, 111, 203, 99, 131, 39, 137,
            105, 205, 117, 149, 48, 189, 93, 249, 93, 189, 24, 159, 184, 197
        ]),
        "{'hello': 'नमस्ते'}".as_bytes(),
    );
}

#[test]
fn test_decrypt_with_header() {
    assert_eq!(
        decrypt_with_header(&[0, 0, 0, 5, 195, 166, 202, 166, 201]),
        b"hello"
    )
}

#[test]
fn test_decrypt_with_header_with_unicode_chars() {
    assert_eq!(
        decrypt_with_header(&[
            0, 0, 0, 31, 208, 247, 159, 250, 150, 250, 149, 178, 136, 168, 143, 111, 203, 99,
            131, 39, 137, 105, 205, 117, 149, 48, 189, 93, 249, 93, 189, 24, 159, 184, 197
        ]),
        "{'hello': 'नमस्ते'}".as_bytes(),
    );
}

#[test]
fn empty_input_gives_empty_output() {
    assert_eq!(encrypt(b""), Vec::<u8>::new());
    assert_eq!(decrypt(b""), Vec::<u8>::new());
    assert_eq!(encrypt_with_header(b""), vec![0, 0, 0, 0]);
    assert_eq!(decrypt_with_header(&[0, 0, 0, 0]), Vec::<u8>::new());
}

#[test]
fn header_shorter_than_four_bytes_leaves_nothing() {
    assert_eq!(decrypt_with_header(&[]), Vec::<u8>::new());
    assert_eq!(decrypt_with_header(&[0, 0, 0]), Vec::<u8>::new());
}

#[test]
fn header_is_skipped_and_not_checked() {
    assert_eq!(decrypt_with_header(&[9, 9, 9, 9, 195, 166, 202, 166, 201]), b"hello");
}

#[test]
fn header_is_the_big_endian_length() {
    let message = encrypt_with_header(&vec![0u8; 0x01_02_03]);
    assert_eq!(&message[..4], &[0, 1, 2, 3]);
    assert_eq!(message.len(), 4 + 0x01_02_03);
}

#[test]
fn round_trips() {
    let every_byte: Vec<u8> = (0..=255u8).collect();
    for sample in [&b""[..], &b"a"[..], &b"hello"[..], &every_byte[..], &[0xAB, 0xAB, 0][..]] {
        assert_eq!(decrypt(&encrypt(sample)), sample);
        assert_eq!(encrypt(&decrypt(sample)), sample);
        assert_eq!(decrypt_with_header(&encrypt_with_header(sample)), sample);
    }
}

#[test]
fn first_byte_is_chained_to_the_initial_key() {
    assert_eq!(encrypt(&[0]), vec![0xAB]);
    assert_eq!(encrypt(&[0xAB]), vec![0]);
    assert_eq!(decrypt(&[0xAB]), vec![0]);
    assert_eq!(encrypt(&[1, 1]), vec![0xAA, 0xAB]);
}
