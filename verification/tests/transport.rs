use favicon_resolver::transport::get_favicon_base64;

#[test]
fn base64_of_known_bytes() {
    assert_eq!(get_favicon_base64(b""), "");
    assert_eq!(get_favicon_base64(b"f"), "Zg==");
    assert_eq!(get_favicon_base64(b"fo"), "Zm8=");
    assert_eq!(get_favicon_base64(b"foo"), "Zm9v");
    assert_eq!(get_favicon_base64(b"foob"), "Zm9vYg==");
    assert_eq!(get_favicon_base64(b"fooba"), "Zm9vYmE=");
    assert_eq!(get_favicon_base64(b"foobar"), "Zm9vYmFy");
}

#[test]
fn base64_uses_the_standard_alphabet() {
    assert_eq!(get_favicon_base64(&[0xff, 0xd8, 0xff, 0xe0]), "/9j/4A==");
    assert_eq!(get_favicon_base64(&[0xfb, 0xef]), "++8=");
    assert_eq!(get_favicon_base64(&[0x00, 0x00, 0x00]), "AAAA");
    assert_eq!(get_favicon_base64(&[0xff, 0xff, 0xff]), "////");
}

#[test]
fn base64_has_four_characters_for_each_group() {
    for length in 0..20usize {
        let text = get_favicon_base64(&vec![7u8; length]);
        assert_eq!(text.len(), 4 * ((length + 2) / 3));
    }
}

#[test]
#[allow(deprecated)]
fn base64_agrees_with_the_base64_crate() {
    let mut bytes: Vec<u8> = Vec::new();
    let mut next: u32 = 12345;
    for length in 0..400usize {
        assert_eq!(get_favicon_base64(&bytes), base64::encode(&bytes), "length {}", length);
        next = next.wrapping_mul(1664525).wrapping_add(1013904223);
        bytes.push((next >> 24) as u8);
    }
    let all: Vec<u8> = (0..=255).collect();
    assert_eq!(get_favicon_base64(&all), base64::encode(&all));
    for first in 0..=255u8 {
        assert_eq!(get_favicon_base64(&[first]), base64::encode([first]));
        assert_eq!(get_favicon_base64(&[0x5a, first]), base64::encode([0x5a, first]));
        assert_eq!(get_favicon_base64(&[0xa5, 0x3c, first]), base64::encode([0xa5, 0x3c, first]));
    }
}
