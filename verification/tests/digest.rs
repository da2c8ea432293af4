use demo_mover::digest::{digest_bytes, same_digest, Digester, CHUNK_SIZE, DIGEST_LEN};

fn hex(text: &str) -> [u8; 16] {
    let mut bytes = [0u8; 16];
    for (i, byte) in bytes.iter_mut().enumerate() {
        *byte = u8::from_str_radix(&text[2 * i..2 * i + 2], 16).unwrap();
    }
    bytes
}

#[test]
fn digest_of_nothing() {
    assert_eq!(
        digest_bytes(b"", CHUNK_SIZE),
        hex("d41d8cd98f00b204e9800998ecf8427e")
    );
}

#[test]
fn digest_of_known_contents() {
    assert_eq!(
        digest_bytes(b"a", CHUNK_SIZE),
        hex("0cc175b9c0f1b6a831c399e269772661")
    );
    assert_eq!(
        digest_bytes(b"abc", CHUNK_SIZE),
        hex("900150983cd24fb0d6963f7d28e17f72")
    );
    assert_eq!(
        digest_bytes(b"message digest", CHUNK_SIZE),
        hex("f96b697d7cb7938d525a2f31aaf161d0")
    );
    assert_eq!(
        digest_bytes(b"abcdefghijklmnopqrstuvwxyz", CHUNK_SIZE),
        hex("c3fcd3d76192e4007dfb496cca67e13b")
    );
    assert_eq!(
        digest_bytes(b"The quick brown fox jumps over the lazy dog", CHUNK_SIZE),
        hex("9e107d9d372bb6826bd81d3542a419d6")
    );
}

#[test]
fn digest_has_sixteen_bytes() {
    assert_eq!(DIGEST_LEN, 16);
    assert_eq!(digest_bytes(b"abc", 2).len(), DIGEST_LEN);
}

#[test]
fn digest_does_not_depend_on_the_buffer() {
    let content: Vec<u8> = (0..5000u32).map(|i| (i * 31 % 251) as u8).collect();
    let whole = digest_bytes(&content, content.len());
    for buffer_len in [1usize, 2, 3, 63, 64, 65, 128, 1000, 4999, 5000, 5001, CHUNK_SIZE] {
        assert_eq!(digest_bytes(&content, buffer_len), whole);
    }
    assert_eq!(whole, md5::compute(&content).0);
}

#[test]
fn digest_is_the_same_each_time() {
    let content = b"The quick brown fox jumps over the lazy dog";
    assert_eq!(digest_bytes(content, 7), digest_bytes(content, 7));
    assert_eq!(content.len(), 43);
}

#[test]
fn digester_takes_content_piece_by_piece() {
    let mut digester = Digester::new();
    assert!(digester.update(b"The quick brown "));
    assert!(digester.update(b"fox jumps over "));
    assert!(digester.update(b"the lazy dog"));
    assert!(!digester.update(b""));
    assert_eq!(digester.finish(), hex("9e107d9d372bb6826bd81d3542a419d6"));
}

#[test]
fn digester_without_content() {
    assert_eq!(
        Digester::new().finish(),
        hex("d41d8cd98f00b204e9800998ecf8427e")
    );
}

#[test]
fn chunk_is_a_mebibyte() {
    assert_eq!(CHUNK_SIZE, 1024 * 1024);
}

#[test]
fn digests_are_compared_byte_for_byte() {
    let one = hex("900150983cd24fb0d6963f7d28e17f72");
    let mut other = one;
    assert!(same_digest(&one, &other));
    other[15] ^= 1;
    assert!(!same_digest(&one, &other));
    other = one;
    other[0] ^= 0x80;
    assert!(!same_digest(&one, &other));
}
