use trusc::digest::{digest, hash_bytes, hex_text, FNV_OFFSET_BASIS, FNV_PRIME};

#[test]
fn the_hash_of_nothing_is_the_offset_basis() {
    assert_eq!(FNV_OFFSET_BASIS, 0xcbf29ce484222325);
    assert_eq!(FNV_PRIME, 0x100000001b3);
    assert_eq!(hash_bytes(&[]), 0xcbf29ce484222325);
}

#[test]
fn known_hashes() {
    assert_eq!(hash_bytes(b"a"), 0xaf63dc4c8601ec8c);
    assert_eq!(hash_bytes(b"foobar"), 0x85944171f73967e8);
    assert_eq!(hash_bytes(b"hello"), 0xa430d84680aabd0b);
    assert_eq!(hash_bytes(&[0]), 0xaf63bd4c8601b7df);
}

#[test]
fn sixteen_lower_case_digits() {
    assert_eq!(hex_text(0), "0000000000000000");
    assert_eq!(hex_text(1), "0000000000000001");
    assert_eq!(hex_text(0xabcdef), "0000000000abcdef");
    assert_eq!(hex_text(0x0123456789abcdef), "0123456789abcdef");
    assert_eq!(hex_text(u64::MAX), "ffffffffffffffff");
    assert_eq!(hex_text(0x8000000000000000), "8000000000000000");
}

#[test]
fn known_digests() {
    assert_eq!(digest(""), "cbf29ce484222325");
    assert_eq!(digest("a"), "af63dc4c8601ec8c");
    assert_eq!(digest("foobar"), "85944171f73967e8");
}

#[test]
fn the_digest_is_of_the_utf8_bytes() {
    assert_eq!(digest("héllo"), "a35ff71f960240e0");
    assert_eq!(digest("héllo"), hex_text(hash_bytes("héllo".as_bytes())));
}

#[test]
fn the_digest_depends_on_the_order() {
    assert_ne!(digest("ab"), digest("ba"));
    assert_eq!(digest("ab"), digest("ab"));
}
