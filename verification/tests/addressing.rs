use cache::digest::{address_of, encode_digest, hash_serialize, identifier_address};
use cache::layout::{join_path, ITEM_MANIFEST_NAME, MANIFEST_NAME};

const ABC_DIGEST: &str = "ba7816bf8f01cfea414140de5dae2223b00361a396177a9cb410ff61f20015ad";
const EMPTY_DIGEST: &str = "e3b0c44298fc1c149afbf4c8996fb92427ae41e4649b934ca495991b7852b855";

#[test]
fn digest_of_known_inputs() {
    assert_eq!(address_of(b"abc"), ABC_DIGEST);
    assert_eq!(address_of(b""), EMPTY_DIGEST);
    let digest = hash_serialize(b"abc");
    assert_eq!(digest.len(), 32);
    assert_eq!(digest[0], 0xba);
    assert_eq!(digest[31], 0xad);
    assert_ne!(digest, b"abc".to_vec());
}

#[test]
fn hexadecimal_is_lower_case_high_half_first() {
    assert_eq!(encode_digest(&[]), "");
    assert_eq!(encode_digest(&[0x00]), "00");
    assert_eq!(encode_digest(&[0x0f, 0xf0]), "0ff0");
    assert_eq!(encode_digest(&[0xde, 0xad, 0xbe, 0xef]), "deadbeef");
    assert_eq!(encode_digest(&[0x09, 0x0a, 0x9a, 0xff]), "090a9aff");
}

#[test]
fn identifier_is_hashed_through_its_binary_encoding() {
    let encoded = flexbuffers::to_vec("test").unwrap();
    assert_ne!(encoded, b"test".to_vec());
    assert_eq!(identifier_address("test"), address_of(&encoded));
    assert_ne!(identifier_address("test"), address_of(b"test"));
    assert_eq!(identifier_address("test").len(), 64);
    let unicode = flexbuffers::to_vec("gr\u{fc}\u{df}e \u{4e16}\u{754c}").unwrap();
    assert_eq!(identifier_address("gr\u{fc}\u{df}e \u{4e16}\u{754c}"), address_of(&unicode));
}

#[test]
fn addresses_are_deterministic_and_distinct() {
    assert_eq!(identifier_address("a"), identifier_address("a"));
    assert_ne!(identifier_address("a"), identifier_address("b"));
    assert_ne!(address_of(&[1]), address_of(&[2]));
    let name = identifier_address("a");
    assert!(name.chars().all(|c| c.is_ascii_digit() || ('a'..='f').contains(&c)));
}

#[test]
fn joining_paths() {
    assert_eq!(join_path("root", "name"), "root/name");
    assert_eq!(join_path("root/", "name"), "root/name");
    assert_eq!(join_path("", "name"), "name");
    assert_eq!(join_path("/", "name"), "/name");
    assert_eq!(join_path("a/b", "c"), "a/b/c");
    assert_eq!(join_path("caf\u{e9}", "x"), "caf\u{e9}/x");
    assert_eq!(join_path("root", MANIFEST_NAME), "root/Cache.toml");
    assert_eq!(join_path("root", ITEM_MANIFEST_NAME), "root/CacheItem.toml");
}
