use react_jitter::site_id::compute_id;
use sha2::{Digest, Sha256};

fn reference_id(file: &str, line: u32, column: u32) -> String {
    let digest = Sha256::digest(format!("{}:{}:{}", file, line, column).as_bytes());
    hex::encode(&digest[..4])
}

#[test]
fn compute_id_is_eight_lowercase_hex_digits() {
    let id = compute_id("Foo.tsx", 2, 13);
    assert_eq!(id.len(), 8);
    assert!(id.chars().all(|c| c.is_ascii_digit() || ('a'..='f').contains(&c)));
}

#[test]
fn compute_id_of_known_sites() {
    assert_eq!(compute_id("Foo.tsx", 2, 13), "8c088a8e");
    assert_eq!(compute_id("src/App.tsx", 1, 0), "daaa0d77");
    assert_eq!(compute_id("a", 0, 0), "4f6763ab");
    assert_eq!(compute_id("Foo.tsx", 1, 7), "d881d990");
}

#[test]
fn compute_id_hashes_the_utf8_bytes_of_the_path() {
    assert_eq!(compute_id("ü.tsx", u32::MAX, 10), "f7605102");
}

#[test]
fn compute_id_agrees_with_the_digest_of_the_site_text() {
    for (file, line, column) in [("Foo.tsx", 1, 1), ("src/a/b.jsx", 120, 48), ("", 7, 0)] {
        assert_eq!(compute_id(file, line, column), reference_id(file, line, column));
    }
}

#[test]
fn compute_id_is_stable_across_calls() {
    let first = compute_id("src/components/List.tsx", 31, 17);
    let second = compute_id("src/components/List.tsx", 31, 17);
    let third = compute_id(&String::from("src/components/List.tsx"), 31, 17);
    assert_eq!(first, second);
    assert_eq!(first, third);
}

#[test]
fn compute_id_tells_sites_apart() {
    let base = compute_id("Foo.tsx", 2, 13);
    assert_ne!(base, compute_id("Foo.tsx", 2, 14));
    assert_ne!(base, compute_id("Foo.tsx", 3, 13));
    assert_ne!(base, compute_id("Bar.tsx", 2, 13));
    assert_ne!(compute_id("a", 1, 23), compute_id("a", 12, 3));
}
