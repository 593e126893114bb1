use claimcheck::_verify_email;

fn parts(items: &[&str]) -> Vec<Vec<u8>> {
    items.iter().map(|s| s.as_bytes().to_vec()).collect()
}

/// The placeholder `$` in the joined parts stands for the `@` of the email.
#[test]
fn masked_parts_match_email() {
    let p = parts(&["alice$example", "com"]);
    assert!(_verify_email(&p, &b"alice@example.com".to_vec()));
}

/// A literal `@` position in the email must see `$` in the reconstruction;
/// a dot there does not match.
#[test]
fn unmasked_at_does_not_match() {
    let p = parts(&["alice", "example", "com"]);
    assert!(!_verify_email(&p, &b"alice@example.com".to_vec()));
}

/// Where the email holds no `@`, bytes must agree exactly: a `$` in the
/// email against a dot in the reconstruction does not match.
#[test]
fn placeholder_in_email_does_not_match_dot() {
    let p = parts(&["alice", "example", "com"]);
    assert!(!_verify_email(&p, &b"alice$example.com".to_vec()));
}

/// Differing lengths never match.
#[test]
fn differing_lengths_do_not_match() {
    let p = parts(&["alice"]);
    assert!(!_verify_email(&p, &b"alice@x".to_vec()));
    let q = parts(&["a", "b"]);
    assert!(!_verify_email(&q, &b"a.b.c".to_vec()));
}

/// A single part joins without any separator.
#[test]
fn single_part_exact_match() {
    let p = parts(&["abc"]);
    assert!(_verify_email(&p, &b"abc".to_vec()));
    assert!(!_verify_email(&p, &b"abd".to_vec()));
}

/// No parts reconstruct the empty string.
#[test]
fn empty_parts_match_empty_email() {
    let p: Vec<Vec<u8>> = Vec::new();
    assert!(_verify_email(&p, &Vec::new()));
    assert!(!_verify_email(&p, &b"a".to_vec()));
}
