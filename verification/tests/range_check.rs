use claimcheck::{_check_if_less_than_q, q_field_element, FieldElement, Proof};

fn fe(bytes: Vec<u8>) -> FieldElement {
    FieldElement { bytes }
}

fn small(v: u8) -> FieldElement {
    let mut b = vec![0u8; 32];
    b[31] = v;
    fe(b)
}

fn proof_of(coords: [Vec<u8>; 8]) -> Proof {
    let [a0, a1, b00, b01, b10, b11, c0, c1] = coords;
    Proof {
        p_a: vec![fe(a0), fe(a1)],
        p_b: vec![vec![fe(b00), fe(b01)], vec![fe(b10), fe(b11)]],
        p_c: vec![fe(c0), fe(c1)],
    }
}

fn small_coords() -> [Vec<u8>; 8] {
    let mut out: Vec<Vec<u8>> = Vec::new();
    for v in 1u8..=8u8 {
        out.push(small(v).bytes);
    }
    out.try_into().unwrap()
}

fn q_bytes() -> Vec<u8> {
    q_field_element().bytes
}

fn q_minus_one() -> Vec<u8> {
    // The modulus ends in 0x01, so decrementing the last byte suffices.
    let mut b = q_bytes();
    b[31] -= 1;
    b
}

/// All coordinates strictly below the modulus are accepted.
#[test]
fn coordinates_below_q_accepted() {
    let p = proof_of(small_coords());
    assert!(_check_if_less_than_q(&p));
}

/// The largest in-range value, the modulus minus one, is still accepted.
#[test]
fn boundary_below_q_accepted() {
    let mut coords = small_coords();
    coords[0] = q_minus_one();
    coords[7] = q_minus_one();
    let p = proof_of(coords);
    assert!(_check_if_less_than_q(&p));
}

/// Setting any single coordinate to the modulus flips acceptance to false.
#[test]
fn any_coordinate_at_q_rejected() {
    for i in 0..8 {
        let mut coords = small_coords();
        coords[i] = q_bytes();
        let p = proof_of(coords);
        assert!(!_check_if_less_than_q(&p), "coordinate {} at Q must reject", i);
    }
}

/// A coordinate above the modulus is rejected too.
#[test]
fn coordinate_above_q_rejected() {
    let mut coords = small_coords();
    coords[3] = vec![0xffu8; 32];
    let p = proof_of(coords);
    assert!(!_check_if_less_than_q(&p));
}
