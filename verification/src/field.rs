//! Field elements of the proof system, held as their 32-byte big-endian
//! renderings, and the scalar-field modulus they are compared against.

use vstd::prelude::*;

use crate::numeric::{be_nat, lemma_be_nat_concat, lemma_be_nat_prefix_lt, pow256};

verus! {

/// One field element, stored as the 32-byte big-endian rendering that the
/// public-signal buffer serializes.
#[derive(Debug)]
pub struct FieldElement {
    pub bytes: Vec<u8>,
}

impl View for FieldElement {
    type V = Seq<u8>;

    open spec fn view(&self) -> Seq<u8> {
        self.bytes@
    }
}

impl FieldElement {
    /// A field element is well formed when it holds exactly 32 bytes.
    pub open spec fn wf(&self) -> bool {
        self.bytes@.len() == 32
    }

    /// The unsigned integer this element denotes.
    pub open spec fn value(&self) -> nat {
        be_nat(self.bytes@)
    }
}

/// Copies a byte vector, element by element.
pub fn copy_bytes(src: &Vec<u8>) -> (r: Vec<u8>)
    ensures
        r@ == src@,
{
    let mut out: Vec<u8> = Vec::new();
    let mut i: usize = 0;
    while i < src.len()
        invariant
            i <= src@.len(),
            out@ == src@.take(i as int),
        decreases src@.len() - i,
    {
        out.push(src[i]);
        proof {
            assert(src@.take(i + 1) =~= src@.take(i as int).push(src@[i as int]));
        }
        i = i + 1;
    }
    proof {
        assert(src@.take(src@.len() as int) =~= src@);
    }
    out
}

/// The scalar-field modulus of the proof system's curve, big-endian.
pub open spec fn q_bytes() -> Seq<u8> {
    seq![
        0x30u8, 0x64u8, 0x4eu8, 0x72u8, 0xe1u8, 0x31u8, 0xa0u8, 0x29u8,
        0xb8u8, 0x50u8, 0x45u8, 0xb6u8, 0x81u8, 0x81u8, 0x58u8, 0x5du8,
        0x28u8, 0x33u8, 0xe8u8, 0x48u8, 0x79u8, 0xb9u8, 0x70u8, 0x91u8,
        0x43u8, 0xe1u8, 0xf5u8, 0x93u8, 0xf0u8, 0x00u8, 0x00u8, 0x01u8,
    ]
}

/// The scalar-field modulus as an integer.
pub open spec fn q_nat() -> nat {
    be_nat(q_bytes())
}

/// The small powers of 256 the word lemmas multiply by.
proof fn lemma_pow256_values()
    ensures
        pow256(0) == 0x1,
        pow256(1) == 0x100,
        pow256(2) == 0x10000,
        pow256(3) == 0x1000000,
        pow256(4) == 0x100000000,
        pow256(5) == 0x10000000000,
        pow256(6) == 0x1000000000000,
        pow256(7) == 0x100000000000000,
        pow256(8) == 0x10000000000000000,
{
    reveal_with_fuel(pow256, 10);
}

/// One eight-byte word of the modulus, as the integer it denotes.
#[verifier::rlimit(100)]
proof fn lemma_q_word_0()
    ensures
        be_nat(seq![0x30u8, 0x64u8, 0x4eu8, 0x72u8, 0xe1u8, 0x31u8, 0xa0u8, 0x29u8]) == 0x30644e72e131a029,
{
    lemma_pow256_values();
    assert(be_nat(seq![0x29u8]) == 0x29) by {
        reveal_with_fuel(be_nat, 3);
        reveal_with_fuel(pow256, 2);
    }
    assert(be_nat(seq![0xa0u8, 0x29u8]) == 0xa029) by {
        reveal_with_fuel(be_nat, 2);
        assert(seq![0xa0u8, 0x29u8].skip(1) =~= seq![0x29u8]);
    }
    assert(be_nat(seq![0x31u8, 0xa0u8, 0x29u8]) == 0x31a029) by {
        reveal_with_fuel(be_nat, 2);
        assert(seq![0x31u8, 0xa0u8, 0x29u8].skip(1) =~= seq![0xa0u8, 0x29u8]);
    }
    assert(be_nat(seq![0xe1u8, 0x31u8, 0xa0u8, 0x29u8]) == 0xe131a029) by {
        reveal_with_fuel(be_nat, 2);
        assert(seq![0xe1u8, 0x31u8, 0xa0u8, 0x29u8].skip(1) =~= seq![0x31u8, 0xa0u8, 0x29u8]);
    }
    assert(be_nat(seq![0x72u8, 0xe1u8, 0x31u8, 0xa0u8, 0x29u8]) == 0x72e131a029) by {
        reveal_with_fuel(be_nat, 2);
        assert(seq![0x72u8, 0xe1u8, 0x31u8, 0xa0u8, 0x29u8].skip(1) =~= seq![0xe1u8, 0x31u8, 0xa0u8, 0x29u8]);
    }
    assert(be_nat(seq![0x4eu8, 0x72u8, 0xe1u8, 0x31u8, 0xa0u8, 0x29u8]) == 0x4e72e131a029) by {
        reveal_with_fuel(be_nat, 2);
        assert(seq![0x4eu8, 0x72u8, 0xe1u8, 0x31u8, 0xa0u8, 0x29u8].skip(1) =~= seq![0x72u8, 0xe1u8, 0x31u8, 0xa0u8, 0x29u8]);
    }
    assert(be_nat(seq![0x64u8, 0x4eu8, 0x72u8, 0xe1u8, 0x31u8, 0xa0u8, 0x29u8]) == 0x644e72e131a029) by {
        reveal_with_fuel(be_nat, 2);
        assert(seq![0x64u8, 0x4eu8, 0x72u8, 0xe1u8, 0x31u8, 0xa0u8, 0x29u8].skip(1) =~= seq![0x4eu8, 0x72u8, 0xe1u8, 0x31u8, 0xa0u8, 0x29u8]);
    }
    assert(be_nat(seq![0x30u8, 0x64u8, 0x4eu8, 0x72u8, 0xe1u8, 0x31u8, 0xa0u8, 0x29u8]) == 0x30644e72e131a029) by {
        reveal_with_fuel(be_nat, 2);
        assert(seq![0x30u8, 0x64u8, 0x4eu8, 0x72u8, 0xe1u8, 0x31u8, 0xa0u8, 0x29u8].skip(1) =~= seq![0x64u8, 0x4eu8, 0x72u8, 0xe1u8, 0x31u8, 0xa0u8, 0x29u8]);
    }
}

/// One eight-byte word of the modulus, as the integer it denotes.
#[verifier::rlimit(100)]
proof fn lemma_q_word_1()
    ensures
        be_nat(seq![0xb8u8, 0x50u8, 0x45u8, 0xb6u8, 0x81u8, 0x81u8, 0x58u8, 0x5du8]) == 0xb85045b68181585d,
{
    lemma_pow256_values();
    assert(be_nat(seq![0x5du8]) == 0x5d) by {
        reveal_with_fuel(be_nat, 3);
        reveal_with_fuel(pow256, 2);
    }
    assert(be_nat(seq![0x58u8, 0x5du8]) == 0x585d) by {
        reveal_with_fuel(be_nat, 2);
        assert(seq![0x58u8, 0x5du8].skip(1) =~= seq![0x5du8]);
    }
    assert(be_nat(seq![0x81u8, 0x58u8, 0x5du8]) == 0x81585d) by {
        reveal_with_fuel(be_nat, 2);
        assert(seq![0x81u8, 0x58u8, 0x5du8].skip(1) =~= seq![0x58u8, 0x5du8]);
    }
    assert(be_nat(seq![0x81u8, 0x81u8, 0x58u8, 0x5du8]) == 0x8181585d) by {
        reveal_with_fuel(be_nat, 2);
        assert(seq![0x81u8, 0x81u8, 0x58u8, 0x5du8].skip(1) =~= seq![0x81u8, 0x58u8, 0x5du8]);
    }
    assert(be_nat(seq![0xb6u8, 0x81u8, 0x81u8, 0x58u8, 0x5du8]) == 0xb68181585d) by {
        reveal_with_fuel(be_nat, 2);
        assert(seq![0xb6u8, 0x81u8, 0x81u8, 0x58u8, 0x5du8].skip(1) =~= seq![0x81u8, 0x81u8, 0x58u8, 0x5du8]);
    }
    assert(be_nat(seq![0x45u8, 0xb6u8, 0x81u8, 0x81u8, 0x58u8, 0x5du8]) == 0x45b68181585d) by {
        reveal_with_fuel(be_nat, 2);
        assert(seq![0x45u8, 0xb6u8, 0x81u8, 0x81u8, 0x58u8, 0x5du8].skip(1) =~= seq![0xb6u8, 0x81u8, 0x81u8, 0x58u8, 0x5du8]);
    }
    assert(be_nat(seq![0x50u8, 0x45u8, 0xb6u8, 0x81u8, 0x81u8, 0x58u8, 0x5du8]) == 0x5045b68181585d) by {
        reveal_with_fuel(be_nat, 2);
        assert(seq![0x50u8, 0x45u8, 0xb6u8, 0x81u8, 0x81u8, 0x58u8, 0x5du8].skip(1) =~= seq![0x45u8, 0xb6u8, 0x81u8, 0x81u8, 0x58u8, 0x5du8]);
    }
    assert(be_nat(seq![0xb8u8, 0x50u8, 0x45u8, 0xb6u8, 0x81u8, 0x81u8, 0x58u8, 0x5du8]) == 0xb85045b68181585d) by {
        reveal_with_fuel(be_nat, 2);
        assert(seq![0xb8u8, 0x50u8, 0x45u8, 0xb6u8, 0x81u8, 0x81u8, 0x58u8, 0x5du8].skip(1) =~= seq![0x50u8, 0x45u8, 0xb6u8, 0x81u8, 0x81u8, 0x58u8, 0x5du8]);
    }
}

/// One eight-byte word of the modulus, as the integer it denotes.
#[verifier::rlimit(100)]
proof fn lemma_q_word_2()
    ensures
        be_nat(seq![0x28u8, 0x33u8, 0xe8u8, 0x48u8, 0x79u8, 0xb9u8, 0x70u8, 0x91u8]) == 0x2833e84879b97091,
{
    lemma_pow256_values();
    assert(be_nat(seq![0x91u8]) == 0x91) by {
        reveal_with_fuel(be_nat, 3);
        reveal_with_fuel(pow256, 2);
    }
    assert(be_nat(seq![0x70u8, 0x91u8]) == 0x7091) by {
        reveal_with_fuel(be_nat, 2);
        assert(seq![0x70u8, 0x91u8].skip(1) =~= seq![0x91u8]);
    }
    assert(be_nat(seq![0xb9u8, 0x70u8, 0x91u8]) == 0xb97091) by {
        reveal_with_fuel(be_nat, 2);
        assert(seq![0xb9u8, 0x70u8, 0x91u8].skip(1) =~= seq![0x70u8, 0x91u8]);
    }
    assert(be_nat(seq![0x79u8, 0xb9u8, 0x70u8, 0x91u8]) == 0x79b97091) by {
        reveal_with_fuel(be_nat, 2);
        assert(seq![0x79u8, 0xb9u8, 0x70u8, 0x91u8].skip(1) =~= seq![0xb9u8, 0x70u8, 0x91u8]);
    }
    assert(be_nat(seq![0x48u8, 0x79u8, 0xb9u8, 0x70u8, 0x91u8]) == 0x4879b97091) by {
        reveal_with_fuel(be_nat, 2);
        assert(seq![0x48u8, 0x79u8, 0xb9u8, 0x70u8, 0x91u8].skip(1) =~= seq![0x79u8, 0xb9u8, 0x70u8, 0x91u8]);
    }
    assert(be_nat(seq![0xe8u8, 0x48u8, 0x79u8, 0xb9u8, 0x70u8, 0x91u8]) == 0xe84879b97091) by {
        reveal_with_fuel(be_nat, 2);
        assert(seq![0xe8u8, 0x48u8, 0x79u8, 0xb9u8, 0x70u8, 0x91u8].skip(1) =~= seq![0x48u8, 0x79u8, 0xb9u8, 0x70u8, 0x91u8]);
    }
    assert(be_nat(seq![0x33u8, 0xe8u8, 0x48u8, 0x79u8, 0xb9u8, 0x70u8, 0x91u8]) == 0x33e84879b97091) by {
        reveal_with_fuel(be_nat, 2);
        assert(seq![0x33u8, 0xe8u8, 0x48u8, 0x79u8, 0xb9u8, 0x70u8, 0x91u8].skip(1) =~= seq![0xe8u8, 0x48u8, 0x79u8, 0xb9u8, 0x70u8, 0x91u8]);
    }
    assert(be_nat(seq![0x28u8, 0x33u8, 0xe8u8, 0x48u8, 0x79u8, 0xb9u8, 0x70u8, 0x91u8]) == 0x2833e84879b97091) by {
        reveal_with_fuel(be_nat, 2);
        assert(seq![0x28u8, 0x33u8, 0xe8u8, 0x48u8, 0x79u8, 0xb9u8, 0x70u8, 0x91u8].skip(1) =~= seq![0x33u8, 0xe8u8, 0x48u8, 0x79u8, 0xb9u8, 0x70u8, 0x91u8]);
    }
}

/// One eight-byte word of the modulus, as the integer it denotes.
#[verifier::rlimit(100)]
proof fn lemma_q_word_3()
    ensures
        be_nat(seq![0x43u8, 0xe1u8, 0xf5u8, 0x93u8, 0xf0u8, 0x00u8, 0x00u8, 0x01u8]) == 0x43e1f593f0000001,
{
    lemma_pow256_values();
    assert(be_nat(seq![0x01u8]) == 0x1) by {
        reveal_with_fuel(be_nat, 3);
        reveal_with_fuel(pow256, 2);
    }
    assert(be_nat(seq![0x00u8, 0x01u8]) == 0x1) by {
        reveal_with_fuel(be_nat, 2);
        assert(seq![0x00u8, 0x01u8].skip(1) =~= seq![0x01u8]);
    }
    assert(be_nat(seq![0x00u8, 0x00u8, 0x01u8]) == 0x1) by {
        reveal_with_fuel(be_nat, 2);
        assert(seq![0x00u8, 0x00u8, 0x01u8].skip(1) =~= seq![0x00u8, 0x01u8]);
    }
    assert(be_nat(seq![0xf0u8, 0x00u8, 0x00u8, 0x01u8]) == 0xf0000001) by {
        reveal_with_fuel(be_nat, 2);
        assert(seq![0xf0u8, 0x00u8, 0x00u8, 0x01u8].skip(1) =~= seq![0x00u8, 0x00u8, 0x01u8]);
    }
    assert(be_nat(seq![0x93u8, 0xf0u8, 0x00u8, 0x00u8, 0x01u8]) == 0x93f0000001) by {
        reveal_with_fuel(be_nat, 2);
        assert(seq![0x93u8, 0xf0u8, 0x00u8, 0x00u8, 0x01u8].skip(1) =~= seq![0xf0u8, 0x00u8, 0x00u8, 0x01u8]);
    }
    assert(be_nat(seq![0xf5u8, 0x93u8, 0xf0u8, 0x00u8, 0x00u8, 0x01u8]) == 0xf593f0000001) by {
        reveal_with_fuel(be_nat, 2);
        assert(seq![0xf5u8, 0x93u8, 0xf0u8, 0x00u8, 0x00u8, 0x01u8].skip(1) =~= seq![0x93u8, 0xf0u8, 0x00u8, 0x00u8, 0x01u8]);
    }
    assert(be_nat(seq![0xe1u8, 0xf5u8, 0x93u8, 0xf0u8, 0x00u8, 0x00u8, 0x01u8]) == 0xe1f593f0000001) by {
        reveal_with_fuel(be_nat, 2);
        assert(seq![0xe1u8, 0xf5u8, 0x93u8, 0xf0u8, 0x00u8, 0x00u8, 0x01u8].skip(1) =~= seq![0xf5u8, 0x93u8, 0xf0u8, 0x00u8, 0x00u8, 0x01u8]);
    }
    assert(be_nat(seq![0x43u8, 0xe1u8, 0xf5u8, 0x93u8, 0xf0u8, 0x00u8, 0x00u8, 0x01u8]) == 0x43e1f593f0000001) by {
        reveal_with_fuel(be_nat, 2);
        assert(seq![0x43u8, 0xe1u8, 0xf5u8, 0x93u8, 0xf0u8, 0x00u8, 0x00u8, 0x01u8].skip(1) =~= seq![0xe1u8, 0xf5u8, 0x93u8, 0xf0u8, 0x00u8, 0x00u8, 0x01u8]);
    }
}

/// The modulus bytes denote the scalar-field order of the proof system's
/// pairing-friendly curve.
#[verifier::rlimit(100)]
pub proof fn lemma_q_nat_value()
    ensures
        q_nat() == 0x30644e72e131a029b85045b68181585d2833e84879b9709143e1f593f0000001,
{
    let q0 = seq![0x30u8, 0x64u8, 0x4eu8, 0x72u8, 0xe1u8, 0x31u8, 0xa0u8, 0x29u8];
    let q1 = seq![0xb8u8, 0x50u8, 0x45u8, 0xb6u8, 0x81u8, 0x81u8, 0x58u8, 0x5du8];
    let q2 = seq![0x28u8, 0x33u8, 0xe8u8, 0x48u8, 0x79u8, 0xb9u8, 0x70u8, 0x91u8];
    let q3 = seq![0x43u8, 0xe1u8, 0xf5u8, 0x93u8, 0xf0u8, 0x00u8, 0x00u8, 0x01u8];
    assert(q_bytes() =~= q0 + q1 + q2 + q3);
    lemma_be_nat_concat(q0 + q1 + q2, q3);
    lemma_be_nat_concat(q0 + q1, q2);
    lemma_be_nat_concat(q0, q1);
    lemma_q_word_0();
    lemma_q_word_1();
    lemma_q_word_2();
    lemma_q_word_3();
    lemma_pow256_values();
    assert(be_nat(q0 + q1) == 0x30644e72e131a029b85045b68181585d) by (nonlinear_arith)
        requires
            be_nat(q0 + q1) == be_nat(q0) * pow256(8) + be_nat(q1),
            be_nat(q0) == 0x30644e72e131a029,
            be_nat(q1) == 0xb85045b68181585d,
            pow256(8) == 0x10000000000000000,
    ;
    assert(be_nat(q0 + q1 + q2) == 0x30644e72e131a029b85045b68181585d2833e84879b97091)
        by (nonlinear_arith)
        requires
            be_nat(q0 + q1 + q2) == be_nat(q0 + q1) * pow256(8) + be_nat(q2),
            be_nat(q0 + q1) == 0x30644e72e131a029b85045b68181585d,
            be_nat(q2) == 0x2833e84879b97091,
            pow256(8) == 0x10000000000000000,
    ;
    assert(be_nat(q0 + q1 + q2 + q3)
        == 0x30644e72e131a029b85045b68181585d2833e84879b9709143e1f593f0000001)
        by (nonlinear_arith)
        requires
            be_nat(q0 + q1 + q2 + q3) == be_nat(q0 + q1 + q2) * pow256(8) + be_nat(q3),
            be_nat(q0 + q1 + q2) == 0x30644e72e131a029b85045b68181585d2833e84879b97091,
            be_nat(q3) == 0x43e1f593f0000001,
            pow256(8) == 0x10000000000000000,
    ;
}

/// The modulus, as a field element.
pub fn q_field_element() -> (r: FieldElement)
    ensures
        r.wf(),
        r@ == q_bytes(),
{
    let bytes: Vec<u8> = vec![
        0x30u8, 0x64u8, 0x4eu8, 0x72u8, 0xe1u8, 0x31u8, 0xa0u8, 0x29u8,
        0xb8u8, 0x50u8, 0x45u8, 0xb6u8, 0x81u8, 0x81u8, 0x58u8, 0x5du8,
        0x28u8, 0x33u8, 0xe8u8, 0x48u8, 0x79u8, 0xb9u8, 0x70u8, 0x91u8,
        0x43u8, 0xe1u8, 0xf5u8, 0x93u8, 0xf0u8, 0x00u8, 0x00u8, 0x01u8,
    ];
    proof {
        assert(bytes@ =~= q_bytes());
    }
    FieldElement { bytes }
}

/// Numeric comparison of two field elements through their equal-width
/// big-endian renderings.
pub fn fe_lt(a: &FieldElement, b: &FieldElement) -> (r: bool)
    requires
        a.wf(),
        b.wf(),
    ensures
        r == (a.value() < b.value()),
{
    let mut i: usize = 0;
    while i < 32
        invariant
            a.wf(),
            b.wf(),
            i <= 32,
            forall|j: int| 0 <= j < i ==> a.bytes@[j] == b.bytes@[j],
        decreases 32 - i,
    {
        let x = a.bytes[i];
        let y = b.bytes[i];
        if x < y {
            proof {
                lemma_be_nat_prefix_lt(a@, b@, i as int);
            }
            return true;
        }
        if y < x {
            proof {
                lemma_be_nat_prefix_lt(b@, a@, i as int);
            }
            return false;
        }
        i = i + 1;
    }
    proof {
        assert(a@ =~= b@);
    }
    false
}

} // verus!
