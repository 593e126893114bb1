//! Numeric readings of byte strings: the big-endian and little-endian
//! unsigned integers a byte string denotes, and concatenation of byte-string
//! sequences, with the lemmas the rest of the crate needs about them.

use vstd::prelude::*;

verus! {

/// 256 raised to the power `k`.
pub open spec fn pow256(k: nat) -> nat
    decreases k,
{
    if k == 0 {
        1
    } else {
        256 * pow256((k - 1) as nat)
    }
}

/// The unsigned integer a byte string denotes when read big-endian
/// (most significant byte first).
pub open spec fn be_nat(s: Seq<u8>) -> nat
    decreases s.len(),
{
    if s.len() == 0 {
        0
    } else {
        (s[0] as nat) * pow256((s.len() - 1) as nat) + be_nat(s.skip(1))
    }
}

/// The unsigned integer a byte string denotes when read little-endian
/// (least significant byte first).
pub open spec fn le_nat(s: Seq<u8>) -> nat
    decreases s.len(),
{
    if s.len() == 0 {
        0
    } else {
        (s[0] as nat) + 256 * le_nat(s.skip(1))
    }
}

/// A big-endian value is bounded by 256 to the width.
pub proof fn lemma_be_nat_bound(s: Seq<u8>)
    ensures
        be_nat(s) < pow256(s.len()),
    decreases s.len(),
{
    if s.len() == 0 {
    } else {
        lemma_be_nat_bound(s.skip(1));
        let p = pow256((s.len() - 1) as nat);
        assert(pow256(s.len()) == 256 * p);
        assert((s[0] as nat) * p + be_nat(s.skip(1)) < 256 * p) by (nonlinear_arith)
            requires
                s[0] <= 255,
                be_nat(s.skip(1)) < p,
                0 < p,
        ;
    }
}

/// Two equal-width byte strings that agree up to position `i`, where the
/// first holds the smaller byte, order the same way as their values.
pub proof fn lemma_be_nat_prefix_lt(a: Seq<u8>, b: Seq<u8>, i: int)
    requires
        a.len() == b.len(),
        0 <= i < a.len(),
        forall|j: int| 0 <= j < i ==> a[j] == b[j],
        a[i] < b[i],
    ensures
        be_nat(a) < be_nat(b),
    decreases i,
{
    let p = pow256((a.len() - 1) as nat);
    if i == 0 {
        lemma_be_nat_bound(a.skip(1));
        lemma_be_nat_bound(b.skip(1));
        assert((a[0] as nat) * p + be_nat(a.skip(1)) < (b[0] as nat) * p + be_nat(b.skip(1)))
            by (nonlinear_arith)
            requires
                (a[0] as nat) < (b[0] as nat),
                be_nat(a.skip(1)) < p,
                0 < p,
        ;
    } else {
        assert(a.skip(1).len() == b.skip(1).len());
        assert(forall|j: int| 0 <= j < i - 1 ==> a.skip(1)[j] == b.skip(1)[j]);
        assert(a.skip(1)[i - 1] < b.skip(1)[i - 1]);
        lemma_be_nat_prefix_lt(a.skip(1), b.skip(1), i - 1);
        assert(a[0] == b[0]);
    }
}

/// 256-powers multiply as their exponents add.
pub proof fn lemma_pow256_add(x: nat, y: nat)
    ensures
        pow256(x + y) == pow256(x) * pow256(y),
    decreases x,
{
    if x == 0 {
        assert(pow256(0) == 1);
        assert(x + y == y);
    } else {
        lemma_pow256_add((x - 1) as nat, y);
        let pxm = pow256((x - 1) as nat);
        let py = pow256(y);
        assert(((x - 1) as nat) + y == (x + y - 1) as nat);
        assert(pow256((x + y - 1) as nat) == pxm * py);
        assert(pow256(x + y) == 256 * pow256((x + y - 1) as nat));
        assert(256 * (pxm * py) == (256 * pxm) * py) by (nonlinear_arith);
        assert(pow256(x) == 256 * pxm);
        assert(pow256(x + y) == pow256(x) * py);
    }
}

/// Concatenation splits a big-endian value at the boundary.
pub proof fn lemma_be_nat_concat(a: Seq<u8>, b: Seq<u8>)
    ensures
        be_nat(a + b) == be_nat(a) * pow256(b.len()) + be_nat(b),
    decreases a.len(),
{
    if a.len() == 0 {
        assert(a + b =~= b);
        assert(be_nat(a) == 0);
    } else {
        assert((a + b).skip(1) =~= a.skip(1) + b);
        lemma_be_nat_concat(a.skip(1), b);
        lemma_pow256_add((a.len() - 1) as nat, b.len());
        let a0 = a[0] as nat;
        let pa = pow256((a.len() - 1) as nat);
        let pb = pow256(b.len());
        assert((a + b)[0] == a[0]);
        assert(((a + b).len() - 1) as nat == ((a.len() - 1) as nat) + b.len());
        assert(be_nat(a + b) == a0 * (pa * pb) + (be_nat(a.skip(1)) * pb + be_nat(b)));
        assert(be_nat(a) == a0 * pa + be_nat(a.skip(1)));
        assert(a0 * (pa * pb) + be_nat(a.skip(1)) * pb == (a0 * pa + be_nat(a.skip(1))) * pb)
            by (nonlinear_arith);
    }
}

/// Concatenation of a sequence of byte strings, in order.
pub open spec fn concat_bytes(s: Seq<Seq<u8>>) -> Seq<u8>
    decreases s.len(),
{
    if s.len() == 0 {
        Seq::empty()
    } else {
        s[0] + concat_bytes(s.skip(1))
    }
}

/// Appending one more byte string extends the concatenation at its end.
pub proof fn lemma_concat_bytes_push(s: Seq<Seq<u8>>, x: Seq<u8>)
    ensures
        concat_bytes(s.push(x)) == concat_bytes(s) + x,
    decreases s.len(),
{
    if s.len() == 0 {
        assert(s.push(x).skip(1) =~= Seq::<Seq<u8>>::empty());
        assert(concat_bytes(Seq::<Seq<u8>>::empty()) =~= Seq::<u8>::empty());
        assert(concat_bytes(s.push(x)) =~= x + Seq::<u8>::empty());
        assert(concat_bytes(s) + x =~= x + Seq::<u8>::empty());
    } else {
        assert(s.push(x).skip(1) =~= s.skip(1).push(x));
        lemma_concat_bytes_push(s.skip(1), x);
        assert(concat_bytes(s.push(x)) =~= concat_bytes(s) + x);
    }
}

/// Taking one more element extends the concatenation by exactly that element.
pub proof fn lemma_concat_bytes_take_step(s: Seq<Seq<u8>>, k: int)
    requires
        0 <= k < s.len(),
    ensures
        concat_bytes(s.take(k + 1)) == concat_bytes(s.take(k)) + s[k],
{
    assert(s.take(k + 1) =~= s.take(k).push(s[k]));
    lemma_concat_bytes_push(s.take(k), s[k]);
}

} // verus!
