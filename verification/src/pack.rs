//! Packing of a byte string into field elements: the string is conceptually
//! right-padded with zero bytes up to a target size, partitioned into
//! consecutive 31-byte chunks (the last chunk may be shorter), and each chunk,
//! read as a little-endian integer, becomes one field element. 31 bytes keep
//! every element below the 254-bit scalar-field modulus.

use vstd::prelude::*;

use crate::field::FieldElement;
use crate::numeric::{be_nat, le_nat, lemma_be_nat_bound, lemma_be_nat_prefix_lt, pow256};

verus! {

/// How many field elements a buffer of `n` padded bytes yields: the number
/// of 31-byte chunks, the last one counted even when shorter.
pub open spec fn chunk_count(n: nat) -> nat {
    if n % 31 == 0 {
        n / 31
    } else {
        n / 31 + 1
    }
}

/// `chunk_count` is the ceiling of `n / 31`.
pub proof fn lemma_chunk_count_is_ceil(n: nat)
    ensures
        chunk_count(n) == (n + 30) / 31,
{
    vstd::arithmetic::div_mod::lemma_fundamental_div_mod(n as int, 31);
    let q = n / 31;
    let r = n % 31;
    if r == 0 {
        assert((n + 30) / 31 == q) by (nonlinear_arith)
            requires
                n == 31 * q + r,
                r == 0,
                0 <= q,
        ;
    } else {
        assert((n + 30) / 31 == q + 1) by (nonlinear_arith)
            requires
                n == 31 * q + r,
                0 < r < 31,
                0 <= q,
        ;
    }
}

/// The byte at position `idx` of the buffer once right-padded with zeros.
pub open spec fn padded_byte(b: Seq<u8>, idx: int) -> u8 {
    if 0 <= idx < b.len() {
        b[idx]
    } else {
        0
    }
}

/// The 32-byte big-endian rendering of field element `i` of the packing of
/// `b` padded to `n` bytes: byte `j` of chunk `i` (little-endian position
/// `31 * i + j` of the padded buffer) lands at big-endian position `31 - j`,
/// and the leading byte is always zero.
pub open spec fn packed_field(b: Seq<u8>, n: nat, i: nat) -> Seq<u8> {
    Seq::new(
        32,
        |p: int|
            if p == 0 {
                0u8
            } else {
                let idx = i * 31 + (31 - p);
                if idx < n {
                    padded_byte(b, idx)
                } else {
                    0u8
                }
            },
    )
}

/// All field elements of the packing of `b` padded to `n` bytes, in order.
pub open spec fn packed_fields(b: Seq<u8>, n: nat) -> Seq<Seq<u8>> {
    Seq::new(chunk_count(n), |i: int| packed_field(b, n, i as nat))
}

/// Packs `bytes` into 31-byte little-endian field elements, right-padding
/// with zero bytes up to `padded_size`; yields exactly
/// `chunk_count(padded_size)` elements, that is the ceiling of
/// `padded_size / 31`, whatever the input length.
pub fn pack_bytes_to_fields(bytes: &Vec<u8>, padded_size: usize) -> (r: Vec<FieldElement>)
    requires
        padded_size + 31 <= usize::MAX,
    ensures
        r@.len() == chunk_count(padded_size as nat),
        forall|k: int|
            0 <= k < r@.len() ==> (#[trigger] r@[k]).wf() && r@[k]@ == packed_field(
                bytes@,
                padded_size as nat,
                k as nat,
            ),
        forall|k: int|
            0 <= k < r@.len() ==> be_nat((#[trigger] r@[k])@) == le_nat(
                chunk_bytes(bytes@, padded_size as nat, k as nat),
            ),
{
    let remain = padded_size % 31;
    let mut num_fields = (padded_size - remain) / 31;
    if remain > 0 {
        num_fields = num_fields + 1;
    }
    proof {
        vstd::arithmetic::div_mod::lemma_fundamental_div_mod(padded_size as int, 31);
        assert((padded_size - remain) / 31 == padded_size as int / 31) by (nonlinear_arith)
            requires
                padded_size == 31 * (padded_size as int / 31) + remain,
                remain == padded_size as int % 31,
                0 <= remain < 31,
        ;
        assert(num_fields == chunk_count(padded_size as nat));
        assert(num_fields * 31 <= padded_size + 30) by (nonlinear_arith)
            requires
                padded_size == 31 * (padded_size as int / 31) + remain,
                0 <= remain < 31,
                num_fields == chunk_count(padded_size as nat),
                num_fields == if remain == 0 {
                    padded_size as int / 31
                } else {
                    padded_size as int / 31 + 1
                },
        ;
    }
    let mut fields: Vec<FieldElement> = Vec::new();
    let mut i: usize = 0;
    while i < num_fields
        invariant
            i <= num_fields,
            num_fields == chunk_count(padded_size as nat),
            num_fields * 31 <= padded_size + 30,
            padded_size + 31 <= usize::MAX,
            fields@.len() == i,
            forall|k: int|
                0 <= k < i ==> (#[trigger] fields@[k]).wf() && fields@[k]@ == packed_field(
                    bytes@,
                    padded_size as nat,
                    k as nat,
                ),
        decreases num_fields - i,
    {
        proof {
            assert(i * 31 + 31 <= num_fields * 31) by (nonlinear_arith)
                requires
                    i < num_fields,
            ;
        }
        let mut fe: Vec<u8> = Vec::new();
        fe.push(0u8);
        let mut p: usize = 1;
        while p < 32
            invariant
                1 <= p <= 32,
                i * 31 + 31 <= padded_size + 30,
                padded_size + 31 <= usize::MAX,
                fe@.len() == p,
                forall|t: int|
                    0 <= t < p ==> fe@[t] == packed_field(bytes@, padded_size as nat, i as nat)[t],
            decreases 32 - p,
        {
            let j = 31 - p;
            let idx = i * 31 + j;
            let byte_val = if idx < padded_size {
                if idx < bytes.len() {
                    bytes[idx]
                } else {
                    0u8
                }
            } else {
                0u8
            };
            fe.push(byte_val);
            p = p + 1;
        }
        proof {
            assert(fe@ =~= packed_field(bytes@, padded_size as nat, i as nat));
        }
        fields.push(FieldElement { bytes: fe });
        i = i + 1;
    }
    proof {
        assert forall|k: int| 0 <= k < fields@.len() implies be_nat((#[trigger] fields@[k])@)
            == le_nat(chunk_bytes(bytes@, padded_size as nat, k as nat)) by {
            lemma_packed_field_value(bytes@, padded_size as nat, k as nat);
        }
    }
    fields
}

/// The bytes read back from a packed sequence of field elements: position
/// `idx` of the padded buffer is byte `idx % 31` of chunk `idx / 31`, found
/// at big-endian position `31 - idx % 31` of that element.
pub open spec fn unpacked_bytes(fields: Seq<Seq<u8>>, n: nat) -> Seq<u8> {
    Seq::new(n, |idx: int| fields[idx / 31][31 - idx % 31])
}

/// Packing round-trip: reading the packed elements back yields the original
/// byte string followed by its zero padding.
pub proof fn lemma_pack_round_trip(b: Seq<u8>, n: nat)
    requires
        b.len() <= n,
    ensures
        unpacked_bytes(packed_fields(b, n), n) == b + Seq::new((n - b.len()) as nat, |k: int| 0u8),
{
    let fields = packed_fields(b, n);
    let rhs = b + Seq::new((n - b.len()) as nat, |k: int| 0u8);
    assert forall|idx: int| 0 <= idx < n implies unpacked_bytes(fields, n)[idx] == rhs[idx] by {
        vstd::arithmetic::div_mod::lemma_fundamental_div_mod(idx, 31);
        let i = idx / 31;
        let m = idx % 31;
        assert(0 <= m < 31);
        assert(i < chunk_count(n)) by (nonlinear_arith)
            requires
                idx == 31 * i + m,
                0 <= m < 31,
                idx < n,
                chunk_count(n) == if n % 31 == 0 {
                    n / 31
                } else {
                    n / 31 + 1
                },
                n == 31 * (n as int / 31) + n as int % 31,
                0 <= n as int % 31 < 31,
        ;
        assert(fields[i] == packed_field(b, n, i as nat));
        let p = 31 - m;
        assert(1 <= p <= 31);
        assert(i * 31 + (31 - p) == idx);
        assert(packed_field(b, n, i as nat)[p] == padded_byte(b, idx));
    };
    assert(unpacked_bytes(fields, n) =~= rhs);
}

/// Each packed element denotes, big-endian, the little-endian value of its
/// chunk of the padded buffer, and stays below 256 to the 31st power.
pub proof fn lemma_packed_field_value(b: Seq<u8>, n: nat, i: nat)
    ensures
        be_nat(packed_field(b, n, i)) == le_nat(chunk_bytes(b, n, i)),
        be_nat(packed_field(b, n, i)) < pow256(31),
{
    let f = packed_field(b, n, i);
    lemma_be_nat_bound(f.skip(1));
    assert(be_nat(f) == (f[0] as nat) * pow256(31) + be_nat(f.skip(1)));
    lemma_be_le_mirror(f.skip(1), chunk_bytes(b, n, i), 31);
}

/// The 31 bytes of chunk `i` of the padded buffer (zero where the chunk
/// passes the padded size).
pub open spec fn chunk_bytes(b: Seq<u8>, n: nat, i: nat) -> Seq<u8> {
    Seq::new(
        31,
        |j: int|
            if i * 31 + j < n {
                padded_byte(b, i * 31 + j)
            } else {
                0u8
            },
    )
}

/// A string of zero bytes denotes zero.
proof fn lemma_be_nat_zeros(n: nat)
    ensures
        be_nat(Seq::new(n, |j: int| 0u8)) == 0,
    decreases n,
{
    let z = Seq::new(n, |j: int| 0u8);
    if n == 0 {
    } else {
        assert(z.skip(1) =~= Seq::new((n - 1) as nat, |j: int| 0u8));
        lemma_be_nat_zeros((n - 1) as nat);
        assert(z[0] == 0u8);
        assert(be_nat(z) == (z[0] as nat) * pow256((z.len() - 1) as nat) + be_nat(z.skip(1)));
        assert((z[0] as nat) * pow256((z.len() - 1) as nat) == 0) by (nonlinear_arith)
            requires
                z[0] == 0u8,
        ;
    }
}

/// Every packed field element stays strictly below the scalar-field modulus:
/// its leading byte is zero, so its value is below 256 to the 31st power,
/// which the modulus exceeds.
pub proof fn lemma_packed_field_below_modulus(b: Seq<u8>, n: nat, i: nat)
    ensures
        be_nat(packed_field(b, n, i)) < crate::field::q_nat(),
{
    lemma_packed_field_value(b, n, i);
    let one = Seq::new(32, |j: int| if j == 0 { 1u8 } else { 0u8 });
    assert(one.skip(1) =~= Seq::new(31, |j: int| 0u8));
    lemma_be_nat_zeros(31);
    assert(one[0] == 1u8);
    assert(be_nat(one) == (one[0] as nat) * pow256(31) + be_nat(one.skip(1)));
    assert(be_nat(one) == pow256(31));
    assert(crate::field::q_bytes()[0] == 0x30u8);
    lemma_be_nat_prefix_lt(one, crate::field::q_bytes(), 0);
}

/// A byte string read big-endian equals its mirror image read little-endian.
proof fn lemma_be_le_mirror(be: Seq<u8>, le: Seq<u8>, w: nat)
    requires
        be.len() == w,
        le.len() == w,
        forall|j: int| 0 <= j < w ==> be[j] == le[w - 1 - j],
    ensures
        be_nat(be) == le_nat(le),
    decreases w,
{
    if w == 0 {
    } else {
        let le2 = le.take(w - 1);
        assert(forall|j: int| 0 <= j < w - 1 ==> be.skip(1)[j] == le2[w - 1 - 1 - j]);
        lemma_be_le_mirror(be.skip(1), le2, (w - 1) as nat);
        lemma_le_nat_push_top(le, (w - 1) as nat);
        assert(be[0] == le[w - 1]);
    }
}

/// Dropping the most significant (last) byte of a little-endian string
/// splits its value at the matching power.
proof fn lemma_le_nat_push_top(le: Seq<u8>, m: nat)
    requires
        le.len() == m + 1,
    ensures
        le_nat(le) == le_nat(le.take(m as int)) + (le[m as int] as nat) * pow256(m),
    decreases m,
{
    if m == 0 {
        assert(le.skip(1) =~= Seq::<u8>::empty());
        assert(le.take(0) =~= Seq::<u8>::empty());
        assert(le_nat(Seq::<u8>::empty()) == 0);
        assert(pow256(0) == 1);
        assert(le_nat(le) == (le[0] as nat) + 256 * le_nat(le.skip(1)));
    } else {
        let tail = le.skip(1);
        let top = le[m as int] as nat;
        lemma_le_nat_push_top(tail, (m - 1) as nat);
        assert(tail.take(m - 1) =~= le.take(m as int).skip(1));
        assert(tail[m - 1] == le[m as int]);
        assert(le_nat(tail) == le_nat(tail.take(m - 1)) + top * pow256((m - 1) as nat));
        assert(le_nat(le) == (le[0] as nat) + 256 * le_nat(tail));
        assert(le.take(m as int)[0] == le[0]);
        assert(le.take(m as int).len() == m);
        assert(le_nat(le.take(m as int)) == (le[0] as nat) + 256 * le_nat(tail.take(m - 1)));
        assert(le_nat(le) == le_nat(le.take(m as int)) + 256 * (top * pow256((m - 1) as nat)));
        assert(256 * (top * pow256((m - 1) as nat)) == top * pow256(m)) by (nonlinear_arith)
            requires
                pow256(m) == 256 * pow256((m - 1) as nat),
        ;
    }
}

} // verus!
