//! Masked email matching: the dot-joined email sub-parts must reconstruct the
//! full email address byte for byte, except that wherever the email holds the
//! address separator `@`, the reconstruction must hold the placeholder `$`
//! that the proof circuit works with.

use vstd::prelude::*;

verus! {

/// The address separator of an email address.
pub const AT_BYTE: u8 = 64;

/// The placeholder standing in for the address separator in masked parts.
pub const PLACEHOLDER_BYTE: u8 = 36;

/// The separator joined between consecutive email sub-parts.
pub const DOT_BYTE: u8 = 46;

/// The byte string obtained by joining the parts with `.` between
/// consecutive parts, and no trailing separator.
pub open spec fn joined_parts(parts: Seq<Seq<u8>>) -> Seq<u8>
    decreases parts.len(),
{
    if parts.len() == 0 {
        Seq::empty()
    } else if parts.len() == 1 {
        parts[0]
    } else {
        parts[0] + seq![DOT_BYTE] + joined_parts(parts.skip(1))
    }
}

/// Position-wise comparison rule: where the email holds `@` the composed
/// string must hold `$`; everywhere else the bytes must agree.
pub open spec fn masked_byte_ok(composed: Seq<u8>, email: Seq<u8>, i: int) -> bool {
    if email[i] == AT_BYTE {
        composed[i] == PLACEHOLDER_BYTE
    } else {
        composed[i] == email[i]
    }
}

/// The composed string matches the email: equal lengths, and every position
/// satisfies the masked comparison rule.
pub open spec fn masked_match(composed: Seq<u8>, email: Seq<u8>) -> bool {
    &&& composed.len() == email.len()
    &&& forall|i: int| 0 <= i < email.len() ==> masked_byte_ok(composed, email, i)
}

/// The email-parts sequence reconstructs the email under the masking rule.
pub open spec fn email_matches(parts: Seq<Seq<u8>>, email: Seq<u8>) -> bool {
    masked_match(joined_parts(parts), email)
}

/// Extending the join by one more part appends a dot and that part.
proof fn lemma_joined_parts_take_step(parts: Seq<Seq<u8>>, i: int)
    requires
        1 <= i < parts.len(),
    ensures
        joined_parts(parts.take(i + 1)) == joined_parts(parts.take(i)) + seq![DOT_BYTE]
            + parts[i],
    decreases i,
{
    if i == 1 {
        let t = parts.take(2);
        assert(t.skip(1) =~= seq![parts[1]]);
        assert(joined_parts(t.skip(1)) == parts[1]);
        assert(parts.take(1) =~= seq![parts[0]]);
        assert(t[0] == parts[0]);
    } else {
        let rest = parts.skip(1);
        assert(parts.take(i + 1).skip(1) =~= rest.take(i));
        assert(parts.take(i).skip(1) =~= rest.take(i - 1));
        lemma_joined_parts_take_step(rest, i - 1);
        assert(rest[i - 1] == parts[i]);
        assert(parts.take(i + 1)[0] == parts[0]);
        assert(parts.take(i)[0] == parts[0]);
        assert(joined_parts(parts.take(i + 1)) == parts[0] + seq![DOT_BYTE] + joined_parts(
            rest.take(i),
        ));
        assert(joined_parts(parts.take(i)) == parts[0] + seq![DOT_BYTE] + joined_parts(
            rest.take(i - 1),
        ));
        assert(joined_parts(parts.take(i)) + seq![DOT_BYTE] + parts[i] =~= parts[0]
            + seq![DOT_BYTE] + (joined_parts(rest.take(i - 1)) + seq![DOT_BYTE] + parts[i]));
    }
}

/// Validates that the dot-joined `email_parts` reconstruct `email`, with the
/// placeholder `$` standing wherever the email holds `@`.
pub fn _verify_email(email_parts: &Vec<Vec<u8>>, email: &Vec<u8>) -> (r: bool)
    ensures
        r == email_matches(email_parts.deep_view(), email@),
{
    let ghost parts = email_parts.deep_view();
    proof {
        assert forall|k: int| 0 <= k < email_parts@.len() implies parts[k] == email_parts@[k]@ by {
            assert(parts[k] =~= email_parts@[k]@);
        }
    }
    // Compose the candidate string by joining the parts with dots.
    let mut composed: Vec<u8> = Vec::new();
    let mut i: usize = 0;
    while i < email_parts.len()
        invariant
            i <= email_parts@.len(),
            parts == email_parts.deep_view(),
            parts.len() == email_parts@.len(),
            forall|k: int| 0 <= k < email_parts@.len() ==> parts[k] == email_parts@[k]@,
            composed@ == joined_parts(parts.take(i as int)),
        decreases email_parts@.len() - i,
    {
        if i > 0 {
            composed.push(DOT_BYTE);
        }
        let mut piece = crate::field::copy_bytes(&email_parts[i]);
        composed.append(&mut piece);
        proof {
            if i == 0 {
                assert(parts.take(1) =~= seq![parts[0]]);
                assert(composed@ =~= joined_parts(parts.take(1)));
            } else {
                lemma_joined_parts_take_step(parts, i as int);
            }
            assert(composed@ =~= joined_parts(parts.take(i as int + 1)));
        }
        i = i + 1;
    }
    proof {
        assert(parts.take(parts.len() as int) =~= parts);
    }
    // The lengths must agree before any position can be compared.
    if composed.len() != email.len() {
        return false;
    }
    // Compare byte by byte under the masking substitution rule.
    let mut k: usize = 0;
    while k < email.len()
        invariant
            k <= email@.len(),
            composed@.len() == email@.len(),
            parts == email_parts.deep_view(),
            composed@ == joined_parts(parts),
            forall|t: int| 0 <= t < k ==> masked_byte_ok(composed@, email@, t),
        decreases email@.len() - k,
    {
        let email_byte = email[k];
        let composed_byte = composed[k];
        if email_byte == AT_BYTE {
            if composed_byte != PLACEHOLDER_BYTE {
                proof {
                    assert(!masked_byte_ok(composed@, email@, k as int));
                }
                return false;
            }
        } else if email_byte != composed_byte {
            proof {
                assert(!masked_byte_ok(composed@, email@, k as int));
            }
            return false;
        }
        k = k + 1;
    }
    true
}

} // verus!
