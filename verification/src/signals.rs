//! The public-signal vector: 60 field elements assembled from a claim
//! command in a fixed layout, then serialized as 32 big-endian bytes per
//! element, concatenated in slot order. The layout is the wire contract
//! toward the external verifier and must match the circuit's declared input
//! ordering exactly.

use vstd::prelude::*;

use crate::codec::{abi_decode_pubkey, abi_pubkey_of, ClaimCommand, CommandModel};
use crate::field::copy_bytes;
use crate::numeric::{concat_bytes, lemma_concat_bytes_take_step};
use crate::pack::{packed_field, pack_bytes_to_fields};

verus! {

/// Field elements the packed domain occupies.
pub const DOMAIN_FIELDS: usize = 9;

/// Bytes the domain is padded to before packing.
pub const DOMAIN_BYTES: usize = 255;

/// Field elements the packed email address occupies.
pub const EMAIL_FIELDS: usize = 9;

/// Bytes the email address is padded to before packing.
pub const EMAIL_BYTES: usize = 256;

/// Field elements the packed masked command occupies.
pub const COMMAND_FIELDS: usize = 20;

/// Bytes the masked command is padded to before packing.
pub const COMMAND_BYTES: usize = 605;

/// Field elements of the public-key array.
pub const PUBKEY_FIELDS: usize = 17;

/// Field elements of the whole public-signal vector.
pub const SIGNAL_FIELDS: usize = 60;

/// The bytes of the expected command text: the literal `Sign ` followed by
/// the message.
pub open spec fn expected_command_bytes(message: Seq<u8>) -> Seq<u8> {
    seq![83u8, 105u8, 103u8, 110u8, 32u8] + message
}

/// The 32-byte rendering of an all-zero field element.
pub open spec fn zero_field_bytes() -> Seq<u8> {
    Seq::new(32, |i: int| 0u8)
}

/// The 32-byte rendering of a boolean flag: zero bytes with the last one 1
/// when the flag is set.
pub open spec fn flag_field_bytes(flag: bool) -> Seq<u8> {
    Seq::new(32, |i: int| if i == 31 && flag { 1u8 } else { 0u8 })
}

/// Slot `s` of the 60-element public-signal vector of a command, as its
/// 32-byte big-endian rendering:
/// slots 0..9 hold the domain packed at 255 bytes; 9 the DKIM-signer hash;
/// 10 the nullifier; 11 the timestamp; 12..32 the masked command (`Sign `
/// and the resolver name) packed at 605 bytes; 32 the account salt; 33 the
/// code-embedded flag; 34..51 the decoded public-key array, all zero when
/// its bytes do not decode; 51..60 the email address packed at 256 bytes.
pub open spec fn signal_slot(c: CommandModel, s: int) -> Seq<u8> {
    if s < 9 {
        packed_field(c.domain, 255, s as nat)
    } else if s == 9 {
        c.dkim_signer_hash
    } else if s == 10 {
        c.nullifier
    } else if s == 11 {
        c.timestamp
    } else if s < 32 {
        packed_field(expected_command_bytes(c.resolver), 605, (s - 12) as nat)
    } else if s == 32 {
        c.account_salt
    } else if s == 33 {
        flag_field_bytes(c.is_code_embedded)
    } else if s < 51 {
        match abi_pubkey_of(c.miscellaneous_data) {
            Some(pk) => pk[s - 34],
            None => zero_field_bytes(),
        }
    } else {
        packed_field(c.email, 256, (s - 51) as nat)
    }
}

/// The 60 slots of the public-signal vector, in order.
pub open spec fn signal_slots(c: CommandModel) -> Seq<Seq<u8>> {
    Seq::new(60, |s: int| signal_slot(c, s))
}

/// The serialized public-signal buffer: the 60 slot renderings concatenated.
pub open spec fn signal_bytes(c: CommandModel) -> Seq<u8> {
    concat_bytes(signal_slots(c))
}

/// The expected command text for a message: the literal `Sign ` followed by
/// the message bytes.
pub fn get_expected_command(message: &Vec<u8>) -> (r: Vec<u8>)
    ensures
        r@ == expected_command_bytes(message@),
{
    let mut out: Vec<u8> = vec![83u8, 105u8, 103u8, 110u8, 32u8];
    let mut tail = copy_bytes(message);
    out.append(&mut tail);
    proof {
        assert(out@ =~= expected_command_bytes(message@));
    }
    out
}

/// A vector of 32 zero bytes.
fn zero_field() -> (r: Vec<u8>)
    ensures
        r@ == zero_field_bytes(),
{
    let mut out: Vec<u8> = Vec::new();
    let mut i: usize = 0;
    while i < 32
        invariant
            i <= 32,
            out@.len() == i,
            forall|t: int| 0 <= t < i ==> out@[t] == 0u8,
        decreases 32 - i,
    {
        out.push(0u8);
        i = i + 1;
    }
    proof {
        assert(out@ =~= zero_field_bytes());
    }
    out
}

/// The 32-byte rendering of a boolean flag.
fn flag_field(flag: bool) -> (r: Vec<u8>)
    ensures
        r@ == flag_field_bytes(flag),
{
    let mut out = zero_field();
    if flag {
        let _ = out.pop();
        out.push(1u8);
    }
    proof {
        assert(out@ =~= flag_field_bytes(flag));
    }
    out
}

/// Builds the serialized public-signal buffer of a command: 60 field
/// elements in the fixed layout of `signal_slot`, each rendered as 32
/// big-endian bytes and concatenated in slot order, 1920 bytes in all. A
/// pure function of the command: equal commands yield byte-identical
/// buffers.
pub fn _build_pub_signals(command: &ClaimCommand) -> (r: Vec<u8>)
    requires
        command.wf(),
    ensures
        r@ == signal_bytes(command@),
        r@.len() == 1920,
{
    let ghost slots = signal_slots(command@);
    let mut out: Vec<u8> = Vec::new();
    proof {
        assert(slots.take(0) =~= Seq::<Seq<u8>>::empty());
    }

    // 1. The domain, packed (9 fields).
    let domain_fields = pack_bytes_to_fields(&command.domain, DOMAIN_BYTES);
    let mut i: usize = 0;
    while i < DOMAIN_FIELDS
        invariant
            i <= 9,
            slots == signal_slots(command@),
            domain_fields@.len() == 9,
            forall|k: int|
                0 <= k < 9 ==> (#[trigger] domain_fields@[k]).wf() && domain_fields@[k]@
                    == packed_field(command@.domain, 255, k as nat),
            out@ == concat_bytes(slots.take(i as int)),
            out@.len() == 32 * i,
        decreases 9 - i,
    {
        let mut piece = copy_bytes(&domain_fields[i].bytes);
        out.append(&mut piece);
        proof {
            lemma_concat_bytes_take_step(slots, i as int);
        }
        i = i + 1;
    }

    // 2. The DKIM-signer hash, big-endian (1 field).
    let mut piece = copy_bytes(&command.dkim_signer_hash);
    out.append(&mut piece);
    proof {
        lemma_concat_bytes_take_step(slots, 9);
    }

    // 3. The nullifier, big-endian (1 field).
    let mut piece = copy_bytes(&command.nullifier);
    out.append(&mut piece);
    proof {
        lemma_concat_bytes_take_step(slots, 10);
    }

    // 4. The timestamp, as-is (1 field).
    let mut piece = copy_bytes(&command.timestamp);
    out.append(&mut piece);
    proof {
        lemma_concat_bytes_take_step(slots, 11);
    }

    // 5. The masked command, packed (20 fields).
    let expected = get_expected_command(&command.resolver);
    let command_fields = pack_bytes_to_fields(&expected, COMMAND_BYTES);
    let mut i: usize = 0;
    while i < COMMAND_FIELDS
        invariant
            i <= 20,
            slots == signal_slots(command@),
            command_fields@.len() == 20,
            forall|k: int|
                0 <= k < 20 ==> (#[trigger] command_fields@[k]).wf() && command_fields@[k]@
                    == packed_field(expected_command_bytes(command@.resolver), 605, k as nat),
            out@ == concat_bytes(slots.take(12 + i as int)),
            out@.len() == 32 * (12 + i),
        decreases 20 - i,
    {
        let mut piece = copy_bytes(&command_fields[i].bytes);
        out.append(&mut piece);
        proof {
            lemma_concat_bytes_take_step(slots, 12 + i as int);
        }
        i = i + 1;
    }

    // 6. The account salt, big-endian (1 field).
    let mut piece = copy_bytes(&command.account_salt);
    out.append(&mut piece);
    proof {
        lemma_concat_bytes_take_step(slots, 32);
    }

    // 7. The code-embedded flag as 0 or 1 (1 field).
    let mut piece = flag_field(command.is_code_embedded);
    out.append(&mut piece);
    proof {
        lemma_concat_bytes_take_step(slots, 33);
    }

    // 8. The public-key array decoded from the miscellaneous data
    // (17 fields); left all zero when those bytes do not decode.
    match abi_decode_pubkey(&command.miscellaneous_data) {
        Ok(pubkey) => {
            proof {
                crate::codec::lemma_deep_view_bytes(pubkey@);
            }
            let mut i: usize = 0;
            while i < PUBKEY_FIELDS
                invariant
                    i <= 17,
                    slots == signal_slots(command@),
                    pubkey@.len() == 17,
                    abi_pubkey_of(command@.miscellaneous_data) == Some(pubkey.deep_view()),
                    forall|k: int| 0 <= k < 17 ==> (#[trigger] pubkey@[k])@.len() == 32,
                    forall|k: int| 0 <= k < 17 ==> (#[trigger] pubkey@[k]).deep_view() == pubkey@[k]@,
                    out@ == concat_bytes(slots.take(34 + i as int)),
                    out@.len() == 32 * (34 + i),
                decreases 17 - i,
            {
                let mut piece = copy_bytes(&pubkey[i]);
                out.append(&mut piece);
                proof {
                    lemma_concat_bytes_take_step(slots, 34 + i as int);
                }
                i = i + 1;
            }
        },
        Err(_) => {
            let mut i: usize = 0;
            while i < PUBKEY_FIELDS
                invariant
                    i <= 17,
                    slots == signal_slots(command@),
                    abi_pubkey_of(command@.miscellaneous_data) is None,
                    out@ == concat_bytes(slots.take(34 + i as int)),
                    out@.len() == 32 * (34 + i),
                decreases 17 - i,
            {
                let mut piece = zero_field();
                out.append(&mut piece);
                proof {
                    lemma_concat_bytes_take_step(slots, 34 + i as int);
                }
                i = i + 1;
            }
        },
    }

    // 9. The email address, packed (9 fields).
    let email_fields = pack_bytes_to_fields(&command.email, EMAIL_BYTES);
    let mut i: usize = 0;
    while i < EMAIL_FIELDS
        invariant
            i <= 9,
            slots == signal_slots(command@),
            email_fields@.len() == 9,
            forall|k: int|
                0 <= k < 9 ==> (#[trigger] email_fields@[k]).wf() && email_fields@[k]@
                    == packed_field(command@.email, 256, k as nat),
            out@ == concat_bytes(slots.take(51 + i as int)),
            out@.len() == 32 * (51 + i),
        decreases 9 - i,
    {
        let mut piece = copy_bytes(&email_fields[i].bytes);
        out.append(&mut piece);
        proof {
            lemma_concat_bytes_take_step(slots, 51 + i as int);
        }
        i = i + 1;
    }

    proof {
        assert(slots.take(60) =~= slots);
    }
    out
}

} // verus!
