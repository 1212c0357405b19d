//! Virtual-machine identifiers, drawn and written by the `uuid` crate.

use vstd::prelude::*;

use crate::domain::VmId;
use crate::text::lacks_char;

verus! {

/// Whether `id` carries the marks of a random UUID: version 4 in bits 76 to 79
/// and the variant binary 10 in bits 62 and 63.
pub open spec fn is_random_uuid(id: VmId) -> bool {
    &&& (id >> 76u32) & 0xfu128 == 4
    &&& (id >> 62u32) & 0x3u128 == 2
}

/// Draws a fresh identifier.
/// Calls `uuid::Uuid::new_v4`, which takes 122 random bits from the operating
/// system and sets the version field (bits 76 to 79) to 4 and the variant field
/// (bits 62 and 63) to binary 10; the result is that UUID's value (`as_u128`).
/// Nothing else is claimed of the value, which is random.
#[verifier::external_body]
pub fn new_vm_id() -> (id: VmId)
    ensures
        is_random_uuid(id),
{
    uuid::Uuid::new_v4().as_u128()
}

/// The lowercase hexadecimal digit for `d` (below 16).
pub open spec fn hex_digit(d: nat) -> char {
    if d < 10 {
        crate::text::digit_char(d)
    } else if d == 10 {
        'a'
    } else if d == 11 {
        'b'
    } else if d == 12 {
        'c'
    } else if d == 13 {
        'd'
    } else if d == 14 {
        'e'
    } else {
        'f'
    }
}

/// The last `n` hexadecimal digits of `v`, most significant first.
pub open spec fn hex_digits(v: nat, n: nat) -> Seq<char>
    decreases n,
{
    if n == 0 {
        seq![]
    } else {
        hex_digits(v / 16, (n - 1) as nat).push(hex_digit(v % 16))
    }
}

/// The hyphenated form of a UUID: its 32 lowercase hexadecimal digits, most
/// significant first, in groups of 8, 4, 4, 4 and 12 joined by `-`.
pub open spec fn uuid_text(id: VmId) -> Seq<char> {
    let h = hex_digits(id as nat, 32);
    h.subrange(0, 8) + seq!['-'] + h.subrange(8, 12) + seq!['-'] + h.subrange(12, 16) + seq!['-']
        + h.subrange(16, 20) + seq!['-'] + h.subrange(20, 32)
}

/// Hexadecimal digits hold no `<`.
proof fn lemma_hex_digits_lack_lt(v: nat, n: nat)
    ensures
        lacks_char(hex_digits(v, n), '<'),
    decreases n,
{
    if n > 0 {
        lemma_hex_digits_lack_lt(v / 16, (n - 1) as nat);
    }
}

/// `hex_digits(v, n)` has `n` digits.
proof fn lemma_hex_digits_len(v: nat, n: nat)
    ensures
        hex_digits(v, n).len() == n,
    decreases n,
{
    if n > 0 {
        lemma_hex_digits_len(v / 16, (n - 1) as nat);
    }
}

/// The hyphenated form of a UUID has 36 characters and holds no `<`.
pub proof fn lemma_uuid_text_lacks_lt(id: VmId)
    ensures
        uuid_text(id).len() == 36,
        lacks_char(uuid_text(id), '<'),
{
    let h = hex_digits(id as nat, 32);
    lemma_hex_digits_lack_lt(id as nat, 32);
    assert(h.len() == 32) by {
        lemma_hex_digits_len(id as nat, 32);
    }
    let u = uuid_text(id);
    assert forall|i: int| 0 <= i < u.len() implies u[i] != '<' by {
        if i < 8 {
            assert(u[i] == h[i]);
        } else if i == 8 {
        } else if i < 13 {
            assert(u[i] == h[i - 1]);
        } else if i == 13 {
        } else if i < 18 {
            assert(u[i] == h[i - 2]);
        } else if i == 18 {
        } else if i < 23 {
            assert(u[i] == h[i - 3]);
        } else if i == 23 {
        } else {
            assert(u[i] == h[i - 4]);
        }
    }
}

/// Writes an identifier in the UUID's hyphenated form.
/// Calls `uuid::Uuid::from_u128`, which reads the value most significant byte
/// first, and writes it with `Display`, which the crate documents as the
/// lowercase hyphenated form.
#[verifier::external_body]
pub fn vm_id_text(id: VmId) -> (r: String)
    ensures
        r@ == uuid_text(id),
{
    uuid::Uuid::from_u128(id).hyphenated().to_string()
}

} // verus!
