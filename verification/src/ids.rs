//! Identifiers. Every id (event, seat, reservation, waitlist entry, user)
//! is a UUID, held here as the 128-bit number that it stands for.

use vstd::prelude::*;

verus! {

/// The lowercase hexadecimal digit of a value below sixteen.
pub open spec fn hex_char(d: nat) -> char {
    if d < 10 {
        crate::text::digit_char(d)
    } else if d == 10 { 'a' }
    else if d == 11 { 'b' }
    else if d == 12 { 'c' }
    else if d == 13 { 'd' }
    else if d == 14 { 'e' }
    else { 'f' }
}

/// The `k`-th of the 32 hexadecimal digits of `v`, most significant first:
/// the four bits of `v` that stand `4 * (31 - k)` bits up.
pub open spec fn nibble(v: u128, k: int) -> nat {
    ((v >> ((4 * (31 - k)) as u128)) & 0xf) as nat
}

/// Which of the 32 digits stands at position `p` of the hyphenated form.
pub open spec fn digit_position(p: int) -> int {
    if p < 8 { p }
    else if p < 13 { p - 1 }
    else if p < 18 { p - 2 }
    else if p < 23 { p - 3 }
    else { p - 4 }
}

/// The hyphenated lowercase form of a UUID, such as
/// `a1a2a3a4-b1b2-c1c2-d1d2-d3d4d5d6d7d8`: its 32 hexadecimal digits in
/// groups of 8, 4, 4, 4 and 12, joined by hyphens.
pub open spec fn hyphenated(v: u128) -> Seq<char> {
    Seq::new(36, |p: int|
        if p == 8 || p == 13 || p == 18 || p == 23 {
            '-'
        } else {
            hex_char(nibble(v, digit_position(p)))
        })
}

/// The UUID that `uuid::Uuid::parse_str` reads from a text, or `None`
/// where it refuses the text.
pub uninterp spec fn uuid_from_text(text: Seq<char>) -> Option<u128>;

fn hex_str(d: u128) -> (s: &'static str)
    requires
        d < 16,
    ensures
        s@ == seq![hex_char(d as nat)],
{
    proof {
        reveal_strlit("0");
        reveal_strlit("1");
        reveal_strlit("2");
        reveal_strlit("3");
        reveal_strlit("4");
        reveal_strlit("5");
        reveal_strlit("6");
        reveal_strlit("7");
        reveal_strlit("8");
        reveal_strlit("9");
        reveal_strlit("a");
        reveal_strlit("b");
        reveal_strlit("c");
        reveal_strlit("d");
        reveal_strlit("e");
        reveal_strlit("f");
    }
    if d == 0 { "0" }
    else if d == 1 { "1" }
    else if d == 2 { "2" }
    else if d == 3 { "3" }
    else if d == 4 { "4" }
    else if d == 5 { "5" }
    else if d == 6 { "6" }
    else if d == 7 { "7" }
    else if d == 8 { "8" }
    else if d == 9 { "9" }
    else if d == 10 { "a" }
    else if d == 11 { "b" }
    else if d == 12 { "c" }
    else if d == 13 { "d" }
    else if d == 14 { "e" }
    else { "f" }
}

/// A UUID in its hyphenated lowercase form, as `uuid`'s `Display` writes it.
pub fn uuid_text(id: u128) -> (s: String)
    ensures
        s@ == hyphenated(id),
{
    let mut s = String::new();
    let mut p: usize = 0;
    while p < 36
        invariant
            p <= 36,
            s@ == hyphenated(id).take(p as int),
        decreases 36 - p,
    {
        let ghost before = s@;
        proof {
            reveal_strlit("-");
        }
        if p == 8 || p == 13 || p == 18 || p == 23 {
            s.append("-");
            assert(hyphenated(id)[p as int] == '-');
        } else {
            let k: u128 = if p < 8 {
                p as u128
            } else if p < 13 {
                (p - 1) as u128
            } else if p < 18 {
                (p - 2) as u128
            } else if p < 23 {
                (p - 3) as u128
            } else {
                (p - 4) as u128
            };
            let shift: u128 = 4 * (31 - k);
            let d: u128 = (id >> shift) & 0xf;
            assert(d < 16) by (bit_vector)
                requires
                    d == (id >> shift) & 0xf,
            ;
            assert(k as int == digit_position(p as int));
            assert(d as nat == nibble(id, digit_position(p as int)));
            s.append(hex_str(d));
            assert(hyphenated(id)[p as int] == hex_char(d as nat));
        }
        assert(s@ =~= before.push(hyphenated(id)[p as int]));
        p = p + 1;
        assert(s@ =~= hyphenated(id).take(p as int));
    }
    assert(hyphenated(id).take(36) =~= hyphenated(id));
    s
}

/// Reads a UUID from a text with `uuid::Uuid::parse_str`, which takes
/// hexadecimal digits with optional hyphens (simple, hyphenated, braced and
/// URN forms). The contract names the result, and claims what the crate's
/// documentation says of the forms that it writes: the hyphenated form of a
/// UUID reads back as that UUID.
#[verifier::external_body]
pub(crate) fn parse_uuid(text: &str) -> (r: Option<u128>)
    ensures
        r == uuid_from_text(text@),
        forall|v: u128| text@ == #[trigger] hyphenated(v) ==> r == Some(v),
{
    match uuid::Uuid::parse_str(text) {
        Ok(u) => Some(u.as_u128()),
        Err(_) => None,
    }
}

/// Whether `id` carries the marks of a random (version 4) UUID: version
/// nibble 4 and the two variant bits `10`.
pub open spec fn is_random_uuid(id: u128) -> bool {
    &&& (id / 0x1000_0000_0000_0000_0000) % 16 == 4
    &&& (id / 0x4000_0000_0000_0000) % 4 == 2
}

/// A fresh random UUID from `uuid::Uuid::new_v4`, which masks a random
/// 128-bit number to set the version and variant bits. The contract claims
/// only those bits; which UUID comes out is left to chance.
#[verifier::external_body]
pub(crate) fn random_uuid() -> (id: u128)
    ensures
        is_random_uuid(id),
{
    uuid::Uuid::new_v4().as_u128()
}

} // verus!
