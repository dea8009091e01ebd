//! Identifiers of catalog entries: 128-bit UUIDs, written in tokens in their
//! hyphenated lowercase form (`8-4-4-4-12` hex digits).

use vstd::prelude::*;
use vstd::arithmetic::div_mod::{lemma_div_denominator, lemma_fundamental_div_mod};
use crate::decimal::is_digit;

verus! {

/// A catalog entry's identifier, as the 128-bit value of its UUID.
#[derive(Clone, Copy, Debug, PartialEq, Eq, Hash, Structural)]
pub struct ItemId(pub u128);

pub open spec fn pow16(k: nat) -> nat
    decreases k,
{
    if k == 0 {
        1
    } else {
        16 * pow16((k - 1) as nat)
    }
}

/// The `k`-th hex digit of `v`, counting from the most significant of 32.
pub open spec fn nibble(v: u128, k: int) -> int {
    ((v as int) / (pow16((31 - k) as nat) as int)) % 16
}

/// The lowercase character of a hex digit `d` (`0 <= d < 16`).
pub open spec fn hex_char(d: int) -> char {
    if d < 10 {
        crate::decimal::digit_char(d)
    } else if d == 10 {
        'a'
    } else if d == 11 {
        'b'
    } else if d == 12 {
        'c'
    } else if d == 13 {
        'd'
    } else if d == 14 {
        'e'
    } else {
        'f'
    }
}

pub open spec fn is_lower_hex(c: char) -> bool {
    is_digit(c) || ('a' <= c && c <= 'f')
}

pub open spec fn hex_value(c: char) -> int {
    if is_digit(c) {
        c as int - '0' as int
    } else {
        c as int - 'a' as int + 10
    }
}

/// The positions of the four hyphens in the 36-character form.
pub open spec fn is_hyphen_pos(i: int) -> bool {
    i == 8 || i == 13 || i == 18 || i == 23
}

/// Where the `k`-th hex digit stands in the 36-character form.
pub open spec fn text_pos(k: int) -> int {
    if k < 8 {
        k
    } else if k < 12 {
        k + 1
    } else if k < 16 {
        k + 2
    } else if k < 20 {
        k + 3
    } else {
        k + 4
    }
}

/// Which hex digit stands at position `i` (not a hyphen) of the 36-character form.
pub open spec fn digit_index(i: int) -> int {
    if i < 8 {
        i
    } else if i < 13 {
        i - 1
    } else if i < 18 {
        i - 2
    } else if i < 23 {
        i - 3
    } else {
        i - 4
    }
}

/// The hyphenated lowercase text of the UUID whose value is `v`.
pub open spec fn uuid_text(v: u128) -> Seq<char> {
    Seq::new(
        36,
        |i: int|
            if is_hyphen_pos(i) {
                '-'
            } else {
                hex_char(nibble(v, digit_index(i)))
            },
    )
}

/// A hyphenated lowercase UUID text: 36 characters, hyphens at the four
/// group boundaries, lowercase hex digits elsewhere.
pub open spec fn is_uuid_text(s: Seq<char>) -> bool {
    &&& s.len() == 36
    &&& forall|i: int|
        0 <= i < 36 ==> if is_hyphen_pos(i) {
            #[trigger] s[i] == '-'
        } else {
            is_lower_hex(s[i])
        }
}

/// The 32 hex digits of a UUID text, hyphens left out.
pub open spec fn hex_digits(s: Seq<char>) -> Seq<char> {
    Seq::new(32, |k: int| s[text_pos(k)])
}

/// The number that a run of hex digits spells, most significant first.
pub open spec fn hex_seq_value(ds: Seq<char>) -> nat
    decreases ds.len(),
{
    if ds.len() == 0 {
        0
    } else {
        hex_seq_value(ds.drop_last()) * 16 + hex_value(ds.last()) as nat
    }
}

/// The value that a UUID text spells.
pub open spec fn uuid_value(s: Seq<char>) -> nat {
    hex_seq_value(hex_digits(s))
}

proof fn lemma_hex_char(d: int)
    requires
        0 <= d < 16,
    ensures
        is_lower_hex(hex_char(d)),
        hex_value(hex_char(d)) == d,
{
    if d < 10 {
        crate::decimal::lemma_digit_char(d);
    }
}

proof fn lemma_hex_seq_bound(ds: Seq<char>)
    requires
        forall|i: int| 0 <= i < ds.len() ==> is_lower_hex(#[trigger] ds[i]),
    ensures
        hex_seq_value(ds) < pow16(ds.len()),
    decreases ds.len(),
{
    if ds.len() > 0 {
        let p = ds.drop_last();
        assert forall|i: int| 0 <= i < p.len() implies is_lower_hex(#[trigger] p[i]) by {
            assert(p[i] == ds[i]);
        }
        lemma_hex_seq_bound(p);
        assert(is_lower_hex(ds[ds.len() - 1]));
        assert(pow16(ds.len()) == 16 * pow16(p.len()));
    }
}

/// The hex digits of a UUID text spell a value that fits in 128 bits.
pub proof fn lemma_uuid_value_fits(s: Seq<char>)
    requires
        is_uuid_text(s),
    ensures
        uuid_value(s) <= u128::MAX,
{
    let ds = hex_digits(s);
    assert forall|k: int| 0 <= k < ds.len() implies is_lower_hex(#[trigger] ds[k]) by {
        assert(!is_hyphen_pos(text_pos(k)));
        assert(is_lower_hex(s[text_pos(k)]));
    }
    lemma_hex_seq_bound(ds);
    reveal_with_fuel(pow16, 33);
    assert(pow16(32) == 0x1_0000_0000_0000_0000_0000_0000_0000_0000);
}

/// The first `n` digits of `v` spell `v / 16^(32 - n)`.
proof fn lemma_prefix_value(v: u128, n: int)
    requires
        0 <= n <= 32,
    ensures
        hex_seq_value(Seq::new(32, |k: int| hex_char(nibble(v, k))).take(n)) == (v as int) / (
        pow16((32 - n) as nat) as int),
    decreases n,
{
    let d = Seq::new(32, |k: int| hex_char(nibble(v, k)));
    if n == 0 {
        assert(d.take(0) =~= Seq::<char>::empty());
        lemma_pow16_pos((32 - n) as nat);
        assert((v as int) < pow16(32)) by {
            reveal_with_fuel(pow16, 33);
        }
        assert((v as int) / (pow16(32) as int) == 0) by (nonlinear_arith)
            requires 0 <= (v as int) < (pow16(32) as int);
    } else {
        lemma_prefix_value(v, n - 1);
        let t = d.take(n);
        assert(t.drop_last() =~= d.take(n - 1));
        let b = pow16((32 - n) as nat) as int;
        lemma_pow16_pos((32 - n) as nat);
        assert(pow16((33 - n) as nat) == 16 * pow16((32 - n) as nat));
        let q = (v as int) / b;
        lemma_div_denominator(v as int, b, 16);
        lemma_fundamental_div_mod(q, 16);
        assert(0 <= q % 16 < 16);
        lemma_hex_char(q % 16);
        assert(t.last() == hex_char(nibble(v, n - 1)));
    }
}

proof fn lemma_pow16_pos(k: nat)
    ensures
        pow16(k) > 0,
    decreases k,
{
    if k > 0 {
        lemma_pow16_pos((k - 1) as nat);
    }
}

/// The text of a UUID is well formed and spells its value back.
pub proof fn lemma_uuid_text(v: u128)
    ensures
        is_uuid_text(uuid_text(v)),
        uuid_value(uuid_text(v)) == v,
{
    let t = uuid_text(v);
    assert forall|i: int| 0 <= i < 36 implies if is_hyphen_pos(i) {
        #[trigger] t[i] == '-'
    } else {
        is_lower_hex(t[i])
    } by {
        if !is_hyphen_pos(i) {
            lemma_pow16_pos((31 - digit_index(i)) as nat);
            lemma_hex_char(nibble(v, digit_index(i)));
        }
    }
    let d = Seq::new(32, |k: int| hex_char(nibble(v, k)));
    assert(hex_digits(t) =~= d);
    lemma_prefix_value(v, 32);
    assert(d.take(32) =~= d);
    assert(pow16(0) == 1);
    assert((v as int) / 1 == v as int);
}

/// Relies on uuid's `Uuid::from_u128` (the value read big-endian) and its
/// `Display` impl, which writes the hyphenated lowercase form.
#[verifier::external_body]
fn uuid_string(v: u128) -> (r: String)
    ensures
        r@ == uuid_text(v),
{
    uuid::Uuid::from_u128(v).to_string()
}

/// Relies on uuid's `Uuid::try_parse` and `Uuid::as_u128`: a hyphenated text
/// of hex digits parses to the value those digits spell, big-endian.
#[verifier::external_body]
fn parse_uuid(s: &str) -> (r: Option<u128>)
    ensures
        is_uuid_text(s@) ==> r == Some(uuid_value(s@) as u128),
{
    uuid::Uuid::try_parse(s).ok().map(|u| u.as_u128())
}

impl ItemId {
    /// The hyphenated lowercase text of this identifier.
    pub fn to_text(&self) -> (r: String)
        ensures
            r@ == uuid_text(self.0),
    {
        uuid_string(self.0)
    }

    /// Reads a hyphenated lowercase UUID text; any other text gives `None`.
    pub fn parse(s: &str) -> (r: Option<ItemId>)
        ensures
            r == (if is_uuid_text(s@) {
                Some(ItemId(uuid_value(s@) as u128))
            } else {
                None::<ItemId>
            }),
    {
        let n = s.unicode_len();
        if n != 36 {
            return None;
        }
        let mut i: usize = 0;
        while i < 36
            invariant
                n == s@.len() == 36,
                0 <= i <= 36,
                forall|j: int|
                    0 <= j < i ==> if is_hyphen_pos(j) {
                        #[trigger] s@[j] == '-'
                    } else {
                        is_lower_hex(s@[j])
                    },
            decreases 36 - i,
        {
            let c = s.get_char(i);
            let ok = if i == 8 || i == 13 || i == 18 || i == 23 {
                c == '-'
            } else {
                ('0' <= c && c <= '9') || ('a' <= c && c <= 'f')
            };
            if !ok {
                return None;
            }
            i = i + 1;
        }
        proof {
            lemma_uuid_value_fits(s@);
        }
        match parse_uuid(s) {
            Some(v) => Some(ItemId(v)),
            None => None,
        }
    }
}

} // verus!
