//! Bluetooth addresses.

use crate::text;
use vstd::prelude::*;

verus! {

/// A Bluetooth address, highest byte first.
#[derive(Clone, Copy, PartialEq, Eq, Structural, Debug)]
pub struct BtAddress {
    pub b0: u8,
    pub b1: u8,
    pub b2: u8,
    pub b3: u8,
    pub b4: u8,
    pub b5: u8,
}

pub open spec fn any_address() -> BtAddress {
    BtAddress { b0: 0, b1: 0, b2: 0, b3: 0, b4: 0, b5: 0 }
}

impl BtAddress {
    /// The address that stands for any device.
    pub fn any() -> (r: Self)
        ensures
            r == any_address(),
    {
        BtAddress { b0: 0, b1: 0, b2: 0, b3: 0, b4: 0, b5: 0 }
    }

    pub fn to_text(&self) -> (r: String)
        ensures
            r@ == address_text(*self),
    {
        format_address(self.b0, self.b1, self.b2, self.b3, self.b4, self.b5)
    }
}

/// A hexadecimal digit with capital letters.
pub open spec fn upper_digit(d: nat) -> char {
    if d < 10 {
        (48 + d) as u8 as char
    } else {
        (55 + d) as u8 as char
    }
}

pub open spec fn upper_pair(b: u8) -> Seq<char> {
    seq![upper_digit((b / 16) as nat), upper_digit((b % 16) as nat)]
}

/// An address as six pairs of digits with colons between them.
pub open spec fn address_text(a: BtAddress) -> Seq<char> {
    upper_pair(a.b0) + seq![':'] + upper_pair(a.b1) + seq![':'] + upper_pair(a.b2) + seq![':']
        + upper_pair(a.b3) + seq![':'] + upper_pair(a.b4) + seq![':'] + upper_pair(a.b5)
}

/// The `Display` format of `bluer::Address`: the six bytes with two capital
/// hexadecimal digits each, and colons between them.
#[verifier::external_body]
fn format_address(b0: u8, b1: u8, b2: u8, b3: u8, b4: u8, b5: u8) -> (r: String)
    ensures
        r@ == address_text(BtAddress { b0, b1, b2, b3, b4, b5 }),
{
    bluer::Address([b0, b1, b2, b3, b4, b5]).to_string()
}

pub open spec fn is_byte(s: Seq<char>) -> bool {
    text::parsed(s, 16, 255) is Some
}

pub open spec fn byte_of(s: Seq<char>) -> u8 {
    text::parsed(s, 16, 255)->0 as u8
}

/// The address that a text names: six hexadecimal numbers up to 255 with colons
/// between them.
pub open spec fn named_address(s: Seq<char>) -> Option<BtAddress> {
    let p = text::pieces(s, ':');
    if p.len() == 6 && is_byte(p[0]) && is_byte(p[1]) && is_byte(p[2]) && is_byte(p[3]) && is_byte(
        p[4],
    ) && is_byte(p[5]) {
        Some(
            BtAddress {
                b0: byte_of(p[0]),
                b1: byte_of(p[1]),
                b2: byte_of(p[2]),
                b3: byte_of(p[3]),
                b4: byte_of(p[4]),
                b5: byte_of(p[5]),
            },
        )
    } else {
        None
    }
}

/// `bluer::Address::from_str` splits the text at its colons, reads each piece as
/// a hexadecimal `u8` and fails unless there are six of them.
#[verifier::external_body]
fn address_bytes(s: &str) -> (r: Option<(u8, u8, u8, u8, u8, u8)>)
    ensures
        match r {
            Some(b) => named_address(s@) == Some(
                BtAddress { b0: b.0, b1: b.1, b2: b.2, b3: b.3, b4: b.4, b5: b.5 },
            ),
            None => named_address(s@) is None,
        },
{
    let parsed: Result<bluer::Address, bluer::InvalidAddress> = s.parse();
    parsed.ok().map(|a| (a.0[0], a.0[1], a.0[2], a.0[3], a.0[4], a.0[5]))
}

pub fn parse_address(s: &str) -> (r: Option<BtAddress>)
    ensures
        r == named_address(s@),
{
    match address_bytes(s) {
        Some(b) => Some(BtAddress { b0: b.0, b1: b.1, b2: b.2, b3: b.3, b4: b.4, b5: b.5 }),
        None => None,
    }
}

proof fn lemma_pair_is_byte(b: u8)
    ensures
        text::parsed(upper_pair(b), 16, 255) == Some(b as nat),
        upper_pair(b)[0] != ':',
        upper_pair(b)[1] != ':',
{
    let s = upper_pair(b);
    let hi = (b / 16) as nat;
    let lo = (b % 16) as nat;
    assert(text::digit_value(s[0]) == hi);
    assert(text::digit_value(s[1]) == lo);
    assert(s[0] != '+');
    assert(text::unsigned_digits(s) == s);
    assert(s.drop_last() =~= seq![s[0]]);
    assert(s.drop_last().drop_last() =~= Seq::<char>::empty());
    assert(text::number_value(Seq::<char>::empty(), 16) == 0);
    assert(text::number_value(s.drop_last(), 16) == hi);
    assert(text::number_value(s, 16) == hi * 16 + lo);
}

proof fn lemma_pieces_grow(s: Seq<char>, b: u8)
    ensures
        text::pieces(s + seq![':'] + upper_pair(b), ':') == text::pieces(s, ':').push(
            upper_pair(b),
        ),
{
    lemma_pair_is_byte(b);
    let p = upper_pair(b);
    let s1 = s + seq![':'];
    let s2 = s1.push(p[0]);
    let s3 = s2.push(p[1]);
    assert(s + seq![':'] + p =~= s3);
    assert(s3.drop_last() =~= s2);
    assert(s2.drop_last() =~= s1);
    assert(s1.drop_last() =~= s);
    let base = text::pieces(s, ':');
    assert(text::pieces(s1, ':') == base.push(Seq::<char>::empty()));
    assert(base.push(Seq::<char>::empty()).drop_last() =~= base);
    assert(text::pieces(s2, ':') =~= base.push(Seq::<char>::empty().push(p[0])));
    assert(text::pieces(s2, ':').drop_last() =~= base);
    assert(Seq::<char>::empty().push(p[0]).push(p[1]) =~= p);
    assert(text::pieces(s3, ':') =~= base.push(p));
}

proof fn lemma_first_piece(b: u8)
    ensures
        text::pieces(upper_pair(b), ':') == seq![upper_pair(b)],
{
    lemma_pair_is_byte(b);
    let p = upper_pair(b);
    let e = Seq::<char>::empty();
    assert(p.drop_last() =~= e.push(p[0]));
    assert(p.drop_last().drop_last() =~= e);
    assert(text::pieces(e, ':') == seq![e]);
    assert(seq![e].drop_last() =~= Seq::<Seq<char>>::empty());
    assert(text::pieces(p.drop_last(), ':') =~= seq![e.push(p[0])]);
    assert(seq![e.push(p[0])].drop_last() =~= Seq::<Seq<char>>::empty());
    assert(e.push(p[0]).push(p[1]) =~= p);
    assert(text::pieces(p, ':') =~= seq![p]);
}

/// An address that is written out is read back as it was.
pub proof fn law_address_round_trip(a: BtAddress)
    ensures
        named_address(address_text(a)) == Some(a),
{
    lemma_pair_is_byte(a.b0);
    lemma_pair_is_byte(a.b1);
    lemma_pair_is_byte(a.b2);
    lemma_pair_is_byte(a.b3);
    lemma_pair_is_byte(a.b4);
    lemma_pair_is_byte(a.b5);
    lemma_first_piece(a.b0);
    let s0 = upper_pair(a.b0);
    let s1 = s0 + seq![':'] + upper_pair(a.b1);
    let s2 = s1 + seq![':'] + upper_pair(a.b2);
    let s3 = s2 + seq![':'] + upper_pair(a.b3);
    let s4 = s3 + seq![':'] + upper_pair(a.b4);
    lemma_pieces_grow(s0, a.b1);
    lemma_pieces_grow(s1, a.b2);
    lemma_pieces_grow(s2, a.b3);
    lemma_pieces_grow(s3, a.b4);
    lemma_pieces_grow(s4, a.b5);
    let p = text::pieces(address_text(a), ':');
    assert(p =~= seq![
        upper_pair(a.b0),
        upper_pair(a.b1),
        upper_pair(a.b2),
        upper_pair(a.b3),
        upper_pair(a.b4),
        upper_pair(a.b5),
    ]);
}

/// The value of a hexadecimal digit with capital letters.
pub open spec fn digit_of(c: char) -> int {
    if '0' <= c <= '9' {
        c as int - 48
    } else {
        c as int - 55
    }
}

/// An address is written with its highest byte first: seventeen characters, two
/// capital hexadecimal digits for each byte, and colons between the bytes.
pub proof fn law_address_is_laid_out(a: BtAddress)
    ensures
        ({
            let t = address_text(a);
            &&& t.len() == 17
            &&& t[2] == ':' && t[5] == ':' && t[8] == ':' && t[11] == ':' && t[14] == ':'
            &&& digit_of(t[0]) * 16 + digit_of(t[1]) == a.b0
            &&& digit_of(t[3]) * 16 + digit_of(t[4]) == a.b1
            &&& digit_of(t[6]) * 16 + digit_of(t[7]) == a.b2
            &&& digit_of(t[9]) * 16 + digit_of(t[10]) == a.b3
            &&& digit_of(t[12]) * 16 + digit_of(t[13]) == a.b4
            &&& digit_of(t[15]) * 16 + digit_of(t[16]) == a.b5
            &&& forall|i: int|
                0 <= i < 17 ==> #[trigger] t[i] == ':' || '0' <= t[i] <= '9' || 'A' <= t[i] <= 'F'
        }),
{
    lemma_digits(a.b0);
    lemma_digits(a.b1);
    lemma_digits(a.b2);
    lemma_digits(a.b3);
    lemma_digits(a.b4);
    lemma_digits(a.b5);
}

proof fn lemma_digits(b: u8)
    ensures
        ({
            let p = upper_pair(b);
            &&& p.len() == 2
            &&& digit_of(p[0]) * 16 + digit_of(p[1]) == b
            &&& '0' <= p[0] <= '9' || 'A' <= p[0] <= 'F'
            &&& '0' <= p[1] <= '9' || 'A' <= p[1] <= 'F'
        }),
{
}

} // verus!
