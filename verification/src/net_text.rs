//! Internet addresses in their usual notation.

use crate::text;
use vstd::prelude::*;
use vstd::string::StrSliceExecFns;

verus! {

/// One of the four decimal numbers of an IPv4 address: no sign, no leading zero.
pub open spec fn is_octet(s: Seq<char>) -> bool {
    &&& 1 <= s.len() <= 3
    &&& text::all_digits(s, 10)
    &&& (s.len() > 1 ==> s[0] != '0')
    &&& text::number_value(s, 10) <= 255
}

pub open spec fn is_ipv4(s: Seq<char>) -> bool {
    let p = text::pieces(s, '.');
    &&& p.len() == 4
    &&& is_octet(p[0])
    &&& is_octet(p[1])
    &&& is_octet(p[2])
    &&& is_octet(p[3])
}

/// The four numbers of an IPv4 address.
pub open spec fn ipv4_octets(s: Seq<char>) -> Seq<u8> {
    let p = text::pieces(s, '.');
    seq![
        text::number_value(p[0], 10) as u8,
        text::number_value(p[1], 10) as u8,
        text::number_value(p[2], 10) as u8,
        text::number_value(p[3], 10) as u8,
    ]
}

fn parse_octet(s: &str) -> (r: Option<u8>)
    ensures
        r is Some == is_octet(s@),
        r is Some ==> r->0 == text::number_value(s@, 10),
{
    let n: usize = s.unicode_len();
    if n == 0 || n > 3 {
        return None;
    }
    let first = s.get_char(0);
    if first == '+' || (n > 1 && first == '0') {
        assert(first == '+' ==> text::digit_value(s@[0]) == 16);
        return None;
    }
    assert(text::unsigned_digits(s@) == s@);
    match text::parse_number(s, 10, 255) {
        Some(v) => Some(v as u8),
        None => None,
    }
}

pub fn parse_ipv4(s: &str) -> (r: Option<[u8; 4]>)
    ensures
        r is Some == is_ipv4(s@),
        r is Some ==> r->0@ == ipv4_octets(s@),
{
    let parts = text::split(s, '.');
    let ghost p = text::pieces(s@, '.');
    assert(p.len() == parts@.len());
    if parts.len() != 4 {
        return None;
    }
    assert(p[0] == parts@[0]@);
    assert(p[1] == parts@[1]@);
    assert(p[2] == parts@[2]@);
    assert(p[3] == parts@[3]@);
    match (
        parse_octet(&parts[0]),
        parse_octet(&parts[1]),
        parse_octet(&parts[2]),
        parse_octet(&parts[3]),
    ) {
        (Some(a), Some(b), Some(c), Some(d)) => {
            let out: [u8; 4] = [a, b, c, d];
            assert(out@ =~= ipv4_octets(s@));
            Some(out)
        },
        _ => None,
    }
}

/// One of the hexadecimal groups of an IPv6 address.
pub open spec fn is_group(s: Seq<char>) -> bool {
    1 <= s.len() <= 4 && text::all_digits(s, 16)
}

fn check_group(s: &str) -> (r: bool)
    ensures
        r == is_group(s@),
{
    let n: usize = s.unicode_len();
    if n == 0 || n > 4 {
        return false;
    }
    if s.get_char(0) == '+' {
        assert(text::digit_value(s@[0]) == 16);
        return false;
    }
    assert(text::unsigned_digits(s@) == s@);
    proof {
        if text::all_digits(s@, 16) {
            lemma_group_value(s@);
        }
    }
    match text::parse_number(s, 16, 0xffff) {
        Some(_) => true,
        None => false,
    }
}

proof fn lemma_group_value(s: Seq<char>)
    requires
        s.len() <= 4,
        text::all_digits(s, 16),
    ensures
        s.len() == 0 ==> text::number_value(s, 16) < 0x1,
        s.len() == 1 ==> text::number_value(s, 16) < 0x10,
        s.len() == 2 ==> text::number_value(s, 16) < 0x100,
        s.len() == 3 ==> text::number_value(s, 16) < 0x1000,
        s.len() == 4 ==> text::number_value(s, 16) < 0x10000,
    decreases s.len(),
{
    if s.len() > 0 {
        assert forall|i: int| 0 <= i < s.drop_last().len() implies text::digit_value(
            #[trigger] s.drop_last()[i],
        ) < 16 by {
            assert(s.drop_last()[i] == s[i]);
        }
        lemma_group_value(s.drop_last());
        assert(text::digit_value(s[s.len() - 1]) < 16);
    }
}

/// How many sixteen-bit groups a run of groups stands for: the last one may be
/// an IPv4 address, which stands for two, where `ipv4` allows it. None if a
/// piece is neither.
pub open spec fn group_count(s: Seq<char>, ipv4: bool) -> Option<nat> {
    let p = text::pieces(s, ':');
    if s.len() == 0 {
        Some(0)
    } else if !(forall|i: int| 0 <= i < p.len() - 1 ==> is_group(#[trigger] p[i])) {
        None
    } else if is_group(p.last()) {
        Some(p.len())
    } else if ipv4 && is_ipv4(p.last()) {
        Some((p.len() + 1) as nat)
    } else {
        None
    }
}

fn count_groups(s: &str, ipv4: bool) -> (r: Option<usize>)
    ensures
        match r {
            Some(n) => group_count(s@, ipv4) == Some(n as nat),
            None => group_count(s@, ipv4) is None || group_count(s@, ipv4)->0 > 1000,
        },
{
    if s.is_empty() {
        return Some(0);
    }
    let parts = text::split(s, ':');
    let ghost p = text::pieces(s@, ':');
    proof {
        text::lemma_pieces_nonempty(s@, ':');
    }
    let n: usize = parts.len();
    assert(p.len() == n);
    for i in 0..n - 1
        invariant
            n == parts@.len(),
            n > 0,
            s@.len() > 0,
            p == text::pieces(s@, ':'),
            p == parts.deep_view(),
            forall|j: int| 0 <= j < i ==> is_group(#[trigger] p[j]),
    {
        assert(p[i as int] == parts@[i as int]@);
        if !check_group(&parts[i]) {
            return None;
        }
    }
    assert(p.last() == parts@[n - 1]@);
    if check_group(&parts[n - 1]) {
        Some(n)
    } else if ipv4 {
        match parse_ipv4(&parts[n - 1]) {
            Some(_) => {
                if n > 999 {
                    None
                } else {
                    Some(n + 1)
                }
            },
            None => None,
        }
    } else {
        None
    }
}

/// An IPv6 address has eight groups, or fewer with one `::` that stands for at
/// least one group of zeros. An IPv4 address may end it.
pub open spec fn is_ipv6(s: Seq<char>) -> bool {
    if text::holds(s, "::"@) {
        exists|i: int|
            {
                &&& #[trigger] text::is_first(s, "::"@, 0, i)
                &&& group_count(s.subrange(0, i), false) is Some
                &&& group_count(s.subrange(i + 2, s.len() as int), true) is Some
                &&& group_count(s.subrange(0, i), false)->0 + group_count(
                    s.subrange(i + 2, s.len() as int),
                    true,
                )->0 <= 7
            }
    } else {
        group_count(s, true) == Some(8nat)
    }
}

pub fn check_ipv6(s: &str) -> (r: bool)
    ensures
        r == is_ipv6(s@),
{
    let a = text::chars_of(s);
    let b = text::chars_of("::");
    proof {
        reveal_strlit("::");
    }
    match text::find_from(&a, &b, 0) {
        Some(i) => {
            let n: usize = a.len();
            assert(text::is_first(s@, "::"@, 0, i as int));
            assert forall|j: int| #[trigger] text::is_first(s@, "::"@, 0, j) implies j == i by {}
            match (count_groups(s.substring_char(0, i), false), count_groups(
                s.substring_char(i + 2, n),
                true,
            )) {
                (Some(head), Some(tail)) => head <= 7 && tail <= 7 - head,
                _ => false,
            }
        },
        None => {
            match count_groups(s, true) {
                Some(n) => n == 8,
                None => false,
            }
        },
    }
}

/// A text that is an IPv4 or an IPv6 address.
pub open spec fn is_ip(s: Seq<char>) -> bool {
    is_ipv4(s) || is_ipv6(s)
}

pub fn check_ip(s: &str) -> (r: bool)
    ensures
        r == is_ip(s@),
{
    match parse_ipv4(s) {
        Some(_) => true,
        None => check_ipv6(s),
    }
}

// ---------------------------------------------------------------------
// Laws

/// Four numbers in decimal with dots between them.
pub open spec fn dotted(a: u8, b: u8, c: u8, d: u8) -> Seq<char> {
    text::decimal(a as nat) + seq!['.'] + (text::decimal(b as nat) + seq!['.'] + (text::decimal(
        c as nat,
    ) + seq!['.'] + text::decimal(d as nat)))
}

proof fn lemma_decimal_octet(n: u8)
    ensures
        is_octet(text::decimal(n as nat)),
        text::number_value(text::decimal(n as nat), 10) == n,
        forall|i: int|
            0 <= i < text::decimal(n as nat).len() ==> #[trigger] text::decimal(n as nat)[i] != '.',
{
    let t = text::decimal(n as nat);
    text::law_decimal_is_read_back(n as nat);
    reveal_with_fuel(text::numeral, 4);
    assert(t.len() <= 3);
    assert forall|i: int| 0 <= i < t.len() implies #[trigger] t[i] != '.' by {
        assert(text::digit_value(t[i]) < 10);
    }
}

proof fn lemma_digits_are_decimal(s: Seq<char>)
    requires
        s.len() > 0,
        text::all_digits(s, 10),
        s.len() > 1 ==> s[0] != '0',
    ensures
        text::decimal(text::number_value(s, 10)) == s,
    decreases s.len(),
{
    let head = s.drop_last();
    let v = text::number_value(head, 10);
    let d = text::digit_value(s.last());
    assert(d < 10 && text::digit_char(d) == s.last()) by {
        assert(text::digit_value(s[s.len() - 1]) < 10);
    }
    assert(text::number_value(s, 10) == v * 10 + d);
    if s.len() == 1 {
        assert(head =~= Seq::<char>::empty());
        assert(text::numeral(d, 10) =~= s);
    } else {
        assert(text::all_digits(head, 10)) by {
            assert forall|i: int| 0 <= i < head.len() implies text::digit_value(#[trigger] head[i])
                < 10 by {
                assert(head[i] == s[i]);
            }
        }
        assert(head[0] == s[0]);
        lemma_digits_are_decimal(head);
        if v == 0 {
            assert(text::numeral(0, 10) == seq![text::digit_char(0)]);
            assert(head[0] == '0');
        }
        let n = v * 10 + d;
        assert(n >= 10);
        assert(n / 10 == v);
        assert(n % 10 == d);
        assert(text::numeral(n, 10) =~= head.push(s.last()));
    }
}

/// An IPv4 address is four numbers up to 255 in decimal with dots between them,
/// written without leading zeros, and nothing else; the four are read in their
/// order.
pub proof fn law_ipv4_is_four_numbers(s: Seq<char>, a: u8, b: u8, c: u8, d: u8)
    ensures
        is_ipv4(dotted(a, b, c, d)),
        ipv4_octets(dotted(a, b, c, d)) == seq![a, b, c, d],
        is_ipv4(s) ==> s == dotted(
            ipv4_octets(s)[0],
            ipv4_octets(s)[1],
            ipv4_octets(s)[2],
            ipv4_octets(s)[3],
        ),
{
    lemma_decimal_octet(a);
    lemma_decimal_octet(b);
    lemma_decimal_octet(c);
    lemma_decimal_octet(d);
    let (ta, tb, tc, td) = (
        text::decimal(a as nat),
        text::decimal(b as nat),
        text::decimal(c as nat),
        text::decimal(d as nat),
    );
    text::law_first_piece(td, '.', Seq::empty());
    text::law_first_piece(tc, '.', td);
    text::law_first_piece(tb, '.', tc + seq!['.'] + td);
    text::law_first_piece(ta, '.', tb + seq!['.'] + (tc + seq!['.'] + td));
    assert(text::pieces(dotted(a, b, c, d), '.') =~= seq![ta, tb, tc, td]);
    if is_ipv4(s) {
        let p = text::pieces(s, '.');
        text::law_pieces_are_the_text(s, '.');
        lemma_digits_are_decimal(p[0]);
        lemma_digits_are_decimal(p[1]);
        lemma_digits_are_decimal(p[2]);
        lemma_digits_are_decimal(p[3]);
        let dot = seq!['.'];
        let p3 = p.drop_last();
        let p2 = p3.drop_last();
        assert(text::joined(p2, dot) == p[0] + dot + p[1]) by {
            assert(p2.drop_last().len() == 1);
            assert(text::joined(p2.drop_last(), dot) == p[0]);
        }
        assert(text::joined(p3, dot) == text::joined(p2, dot) + dot + p[2]);
        assert(text::joined(p, dot) == text::joined(p3, dot) + dot + p[3]);
        assert(s =~= p[0] + dot + (p[1] + dot + (p[2] + dot + p[3])));
    }
}

/// Groups with colons between them.
pub open spec fn colons(groups: Seq<Seq<char>>) -> Seq<char> {
    text::joined(groups, seq![':'])
}

pub open spec fn are_groups(groups: Seq<Seq<char>>) -> bool {
    forall|i: int|
        0 <= i < groups.len() ==> 1 <= (#[trigger] groups[i]).len() <= 4 && text::all_digits(
            groups[i],
            16,
        )
}

proof fn lemma_group_chars(g: Seq<char>)
    requires
        is_group(g),
    ensures
        forall|j: int| 0 <= j < g.len() ==> #[trigger] g[j] != ':',
{
    assert forall|j: int| 0 <= j < g.len() implies #[trigger] g[j] != ':' by {
        assert(text::digit_value(g[j]) < 16);
    }
}

proof fn lemma_groups_are_pieces(groups: Seq<Seq<char>>)
    requires
        groups.len() > 0,
        are_groups(groups),
    ensures
        text::pieces(colons(groups), ':') == groups,
        colons(groups).len() > 0,
        colons(groups)[0] != ':',
        colons(groups).last() != ':',
        forall|i: int|
            0 <= i && i + 1 < colons(groups).len() ==> !(#[trigger] colons(groups)[i] == ':'
                && colons(groups)[i + 1] == ':'),
    decreases groups.len(),
{
    let s = colons(groups);
    let last = groups.last();
    assert(is_group(groups[groups.len() - 1]));
    lemma_group_chars(last);
    if groups.len() == 1 {
        assert(s == groups[0]);
        text::law_first_piece(last, ':', Seq::empty());
        assert(groups =~= seq![last]);
    } else {
        let head = groups.drop_last();
        assert(are_groups(head)) by {
            assert forall|i: int| 0 <= i < head.len() implies 1 <= (#[trigger] head[i]).len() <= 4
                && text::all_digits(head[i], 16) by {
                assert(head[i] == groups[i]);
            }
        }
        lemma_groups_are_pieces(head);
        let t = colons(head);
        assert(s == t + seq![':'] + last);
        text::law_last_piece(t, ':', last);
        assert(head.push(last) =~= groups);
        assert(s[0] == t[0]);
        assert(s.last() == last.last());
        assert(last.last() == last[last.len() - 1]);
        assert forall|i: int| 0 <= i && i + 1 < s.len() implies !(#[trigger] s[i] == ':' && s[i + 1]
            == ':') by {
            if i + 1 < t.len() {
                assert(s[i] == t[i] && s[i + 1] == t[i + 1]);
            } else if i + 1 == t.len() {
                assert(s[i] == t.last());
            } else if i == t.len() {
                assert(s[i + 1] == last[0]);
            } else {
                assert(s[i] == last[i - t.len() - 1]);
            }
        }
    }
}

proof fn lemma_group_count(groups: Seq<Seq<char>>, ipv4: bool)
    requires
        are_groups(groups),
    ensures
        group_count(colons(groups), ipv4) == Some(groups.len()),
{
    if groups.len() > 0 {
        lemma_groups_are_pieces(groups);
        let p = text::pieces(colons(groups), ':');
        assert(p == groups);
        assert(forall|i: int| 0 <= i < p.len() - 1 ==> is_group(#[trigger] p[i]));
        assert(is_group(p[p.len() - 1]));
    } else {
        assert(colons(groups) =~= Seq::<char>::empty());
    }
}

/// Groups of one to four hexadecimal digits with colons between them are an
/// IPv6 address where there are eight of them.
pub proof fn law_eight_groups_are_an_address(groups: Seq<Seq<char>>)
    requires
        groups.len() > 0,
        are_groups(groups),
    ensures
        is_ipv6(colons(groups)) <==> groups.len() == 8,
{
    let s = colons(groups);
    lemma_groups_are_pieces(groups);
    lemma_group_count(groups, true);
    reveal_strlit("::");
    assert(!text::holds(s, "::"@)) by {
        if text::holds(s, "::"@) {
            let i = choose|i: int| text::occurs_at(s, "::"@, i);
            assert(s.subrange(i, i + 2)[0] == ':');
            assert(s.subrange(i, i + 2)[1] == ':');
            assert(s[i] == ':' && s[i + 1] == ':');
        }
    }
}

/// Two colons stand for the groups that are left out, at least one: with seven
/// groups or fewer around them it is an address, and with more it is none.
pub proof fn law_two_colons_stand_for_zeros(before: Seq<Seq<char>>, behind: Seq<Seq<char>>)
    requires
        are_groups(before),
        are_groups(behind),
    ensures
        is_ipv6(colons(before) + "::"@ + colons(behind)) <==> before.len() + behind.len() <= 7,
{
    let a = colons(before);
    let b = colons(behind);
    let s = a + "::"@ + b;
    let at = a.len() as int;
    reveal_strlit("::");
    assert("::"@ =~= seq![':', ':']);
    lemma_group_count(before, false);
    lemma_group_count(behind, true);
    assert(s.subrange(0, at) =~= a);
    assert(s.subrange(at + 2, s.len() as int) =~= b);
    assert(s.subrange(at, at + 2) =~= "::"@);
    assert(text::occurs_at(s, "::"@, at));
    assert(text::holds(s, "::"@));
    assert forall|j: int| 0 <= j < at implies !text::occurs_at(s, "::"@, j) by {
        lemma_groups_are_pieces(before);
        if text::occurs_at(s, "::"@, j) {
            assert(s.subrange(j, j + 2)[0] == s[j]);
            assert(s.subrange(j, j + 2)[1] == s[j + 1]);
            assert(s[j] == a[j]);
            if j + 1 < at {
                assert(s[j + 1] == a[j + 1]);
            } else {
                assert(a[j] == a.last());
            }
        }
    }
    assert(text::is_first(s, "::"@, 0, at));
    if is_ipv6(s) {
        let i = choose|i: int|
            {
                &&& #[trigger] text::is_first(s, "::"@, 0, i)
                &&& group_count(s.subrange(0, i), false) is Some
                &&& group_count(s.subrange(i + 2, s.len() as int), true) is Some
                &&& group_count(s.subrange(0, i), false)->0 + group_count(
                    s.subrange(i + 2, s.len() as int),
                    true,
                )->0 <= 7
            };
        assert(text::is_first(s, "::"@, 0, i));
        assert(i == at) by {
            if i < at {
                assert(!text::occurs_at(s, "::"@, i));
            }
            if at < i {
                assert(!text::occurs_at(s, "::"@, at));
            }
        }
    }
}

/// Either kind of address will do.
pub proof fn law_either_address_will_do(s: Seq<char>)
    ensures
        is_ip(s) <==> is_ipv4(s) || is_ipv6(s),
{
}

} // verus!
