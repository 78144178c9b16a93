//! Text at the level of characters: the searching, trimming, splitting and
//! number rendering that the rest of the library is written in.

use vstd::prelude::*;
use vstd::string::StrSliceExecFns;
use vstd::string::StringExecFns;

verus! {

/// `String::push` appends one character at the end.
pub assume_specification[ String::push ](s: &mut String, ch: char)
    ensures
        final(s)@ == old(s)@.push(ch),
;

// ---------------------------------------------------------------------
// Characters

/// The characters with the Unicode property `White_Space`.
pub open spec fn is_space(c: char) -> bool {
    let u = c as u32;
    ||| 0x9 <= u <= 0xd
    ||| u == 0x20
    ||| u == 0x85
    ||| u == 0xa0
    ||| u == 0x1680
    ||| 0x2000 <= u <= 0x200a
    ||| u == 0x2028
    ||| u == 0x2029
    ||| u == 0x202f
    ||| u == 0x205f
    ||| u == 0x3000
}

pub fn is_whitespace(c: char) -> (r: bool)
    ensures
        r == is_space(c),
{
    let u: u32 = c as u32;
    (0x9 <= u && u <= 0xd) || u == 0x20 || u == 0x85 || u == 0xa0 || u == 0x1680 || (0x2000 <= u
        && u <= 0x200a) || u == 0x2028 || u == 0x2029 || u == 0x202f || u == 0x205f || u == 0x3000
}

pub open spec fn lower_char(c: char) -> char {
    if 'A' <= c <= 'Z' {
        ((c as u8) + 32) as u8 as char
    } else {
        c
    }
}

fn ascii_lower(c: char) -> (r: char)
    ensures
        r == lower_char(c),
{
    if 'A' <= c && c <= 'Z' {
        let b: u8 = c as u8;
        (b + 32) as char
    } else {
        c
    }
}

// ---------------------------------------------------------------------
// Whole texts

pub fn chars_of(s: &str) -> (r: Vec<char>)
    ensures
        r@ == s@,
{
    let mut out: Vec<char> = Vec::new();
    for c in it: s.chars()
        invariant
            out@ == s@.take(it.index() as int),
            it.seq() == s@,
    {
        out.push(c);
        assert(s@.take(it.index() as int + 1) =~= s@.take(it.index() as int).push(c));
    }
    assert(s@.take(s@.len() as int) =~= s@);
    out
}

pub fn same_chars(a: &[char], b: &[char]) -> (r: bool)
    ensures
        r == (a@ == b@),
{
    if a.len() != b.len() {
        return false;
    }
    for i in 0..a.len()
        invariant
            a@.len() == b@.len(),
            a@.take(i as int) == b@.take(i as int),
    {
        if a[i] != b[i] {
            return false;
        }
        assert(a@.take(i as int + 1) =~= a@.take(i as int).push(a@[i as int]));
        assert(b@.take(i as int + 1) =~= b@.take(i as int).push(b@[i as int]));
    }
    assert(a@.take(a@.len() as int) =~= a@);
    assert(b@.take(b@.len() as int) =~= b@);
    true
}

/// Whether two texts are the same, character for character.
pub fn same(a: &str, b: &str) -> (r: bool)
    ensures
        r == (a@ == b@),
{
    let x = chars_of(a);
    let y = chars_of(b);
    same_chars(&x, &y)
}

pub open spec fn lower(s: Seq<char>) -> Seq<char> {
    s.map_values(|c: char| lower_char(c))
}

pub fn to_ascii_lowercase(s: &str) -> (r: String)
    ensures
        r@ == lower(s@),
{
    let mut out = String::new();
    for c in it: s.chars()
        invariant
            out@ == lower(s@.take(it.index() as int)),
            it.seq() == s@,
    {
        out.push(ascii_lower(c));
        assert(lower(s@.take(it.index() as int + 1)) =~= lower(s@.take(it.index() as int)).push(
            lower_char(c),
        ));
    }
    assert(s@.take(s@.len() as int) =~= s@);
    out
}

pub fn eq_ignore_ascii_case(a: &str, b: &str) -> (r: bool)
    ensures
        r == (lower(a@) == lower(b@)),
{
    let x = to_ascii_lowercase(a);
    let y = to_ascii_lowercase(b);
    same(&x, &y)
}

// ---------------------------------------------------------------------
// Trimming

pub open spec fn trim_start(s: Seq<char>) -> Seq<char>
    decreases s.len(),
{
    if s.len() > 0 && is_space(s[0]) {
        trim_start(s.subrange(1, s.len() as int))
    } else {
        s
    }
}

pub open spec fn trim_end(s: Seq<char>) -> Seq<char>
    decreases s.len(),
{
    if s.len() > 0 && is_space(s.last()) {
        trim_end(s.drop_last())
    } else {
        s
    }
}

/// The text without the white space around it.
pub open spec fn trimmed(s: Seq<char>) -> Seq<char> {
    trim_end(trim_start(s))
}

pub fn trim<'a>(s: &'a str) -> (r: &'a str)
    ensures
        r@ == trimmed(s@),
{
    let chars = chars_of(s);
    let mut from: usize = 0;
    let mut to: usize = chars.len();
    assert(s@.subrange(0, s@.len() as int) =~= s@);
    while from < to && is_whitespace(chars[from])
        invariant
            from <= to == chars@.len(),
            chars@ == s@,
            trim_start(s@) == trim_start(s@.subrange(from as int, s@.len() as int)),
        decreases to - from,
    {
        assert(s@.subrange(from as int, s@.len() as int).subrange(
            1,
            s@.len() - from,
        ) =~= s@.subrange(from + 1, s@.len() as int));
        from = from + 1;
    }
    let ghost t = s@.subrange(from as int, s@.len() as int);
    assert(trim_start(s@) == t);
    assert(t.subrange(0, t.len() as int) =~= t);
    while from < to && is_whitespace(chars[to - 1])
        invariant
            from <= to <= chars@.len(),
            chars@ == s@,
            t == s@.subrange(from as int, s@.len() as int),
            trim_end(t) == trim_end(s@.subrange(from as int, to as int)),
        decreases to - from,
    {
        assert(s@.subrange(from as int, to as int).drop_last() =~= s@.subrange(
            from as int,
            to - 1,
        ));
        to = to - 1;
    }
    s.substring_char(from, to)
}


// ---------------------------------------------------------------------
// Searching

/// Whether `pat` stands in `s` at position `i`.
pub open spec fn occurs_at(s: Seq<char>, pat: Seq<char>, i: int) -> bool {
    0 <= i && i + pat.len() <= s.len() && s.subrange(i, i + pat.len()) == pat
}

pub open spec fn begins(s: Seq<char>, pat: Seq<char>) -> bool {
    occurs_at(s, pat, 0)
}

pub open spec fn holds(s: Seq<char>, pat: Seq<char>) -> bool {
    exists|i: int| occurs_at(s, pat, i)
}

pub fn matches_at(s: &[char], pat: &[char], i: usize) -> (r: bool)
    requires
        i + pat@.len() <= s@.len(),
    ensures
        r == occurs_at(s@, pat@, i as int),
{
    let n: usize = s.len();
    for k in 0..pat.len()
        invariant
            i + pat@.len() <= s@.len(),
            n == s@.len(),
            forall|j: int| 0 <= j < k ==> s@[i + j] == pat@[j],
    {
        if s[i + k] != pat[k] {
            assert(s@.subrange(i as int, i + pat@.len())[k as int] != pat@[k as int]);
            return false;
        }
    }
    assert(s@.subrange(i as int, i + pat@.len()) =~= pat@);
    true
}

pub fn starts_with(s: &str, pat: &str) -> (r: bool)
    ensures
        r == begins(s@, pat@),
{
    let a = chars_of(s);
    let b = chars_of(pat);
    b.len() <= a.len() && matches_at(&a, &b, 0)
}

/// The position of the first occurrence of `pat` in `s` at or after `from`.
pub open spec fn is_first(s: Seq<char>, pat: Seq<char>, from: int, at: int) -> bool {
    from <= at && occurs_at(s, pat, at) && forall|j: int| from <= j < at ==> !occurs_at(s, pat, j)
}

pub fn find_from(s: &[char], pat: &[char], from: usize) -> (r: Option<usize>)
    ensures
        match r {
            Some(at) => is_first(s@, pat@, from as int, at as int),
            None => forall|j: int| from <= j ==> !occurs_at(s@, pat@, j),
        },
{
    if s.len() < pat.len() {
        return None;
    }
    let last: usize = s.len() - pat.len();
    let mut i: usize = from;
    while i <= last
        invariant
            last == s@.len() - pat@.len(),
            from <= i,
            i <= from || i <= last + 1,
            forall|j: int| from <= j < i ==> !occurs_at(s@, pat@, j),
        decreases last + 1 - i,
    {
        if matches_at(s, pat, i) {
            return Some(i);
        }
        if i == last {
            return None;
        }
        i = i + 1;
    }
    None
}

pub fn contains(s: &str, pat: &str) -> (r: bool)
    ensures
        r == holds(s@, pat@),
{
    let a = chars_of(s);
    let b = chars_of(pat);
    match find_from(&a, &b, 0) {
        Some(_) => true,
        None => false,
    }
}

/// What follows `pat` in a text that begins with it.
pub open spec fn after_prefix(s: Seq<char>, pat: Seq<char>) -> Option<Seq<char>> {
    if begins(s, pat) {
        Some(s.subrange(pat.len() as int, s.len() as int))
    } else {
        None
    }
}

pub fn strip_prefix<'a>(s: &'a str, pat: &str) -> (r: Option<&'a str>)
    ensures
        match r {
            Some(rest) => after_prefix(s@, pat@) == Some(rest@),
            None => after_prefix(s@, pat@) is None,
        },
{
    if starts_with(s, pat) {
        Some(s.substring_char(pat.unicode_len(), s.unicode_len()))
    } else {
        None
    }
}

/// `s` with every occurrence of `pat`, from left to right and without overlap,
/// replaced by `with`.
pub open spec fn replaced(s: Seq<char>, pat: Seq<char>, with: Seq<char>) -> Seq<char>
    decreases s.len(),
{
    if pat.len() == 0 || s.len() == 0 {
        s
    } else if begins(s, pat) {
        with + replaced(s.subrange(pat.len() as int, s.len() as int), pat, with)
    } else {
        seq![s[0]] + replaced(s.subrange(1, s.len() as int), pat, with)
    }
}

/// Replaces every occurrence of a non-empty pattern.
pub fn replace(s: &str, pat: &str, with: &str) -> (r: String)
    requires
        pat@.len() > 0,
    ensures
        r@ == replaced(s@, pat@, with@),
{
    let a = chars_of(s);
    let b = chars_of(pat);
    let mut out = String::new();
    let mut i: usize = 0;
    assert(s@.subrange(0, s@.len() as int) =~= s@);
    while i < a.len()
        invariant
            a@ == s@,
            b@ == pat@,
            pat@.len() > 0,
            i <= a@.len(),
            replaced(s@, pat@, with@) == out@ + replaced(
                s@.subrange(i as int, s@.len() as int),
                pat@,
                with@,
            ),
        decreases a@.len() - i,
    {
        let ghost rest = s@.subrange(i as int, s@.len() as int);
        let ghost before = out@;
        if b.len() <= a.len() - i && matches_at(&a, &b, i) {
            out.append(with);
            assert(rest.subrange(0, pat@.len() as int) =~= s@.subrange(i as int, i + pat@.len()));
            assert(rest.subrange(pat@.len() as int, rest.len() as int) =~= s@.subrange(
                i + pat@.len(),
                s@.len() as int,
            ));
            i = i + b.len();
            assert(out@ + replaced(s@.subrange(i as int, s@.len() as int), pat@, with@) =~= before
                + replaced(rest, pat@, with@));
        } else {
            out.push(a[i]);
            assert(!begins(rest, pat@)) by {
                if begins(rest, pat@) {
                    assert(rest.subrange(0, pat@.len() as int) =~= s@.subrange(
                        i as int,
                        i + pat@.len(),
                    ));
                    assert(occurs_at(s@, pat@, i as int));
                }
            }
            assert(rest.subrange(1, rest.len() as int) =~= s@.subrange(i + 1, s@.len() as int));
            i = i + 1;
            assert(out@ + replaced(s@.subrange(i as int, s@.len() as int), pat@, with@) =~= before
                + replaced(rest, pat@, with@));
        }
    }
    assert(s@.subrange(i as int, s@.len() as int) =~= Seq::<char>::empty());
    assert(out@ + Seq::<char>::empty() =~= out@);
    out
}

// ---------------------------------------------------------------------
// Splitting

/// The pieces of `s` between the characters `c`: one more than there are `c`.
pub open spec fn pieces(s: Seq<char>, c: char) -> Seq<Seq<char>>
    decreases s.len(),
{
    if s.len() == 0 {
        seq![Seq::<char>::empty()]
    } else if s.last() == c {
        pieces(s.drop_last(), c).push(Seq::<char>::empty())
    } else {
        let p = pieces(s.drop_last(), c);
        p.drop_last().push(p.last().push(s.last()))
    }
}

pub proof fn lemma_pieces_nonempty(s: Seq<char>, c: char)
    ensures
        pieces(s, c).len() > 0,
    decreases s.len(),
{
    if s.len() > 0 {
        lemma_pieces_nonempty(s.drop_last(), c);
    }
}

pub fn split(s: &str, c: char) -> (r: Vec<String>)
    ensures
        r.deep_view() == pieces(s@, c),
{
    let mut out: Vec<String> = Vec::new();
    let mut current = String::new();
    assert(s@.take(0) =~= Seq::<char>::empty());
    assert(out.deep_view().push(current@) =~= pieces(s@.take(0), c));
    for x in it: s.chars()
        invariant
            it.seq() == s@,
            out.deep_view().push(current@) == pieces(s@.take(it.index() as int), c),
    {
        let ghost t = s@.take(it.index() as int + 1);
        assert(t.drop_last() =~= s@.take(it.index() as int));
        assert(t.last() == x);
        let ghost p = pieces(s@.take(it.index() as int), c);
        assert(p.drop_last() =~= out.deep_view());
        assert(p.last() == current@);
        if x == c {
            let ghost before = out.deep_view();
            let ghost word = current@;
            out.push(current);
            current = String::new();
            assert(out.deep_view() =~= before.push(word));
        } else {
            current.push(x);
        }
        assert(out.deep_view().push(current@) =~= pieces(t, c));
    }
    assert(s@.take(s@.len() as int) =~= s@);
    let ghost before = out.deep_view();
    let ghost word = current@;
    out.push(current);
    assert(out.deep_view() =~= before.push(word));
    out
}

pub open spec fn without_return(line: Seq<char>) -> Seq<char> {
    if line.len() > 0 && line.last() == '\r' {
        line.drop_last()
    } else {
        line
    }
}

/// The lines of a text. A line ends with a line feed, with a carriage return
/// before it or not; the last one may also end with the text.
pub open spec fn lines_of(s: Seq<char>) -> Seq<Seq<char>> {
    let p = pieces(s, '\n');
    let ended = p.drop_last().map_values(|l: Seq<char>| without_return(l));
    if p.last().len() == 0 {
        ended
    } else {
        ended.push(p.last())
    }
}

pub fn lines(s: &str) -> (r: Vec<String>)
    ensures
        r.deep_view() == lines_of(s@),
{
    let parts = split(s, '\n');
    proof {
        lemma_pieces_nonempty(s@, '\n');
    }
    let ghost p = pieces(s@, '\n');
    let last: usize = parts.len() - 1;
    let mut out: Vec<String> = Vec::new();
    for i in 0..last
        invariant
            last == parts@.len() - 1,
            p == parts.deep_view(),
            out.deep_view() == p.take(i as int).map_values(|l: Seq<char>| without_return(l)),
    {
        let ghost before = out.deep_view();
        let line = strip_return(parts[i].as_str());
        let owned = line.to_owned();
        assert(p[i as int] == parts@[i as int]@);
        out.push(owned);
        assert(out.deep_view() =~= before.push(without_return(p[i as int])));
        assert(p.take(i as int + 1).map_values(|l: Seq<char>| without_return(l)) =~= p.take(
            i as int,
        ).map_values(|l: Seq<char>| without_return(l)).push(without_return(p[i as int])));
    }
    assert(p.take(last as int) =~= p.drop_last());
    assert(p.last() == parts@[last as int]@);
    if !parts[last].as_str().is_empty() {
        let ghost before = out.deep_view();
        out.push(parts[last].clone());
        assert(out.deep_view() =~= before.push(p.last()));
    }
    out
}

fn strip_return<'a>(line: &'a str) -> (r: &'a str)
    ensures
        r@ == without_return(line@),
{
    let n: usize = line.unicode_len();
    if n > 0 && line.get_char(n - 1) == '\r' {
        line.substring_char(0, n - 1)
    } else {
        assert(line@.subrange(0, n as int) =~= line@);
        line
    }
}

/// The words of a text: its longest runs without white space, in order.
/// The last run is kept apart while it can still grow.
pub open spec fn word_state(s: Seq<char>) -> (Seq<Seq<char>>, Seq<char>)
    decreases s.len(),
{
    if s.len() == 0 {
        (Seq::empty(), Seq::empty())
    } else {
        let (done, current) = word_state(s.drop_last());
        if !is_space(s.last()) {
            (done, current.push(s.last()))
        } else if current.len() > 0 {
            (done.push(current), Seq::empty())
        } else {
            (done, current)
        }
    }
}

pub open spec fn words(s: Seq<char>) -> Seq<Seq<char>> {
    let (done, current) = word_state(s);
    if current.len() > 0 {
        done.push(current)
    } else {
        done
    }
}

pub fn split_whitespace(s: &str) -> (r: Vec<String>)
    ensures
        r.deep_view() == words(s@),
{
    let mut out: Vec<String> = Vec::new();
    let mut current = String::new();
    assert(s@.take(0) =~= Seq::<char>::empty());
    assert(out.deep_view() =~= Seq::<Seq<char>>::empty());
    for x in it: s.chars()
        invariant
            it.seq() == s@,
            (out.deep_view(), current@) == word_state(s@.take(it.index() as int)),
    {
        let ghost t = s@.take(it.index() as int + 1);
        assert(t.drop_last() =~= s@.take(it.index() as int));
        assert(t.last() == x);
        if !is_whitespace(x) {
            current.push(x);
        } else if !current.as_str().is_empty() {
            let ghost before = out.deep_view();
            let ghost word = current@;
            out.push(current);
            current = String::new();
            assert(out.deep_view() =~= before.push(word));
            assert(current@ =~= Seq::<char>::empty());
        }
    }
    assert(s@.take(s@.len() as int) =~= s@);
    if !current.as_str().is_empty() {
        let ghost before = out.deep_view();
        let ghost word = current@;
        out.push(current);
        assert(out.deep_view() =~= before.push(word));
    }
    out
}


// ---------------------------------------------------------------------
// Numbers

pub open spec fn digit_char(d: nat) -> char {
    if d < 10 {
        (48 + d) as u8 as char
    } else {
        (87 + d) as u8 as char
    }
}

/// The number `n` in base `base`, without leading zeros, with small letters.
pub open spec fn numeral(n: nat, base: nat) -> Seq<char>
    decreases n,
{
    if base < 2 {
        Seq::empty()
    } else if n < base {
        seq![digit_char(n)]
    } else {
        proof {
            assert(n / base < n) by (nonlinear_arith)
                requires
                    n >= base,
                    base >= 2,
            ;
        }
        numeral(n / base, base).push(digit_char(n % base))
    }
}

pub open spec fn decimal(n: nat) -> Seq<char> {
    numeral(n, 10)
}

fn digit_of(d: u64) -> (c: char)
    requires
        d < 36,
    ensures
        c == digit_char(d as nat),
{
    if d < 10 {
        let b: u8 = (48 + d) as u8;
        b as char
    } else {
        let b: u8 = (87 + d) as u8;
        b as char
    }
}

pub fn numeral_text(n: u64, base: u64) -> (r: String)
    requires
        2 <= base < 36,
    ensures
        r@ == numeral(n as nat, base as nat),
    decreases n,
{
    if n < base {
        let mut out = String::new();
        out.push(digit_of(n));
        assert(out@ =~= seq![digit_char(n as nat)]);
        out
    } else {
        assert(n / base < n) by (nonlinear_arith)
            requires
                n >= base,
                base >= 2,
        ;
        assert(n % base < base) by (nonlinear_arith)
            requires
                base >= 2,
        ;
        let mut out = numeral_text(n / base, base);
        out.push(digit_of(n % base));
        out
    }
}

/// A number as Rust prints it.
pub fn decimal_text(n: u64) -> (r: String)
    ensures
        r@ == decimal(n as nat),
{
    numeral_text(n, 10)
}

/// The value of one digit in bases up to sixteen.
pub open spec fn digit_value(c: char) -> nat {
    if '0' <= c <= '9' {
        (c as u8 - 48) as nat
    } else if 'a' <= c <= 'f' {
        (c as u8 - 87) as nat
    } else if 'A' <= c <= 'F' {
        (c as u8 - 55) as nat
    } else {
        16
    }
}

pub open spec fn all_digits(s: Seq<char>, base: nat) -> bool {
    forall|i: int| 0 <= i < s.len() ==> digit_value(#[trigger] s[i]) < base
}

pub open spec fn number_value(s: Seq<char>, base: nat) -> nat
    decreases s.len(),
{
    if s.len() == 0 {
        0
    } else {
        number_value(s.drop_last(), base) * base + digit_value(s.last())
    }
}

/// The digits of a number as Rust reads it: one leading plus sign is allowed.
pub open spec fn unsigned_digits(s: Seq<char>) -> Seq<char> {
    if s.len() > 0 && s[0] == '+' {
        s.subrange(1, s.len() as int)
    } else {
        s
    }
}

/// What a text gives when it is read as an unsigned number up to `max`.
pub open spec fn parsed(s: Seq<char>, base: nat, max: nat) -> Option<nat> {
    let d = unsigned_digits(s);
    if d.len() > 0 && all_digits(d, base) && number_value(d, base) <= max {
        Some(number_value(d, base))
    } else {
        None
    }
}

fn value_of_digit(c: char) -> (r: u64)
    ensures
        r == digit_value(c),
{
    let u: u32 = c as u32;
    if '0' <= c && c <= '9' {
        (u - 48) as u64
    } else if 'a' <= c && c <= 'f' {
        (u - 87) as u64
    } else if 'A' <= c && c <= 'F' {
        (u - 55) as u64
    } else {
        16
    }
}

proof fn lemma_value_grows(s: Seq<char>, k: int, base: nat)
    requires
        0 <= k <= s.len(),
        base >= 1,
    ensures
        number_value(s.take(k), base) <= number_value(s, base),
    decreases s.len() - k,
{
    if k < s.len() {
        lemma_value_grows(s, k + 1, base);
        assert(s.take(k + 1).drop_last() =~= s.take(k));
        let v = number_value(s.take(k), base);
        assert(v * base >= v) by (nonlinear_arith)
            requires
                base >= 1,
                v >= 0,
        ;
    } else {
        assert(s.take(k) =~= s);
    }
}

pub fn parse_number(s: &str, base: u64, max: u64) -> (r: Option<u64>)
    requires
        2 <= base <= 16,
        max <= 0xffff_ffff_ffff,
    ensures
        match r {
            Some(v) => parsed(s@, base as nat, max as nat) == Some(v as nat),
            None => parsed(s@, base as nat, max as nat) is None,
        },
{
    let chars = chars_of(s);
    let mut i: usize = 0;
    if chars.len() > 0 && chars[0] == '+' {
        i = 1;
    }
    let ghost start = i as int;
    let ghost d = unsigned_digits(s@);
    if i == chars.len() {
        assert(d.len() == 0);
        return None;
    }
    assert(d =~= s@.subrange(start, s@.len() as int));
    let mut v: u64 = 0;
    assert(d.take(0) =~= Seq::<char>::empty());
    while i < chars.len()
        invariant
            chars@ == s@,
            d == unsigned_digits(s@),
            d == s@.subrange(start, s@.len() as int),
            0 <= start <= i <= chars@.len(),
            2 <= base <= 16,
            v <= max <= 0xffff_ffff_ffff,
            v == number_value(d.take(i - start), base as nat),
            forall|j: int| 0 <= j < i - start ==> digit_value(#[trigger] d[j]) < base,
        decreases chars@.len() - i,
    {
        let x: u64 = value_of_digit(chars[i]);
        assert(d[i - start] == chars@[i as int]);
        if x >= base {
            assert(!all_digits(d, base as nat));
            return None;
        }
        assert(v * base <= 0xffff_ffff_ffff * 16) by (nonlinear_arith)
            requires
                0 <= v <= 0xffff_ffff_ffff,
                0 <= base <= 16,
        ;
        let next: u64 = v * base + x;
        assert(d.take(i - start + 1).drop_last() =~= d.take(i - start));
        assert(d.take(i - start + 1).last() == d[i - start]);
        if next > max {
            proof {
                lemma_value_grows(d, i - start + 1, base as nat);
            }
            return None;
        }
        v = next;
        i = i + 1;
    }
    assert(d.take(i - start) =~= d);
    Some(v)
}


/// The last `width` hexadecimal digits of a number.
pub open spec fn hex_fixed(n: nat, width: nat) -> Seq<char>
    decreases width,
{
    if width == 0 {
        Seq::empty()
    } else {
        hex_fixed(n / 16, (width - 1) as nat).push(digit_char(n % 16))
    }
}

pub fn hex_text(n: u64, width: usize) -> (r: String)
    ensures
        r@ == hex_fixed(n as nat, width as nat),
    decreases width,
{
    if width == 0 {
        String::new()
    } else {
        let mut out = hex_text(n / 16, width - 1);
        out.push(digit_of(n % 16));
        out
    }
}

/// Bytes as pairs of hexadecimal digits.
pub open spec fn hex_bytes(bytes: Seq<u8>) -> Seq<char>
    decreases bytes.len(),
{
    if bytes.len() == 0 {
        Seq::empty()
    } else {
        hex_bytes(bytes.drop_last()) + hex_fixed(bytes.last() as nat, 2)
    }
}

/// `hex::encode` writes each byte as two hexadecimal digits with small letters,
/// the higher one first.
#[verifier::external_body]
pub(crate) fn hex_encode(bytes: &[u8]) -> (r: String)
    ensures
        r@ == hex_bytes(bytes@),
{
    hex::encode(bytes)
}


// ---------------------------------------------------------------------
// Lists of texts

/// Adds a text to a list.
pub fn push_text(list: &mut Vec<String>, s: &str)
    ensures
        final(list).deep_view() == old(list).deep_view().push(s@),
{
    let ghost before = list.deep_view();
    list.push(s.to_owned());
    assert(list.deep_view() =~= before.push(s@));
}

/// Whether a list holds a text.
pub fn list_contains(list: &Vec<String>, s: &str) -> (r: bool)
    ensures
        r == list.deep_view().contains(s@),
{
    for i in 0..list.len()
        invariant
            forall|j: int| 0 <= j < i ==> list.deep_view()[j] != s@,
    {
        assert(list.deep_view()[i as int] == list@[i as int]@);
        if same(&list[i], s) {
            assert(list.deep_view()[i as int] == s@);
            return true;
        }
    }
    assert forall|j: int| 0 <= j < list.deep_view().len() implies list.deep_view()[j] != s@ by {}
    false
}

/// Adds a text to a list unless the list holds it.
pub open spec fn pushed_once(list: Seq<Seq<char>>, s: Seq<char>) -> Seq<Seq<char>> {
    if list.contains(s) {
        list
    } else {
        list.push(s)
    }
}

pub fn push_once(list: &mut Vec<String>, s: &str)
    ensures
        final(list).deep_view() == pushed_once(old(list).deep_view(), s@),
{
    if !list_contains(list, s) {
        push_text(list, s);
    }
}

/// The texts of a list, one behind the other with `sep` between them.
pub open spec fn joined(list: Seq<Seq<char>>, sep: Seq<char>) -> Seq<char>
    decreases list.len(),
{
    if list.len() == 0 {
        Seq::empty()
    } else if list.len() == 1 {
        list[0]
    } else {
        joined(list.drop_last(), sep) + sep + list.last()
    }
}

pub fn join(list: &Vec<String>, sep: &str) -> (r: String)
    ensures
        r@ == joined(list.deep_view(), sep@),
{
    let mut out = String::new();
    let ghost l = list.deep_view();
    assert(l.take(0) =~= Seq::<Seq<char>>::empty());
    for i in 0..list.len()
        invariant
            l == list.deep_view(),
            out@ == joined(l.take(i as int), sep@),
    {
        let ghost t = l.take(i as int + 1);
        assert(t.drop_last() =~= l.take(i as int));
        assert(t.last() == list@[i as int]@);
        if i > 0 {
            out.append(sep);
        }
        out.append(list[i].as_str());
        assert(out@ =~= joined(t, sep@));
    }
    assert(l.take(l.len() as int) =~= l);
    out
}

/// Copies a list of texts.
pub fn copy_list(list: &Vec<String>) -> (r: Vec<String>)
    ensures
        r.deep_view() == list.deep_view(),
{
    let mut out: Vec<String> = Vec::new();
    let ghost l = list.deep_view();
    for i in 0..list.len()
        invariant
            l == list.deep_view(),
            out.deep_view() == l.take(i as int),
    {
        push_text(&mut out, list[i].as_str());
        assert(l.take(i as int + 1) =~= l.take(i as int).push(list@[i as int]@));
    }
    assert(l.take(l.len() as int) =~= l);
    out
}

/// A text in quotation marks, as Rust prints it for debugging.
pub uninterp spec fn str_debug_text(s: Seq<char>) -> Seq<char>;

/// The `Debug` format of `str`: a text that depends on the string alone. What
/// is escaped in it, and how, is not stated.
#[verifier::external_body]
pub(crate) fn debug_text(s: &str) -> (r: String)
    ensures
        r@ == str_debug_text(s@),
{
    format!("{:?}", s)
}

/// A list of texts as Rust prints it for debugging.
pub open spec fn list_debug(list: Seq<Seq<char>>) -> Seq<char> {
    "["@ + joined(list.map_values(|s: Seq<char>| str_debug_text(s)), ", "@) + "]"@
}

pub fn debug_list(list: &Vec<String>) -> (r: String)
    ensures
        r@ == list_debug(list.deep_view()),
{
    let mut shown: Vec<String> = Vec::new();
    let ghost l = list.deep_view();
    for i in 0..list.len()
        invariant
            l == list.deep_view(),
            shown.deep_view() == l.take(i as int).map_values(|s: Seq<char>| str_debug_text(s)),
    {
        let item = debug_text(list[i].as_str());
        push_text(&mut shown, item.as_str());
        assert(l.take(i as int + 1).map_values(|s: Seq<char>| str_debug_text(s)) =~= l.take(
            i as int,
        ).map_values(|s: Seq<char>| str_debug_text(s)).push(str_debug_text(list@[i as int]@)));
    }
    assert(l.take(l.len() as int) =~= l);
    let mut out = String::from_str("[");
    let inner = join(&shown, ", ");
    out.append(inner.as_str());
    out.append("]");
    out
}


// ---------------------------------------------------------------------
// Putting texts together

pub fn cat2(a: &str, b: &str) -> (r: String)
    ensures
        r@ == a@ + b@,
{
    let mut out = String::from_str(a);
    out.append(b);
    out
}

pub fn cat3(a: &str, b: &str, c: &str) -> (r: String)
    ensures
        r@ == a@ + b@ + c@,
{
    let mut out = String::from_str(a);
    out.append(b);
    out.append(c);
    out
}

pub fn cat4(a: &str, b: &str, c: &str, d: &str) -> (r: String)
    ensures
        r@ == a@ + b@ + c@ + d@,
{
    let mut out = String::from_str(a);
    out.append(b);
    out.append(c);
    out.append(d);
    out
}

pub fn cat5(a: &str, b: &str, c: &str, d: &str, e: &str) -> (r: String)
    ensures
        r@ == a@ + b@ + c@ + d@ + e@,
{
    let mut out = String::from_str(a);
    out.append(b);
    out.append(c);
    out.append(d);
    out.append(e);
    out
}

pub fn cat6(a: &str, b: &str, c: &str, d: &str, e: &str, f: &str) -> (r: String)
    ensures
        r@ == a@ + b@ + c@ + d@ + e@ + f@,
{
    let mut out = String::from_str(a);
    out.append(b);
    out.append(c);
    out.append(d);
    out.append(e);
    out.append(f);
    out
}

pub fn cat7(a: &str, b: &str, c: &str, d: &str, e: &str, f: &str, g: &str) -> (r: String)
    ensures
        r@ == a@ + b@ + c@ + d@ + e@ + f@ + g@,
{
    let mut out = String::from_str(a);
    out.append(b);
    out.append(c);
    out.append(d);
    out.append(e);
    out.append(f);
    out.append(g);
    out
}

/// A text holds what stands in the middle of it.
pub proof fn lemma_holds_within(a: Seq<char>, pat: Seq<char>, b: Seq<char>)
    ensures
        holds(a + pat + b, pat),
{
    let s = a + pat + b;
    assert(s.subrange(a.len() as int, (a.len() + pat.len()) as int) =~= pat);
    assert(occurs_at(s, pat, a.len() as int));
}

// ---------------------------------------------------------------------
// Laws

/// The pieces of a text, with the character between them, are the text, and none of
/// them holds the character.
pub proof fn law_pieces_are_the_text(s: Seq<char>, c: char)
    ensures
        joined(pieces(s, c), seq![c]) == s,
        forall|i: int, j: int|
            0 <= i < pieces(s, c).len() && 0 <= j < pieces(s, c)[i].len() ==> #[trigger] pieces(
                s,
                c,
            )[i][j] != c,
    decreases s.len(),
{
    lemma_pieces_nonempty(s, c);
    if s.len() == 0 {
        let p = pieces(s, c);
        assert(p.drop_last() =~= Seq::<Seq<char>>::empty());
        assert(joined(p, seq![c]) =~= s);
    } else {
        let head = s.drop_last();
        law_pieces_are_the_text(head, c);
        lemma_pieces_nonempty(head, c);
        let p = pieces(head, c);
        let q = pieces(s, c);
        assert(head.push(s.last()) =~= s);
        if s.last() == c {
            assert(q.drop_last() =~= p);
            assert(joined(q, seq![c]) =~= s);
            assert forall|i: int, j: int| 0 <= i < q.len() && 0 <= j < q[i].len() implies #[trigger] q[i][j]
                != c by {
                assert(q[i] == p[i]);
                assert(p[i][j] != c);
            }
        } else {
            assert(q.drop_last() =~= p.drop_last());
            assert(q.last() == p.last().push(s.last()));
            if p.len() == 1 {
                assert(joined(p, seq![c]) =~= p.last());
                assert(joined(q, seq![c]) =~= s);
            } else {
                assert(joined(q, seq![c]) =~= joined(p, seq![c]).push(s.last()));
            }
            assert forall|i: int, j: int| 0 <= i < q.len() && 0 <= j < q[i].len() implies #[trigger] q[i][j]
                != c by {
                if i < p.len() - 1 {
                    assert(q[i] == p[i]);
                    assert(p[i][j] != c);
                } else {
                    assert(q[i] == p[i].push(s.last()));
                    if j < p[i].len() {
                        assert(p[i][j] != c);
                    }
                }
            }
        }
    }
}

/// What stands before a character that a text did not hold so far is its first piece,
/// and what follows makes the other ones.
pub proof fn law_first_piece(a: Seq<char>, c: char, b: Seq<char>)
    requires
        forall|i: int| 0 <= i < a.len() ==> #[trigger] a[i] != c,
    ensures
        pieces(a, c) == seq![a],
        pieces(a + seq![c] + b, c) == seq![a] + pieces(b, c),
    decreases a.len() + b.len(),
{
    if b.len() > 0 {
        let s = a + seq![c] + b;
        law_first_piece(a, c, b.drop_last());
        assert(s.drop_last() =~= a + seq![c] + b.drop_last());
        lemma_pieces_nonempty(b.drop_last(), c);
        let p = pieces(b.drop_last(), c);
        assert((seq![a] + p).drop_last() =~= seq![a] + p.drop_last());
        assert(pieces(s, c) =~= seq![a] + pieces(b, c));
    } else {
        let s = a + seq![c] + b;
        assert(s.drop_last() =~= a);
        if a.len() > 0 {
            law_first_piece(a.drop_last(), c, b);
            assert(a.drop_last().push(a.last()) =~= a);
            assert(seq![a.drop_last()].drop_last() =~= Seq::<Seq<char>>::empty());
            assert(a[a.len() - 1] != c);
            assert(pieces(a, c) =~= seq![a]);
        } else {
            assert(a =~= Seq::<char>::empty());
            assert(pieces(a, c) =~= seq![a]);
        }
        assert(b =~= Seq::<char>::empty());
        assert(pieces(s, c) =~= seq![a] + pieces(b, c));
    }
}

/// The words of a text: none in an empty one; a text without white space is one; and
/// white space parts the words before it from those behind it.
pub proof fn law_words_stand_between_white_space(a: Seq<char>, c: char, b: Seq<char>)
    requires
        is_space(c),
    ensures
        words(Seq::empty()) == Seq::<Seq<char>>::empty(),
        a.len() > 0 && (forall|i: int| 0 <= i < a.len() ==> !is_space(#[trigger] a[i])) ==> words(a)
            == seq![a],
        words(a + seq![c] + b) == words(a) + words(b),
{
    lemma_word_state_splits(a, c, b);
    let st = word_state(b);
    if st.1.len() > 0 {
        assert((words(a) + st.0).push(st.1) =~= words(a) + words(b));
    }
    assert(words(Seq::<char>::empty()) =~= Seq::<Seq<char>>::empty());
    if forall|i: int| 0 <= i < a.len() ==> !is_space(#[trigger] a[i]) {
        lemma_one_word(a);
        assert(Seq::<Seq<char>>::empty().push(a) =~= seq![a]);
    }
}

proof fn lemma_one_word(a: Seq<char>)
    requires
        forall|i: int| 0 <= i < a.len() ==> !is_space(#[trigger] a[i]),
    ensures
        word_state(a) == (Seq::<Seq<char>>::empty(), a),
    decreases a.len(),
{
    if a.len() > 0 {
        lemma_one_word(a.drop_last());
        assert(a.drop_last().push(a.last()) =~= a);
    } else {
        assert(a =~= Seq::<char>::empty());
    }
}

proof fn lemma_word_state_splits(a: Seq<char>, c: char, b: Seq<char>)
    requires
        is_space(c),
    ensures
        word_state(a + seq![c] + b) == (words(a) + word_state(b).0, word_state(b).1),
    decreases b.len(),
{
    let s = a + seq![c] + b;
    if b.len() == 0 {
        assert(s.drop_last() =~= a);
        assert(s.last() == c);
        assert(words(a) + Seq::<Seq<char>>::empty() =~= words(a));
        if word_state(a).1.len() == 0 {
            assert(word_state(a).1 =~= Seq::<char>::empty());
        }
    } else {
        lemma_word_state_splits(a, c, b.drop_last());
        assert(s.drop_last() =~= a + seq![c] + b.drop_last());
        assert(s.last() == b.last());
        let st = word_state(b.drop_last());
        assert((words(a) + st.0).push(st.1) =~= words(a) + st.0.push(st.1));
    }
}

/// Trimming takes white space away at both ends, all of it, and nothing else.
pub proof fn law_trimming_takes_only_white_space(s: Seq<char>) -> (r: (int, int))
    ensures
        0 <= r.0 <= r.1 <= s.len(),
        trimmed(s) == s.subrange(r.0, r.1),
        forall|i: int| 0 <= i < r.0 || r.1 <= i < s.len() ==> is_space(#[trigger] s[i]),
        trimmed(s).len() > 0 ==> !is_space(trimmed(s)[0]) && !is_space(trimmed(s).last()),
{
    let from = lemma_trim_start(s);
    let t = s.subrange(from, s.len() as int);
    let to = lemma_trim_end(t);
    let r = t.subrange(0, to);
    assert(r =~= s.subrange(from, from + to));
    assert forall|i: int| 0 <= i < from || from + to <= i < s.len() implies is_space(
        #[trigger] s[i],
    ) by {
        if i >= from + to {
            assert(t[i - from] == s[i]);
        }
    }
    if r.len() > 0 {
        assert(r[0] == t[0]);
        assert(t.len() > 0);
    }
    (from, from + to)
}

proof fn lemma_trim_start(s: Seq<char>) -> (from: int)
    ensures
        0 <= from <= s.len(),
        trim_start(s) == s.subrange(from, s.len() as int),
        forall|i: int| 0 <= i < from ==> is_space(#[trigger] s[i]),
        from < s.len() ==> !is_space(s[from]),
    decreases s.len(),
{
    if s.len() > 0 && is_space(s[0]) {
        let tail = s.subrange(1, s.len() as int);
        let k = lemma_trim_start(tail);
        assert(tail.subrange(k, tail.len() as int) =~= s.subrange(k + 1, s.len() as int));
        assert forall|i: int| 0 <= i < k + 1 implies is_space(#[trigger] s[i]) by {
            if i > 0 {
                assert(tail[i - 1] == s[i]);
            }
        }
        k + 1
    } else {
        assert(s.subrange(0, s.len() as int) =~= s);
        0
    }
}

proof fn lemma_trim_end(s: Seq<char>) -> (to: int)
    ensures
        0 <= to <= s.len(),
        trim_end(s) == s.subrange(0, to),
        forall|i: int| to <= i < s.len() ==> is_space(#[trigger] s[i]),
        to > 0 ==> !is_space(s[to - 1]),
    decreases s.len(),
{
    if s.len() > 0 && is_space(s.last()) {
        let head = s.drop_last();
        let k = lemma_trim_end(head);
        assert(head.subrange(0, k) =~= s.subrange(0, k));
        assert forall|i: int| k <= i < s.len() implies is_space(#[trigger] s[i]) by {
            if i < head.len() {
                assert(head[i] == s[i]);
            }
        }
        k
    } else {
        assert(s.subrange(0, s.len() as int) =~= s);
        s.len() as int
    }
}

/// A number that was written out is read back, and is written without needless zeros.
pub proof fn law_decimal_is_read_back(n: nat)
    ensures
        all_digits(decimal(n), 10),
        number_value(decimal(n), 10) == n,
        decimal(n).len() > 0,
        decimal(n).len() > 1 ==> decimal(n)[0] != '0',
    decreases n,
{
    reveal_with_fuel(numeral, 2);
    let all = decimal(n);
    let last = digit_char(n % 10);
    assert(digit_value(last) == n % 10);
    if n < 10 {
        assert(all =~= seq![digit_char(n)]);
        assert(all.drop_last() =~= Seq::<char>::empty());
        reveal_with_fuel(number_value, 2);
    } else {
        law_decimal_is_read_back(n / 10);
        let head = decimal(n / 10);
        assert(all =~= head.push(last));
        assert(all.drop_last() =~= head);
        assert forall|i: int| 0 <= i < all.len() implies digit_value(#[trigger] all[i]) < 10 by {
            if i < head.len() {
                assert(all[i] == head[i]);
            }
        }
        if head.len() == 1 {
            assert(n / 10 < 10) by {
                if n / 10 >= 10 {
                    assert(decimal(n / 10) =~= decimal(n / 10 / 10).push(digit_char(n / 10 % 10)));
                    law_decimal_is_read_back(n / 10 / 10);
                }
            }
            assert(digit_value(head[0]) == n / 10);
        }
    }
}

/// Replacing puts the new text in the place of the first occurrence and goes on behind
/// it; a text without an occurrence stays as it is.
pub proof fn law_replacing_replaces_each_occurrence(
    a: Seq<char>,
    pat: Seq<char>,
    b: Seq<char>,
    with: Seq<char>,
)
    requires
        pat.len() > 0,
    ensures
        (forall|i: int| 0 <= i < a.len() ==> !occurs_at(a + pat + b, pat, i)) ==> replaced(
            a + pat + b,
            pat,
            with,
        ) == a + with + replaced(b, pat, with),
        !holds(a, pat) ==> replaced(a, pat, with) == a,
{
    if forall|i: int| 0 <= i < a.len() ==> !occurs_at(a + pat + b, pat, i) {
        lemma_replaced_behind(a, pat, b, with);
    }
    if !holds(a, pat) {
        lemma_replaced_nothing(a, pat, with);
    }
}

proof fn lemma_replaced_behind(a: Seq<char>, pat: Seq<char>, b: Seq<char>, with: Seq<char>)
    requires
        pat.len() > 0,
        forall|i: int| 0 <= i < a.len() ==> !occurs_at(a + pat + b, pat, i),
    ensures
        replaced(a + pat + b, pat, with) == a + with + replaced(b, pat, with),
    decreases a.len(),
{
    let s = a + pat + b;
    if a.len() == 0 {
        assert(s.subrange(0, pat.len() as int) =~= pat);
        assert(s.subrange(pat.len() as int, s.len() as int) =~= b);
        assert(a + with + replaced(b, pat, with) =~= with + replaced(b, pat, with));
    } else {
        assert(!occurs_at(s, pat, 0));
        let tail = a.subrange(1, a.len() as int);
        let s1 = s.subrange(1, s.len() as int);
        assert(s1 =~= tail + pat + b);
        assert forall|i: int| 0 <= i < tail.len() implies !occurs_at(tail + pat + b, pat, i) by {
            if occurs_at(s1, pat, i) {
                assert(s.subrange(i + 1, i + 1 + pat.len()) =~= s1.subrange(i, i + pat.len()));
                assert(occurs_at(s, pat, i + 1));
            }
        }
        lemma_replaced_behind(tail, pat, b, with);
        assert(seq![s[0]] + (tail + with + replaced(b, pat, with)) =~= a + with + replaced(
            b,
            pat,
            with,
        ));
    }
}

proof fn lemma_replaced_nothing(a: Seq<char>, pat: Seq<char>, with: Seq<char>)
    requires
        !holds(a, pat),
    ensures
        replaced(a, pat, with) == a,
    decreases a.len(),
{
    if pat.len() > 0 && a.len() > 0 {
        assert(!occurs_at(a, pat, 0));
        let tail = a.subrange(1, a.len() as int);
        assert(!holds(tail, pat)) by {
            if holds(tail, pat) {
                let i = choose|i: int| occurs_at(tail, pat, i);
                assert(a.subrange(i + 1, i + 1 + pat.len()) =~= tail.subrange(i, i + pat.len()));
                assert(occurs_at(a, pat, i + 1));
            }
        }
        lemma_replaced_nothing(tail, pat, with);
        assert(seq![a[0]] + tail =~= a);
    }
}

/// Small letters stand in the place of the capitals from A to Z, and nothing else
/// changes.
pub proof fn law_lower_changes_capitals(s: Seq<char>, i: int)
    requires
        0 <= i < s.len(),
    ensures
        lower(s).len() == s.len(),
        'A' <= s[i] <= 'Z' ==> lower(s)[i] as int == s[i] as int + 32,
        !('A' <= s[i] <= 'Z') ==> lower(s)[i] == s[i],
        lower(lower(s)) == lower(s),
{
    assert(lower(lower(s)) =~= lower(s));
}

/// A list gets what it has not got, at its end, and nothing twice.
pub proof fn law_list_gets_each_once(list: Seq<Seq<char>>, s: Seq<char>)
    ensures
        list.contains(s) ==> pushed_once(list, s) == list,
        !list.contains(s) ==> pushed_once(list, s) == list.push(s),
{
}

/// What stands behind the last separator is the last piece.
pub proof fn law_last_piece(a: Seq<char>, c: char, b: Seq<char>)
    requires
        forall|i: int| 0 <= i < b.len() ==> #[trigger] b[i] != c,
    ensures
        pieces(a + seq![c] + b, c) == pieces(a, c).push(b),
    decreases b.len(),
{
    let s = a + seq![c] + b;
    lemma_pieces_nonempty(a, c);
    if b.len() == 0 {
        assert(s.drop_last() =~= a);
        assert(b =~= Seq::<char>::empty());
    } else {
        law_last_piece(a, c, b.drop_last());
        assert(s.drop_last() =~= a + seq![c] + b.drop_last());
        assert(b[b.len() - 1] != c);
        let p = pieces(a, c).push(b.drop_last());
        assert(p.drop_last() =~= pieces(a, c));
        assert(b.drop_last().push(b.last()) =~= b);
    }
}

/// A text holds another one where it is the other one with something before and
/// something behind it; the first place is the one before which it does not.
pub proof fn law_text_is_held(s: Seq<char>, pat: Seq<char>, i: int, j: int)
    ensures
        holds(s, pat) <==> exists|a: Seq<char>, b: Seq<char>| s == #[trigger] (a + pat + b),
        occurs_at(s, pat, i) ==> 0 <= i && i + pat.len() <= s.len() && s == s.take(i) + pat + s.skip(
            i + pat.len(),
        ),
        is_first(s, pat, i, j) ==> i <= j && occurs_at(s, pat, j),
        is_first(s, pat, i, j) ==> forall|k: int| i <= k < j ==> !#[trigger] occurs_at(s, pat, k),
        begins(s, pat) <==> exists|b: Seq<char>| s == #[trigger] (pat + b),
{
    if occurs_at(s, pat, i) {
        assert(s =~= s.take(i) + pat + s.skip(i + pat.len()));
    }
    if holds(s, pat) {
        let k = choose|k: int| occurs_at(s, pat, k);
        assert(s =~= s.take(k) + pat + s.skip(k + pat.len()));
    }
    if exists|a: Seq<char>, b: Seq<char>| s == #[trigger] (a + pat + b) {
        let (a, b) = choose|a: Seq<char>, b: Seq<char>| s == #[trigger] (a + pat + b);
        lemma_holds_within(a, pat, b);
    }
    if begins(s, pat) {
        assert(s =~= pat + s.skip(pat.len() as int));
    }
    if exists|b: Seq<char>| s == #[trigger] (pat + b) {
        let b = choose|b: Seq<char>| s == #[trigger] (pat + b);
        assert((pat + b).subrange(0, pat.len() as int) =~= pat);
    }
}

/// White space: the blank, the control characters from nine to thirteen, and
/// the other blanks of Unicode.
pub proof fn law_white_space_is_this(c: char)
    ensures
        is_space(c) <==> ({
            let u = c as u32;
            9 <= u <= 13 || u == 32 || u == 133 || u == 160 || u == 5760 || 8192 <= u <= 8202 || u
                == 8232 || u == 8233 || u == 8239 || u == 8287 || u == 12288
        }),
{
}

/// A number is read out of digits alone, with a plus sign before them or
/// without; it is none where there is no digit, another character or too large
/// a value.
pub proof fn law_numbers_are_read(digits: Seq<char>, base: nat, max: nat)
    requires
        digits.len() > 0 ==> digits[0] != '+',
    ensures
        ({
            let ok = digits.len() > 0 && all_digits(digits, base) && number_value(digits, base)
                <= max;
            &&& parsed(digits, base, max) == (if ok {
                Some(number_value(digits, base))
            } else {
                None
            })
            &&& parsed(seq!['+'] + digits, base, max) == (if ok {
                Some(number_value(digits, base))
            } else {
                None
            })
        }),
{
    let s = seq!['+'] + digits;
    assert(s.subrange(1, s.len() as int) =~= digits);
}

/// A list is shown in square brackets, its texts as they are shown, with commas
/// between them.
pub proof fn law_lists_are_shown(list: Seq<Seq<char>>, s: Seq<char>)
    ensures
        list_debug(Seq::empty()) == "["@ + "]"@,
        list_debug(seq![s]) == "["@ + str_debug_text(s) + "]"@,
        list.len() > 0 ==> list_debug(list.push(s)) == list_debug(list).drop_last() + ", "@
            + str_debug_text(s) + "]"@,
{
    reveal_strlit("]");
    let f = |t: Seq<char>| str_debug_text(t);
    assert(Seq::<Seq<char>>::empty().map_values(f) =~= Seq::<Seq<char>>::empty());
    assert(list_debug(Seq::empty()) =~= "["@ + "]"@);
    assert(seq![s].map_values(f) =~= seq![str_debug_text(s)]);
    if list.len() > 0 {
        let shown = list.map_values(f);
        let more = list.push(s).map_values(f);
        assert(more =~= shown.push(str_debug_text(s)));
        assert(more.drop_last() =~= shown);
        assert(joined(more, ", "@) == joined(shown, ", "@) + ", "@ + str_debug_text(s));
        assert(list_debug(list).drop_last() =~= "["@ + joined(shown, ", "@));
    }
}

} // verus!
