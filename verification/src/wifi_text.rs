//! The texts that the Wi-Fi tools take and give: quoting, configuration files,
//! command lines, and what is read out of their output.

use crate::clock;
use crate::text;
use vstd::prelude::*;
use vstd::string::StrSliceExecFns;
use vstd::string::StringExecFns;

verus! {

// ---------------------------------------------------------------------
// Quoting

/// A text as one word of a shell command.
pub open spec fn quoted(s: Seq<char>) -> Seq<char> {
    "'"@ + text::replaced(s, "'"@, "'\\''"@) + "'"@
}

pub fn shell_quote(value: &str) -> (r: String)
    ensures
        r@ == quoted(value@),
{
    proof {
        reveal_strlit("'");
    }
    let inner = text::replace(value, "'", "'\\''");
    let mut out = String::from_str("'");
    out.append(inner.as_str());
    out.append("'");
    out
}

/// How a shell takes the next character of a command: as it stands, between single
/// or double quotes, or behind a backslash.
#[derive(Clone, Copy, PartialEq, Eq, Structural, Debug)]
pub enum ShellQuoting {
    Plain,
    Single,
    Double,
    Escaped,
    EscapedInDouble,
}

/// Where a shell stands in a command: the words it has read, the one that it is
/// reading, and how it takes the next character.
pub struct ShellState {
    pub words: Seq<Seq<char>>,
    pub word: Option<Seq<char>>,
    pub quoting: ShellQuoting,
}

pub open spec fn next_quoting(q: ShellQuoting, c: char) -> ShellQuoting {
    match q {
        ShellQuoting::Plain => if c == '\'' {
            ShellQuoting::Single
        } else if c == '"' {
            ShellQuoting::Double
        } else if c == '\\' {
            ShellQuoting::Escaped
        } else {
            q
        },
        ShellQuoting::Single => if c == '\'' {
            ShellQuoting::Plain
        } else {
            q
        },
        ShellQuoting::Double => if c == '"' {
            ShellQuoting::Plain
        } else if c == '\\' {
            ShellQuoting::EscapedInDouble
        } else {
            q
        },
        ShellQuoting::Escaped => ShellQuoting::Plain,
        ShellQuoting::EscapedInDouble => ShellQuoting::Double,
    }
}

/// The word that is being read with more text in it. A word begins where the first
/// text of it, or a quote, stands.
pub open spec fn word_with(st: ShellState, more: Seq<char>) -> ShellState {
    ShellState {
        word: Some(
            match st.word {
                Some(w) => w + more,
                None => more,
            },
        ),
        ..st
    }
}

/// A POSIX shell splits a command into words: blanks part them, and quotes and
/// backslashes are taken away.
pub open spec fn shell_step(st: ShellState, c: char) -> ShellState {
    let q = next_quoting(st.quoting, c);
    let next = match st.quoting {
        ShellQuoting::Plain => if c == ' ' || c == '\t' || c == '\n' {
            match st.word {
                Some(w) => ShellState { words: st.words.push(w), word: None, ..st },
                None => st,
            }
        } else if q != ShellQuoting::Plain {
            word_with(st, Seq::empty())
        } else {
            word_with(st, seq![c])
        },
        ShellQuoting::Single | ShellQuoting::Double => if q != st.quoting {
            st
        } else {
            word_with(st, seq![c])
        },
        ShellQuoting::Escaped => word_with(st, seq![c]),
        ShellQuoting::EscapedInDouble => if c == '"' || c == '\\' || c == '$' || c == '`' {
            word_with(st, seq![c])
        } else {
            word_with(st, seq!['\\', c])
        },
    };
    ShellState { quoting: q, ..next }
}

pub open spec fn shell_run(st: ShellState, s: Seq<char>) -> ShellState
    decreases s.len(),
{
    if s.len() == 0 {
        st
    } else {
        shell_run(shell_step(st, s[0]), s.subrange(1, s.len() as int))
    }
}

proof fn lemma_shell_runs_on(st: ShellState, a: Seq<char>, b: Seq<char>)
    ensures
        shell_run(st, a + b) == shell_run(shell_run(st, a), b),
    decreases a.len(),
{
    if a.len() == 0 {
        assert(a + b =~= b);
    } else {
        let rest = a.subrange(1, a.len() as int);
        assert((a + b).subrange(1, (a + b).len() as int) =~= rest + b);
        lemma_shell_runs_on(shell_step(st, a[0]), rest, b);
    }
}

proof fn lemma_shell_run_one(st: ShellState, c: char)
    ensures
        shell_run(st, seq![c]) == shell_step(st, c),
{
    assert(seq![c].subrange(1, 1) =~= Seq::<char>::empty());
    assert(shell_run(shell_step(st, c), Seq::<char>::empty()) == shell_step(st, c));
}

proof fn lemma_words_grow(st: ShellState, a: Seq<char>, b: Seq<char>)
    requires
        st.word is Some,
    ensures
        word_with(word_with(st, a), b) == word_with(st, a + b),
        word_with(st, Seq::empty()) == st,
{
    let w = st.word->0;
    assert((w + a) + b =~= w + (a + b));
    assert(w + Seq::<char>::empty() =~= w);
}

proof fn lemma_shell_reads_inside(st: ShellState, s: Seq<char>)
    requires
        st.quoting == ShellQuoting::Single,
        st.word is Some,
    ensures
        shell_run(st, text::replaced(s, "'"@, "'\\''"@)) == word_with(st, s),
    decreases s.len(),
{
    reveal_strlit("'");
    reveal_strlit("'\\''");
    let one = "'"@;
    let with = "'\\''"@;
    if s.len() == 0 {
        assert(s =~= Seq::<char>::empty());
        lemma_words_grow(st, s, s);
    } else {
        let tail = s.subrange(1, s.len() as int);
        let r = text::replaced(tail, one, with);
        let next = word_with(st, seq![s[0]]);
        assert(s.subrange(0, 1) =~= seq![s[0]]);
        assert(one =~= seq!['\'']);
        assert(seq![s[0]] + tail =~= s);
        lemma_words_grow(st, seq![s[0]], tail);
        lemma_shell_reads_inside(next, tail);
        if s[0] == '\'' {
            assert(text::begins(s, one));
            assert(with =~= seq!['\''] + (seq!['\\'] + (seq!['\''] + seq!['\''])));
            let s1 = shell_step(st, '\'');
            let s2 = shell_step(s1, '\\');
            let s3 = shell_step(s2, '\'');
            let s4 = shell_step(s3, '\'');
            lemma_shell_run_one(st, '\'');
            lemma_shell_run_one(s1, '\\');
            lemma_shell_run_one(s2, '\'');
            lemma_shell_run_one(s3, '\'');
            lemma_shell_runs_on(st, seq!['\''], seq!['\\'] + (seq!['\''] + seq!['\'']));
            lemma_shell_runs_on(s1, seq!['\\'], seq!['\''] + seq!['\'']);
            lemma_shell_runs_on(s2, seq!['\''], seq!['\'']);
            lemma_words_grow(s1, Seq::empty(), Seq::empty());
            lemma_words_grow(s3, Seq::empty(), Seq::empty());
            assert(s4 == next);
            lemma_shell_runs_on(st, with, r);
        } else {
            assert(!text::begins(s, one)) by {
                if text::begins(s, one) {
                    assert(s.subrange(0, 1)[0] == one[0]);
                }
            }
            lemma_shell_run_one(st, s[0]);
            lemma_shell_runs_on(st, seq![s[0]], r);
        }
    }
}

/// Outside of quotes a shell reads a quoted text back as it was, whatever it holds:
/// all of it goes into the word that stands there, and it ends outside of quotes.
pub proof fn law_shell_reads_quoted_text_back(st: ShellState, s: Seq<char>)
    requires
        st.quoting == ShellQuoting::Plain,
    ensures
        shell_run(st, quoted(s)) == word_with(st, s),
{
    reveal_strlit("'");
    let one = "'"@;
    assert(one =~= seq!['\'']);
    let inner = text::replaced(s, one, "'\\''"@);
    let inside = shell_step(st, '\'');
    lemma_shell_run_one(st, '\'');
    lemma_shell_reads_inside(inside, s);
    lemma_shell_run_one(word_with(inside, s), '\'');
    lemma_shell_runs_on(st, one, inner);
    lemma_shell_runs_on(st, one + inner, one);
    assert(Seq::<char>::empty() + s =~= s);
    match st.word {
        Some(w) => assert(w + Seq::<char>::empty() + s =~= w + s),
        None => {},
    }
}

pub open spec fn wpa_escaped(s: Seq<char>) -> Seq<char> {
    text::replaced(text::replaced(s, "\\"@, "\\\\"@), "\""@, "\\\""@)
}

/// A text between double quotes, with backslashes before the quotes and
/// backslashes in it.
pub open spec fn wpa_quoted(s: Seq<char>) -> Seq<char> {
    "\""@ + wpa_escaped(s) + "\""@
}

pub fn wpa_quote(value: &str) -> (r: String)
    ensures
        r@ == wpa_quoted(value@),
{
    proof {
        reveal_strlit("\\");
        reveal_strlit("\"");
    }
    let once = text::replace(value, "\\", "\\\\");
    let escaped = text::replace(once.as_str(), "\"", "\\\"");
    let mut out = String::from_str("\"");
    out.append(escaped.as_str());
    out.append("\"");
    out
}

/// The characters with a backslash before each quote and backslash.
pub open spec fn escaped(s: Seq<char>) -> Seq<char>
    decreases s.len(),
{
    if s.len() == 0 {
        Seq::empty()
    } else {
        (if s[0] == '\\' || s[0] == '"' {
            seq!['\\', s[0]]
        } else {
            seq![s[0]]
        }) + escaped(s.subrange(1, s.len() as int))
    }
}

proof fn lemma_escape_backslash(s: Seq<char>)
    ensures
        s.len() > 0 ==> text::replaced(s, "\\"@, "\\\\"@) == (if s[0] == '\\' {
            seq!['\\', '\\']
        } else {
            seq![s[0]]
        }) + text::replaced(s.subrange(1, s.len() as int), "\\"@, "\\\\"@),
{
    reveal_strlit("\\");
    reveal_strlit("\\\\");
    assert("\\"@ =~= seq!['\\']);
    assert("\\\\"@ =~= seq!['\\', '\\']);
    if s.len() > 0 {
        assert(s.subrange(0, 1) =~= seq![s[0]]);
        if s[0] != '\\' {
            assert(!text::begins(s, "\\"@)) by {
                if text::begins(s, "\\"@) {
                    assert(s.subrange(0, 1)[0] == "\\"@[0]);
                }
            }
        } else {
            assert(text::begins(s, "\\"@));
        }
    }
}

proof fn lemma_escape_quote(c: char, rest: Seq<char>)
    ensures
        text::replaced(seq![c] + rest, "\""@, "\\\""@) == (if c == '"' {
            seq!['\\', '"']
        } else {
            seq![c]
        }) + text::replaced(rest, "\""@, "\\\""@),
{
    reveal_strlit("\"");
    reveal_strlit("\\\"");
    assert("\""@ =~= seq!['"']);
    assert("\\\""@ =~= seq!['\\', '"']);
    let s = seq![c] + rest;
    assert(s.subrange(0, 1) =~= seq![c]);
    assert(s.subrange(1, s.len() as int) =~= rest);
    if c != '"' {
        assert(!text::begins(s, "\""@)) by {
            if text::begins(s, "\""@) {
                assert(s.subrange(0, 1)[0] == "\""@[0]);
            }
        }
    } else {
        assert(text::begins(s, "\""@));
    }
}

/// Quoting puts one backslash before each quote and each backslash, and
/// changes nothing else.
pub proof fn law_wpa_quote_escapes_each_character(s: Seq<char>)
    ensures
        wpa_escaped(s) == escaped(s),
    decreases s.len(),
{
    if s.len() > 0 {
        let tail = s.subrange(1, s.len() as int);
        law_wpa_quote_escapes_each_character(tail);
        lemma_escape_backslash(s);
        let r = text::replaced(tail, "\\"@, "\\\\"@);
        if s[0] == '\\' {
            assert(seq!['\\', '\\'] + r =~= seq!['\\'] + (seq!['\\'] + r));
            lemma_escape_quote('\\', seq!['\\'] + r);
            lemma_escape_quote('\\', r);
            assert(seq!['\\'] + (seq!['\\'] + wpa_escaped(tail)) =~= seq!['\\', '\\']
                + wpa_escaped(tail));
        } else {
            lemma_escape_quote(s[0], r);
        }
        assert(wpa_escaped(s) =~= escaped(s));
    }
}

// ---------------------------------------------------------------------
// What the head unit says of its network

/// The Wi-Fi network that a head unit or the proxy offers. Of the security mode
/// only its name, and whether the network is open, is of interest.
pub struct WifiInfo<T> {
    pub ssid: T,
    pub key: T,
    pub bssid: T,
    pub is_open: bool,
    pub security_name: T,
    /// The access point comes and goes.
    pub dynamic: bool,
}

pub type CarWifiInfo = WifiInfo<String>;

impl View for WifiInfo<String> {
    type V = WifiInfo<Seq<char>>;

    open spec fn view(&self) -> WifiInfo<Seq<char>> {
        WifiInfo {
            ssid: self.ssid@,
            key: self.key@,
            bssid: self.bssid@,
            is_open: self.is_open,
            security_name: self.security_name@,
            dynamic: self.dynamic,
        }
    }
}

/// A network without a key counts as open.
pub open spec fn joins_open(info: WifiInfo<Seq<char>>) -> bool {
    info.key.len() == 0 || info.is_open
}

impl WifiInfo<String> {
    pub fn joins_as_open(&self) -> (r: bool)
        ensures
            r == joins_open(self@),
    {
        self.key.as_str().is_empty() || self.is_open
    }
}

/// The proxy's own network as it is offered to the phone.
pub open spec fn phone_wifi_info(ssid: Seq<char>, key: Seq<char>, bssid: Seq<char>) -> WifiInfo<
    Seq<char>,
> {
    let open = text::trimmed(key).len() == 0;
    WifiInfo {
        ssid,
        key,
        bssid: text::trimmed(bssid),
        is_open: open,
        security_name: if open {
            "OPEN"@
        } else {
            "WPA2_PERSONAL"@
        },
        dynamic: false,
    }
}

pub fn build_proxy_phone_wifi_info(ssid: &str, key: &str, bssid: &str) -> (r: CarWifiInfo)
    ensures
        r@ == phone_wifi_info(ssid@, key@, bssid@),
{
    let is_open = text::trim(key).is_empty();
    WifiInfo {
        ssid: ssid.to_owned(),
        key: key.to_owned(),
        bssid: text::trim(bssid).to_owned(),
        is_open,
        security_name: if is_open {
            String::from_str("OPEN")
        } else {
            String::from_str("WPA2_PERSONAL")
        },
        dynamic: false,
    }
}

// ---------------------------------------------------------------------
// Commands and configuration

/// What a join command can ask for.
#[derive(Clone, Copy, PartialEq, Eq, Structural, Debug)]
pub enum Placeholder {
    Iface,
    Ssid,
    Bssid,
    Key,
    Security,
}

pub open spec fn placeholder_text(p: Placeholder) -> Seq<char> {
    match p {
        Placeholder::Iface => "{iface}"@,
        Placeholder::Ssid => "{ssid}"@,
        Placeholder::Bssid => "{bssid}"@,
        Placeholder::Key => "{key}"@,
        Placeholder::Security => "{security}"@,
    }
}

/// The placeholder that a text begins with.
pub open spec fn leading_placeholder(s: Seq<char>) -> Option<Placeholder> {
    if text::begins(s, placeholder_text(Placeholder::Iface)) {
        Some(Placeholder::Iface)
    } else if text::begins(s, placeholder_text(Placeholder::Ssid)) {
        Some(Placeholder::Ssid)
    } else if text::begins(s, placeholder_text(Placeholder::Bssid)) {
        Some(Placeholder::Bssid)
    } else if text::begins(s, placeholder_text(Placeholder::Key)) {
        Some(Placeholder::Key)
    } else if text::begins(s, placeholder_text(Placeholder::Security)) {
        Some(Placeholder::Security)
    } else {
        None
    }
}

/// A part of a configured join command.
pub enum TemplatePart {
    Letter(char),
    Value(Placeholder),
}

/// The part that a text begins with: a placeholder, or else a character.
pub open spec fn leading_part(s: Seq<char>) -> TemplatePart {
    match leading_placeholder(s) {
        Some(p) => TemplatePart::Value(p),
        None => TemplatePart::Letter(s[0]),
    }
}

pub open spec fn part_len(part: TemplatePart) -> int {
    match part {
        TemplatePart::Letter(_) => 1,
        TemplatePart::Value(p) => placeholder_text(p).len() as int,
    }
}

/// A configured join command: its characters, and the places for values. No part
/// is empty.
pub open spec fn template_parts(template: Seq<char>) -> Seq<TemplatePart>
    decreases template.len(),
{
    let first = leading_part(template);
    if template.len() == 0 || part_len(first) <= 0 {
        Seq::empty()
    } else {
        seq![first] + template_parts(template.subrange(part_len(first), template.len() as int))
    }
}

pub open spec fn placeholder_value(
    p: Placeholder,
    iface: Seq<char>,
    info: WifiInfo<Seq<char>>,
) -> Seq<char> {
    match p {
        Placeholder::Iface => iface,
        Placeholder::Ssid => info.ssid,
        Placeholder::Bssid => info.bssid,
        Placeholder::Key => info.key,
        Placeholder::Security => info.security_name,
    }
}

/// The parts of a join command one after the other, each value quoted for the
/// shell.
pub open spec fn filled_in(
    parts: Seq<TemplatePart>,
    iface: Seq<char>,
    info: WifiInfo<Seq<char>>,
) -> Seq<char>
    decreases parts.len(),
{
    if parts.len() == 0 {
        Seq::empty()
    } else {
        let rest = filled_in(parts.subrange(1, parts.len() as int), iface, info);
        match parts[0] {
            TemplatePart::Letter(c) => seq![c] + rest,
            TemplatePart::Value(p) => quoted(placeholder_value(p, iface, info)) + rest,
        }
    }
}

/// The configured join command with its placeholders filled in. Which parts it has
/// is up to the template alone: nothing in a value is taken for a placeholder.
pub open spec fn join_command(
    template: Seq<char>,
    iface: Seq<char>,
    info: WifiInfo<Seq<char>>,
) -> Seq<char> {
    filled_in(template_parts(template), iface, info)
}

fn placeholder_chars(p: Placeholder) -> (r: Vec<char>)
    ensures
        r@ == placeholder_text(p),
        r@.len() > 0,
{
    proof {
        reveal_strlit("{iface}");
        reveal_strlit("{ssid}");
        reveal_strlit("{bssid}");
        reveal_strlit("{key}");
        reveal_strlit("{security}");
    }
    match p {
        Placeholder::Iface => text::chars_of("{iface}"),
        Placeholder::Ssid => text::chars_of("{ssid}"),
        Placeholder::Bssid => text::chars_of("{bssid}"),
        Placeholder::Key => text::chars_of("{key}"),
        Placeholder::Security => text::chars_of("{security}"),
    }
}

fn stands_at(s: &Vec<char>, p: Placeholder, i: usize) -> (r: bool)
    requires
        i <= s@.len(),
    ensures
        r == text::begins(s@.subrange(i as int, s@.len() as int), placeholder_text(p)),
{
    let pat = placeholder_chars(p);
    let ghost rest = s@.subrange(i as int, s@.len() as int);
    if pat.len() <= s.len() - i {
        assert(rest.subrange(0, pat@.len() as int) =~= s@.subrange(i as int, i + pat@.len()));
        text::matches_at(s, &pat, i)
    } else {
        false
    }
}

fn placeholder_at(s: &Vec<char>, i: usize) -> (r: Option<Placeholder>)
    requires
        i <= s@.len(),
    ensures
        r == leading_placeholder(s@.subrange(i as int, s@.len() as int)),
{
    if stands_at(s, Placeholder::Iface, i) {
        Some(Placeholder::Iface)
    } else if stands_at(s, Placeholder::Ssid, i) {
        Some(Placeholder::Ssid)
    } else if stands_at(s, Placeholder::Bssid, i) {
        Some(Placeholder::Bssid)
    } else if stands_at(s, Placeholder::Key, i) {
        Some(Placeholder::Key)
    } else if stands_at(s, Placeholder::Security, i) {
        Some(Placeholder::Security)
    } else {
        None
    }
}

proof fn lemma_first_part(s: Seq<char>)
    requires
        s.len() > 0,
    ensures
        ({
            let parts = template_parts(s);
            let first = leading_part(s);
            &&& parts.len() > 0
            &&& parts[0] == first
            &&& parts.subrange(1, parts.len() as int) == template_parts(
                s.subrange(part_len(first), s.len() as int),
            )
        }),
{
    reveal_strlit("{iface}");
    reveal_strlit("{ssid}");
    reveal_strlit("{bssid}");
    reveal_strlit("{key}");
    reveal_strlit("{security}");
    let first = leading_part(s);
    let tail = template_parts(s.subrange(part_len(first), s.len() as int));
    assert(template_parts(s) == seq![first] + tail);
    assert(template_parts(s).subrange(1, template_parts(s).len() as int) =~= tail);
}

pub fn render_wifi_join_cmd(template: &str, iface: &str, info: &CarWifiInfo) -> (r: String)
    ensures
        r@ == join_command(template@, iface@, info@),
{
    let t = text::chars_of(template);
    let mut out = String::new();
    let mut i: usize = 0;
    let ghost all = join_command(template@, iface@, info@);
    proof {
        assert(t@.subrange(0, t@.len() as int) =~= t@);
        assert(out@ + all =~= all);
    }
    while i < t.len()
        invariant
            t@ == template@,
            i <= t@.len(),
            all == out@ + join_command(t@.subrange(i as int, t@.len() as int), iface@, info@),
        decreases t@.len() - i,
    {
        let ghost rest = t@.subrange(i as int, t@.len() as int);
        let ghost before = out@;
        match placeholder_at(&t, i) {
            Some(p) => {
                let n: usize = placeholder_chars(p).len();
                let value = match p {
                    Placeholder::Iface => shell_quote(iface),
                    Placeholder::Ssid => shell_quote(info.ssid.as_str()),
                    Placeholder::Bssid => shell_quote(info.bssid.as_str()),
                    Placeholder::Key => shell_quote(info.key.as_str()),
                    Placeholder::Security => shell_quote(info.security_name.as_str()),
                };
                out.append(value.as_str());
                proof {
                    let tail = rest.subrange(n as int, rest.len() as int);
                    assert(tail =~= t@.subrange(i + n, t@.len() as int));
                    lemma_first_part(rest);
                    assert(out@ + join_command(tail, iface@, info@) =~= before + join_command(
                        rest,
                        iface@,
                        info@,
                    ));
                }
                i = i + n;
            },
            None => {
                out.push(t[i]);
                proof {
                    let tail = rest.subrange(1, rest.len() as int);
                    assert(tail =~= t@.subrange(i + 1, t@.len() as int));
                    lemma_first_part(rest);
                    assert(out@ + join_command(tail, iface@, info@) =~= before + join_command(
                        rest,
                        iface@,
                        info@,
                    ));
                }
                i = i + 1;
            },
        }
    }
    proof {
        assert(t@.subrange(i as int, t@.len() as int) =~= Seq::<char>::empty());
        assert(out@ + Seq::<char>::empty() =~= out@);
    }
    out
}

/// Whether a command has its values outside of quotes and not behind a backslash.
pub open spec fn values_stand_plain(q: ShellQuoting, parts: Seq<TemplatePart>) -> bool
    decreases parts.len(),
{
    parts.len() == 0 || {
        let rest = parts.subrange(1, parts.len() as int);
        match parts[0] {
            TemplatePart::Letter(c) => values_stand_plain(next_quoting(q, c), rest),
            TemplatePart::Value(_) => q == ShellQuoting::Plain && values_stand_plain(q, rest),
        }
    }
}

/// What a shell makes of the parts of a command if it takes each value as it is,
/// for text of the word in which it stands.
pub open spec fn parts_run(
    st: ShellState,
    parts: Seq<TemplatePart>,
    iface: Seq<char>,
    info: WifiInfo<Seq<char>>,
) -> ShellState
    decreases parts.len(),
{
    if parts.len() == 0 {
        st
    } else {
        let next = match parts[0] {
            TemplatePart::Letter(c) => shell_step(st, c),
            TemplatePart::Value(p) => word_with(st, placeholder_value(p, iface, info)),
        };
        parts_run(next, parts.subrange(1, parts.len() as int), iface, info)
    }
}

proof fn lemma_values_are_read(
    st: ShellState,
    parts: Seq<TemplatePart>,
    iface: Seq<char>,
    info: WifiInfo<Seq<char>>,
)
    requires
        values_stand_plain(st.quoting, parts),
    ensures
        shell_run(st, filled_in(parts, iface, info)) == parts_run(st, parts, iface, info),
    decreases parts.len(),
{
    if parts.len() > 0 {
        let tail = parts.subrange(1, parts.len() as int);
        let rest = filled_in(tail, iface, info);
        match parts[0] {
            TemplatePart::Letter(c) => {
                lemma_shell_run_one(st, c);
                lemma_shell_runs_on(st, seq![c], rest);
                lemma_values_are_read(shell_step(st, c), tail, iface, info);
            },
            TemplatePart::Value(p) => {
                let v = placeholder_value(p, iface, info);
                law_shell_reads_quoted_text_back(st, v);
                lemma_shell_runs_on(st, quoted(v), rest);
                lemma_values_are_read(word_with(st, v), tail, iface, info);
            },
        }
    }
}

/// A shell takes each value in a join command as it is, for one word or a part of
/// one, whatever the value holds; the words are parted by the template alone.
pub proof fn law_join_values_are_read_as_they_are(
    st: ShellState,
    template: Seq<char>,
    iface: Seq<char>,
    info: WifiInfo<Seq<char>>,
)
    requires
        values_stand_plain(st.quoting, template_parts(template)),
    ensures
        shell_run(st, join_command(template, iface, info)) == parts_run(
            st,
            template_parts(template),
            iface,
            info,
        ),
{
    lemma_values_are_read(st, template_parts(template), iface, info);
}

/// A value that stands between blanks is one word, and nothing but the value.
pub proof fn law_join_value_is_one_word(st: ShellState, value: Seq<char>, blank: char)
    requires
        st.quoting == ShellQuoting::Plain,
        st.word is None,
        blank == ' ' || blank == '\t' || blank == '\n',
    ensures
        shell_run(st, quoted(value) + seq![blank]) == (ShellState {
            words: st.words.push(value),
            word: None,
            quoting: ShellQuoting::Plain,
        }),
{
    law_shell_reads_quoted_text_back(st, value);
    lemma_shell_runs_on(st, quoted(value), seq![blank]);
    lemma_shell_run_one(word_with(st, value), blank);
}

/// The arguments by which `nmcli` joins a network.
pub open spec fn nmcli_args(iface: Seq<char>, info: WifiInfo<Seq<char>>) -> Seq<Seq<char>> {
    let base = seq!["dev"@, "wifi"@, "connect"@, info.ssid];
    let with_key = if info.key.len() == 0 {
        base
    } else {
        base.push("password"@).push(info.key)
    };
    let with_iface = if text::trimmed(iface).len() == 0 {
        with_key
    } else {
        with_key.push("ifname"@).push(text::trimmed(iface))
    };
    if text::trimmed(info.bssid).len() == 0 {
        with_iface
    } else {
        with_iface.push("bssid"@).push(text::trimmed(info.bssid))
    }
}

pub fn nmcli_join_args(iface: &str, info: &CarWifiInfo) -> (r: Vec<String>)
    ensures
        r.deep_view() == nmcli_args(iface@, info@),
{
    let mut args: Vec<String> = Vec::new();
    text::push_text(&mut args, "dev");
    text::push_text(&mut args, "wifi");
    text::push_text(&mut args, "connect");
    text::push_text(&mut args, info.ssid.as_str());
    assert(args.deep_view() =~= seq!["dev"@, "wifi"@, "connect"@, info@.ssid]);
    if !info.key.as_str().is_empty() {
        text::push_text(&mut args, "password");
        text::push_text(&mut args, info.key.as_str());
    }
    let iface = text::trim(iface);
    if !iface.is_empty() {
        text::push_text(&mut args, "ifname");
        text::push_text(&mut args, iface);
    }
    let bssid = text::trim(info.bssid.as_str());
    if !bssid.is_empty() {
        text::push_text(&mut args, "bssid");
        text::push_text(&mut args, bssid);
    }
    args
}

pub open spec fn bssid_line(info: WifiInfo<Seq<char>>, with_bssid: bool) -> Seq<char> {
    let bssid = text::trimmed(info.bssid);
    if with_bssid && bssid.len() > 0 {
        "    bssid="@ + bssid + "\n"@
    } else {
        Seq::empty()
    }
}

/// The configuration by which `wpa_supplicant` joins a network.
pub open spec fn supplicant_config(info: WifiInfo<Seq<char>>, with_bssid: bool) -> Seq<char> {
    let head = "network={\n    ssid="@ + wpa_quoted(info.ssid) + "\n"@ + bssid_line(
        info,
        with_bssid,
    ) + "    scan_ssid=1\n"@;
    if joins_open(info) {
        head + "    key_mgmt=NONE\n}\n"@
    } else {
        head + "    key_mgmt=WPA-PSK\n    psk="@ + wpa_quoted(info.key) + "\n}\n"@
    }
}

pub fn wpa_supplicant_config(info: &CarWifiInfo, with_bssid: bool) -> (r: String)
    ensures
        r@ == supplicant_config(info@, with_bssid),
{
    let bssid = text::trim(info.bssid.as_str());
    let mut line = String::new();
    if with_bssid && !bssid.is_empty() {
        line.append("    bssid=");
        line.append(bssid);
        line.append("\n");
        assert(line@ =~= bssid_line(info@, with_bssid));
    }
    let mut out = String::from_str("network={\n    ssid=");
    let ssid = wpa_quote(info.ssid.as_str());
    out.append(ssid.as_str());
    out.append("\n");
    out.append(line.as_str());
    out.append("    scan_ssid=1\n");
    if info.joins_as_open() {
        out.append("    key_mgmt=NONE\n}\n");
    } else {
        out.append("    key_mgmt=WPA-PSK\n    psk=");
        let key = wpa_quote(info.key.as_str());
        out.append(key.as_str());
        out.append("\n}\n");
    }
    out
}

/// Whether `wpa_supplicant` complained of its configuration.
pub open spec fn is_parse_failure(stdout: Seq<char>, stderr: Seq<char>) -> bool {
    let all = text::lower(stdout + "\n"@ + stderr);
    ||| text::holds(all, "failed to read or parse configuration"@)
    ||| text::holds(all, "invalid configuration line"@)
    ||| text::holds(all, "unknown global field"@)
}

pub fn wpa_supplicant_parse_failure_text(stdout: &str, stderr: &str) -> (r: bool)
    ensures
        r == is_parse_failure(stdout@, stderr@),
{
    let mut both = String::from_str(stdout);
    both.append("\n");
    both.append(stderr);
    let all = text::to_ascii_lowercase(both.as_str());
    text::contains(all.as_str(), "failed to read or parse configuration") || text::contains(
        all.as_str(),
        "invalid configuration line",
    ) || text::contains(all.as_str(), "unknown global field")
}

/// The arguments by which `wpa_supplicant` is started.
pub open spec fn supplicant_args(
    iface: Seq<char>,
    conf_path: Seq<char>,
    ctrl_dir: Option<Seq<char>>,
) -> Seq<Seq<char>> {
    let base = seq!["-B"@, "-i"@, iface, "-c"@, conf_path, "-D"@, "nl80211,wext"@];
    match ctrl_dir {
        Some(dir) => base.push("-C"@).push(dir),
        None => base,
    }
}

pub fn wpa_supplicant_args(iface: &str, conf_path: &str, ctrl_dir: Option<&str>) -> (r: Vec<String>)
    ensures
        r.deep_view() == supplicant_args(
            iface@,
            conf_path@,
            match ctrl_dir {
                Some(d) => Some(d@),
                None => None,
            },
        ),
{
    let mut args: Vec<String> = Vec::new();
    text::push_text(&mut args, "-B");
    text::push_text(&mut args, "-i");
    text::push_text(&mut args, iface);
    text::push_text(&mut args, "-c");
    text::push_text(&mut args, conf_path);
    text::push_text(&mut args, "-D");
    text::push_text(&mut args, "nl80211,wext");
    assert(args.deep_view() =~= seq![
        "-B"@,
        "-i"@,
        iface@,
        "-c"@,
        conf_path@,
        "-D"@,
        "nl80211,wext"@,
    ]);
    match ctrl_dir {
        Some(dir) => {
            text::push_text(&mut args, "-C");
            text::push_text(&mut args, dir);
        },
        None => {},
    }
    args
}

/// Where a configuration for an interface is written.
pub open spec fn conf_path(head: Seq<char>, iface: Seq<char>, tail: Seq<char>) -> Seq<char> {
    head + text::replaced(iface, "/"@, "_"@) + tail
}

pub fn config_path(head: &str, iface: &str, tail: &str) -> (r: String)
    ensures
        r@ == conf_path(head@, iface@, tail@),
{
    proof {
        reveal_strlit("/");
    }
    let mut out = String::from_str(head);
    let safe = text::replace(iface, "/", "_");
    out.append(safe.as_str());
    out.append(tail);
    out
}

// ---------------------------------------------------------------------
// What a program gave back

pub struct Output<T> {
    pub success: bool,
    pub status: T,
    pub stdout: T,
    pub stderr: T,
}

pub type ProgramOutput = Output<String>;

impl View for Output<String> {
    type V = Output<Seq<char>>;

    open spec fn view(&self) -> Output<Seq<char>> {
        Output {
            success: self.success,
            status: self.status@,
            stdout: self.stdout@,
            stderr: self.stderr@,
        }
    }
}

pub open spec fn failure(what: Seq<char>, out: Output<Seq<char>>) -> Seq<char> {
    what + " failed status="@ + out.status + " stdout="@ + text::trimmed(out.stdout) + " stderr="@
        + text::trimmed(out.stderr)
}

/// A program that ran: it failed if its status says so.
pub fn check_output(what: &str, out: &ProgramOutput) -> (r: Result<(), String>)
    ensures
        match r {
            Ok(_) => out.success,
            Err(e) => !out.success && e@ == failure(what@, out@),
        },
{
    if out.success {
        return Ok(());
    }
    let mut e = String::from_str(what);
    e.append(" failed status=");
    e.append(out.status.as_str());
    e.append(" stdout=");
    e.append(text::trim(out.stdout.as_str()));
    e.append(" stderr=");
    e.append(text::trim(out.stderr.as_str()));
    Err(e)
}

pub open spec fn supplicant_failure(out: Output<Seq<char>>) -> Seq<char> {
    "wpa_supplicant failed status="@ + out.status + (if is_parse_failure(out.stdout, out.stderr) {
        " parse_failure=true"@
    } else {
        ""@
    }) + " stdout="@ + text::trimmed(out.stdout) + " stderr="@ + text::trimmed(out.stderr)
}

pub fn start_wpa_supplicant_process(out: &ProgramOutput) -> (r: Result<(), String>)
    ensures
        match r {
            Ok(_) => out.success,
            Err(e) => !out.success && e@ == supplicant_failure(out@),
        },
{
    if out.success {
        return Ok(());
    }
    let mut e = String::from_str("wpa_supplicant failed status=");
    e.append(out.status.as_str());
    if wpa_supplicant_parse_failure_text(out.stdout.as_str(), out.stderr.as_str()) {
        e.append(" parse_failure=true");
    } else {
        e.append("");
    }
    e.append(" stdout=");
    e.append(text::trim(out.stdout.as_str()));
    e.append(" stderr=");
    e.append(text::trim(out.stderr.as_str()));
    Err(e)
}

pub open spec fn is_fail(s: Seq<char>) -> bool {
    text::lower(s) == text::lower("FAIL"@)
}

pub open spec fn wpa_cli_failure(args: Seq<Seq<char>>, out: Output<Seq<char>>) -> Seq<char> {
    "wpa_cli "@ + text::list_debug(args) + " failed status="@ + out.status + " stdout="@
        + text::trimmed(out.stdout) + " stderr="@ + text::trimmed(out.stderr)
}

/// What `wpa_cli` printed. Printing `FAIL` is failing too.
pub fn wpa_cli_output(args: &Vec<String>, out: &ProgramOutput) -> (r: Result<String, String>)
    ensures
        match r {
            Ok(s) => out.success && !is_fail(text::trimmed(out@.stdout)) && s@ == text::trimmed(
                out@.stdout,
            ),
            Err(e) => !(out.success && !is_fail(text::trimmed(out@.stdout))) && e@
                == wpa_cli_failure(args.deep_view(), out@),
        },
{
    let stdout = text::trim(out.stdout.as_str());
    if out.success && !text::eq_ignore_ascii_case(stdout, "FAIL") {
        return Ok(stdout.to_owned());
    }
    let mut e = String::from_str("wpa_cli ");
    let shown = text::debug_list(args);
    e.append(shown.as_str());
    e.append(" failed status=");
    e.append(out.status.as_str());
    e.append(" stdout=");
    e.append(stdout);
    e.append(" stderr=");
    e.append(text::trim(out.stderr.as_str()));
    Err(e)
}

// ---------------------------------------------------------------------
// Reading the output of `iw` and `ip`

/// What follows `prefix` in the first line, from `i` on, that begins with it
/// behind its white space.
pub open spec fn first_value(lines: Seq<Seq<char>>, prefix: Seq<char>, i: int) -> Option<Seq<char>>
    decreases lines.len() - i,
{
    if !(0 <= i < lines.len()) {
        None
    } else {
        match text::after_prefix(text::trimmed(lines[i]), prefix) {
            Some(rest) => Some(text::trimmed(rest)),
            None => first_value(lines, prefix, i + 1),
        }
    }
}

fn first_line_value(s: &str, prefix: &str) -> (r: Option<String>)
    ensures
        r.deep_view() == first_value(text::lines_of(s@), prefix@, 0),
{
    let lines = text::lines(s);
    let ghost l = text::lines_of(s@);
    for i in 0..lines.len()
        invariant
            l == text::lines_of(s@),
            l == lines.deep_view(),
            first_value(l, prefix@, 0) == first_value(l, prefix@, i as int),
    {
        assert(l[i as int] == lines@[i as int]@);
        match text::strip_prefix(text::trim(lines[i].as_str()), prefix) {
            Some(rest) => {
                return Some(text::trim(rest).to_owned());
            },
            None => {},
        }
    }
    None
}

/// The network in the output of `iw dev <iface> link`.
pub open spec fn link_ssid(out: Seq<char>) -> Option<Seq<char>> {
    first_value(text::lines_of(out), "SSID:"@, 0)
}

pub fn current_iw_ssid(stdout: &str) -> (r: Option<String>)
    ensures
        r.deep_view() == link_ssid(stdout@),
{
    first_line_value(stdout, "SSID:")
}

/// The role of an interface in the output of `iw dev <iface> info`.
pub open spec fn iface_type(out: Seq<char>) -> Option<Seq<char>> {
    first_value(text::lines_of(out), "type "@, 0)
}

pub fn iw_iface_type(stdout: &str) -> (r: Option<String>)
    ensures
        r.deep_view() == iface_type(stdout@),
{
    first_line_value(stdout, "type ")
}

/// Whether a link is up, in the output of `iw dev <iface> link`.
pub open spec fn link_connected(out: Seq<char>) -> bool {
    exists|i: int|
        0 <= i < text::lines_of(out).len() && text::begins(
            text::trim_start(#[trigger] text::lines_of(out)[i]),
            "Connected to "@,
        )
}

fn trim_front<'a>(s: &'a str) -> (r: &'a str)
    ensures
        r@ == text::trim_start(s@),
{
    let chars = text::chars_of(s);
    let mut from: usize = 0;
    assert(s@.subrange(0, s@.len() as int) =~= s@);
    while from < chars.len() && text::is_whitespace(chars[from])
        invariant
            from <= chars@.len(),
            chars@ == s@,
            text::trim_start(s@) == text::trim_start(s@.subrange(from as int, s@.len() as int)),
        decreases chars@.len() - from,
    {
        assert(s@.subrange(from as int, s@.len() as int).subrange(
            1,
            s@.len() - from,
        ) =~= s@.subrange(from + 1, s@.len() as int));
        from = from + 1;
    }
    s.substring_char(from, chars.len())
}

pub fn current_iw_connected(stdout: &str) -> (r: bool)
    ensures
        r == link_connected(stdout@),
{
    let lines = text::lines(stdout);
    let ghost l = text::lines_of(stdout@);
    for i in 0..lines.len()
        invariant
            l == text::lines_of(stdout@),
            l == lines.deep_view(),
            forall|j: int|
                0 <= j < i ==> !text::begins(text::trim_start(#[trigger] l[j]), "Connected to "@),
    {
        assert(l[i as int] == lines@[i as int]@);
        if text::starts_with(trim_front(lines[i].as_str()), "Connected to ") {
            return true;
        }
    }
    false
}

/// The word behind the first `key`, from `i` on.
pub open spec fn word_after(words: Seq<Seq<char>>, key: Seq<char>, i: int) -> Option<Seq<char>>
    decreases words.len() - i,
{
    if !(0 <= i && i + 1 < words.len()) {
        None
    } else if words[i] == key {
        Some(words[i + 1])
    } else {
        word_after(words, key, i + 1)
    }
}

/// The part of an address before the slash.
pub open spec fn before_slash(s: Seq<char>) -> Seq<char> {
    text::pieces(s, '/')[0]
}

pub fn cut_slash(s: &str) -> (r: String)
    ensures
        r@ == before_slash(s@),
{
    let parts = text::split(s, '/');
    proof {
        text::lemma_pieces_nonempty(s@, '/');
        assert(parts.deep_view()[0] == parts@[0]@);
    }
    parts[0].clone()
}

/// The first IPv4 address in the output of `ip -4 addr show`.
pub open spec fn shown_ipv4(out: Seq<char>) -> Option<Seq<char>> {
    match word_after(text::words(out), "inet"@, 0) {
        Some(word) => Some(before_slash(word)),
        None => None,
    }
}

pub fn iface_ipv4(stdout: &str) -> (r: Option<String>)
    ensures
        r.deep_view() == shown_ipv4(stdout@),
{
    let tokens = text::split_whitespace(stdout);
    let ghost w = text::words(stdout@);
    let n: usize = tokens.len();
    let mut i: usize = 0;
    while n - i > 1
        invariant
            n == tokens@.len(),
            i <= n,
            w == text::words(stdout@),
            w == tokens.deep_view(),
            word_after(w, "inet"@, 0) == word_after(w, "inet"@, i as int),
        decreases n - i,
    {
        assert(w[i as int] == tokens@[i as int]@);
        assert(w[i + 1] == tokens@[i + 1]@);
        if text::same(tokens[i].as_str(), "inet") {
            return Some(cut_slash(tokens[i + 1].as_str()));
        }
        i = i + 1;
    }
    None
}

/// The radio of an interface in the output of `iw dev <iface> info`: the first
/// line that names one.
pub open spec fn named_phy(lines: Seq<Seq<char>>, i: int) -> Option<Seq<char>>
    decreases lines.len() - i,
{
    if !(0 <= i < lines.len()) {
        None
    } else {
        match text::after_prefix(text::trimmed(lines[i]), "wiphy"@) {
            Some(rest) => if text::trimmed(rest).len() > 0 {
                Some("phy"@ + text::trimmed(rest))
            } else {
                named_phy(lines, i + 1)
            },
            None => named_phy(lines, i + 1),
        }
    }
}

pub fn phy_for_iface(stdout: &str) -> (r: Option<String>)
    ensures
        r.deep_view() == named_phy(text::lines_of(stdout@), 0),
{
    let lines = text::lines(stdout);
    let ghost l = text::lines_of(stdout@);
    for i in 0..lines.len()
        invariant
            l == text::lines_of(stdout@),
            l == lines.deep_view(),
            named_phy(l, 0) == named_phy(l, i as int),
    {
        assert(l[i as int] == lines@[i as int]@);
        match text::strip_prefix(text::trim(lines[i].as_str()), "wiphy") {
            Some(rest) => {
                let wiphy = text::trim(rest);
                if !wiphy.is_empty() {
                    let mut out = String::from_str("phy");
                    out.append(wiphy);
                    return Some(out);
                }
            },
            None => {},
        }
    }
    None
}

/// A radio's name from the configuration: its number alone will do.
pub open spec fn phy_name(value: Seq<char>) -> Option<Seq<char>> {
    let v = text::trimmed(value);
    if v.len() == 0 {
        None
    } else if text::begins(v, "phy"@) {
        Some(v)
    } else {
        Some("phy"@ + v)
    }
}

pub fn normalize_phy_name(value: &str) -> (r: Option<String>)
    ensures
        r.deep_view() == phy_name(value@),
{
    let v = text::trim(value);
    if v.is_empty() {
        None
    } else if text::starts_with(v, "phy") {
        Some(v.to_owned())
    } else {
        let mut out = String::from_str("phy");
        out.append(v);
        Some(out)
    }
}

/// The radios that the first `n` lines of `iw dev` list, each once.
pub open spec fn listed_phys(lines: Seq<Seq<char>>, n: int) -> Seq<Seq<char>>
    decreases n,
{
    if n <= 0 || n > lines.len() {
        Seq::empty()
    } else {
        let before = listed_phys(lines, n - 1);
        match text::after_prefix(text::trimmed(lines[n - 1]), "phy#"@) {
            Some(rest) => if text::words(rest).len() > 0 {
                text::pushed_once(before, "phy"@ + text::words(rest)[0])
            } else {
                before
            },
            None => before,
        }
    }
}

pub open spec fn all_phys(out: Seq<char>) -> Seq<Seq<char>> {
    listed_phys(text::lines_of(out), text::lines_of(out).len() as int)
}

pub fn phys_from_iw_dev(stdout: &str) -> (r: Vec<String>)
    ensures
        r.deep_view() == all_phys(stdout@),
{
    let lines = text::lines(stdout);
    let ghost l = text::lines_of(stdout@);
    let mut phys: Vec<String> = Vec::new();
    assert(phys.deep_view() =~= Seq::<Seq<char>>::empty());
    for i in 0..lines.len()
        invariant
            l == text::lines_of(stdout@),
            l == lines.deep_view(),
            phys.deep_view() == listed_phys(l, i as int),
    {
        assert(l[i as int] == lines@[i as int]@);
        match text::strip_prefix(text::trim(lines[i].as_str()), "phy#") {
            Some(rest) => {
                let ids = text::split_whitespace(rest);
                if ids.len() > 0 {
                    assert(ids.deep_view()[0] == ids@[0]@);
                    let mut phy = String::from_str("phy");
                    phy.append(ids[0].as_str());
                    text::push_once(&mut phys, phy.as_str());
                }
            },
            None => {},
        }
    }
    phys
}

/// The radios worth trying, best first and each once: the one that carries the
/// access point, the configured one, and all that there are.
pub open spec fn phy_candidates(
    ap_phy: Option<Seq<char>>,
    configured: Seq<char>,
    present: Seq<Seq<char>>,
) -> Seq<Seq<char>> {
    let first = match ap_phy {
        Some(phy) => seq![phy],
        None => Seq::empty(),
    };
    let second = match phy_name(configured) {
        Some(phy) => text::pushed_once(first, phy),
        None => first,
    };
    added_once(second, present)
}

pub open spec fn added_once(list: Seq<Seq<char>>, more: Seq<Seq<char>>) -> Seq<Seq<char>>
    decreases more.len(),
{
    if more.len() == 0 {
        list
    } else {
        text::pushed_once(added_once(list, more.drop_last()), more.last())
    }
}

pub fn sta_phy_candidates(
    ap_phy: &Option<String>,
    configured_phy: &str,
    present: &Vec<String>,
) -> (r: Vec<String>)
    ensures
        r.deep_view() == phy_candidates(ap_phy.deep_view(), configured_phy@, present.deep_view()),
{
    let mut out: Vec<String> = Vec::new();
    match ap_phy {
        Some(phy) => {
            text::push_text(&mut out, phy.as_str());
            assert(out.deep_view() =~= seq![phy@]);
        },
        None => {
            assert(out.deep_view() =~= Seq::<Seq<char>>::empty());
        },
    }
    match normalize_phy_name(configured_phy) {
        Some(phy) => {
            text::push_once(&mut out, phy.as_str());
        },
        None => {},
    }
    let ghost second = out.deep_view();
    let ghost p = present.deep_view();
    assert(p.take(0) =~= Seq::<Seq<char>>::empty());
    for i in 0..present.len()
        invariant
            p == present.deep_view(),
            out.deep_view() == added_once(second, p.take(i as int)),
    {
        let ghost t = p.take(i as int + 1);
        assert(t.drop_last() =~= p.take(i as int));
        assert(t.last() == present@[i as int]@);
        text::push_once(&mut out, present[i].as_str());
    }
    assert(p.take(p.len() as int) =~= p);
    out
}

/// No candidate is tried twice.
pub proof fn law_candidates_are_distinct(
    ap_phy: Option<Seq<char>>,
    configured: Seq<char>,
    present: Seq<Seq<char>>,
)
    ensures
        phy_candidates(ap_phy, configured, present).no_duplicates(),
        forall|i: int|
            0 <= i < present.len() ==> phy_candidates(ap_phy, configured, present).contains(
                #[trigger] present[i],
            ),
{
    let first: Seq<Seq<char>> = match ap_phy {
        Some(phy) => seq![phy],
        None => Seq::empty(),
    };
    let second = match phy_name(configured) {
        Some(phy) => text::pushed_once(first, phy),
        None => first,
    };
    assert(first.no_duplicates());
    match phy_name(configured) {
        Some(phy) => lemma_pushed_once(first, phy),
        None => {},
    }
    lemma_added_once(second, present);
}

proof fn lemma_pushed_once(list: Seq<Seq<char>>, s: Seq<char>)
    requires
        list.no_duplicates(),
    ensures
        text::pushed_once(list, s).no_duplicates(),
        text::pushed_once(list, s).contains(s),
        forall|x: Seq<char>| list.contains(x) ==> text::pushed_once(list, s).contains(x),
{
    if !list.contains(s) {
        let out = list.push(s);
        assert(out[list.len() as int] == s);
        assert forall|x: Seq<char>| list.contains(x) implies out.contains(x) by {
            let i = choose|i: int| 0 <= i < list.len() && list[i] == x;
            assert(out[i] == x);
        }
        assert forall|i: int, j: int| 0 <= i < out.len() && 0 <= j < out.len() && i != j implies out[i]
            != out[j] by {
            if i < list.len() && j < list.len() {
                assert(list[i] != list[j]);
            } else if i < list.len() {
                assert(list.contains(list[i]));
            } else {
                assert(list.contains(list[j]));
            }
        }
    }
}

proof fn lemma_added_once(list: Seq<Seq<char>>, more: Seq<Seq<char>>)
    requires
        list.no_duplicates(),
    ensures
        added_once(list, more).no_duplicates(),
        forall|x: Seq<char>| list.contains(x) ==> added_once(list, more).contains(x),
        forall|i: int| 0 <= i < more.len() ==> added_once(list, more).contains(#[trigger] more[i]),
    decreases more.len(),
{
    if more.len() > 0 {
        let head = more.drop_last();
        lemma_added_once(list, head);
        lemma_pushed_once(added_once(list, head), more.last());
        assert forall|i: int| 0 <= i < more.len() implies added_once(list, more).contains(
            #[trigger] more[i],
        ) by {
            if i < head.len() {
                assert(head[i] == more[i]);
                assert(added_once(list, head).contains(head[i]));
            }
        }
    }
}

// ---------------------------------------------------------------------
// Channels

/// The channel of a frequency in the 2.4, 5 and 6 GHz bands.
pub open spec fn channel_of_freq(mhz: u32) -> Option<u32> {
    if 2412 <= mhz <= 2472 {
        Some(((mhz - 2407) / 5) as u32)
    } else if mhz == 2484 {
        Some(14)
    } else if 5000 <= mhz <= 5895 {
        Some(((mhz - 5000) / 5) as u32)
    } else if 5955 <= mhz <= 7115 {
        Some(((mhz - 5950) / 5 + 1) as u32)
    } else {
        None
    }
}

pub fn wifi_channel_from_freq(freq_mhz: u32) -> (r: Option<u32>)
    ensures
        r == channel_of_freq(freq_mhz),
{
    if 2412 <= freq_mhz && freq_mhz <= 2472 {
        Some((freq_mhz - 2407) / 5)
    } else if freq_mhz == 2484 {
        Some(14)
    } else if 5000 <= freq_mhz && freq_mhz <= 5895 {
        Some((freq_mhz - 5000) / 5)
    } else if 5955 <= freq_mhz && freq_mhz <= 7115 {
        Some((freq_mhz - 5950) / 5 + 1)
    } else {
        None
    }
}

/// The channel that one line of `iw` names, by frequency or by number.
pub open spec fn line_channel(line: Seq<char>) -> Option<u32> {
    let l = text::trimmed(line);
    let by_freq = match text::after_prefix(l, "freq:"@) {
        Some(rest) => match text::parsed(text::trimmed(rest), 10, 0xffff_ffff) {
            Some(mhz) => channel_of_freq(mhz as u32),
            None => None,
        },
        None => None,
    };
    if by_freq is Some {
        by_freq
    } else {
        match text::after_prefix(l, "channel "@) {
            Some(rest) => if text::words(rest).len() > 0 {
                match text::parsed(text::words(rest)[0], 10, 0xffff_ffff) {
                    Some(n) => Some(n as u32),
                    None => None,
                }
            } else {
                None
            },
            None => None,
        }
    }
}

pub open spec fn first_channel(lines: Seq<Seq<char>>, i: int) -> Option<u32>
    decreases lines.len() - i,
{
    if !(0 <= i < lines.len()) {
        None
    } else if line_channel(lines[i]) is Some {
        line_channel(lines[i])
    } else {
        first_channel(lines, i + 1)
    }
}

fn channel_in_line(line: &str) -> (r: Option<u32>)
    ensures
        r == line_channel(line@),
{
    let l = text::trim(line);
    match text::strip_prefix(l, "freq:") {
        Some(rest) => {
            match text::parse_number(text::trim(rest), 10, 0xffff_ffff) {
                Some(mhz) => {
                    let channel = wifi_channel_from_freq(mhz as u32);
                    if channel.is_some() {
                        return channel;
                    }
                },
                None => {},
            }
        },
        None => {},
    }
    match text::strip_prefix(l, "channel ") {
        Some(rest) => {
            let words = text::split_whitespace(rest);
            if words.len() > 0 {
                assert(words.deep_view()[0] == words@[0]@);
                match text::parse_number(words[0].as_str(), 10, 0xffff_ffff) {
                    Some(n) => Some(n as u32),
                    None => None,
                }
            } else {
                None
            }
        },
        None => None,
    }
}

pub fn parse_iw_channel_from_text(s: &str) -> (r: Option<u32>)
    ensures
        r == first_channel(text::lines_of(s@), 0),
{
    let lines = text::lines(s);
    let ghost l = text::lines_of(s@);
    for i in 0..lines.len()
        invariant
            l == text::lines_of(s@),
            l == lines.deep_view(),
            first_channel(l, 0) == first_channel(l, i as int),
    {
        assert(l[i as int] == lines@[i as int]@);
        let found = channel_in_line(lines[i].as_str());
        if found.is_some() {
            return found;
        }
    }
    None
}

/// Channels up to fourteen are in the 2.4 GHz band.
pub fn hostapd_hw_mode_for_channel(channel: u32) -> (r: &'static str)
    ensures
        r@ == hw_mode(channel),
{
    if channel <= 14 {
        "g"
    } else {
        "a"
    }
}

pub open spec fn hw_mode(channel: u32) -> Seq<char> {
    if channel <= 14 {
        "g"@
    } else {
        "a"@
    }
}


// ---------------------------------------------------------------------
// Readiness

/// Whether an interface is on the network, whichever it is if none is named,
/// and has an address.
pub open spec fn is_ready(current: Option<Seq<char>>, ssid: Seq<char>, ip: Option<Seq<char>>) -> bool {
    &&& ip is Some
    &&& if text::trimmed(ssid).len() == 0 {
        current is Some
    } else {
        current == Some(ssid)
    }
}

pub fn wait_for_wifi_ready(current: &Option<String>, ssid: &str, ip: &Option<String>) -> (r: bool)
    ensures
        r == is_ready(current.deep_view(), ssid@, ip.deep_view()),
{
    let associated = match current {
        Some(network) => text::trim(ssid).is_empty() || text::same(network.as_str(), ssid),
        None => false,
    };
    associated && ip.is_some()
}

/// Where the control socket of an interface may be.
pub open spec fn ctrl_paths(iface: Seq<char>) -> Seq<Seq<char>> {
    seq!["/var/run/wpa_supplicant/"@ + iface, "/run/wpa_supplicant/"@ + iface]
}

pub fn wpa_ctrl_paths(iface: &str) -> (r: Vec<String>)
    ensures
        r.deep_view() == ctrl_paths(text::trimmed(iface@)),
{
    let name = text::trim(iface);
    let mut out: Vec<String> = Vec::new();
    let a = text::cat2("/var/run/wpa_supplicant/", name);
    let b = text::cat2("/run/wpa_supplicant/", name);
    text::push_text(&mut out, a.as_str());
    text::push_text(&mut out, b.as_str());
    assert(out.deep_view() =~= ctrl_paths(text::trimmed(iface@)));
    out
}

/// The error when no control socket turned up.
pub fn wait_for_wpa_ctrl_socket(iface: &str, timeout_ms: u64) -> (r: String)
    ensures
        r@ == "wpa_supplicant control socket did not appear at any of "@ + text::list_debug(
            ctrl_paths(text::trimmed(iface@)),
        ) + " within "@ + clock::duration_debug_text(timeout_ms),
{
    let paths = wpa_ctrl_paths(iface);
    let shown = text::debug_list(&paths);
    let span = clock::duration_text(timeout_ms);
    text::cat4(
        "wpa_supplicant control socket did not appear at any of ",
        shown.as_str(),
        " within ",
        span.as_str(),
    )
}

// ---------------------------------------------------------------------
// What the Wi-Fi tools are told

/// What a text with backslashes before some characters stands for.
pub open spec fn unescaped(s: Seq<char>) -> Option<Seq<char>>
    decreases s.len(),
{
    if s.len() == 0 {
        Some(Seq::empty())
    } else if s[0] == '\\' {
        if s.len() < 2 {
            None
        } else {
            match unescaped(s.subrange(2, s.len() as int)) {
                Some(rest) => Some(seq![s[1]] + rest),
                None => None,
            }
        }
    } else if s[0] == '"' {
        None
    } else {
        match unescaped(s.subrange(1, s.len() as int)) {
            Some(rest) => Some(seq![s[0]] + rest),
            None => None,
        }
    }
}

proof fn lemma_unescaped(s: Seq<char>)
    ensures
        unescaped(escaped(s)) == Some(s),
    decreases s.len(),
{
    if s.len() == 0 {
        assert(s =~= Seq::<char>::empty());
    } else {
        let tail = s.subrange(1, s.len() as int);
        lemma_unescaped(tail);
        let e = escaped(s);
        assert(seq![s[0]] + tail =~= s);
        if s[0] == '\\' || s[0] == '"' {
            assert(e[0] == '\\' && e[1] == s[0]);
            assert(e.subrange(2, e.len() as int) =~= escaped(tail));
        } else {
            assert(e[0] == s[0]);
            assert(e.subrange(1, e.len() as int) =~= escaped(tail));
        }
    }
}

/// The supplicant reads a quoted text back as it was: it ends at the quote that ends it,
/// and at no other.
pub proof fn law_supplicant_reads_quoted_text_back(s: Seq<char>)
    ensures
        wpa_quoted(s).len() >= 2,
        wpa_quoted(s)[0] == '"',
        wpa_quoted(s).last() == '"',
        unescaped(wpa_quoted(s).subrange(1, wpa_quoted(s).len() - 1)) == Some(s),
{
    reveal_strlit("\"");
    law_wpa_quote_escapes_each_character(s);
    lemma_unescaped(s);
    assert(wpa_quoted(s).subrange(1, wpa_quoted(s).len() - 1) =~= escaped(s));
}

/// The supplicant's configuration names the network by its name, and by its access point
/// where that is wanted and known; the network is looked for though it may be hidden; and
/// it is joined without a key exactly if it has none or is open, and else by its key.
pub proof fn law_supplicant_is_told_the_network(info: WifiInfo<Seq<char>>, with_bssid: bool)
    ensures
        ({
            let bssid = text::trimmed(info.bssid);
            let open = info.key.len() == 0 || info.is_open;
            let pins = with_bssid && bssid.len() > 0;
            let q = |s: Seq<char>| seq!['"'] + escaped(s) + seq!['"'];
            let named = "network={\n    ssid="@ + q(info.ssid) + "\n"@;
            let pinned = if pins {
                named + ("    bssid="@ + bssid + "\n"@)
            } else {
                named + Seq::<char>::empty()
            };
            let looked_for = pinned + "    scan_ssid=1\n"@;
            &&& open ==> supplicant_config(info, with_bssid) == looked_for
                + "    key_mgmt=NONE\n}\n"@
            &&& !open ==> supplicant_config(info, with_bssid) == looked_for
                + "    key_mgmt=WPA-PSK\n    psk="@ + q(info.key) + "\n}\n"@
        }),
{
    reveal_strlit("\"");
    assert("\""@ =~= seq!['"']);
    law_wpa_quote_escapes_each_character(info.ssid);
    law_wpa_quote_escapes_each_character(info.key);
}

/// `nmcli` connects to the network of that name, with its key where it has one, by the
/// interface and to the access point where they are known.
pub proof fn law_nmcli_is_told_the_network(iface: Seq<char>, info: WifiInfo<Seq<char>>)
    ensures
        ({
            let args = nmcli_args(iface, info);
            let i = text::trimmed(iface);
            let b = text::trimmed(info.bssid);
            let n1 = if info.key.len() > 0 {
                6int
            } else {
                4int
            };
            let n2 = if i.len() > 0 {
                n1 + 2
            } else {
                n1
            };
            &&& args.take(4) == seq!["dev"@, "wifi"@, "connect"@, info.ssid]
            &&& info.key.len() > 0 ==> args[4] == "password"@ && args[5] == info.key
            &&& i.len() > 0 ==> args[n1] == "ifname"@ && args[n1 + 1] == i
            &&& b.len() > 0 ==> args.len() == n2 + 2 && args[n2] == "bssid"@ && args[n2 + 1] == b
            &&& b.len() == 0 ==> args.len() == n2
        }),
{
    assert(nmcli_args(iface, info).take(4) =~= seq!["dev"@, "wifi"@, "connect"@, info.ssid]);
}

/// The supplicant is started in the background on an interface and a configuration, by
/// either of two drivers, and with a control socket where one is wanted.
pub proof fn law_supplicant_is_started(iface: Seq<char>, conf: Seq<char>, ctrl: Option<Seq<char>>)
    ensures
        ({
            let args = supplicant_args(iface, conf, ctrl);
            &&& args.take(7) == seq!["-B"@, "-i"@, iface, "-c"@, conf, "-D"@, "nl80211,wext"@]
            &&& ctrl matches Some(dir) ==> args.len() == 9 && args[7] == "-C"@ && args[8] == dir
            &&& ctrl is None ==> args.len() == 7
        }),
{
    assert(supplicant_args(iface, conf, ctrl).take(7) =~= seq![
        "-B"@,
        "-i"@,
        iface,
        "-c"@,
        conf,
        "-D"@,
        "nl80211,wext"@,
    ]);
}

/// Where a configuration is written has no directory of the interface's making in it.
pub proof fn law_configuration_stays_in_its_directory(head: Seq<char>, iface: Seq<char>, tail: Seq<char>)
    ensures
        conf_path(head, iface, tail).take(head.len() as int) == head,
        conf_path(head, iface, tail).len() == head.len() + iface.len() + tail.len(),
        forall|i: int|
            0 <= i < iface.len() ==> #[trigger] conf_path(head, iface, tail)[head.len() + i] == (if iface[i]
                == '/' {
                '_'
            } else {
                iface[i]
            }),
{
    lemma_slashes(iface);
    assert(conf_path(head, iface, tail).take(head.len() as int) =~= head);
}

proof fn lemma_slashes(s: Seq<char>)
    ensures
        text::replaced(s, "/"@, "_"@).len() == s.len(),
        forall|i: int|
            0 <= i < s.len() ==> #[trigger] text::replaced(s, "/"@, "_"@)[i] == (if s[i] == '/' {
                '_'
            } else {
                s[i]
            }),
    decreases s.len(),
{
    reveal_strlit("/");
    reveal_strlit("_");
    assert("/"@ =~= seq!['/']);
    assert("_"@ =~= seq!['_']);
    if s.len() > 0 {
        let tail = s.subrange(1, s.len() as int);
        lemma_slashes(tail);
        let r = text::replaced(tail, "/"@, "_"@);
        let first = if s[0] == '/' {
            '_'
        } else {
            s[0]
        };
        assert(s.subrange(0, 1) =~= seq![s[0]]);
        if s[0] == '/' {
            assert(text::begins(s, "/"@));
        } else if text::begins(s, "/"@) {
            assert(s.subrange(0, 1)[0] == "/"@[0]);
        }
        assert(text::replaced(s, "/"@, "_"@) =~= seq![first] + r);
        assert forall|i: int| 0 <= i < s.len() implies #[trigger] text::replaced(s, "/"@, "_"@)[i]
            == (if s[i] == '/' {
            '_'
        } else {
            s[i]
        }) by {
            if i > 0 {
                assert(tail[i - 1] == s[i]);
                assert(r[i - 1] == text::replaced(s, "/"@, "_"@)[i]);
            }
        }
    }
}

/// What a program said is told when it has failed: its status and all it printed.
pub proof fn law_failures_are_told(what: Seq<char>, out: Output<Seq<char>>)
    ensures
        text::begins(failure(what, out), what),
        text::holds(failure(what, out), out.status),
        text::holds(failure(what, out), text::trimmed(out.stdout)),
        text::holds(failure(what, out), text::trimmed(out.stderr)),
        text::holds(supplicant_failure(out), out.status),
        text::holds(supplicant_failure(out), text::trimmed(out.stdout)),
        text::holds(supplicant_failure(out), text::trimmed(out.stderr)),
{
    let o = text::trimmed(out.stdout);
    let e = text::trimmed(out.stderr);
    let none = Seq::<char>::empty();
    let f = failure(what, out);
    let a = what + " failed status="@;
    let b = a + out.status + " stdout="@;
    let c = b + o + " stderr="@;
    assert(f.subrange(0, what.len() as int) =~= what);
    text::lemma_holds_within(a, out.status, " stdout="@ + o + " stderr="@ + e);
    assert(a + out.status + (" stdout="@ + o + " stderr="@ + e) =~= f);
    text::lemma_holds_within(b, o, " stderr="@ + e);
    assert(b + o + (" stderr="@ + e) =~= f);
    text::lemma_holds_within(c, e, none);
    assert(c + e + none =~= f);
    let g = supplicant_failure(out);
    let parse = if is_parse_failure(out.stdout, out.stderr) {
        " parse_failure=true"@
    } else {
        ""@
    };
    let h = "wpa_supplicant failed status="@;
    text::lemma_holds_within(h, out.status, parse + " stdout="@ + o + " stderr="@ + e);
    assert(h + out.status + (parse + " stdout="@ + o + " stderr="@ + e) =~= g);
    let h2 = h + out.status + parse + " stdout="@;
    text::lemma_holds_within(h2, o, " stderr="@ + e);
    assert(h2 + o + (" stderr="@ + e) =~= g);
    text::lemma_holds_within(h2 + o + " stderr="@, e, none);
    assert(h2 + o + " stderr="@ + e + none =~= g);
}

// ---------------------------------------------------------------------
// What is read out of their output

proof fn lemma_first_value(lines: Seq<Seq<char>>, prefix: Seq<char>, i: int, k: int)
    requires
        0 <= i <= k <= lines.len(),
        forall|j: int|
            i <= j < k ==> text::after_prefix(text::trimmed(#[trigger] lines[j]), prefix) is None,
    ensures
        first_value(lines, prefix, i) == first_value(lines, prefix, k),
    decreases k - i,
{
    if i < k {
        assert(text::after_prefix(text::trimmed(lines[i]), prefix) is None);
        lemma_first_value(lines, prefix, i + 1, k);
    }
}

/// The name of the network that an interface is in stands in the first line that begins
/// with `SSID:`, behind the blanks; its role in the first line that begins with `type`.
pub proof fn law_first_line_that_tells_counts(out: Seq<char>, k: int)
    requires
        0 <= k < text::lines_of(out).len(),
    ensures
        ({
            let lines = text::lines_of(out);
            let line = text::trimmed(lines[k]);
            &&& (text::begins(line, "SSID:"@) && forall|j: int|
                0 <= j < k ==> !text::begins(text::trimmed(#[trigger] lines[j]), "SSID:"@))
                ==> link_ssid(out) == Some(text::trimmed(line.subrange(5, line.len() as int)))
            &&& (text::begins(line, "type "@) && forall|j: int|
                0 <= j < k ==> !text::begins(text::trimmed(#[trigger] lines[j]), "type "@))
                ==> iface_type(out) == Some(text::trimmed(line.subrange(5, line.len() as int)))
            &&& text::begins(text::trim_start(lines[k]), "Connected to "@) ==> link_connected(out)
        }),
{
    reveal_strlit("SSID:");
    reveal_strlit("type ");
    let lines = text::lines_of(out);
    if forall|j: int| 0 <= j < k ==> !text::begins(text::trimmed(#[trigger] lines[j]), "SSID:"@) {
        lemma_first_value(lines, "SSID:"@, 0, k);
    }
    if forall|j: int| 0 <= j < k ==> !text::begins(text::trimmed(#[trigger] lines[j]), "type "@) {
        lemma_first_value(lines, "type "@, 0, k);
    }
}

/// Output without such a line tells nothing.
pub proof fn law_nothing_is_made_up(out: Seq<char>)
    ensures
        ({
            let lines = text::lines_of(out);
            &&& (forall|j: int|
                0 <= j < lines.len() ==> !text::begins(
                    text::trimmed(#[trigger] lines[j]),
                    "SSID:"@,
                )) ==> link_ssid(out) is None
            &&& (forall|j: int|
                0 <= j < lines.len() ==> !text::begins(
                    text::trimmed(#[trigger] lines[j]),
                    "type "@,
                )) ==> iface_type(out) is None
            &&& (forall|j: int|
                0 <= j < lines.len() ==> !text::begins(
                    text::trim_start(#[trigger] lines[j]),
                    "Connected to "@,
                )) ==> !link_connected(out)
            &&& (forall|j: int|
                0 <= j < text::words(out).len() ==> #[trigger] text::words(out)[j] != "inet"@)
                ==> shown_ipv4(out) is None
        }),
{
    let lines = text::lines_of(out);
    let n = lines.len() as int;
    if forall|j: int| 0 <= j < n ==> !text::begins(text::trimmed(#[trigger] lines[j]), "SSID:"@) {
        lemma_first_value(lines, "SSID:"@, 0, n);
    }
    if forall|j: int| 0 <= j < n ==> !text::begins(text::trimmed(#[trigger] lines[j]), "type "@) {
        lemma_first_value(lines, "type "@, 0, n);
    }
    let w = text::words(out);
    if forall|j: int| 0 <= j < w.len() ==> #[trigger] w[j] != "inet"@ {
        if w.len() > 0 {
            lemma_word_after(w, "inet"@, 0, w.len() - 1);
        }
    }
}

proof fn lemma_word_after(words: Seq<Seq<char>>, key: Seq<char>, i: int, k: int)
    requires
        0 <= i <= k < words.len(),
        forall|j: int| i <= j < k ==> #[trigger] words[j] != key,
    ensures
        word_after(words, key, i) == word_after(words, key, k),
    decreases k - i,
{
    if i < k {
        assert(words[i] != key);
        lemma_word_after(words, key, i + 1, k);
    }
}

/// The address of an interface is the word behind the first `inet`, without the length
/// of its network.
pub proof fn law_address_stands_behind_its_word(out: Seq<char>, k: int, a: Seq<char>, b: Seq<char>)
    requires
        0 <= k && k + 1 < text::words(out).len(),
        text::words(out)[k] == "inet"@,
        forall|j: int| 0 <= j < k ==> #[trigger] text::words(out)[j] != "inet"@,
        forall|j: int| 0 <= j < a.len() ==> #[trigger] a[j] != '/',
    ensures
        text::words(out)[k + 1] == a + seq!['/'] + b ==> shown_ipv4(out) == Some(a),
        text::words(out)[k + 1] == a ==> shown_ipv4(out) == Some(a),
{
    lemma_word_after(text::words(out), "inet"@, 0, k);
    text::law_first_piece(a, '/', b);
}

/// A radio is known by `phy` and its number, with or without that word before it.
pub proof fn law_radios_are_named_alike(value: Seq<char>)
    ensures
        text::trimmed(value).len() == 0 <==> phy_name(value) is None,
        phy_name(value) matches Some(name) ==> text::begins(name, "phy"@) && (name == text::trimmed(
            value,
        ) || name == "phy"@ + text::trimmed(value)),
        text::begins(text::trimmed(value), "phy"@) ==> phy_name(value) == Some(text::trimmed(value)),
{
    let v = text::trimmed(value);
    let n = "phy"@ + v;
    assert(n.subrange(0, "phy"@.len() as int) =~= "phy"@);
    reveal_strlit("phy");
}

/// The radio of the access point is tried first, and the configured one next.
pub proof fn law_best_radio_comes_first(
    ap_phy: Option<Seq<char>>,
    configured: Seq<char>,
    present: Seq<Seq<char>>,
)
    ensures
        ({
            let c = phy_candidates(ap_phy, configured, present);
            &&& ap_phy matches Some(phy) ==> c.len() > 0 && c[0] == phy
            &&& ap_phy is None && phy_name(configured) is Some ==> c.len() > 0 && Some(c[0])
                == phy_name(configured)
            &&& ap_phy is Some && phy_name(configured) is Some && phy_name(configured) != ap_phy
                ==> c.len() > 1 && Some(c[1]) == phy_name(configured)
        }),
{
    let first = match ap_phy {
        Some(phy) => seq![phy],
        None => Seq::empty(),
    };
    let second = match phy_name(configured) {
        Some(phy) => text::pushed_once(first, phy),
        None => first,
    };
    lemma_added_behind(second, present);
    if let Some(a) = ap_phy {
        if let Some(p) = phy_name(configured) {
            if p != a {
                assert(!first.contains(p)) by {
                    if first.contains(p) {
                        assert(first[0] == p);
                    }
                }
            }
        }
    }
}

proof fn lemma_added_behind(list: Seq<Seq<char>>, more: Seq<Seq<char>>)
    ensures
        added_once(list, more).len() >= list.len(),
        forall|i: int| 0 <= i < list.len() ==> #[trigger] added_once(list, more)[i] == list[i],
    decreases more.len(),
{
    if more.len() > 0 {
        lemma_added_behind(list, more.drop_last());
    }
}

/// The channels of the three bands: the first of each is 1, 36 and 1, and each next one
/// is five megahertz further; the last one of the lowest band lies apart.
pub proof fn law_channels_lie_five_megahertz_apart(n: u32)
    ensures
        1 <= n <= 13 ==> channel_of_freq((2407 + 5 * n) as u32) == Some(n),
        channel_of_freq(2484) == Some(14u32),
        1 <= n <= 179 ==> channel_of_freq((5000 + 5 * n) as u32) == Some(n),
        2 <= n <= 234 ==> channel_of_freq((5945 + 5 * n) as u32) == Some(n),
        n < 2412 || 2472 < n < 2484 || 2484 < n < 5000 || 5895 < n < 5955 || n > 7115
            ==> channel_of_freq(n) is None,
{
}

/// A line names its channel by a frequency or by its number; a frequency counts first.
pub proof fn law_line_names_its_channel(line: Seq<char>, n: u32)
    ensures
        ({
            let l = text::trimmed(line);
            &&& text::begins(l, "freq:"@) && text::parsed(
                text::trimmed(l.subrange(5, l.len() as int)),
                10,
                0xffff_ffff,
            ) == Some(n as nat) && channel_of_freq(n) is Some ==> line_channel(line)
                == channel_of_freq(n)
            &&& text::begins(l, "channel "@) && !text::begins(l, "freq:"@) && text::words(
                l.subrange(8, l.len() as int),
            ).len() > 0 && text::parsed(
                text::words(l.subrange(8, l.len() as int))[0],
                10,
                0xffff_ffff,
            ) == Some(n as nat) ==> line_channel(line) == Some(n)
            &&& !text::begins(l, "channel "@) && !text::begins(l, "freq:"@) ==> line_channel(line)
                is None
        }),
{
    reveal_strlit("freq:");
    reveal_strlit("channel ");
}

/// The first line that names a channel counts.
pub proof fn law_first_channel_counts(lines: Seq<Seq<char>>, i: int, k: int)
    requires
        0 <= i <= k < lines.len(),
        line_channel(lines[k]) is Some,
        forall|j: int| i <= j < k ==> line_channel(#[trigger] lines[j]) is None,
    ensures
        first_channel(lines, i) == line_channel(lines[k]),
    decreases k - i,
{
    if i < k {
        assert(line_channel(lines[i]) is None);
        law_first_channel_counts(lines, i + 1, k);
    }
}

/// The access point's mode is that of its channel's band.
pub proof fn law_mode_is_that_of_the_band(channel: u32)
    ensures
        channel <= 14 ==> hw_mode(channel) == "g"@,
        channel > 14 ==> hw_mode(channel) == "a"@,
{
}

/// An interface is ready only with an address, in the network that was asked for, or in
/// any if none was.
pub proof fn law_ready_means_joined_with_an_address(
    current: Option<Seq<char>>,
    ssid: Seq<char>,
    ip: Option<Seq<char>>,
)
    ensures
        ip is None ==> !is_ready(current, ssid, ip),
        current is None ==> !is_ready(current, ssid, ip),
        text::trimmed(ssid).len() > 0 && ip is Some ==> (is_ready(current, ssid, ip) <==> current
            == Some(ssid)),
        text::trimmed(ssid).len() == 0 && ip is Some ==> (is_ready(current, ssid, ip) <==> current
            is Some),
{
}

/// The control socket of an interface is looked for in both places.
pub proof fn law_socket_is_looked_for(iface: Seq<char>)
    ensures
        ctrl_paths(iface).len() == 2,
        ctrl_paths(iface)[0] == "/var/run/wpa_supplicant/"@ + iface,
        ctrl_paths(iface)[1] == "/run/wpa_supplicant/"@ + iface,
{
}

/// The phone is told the proxy's network by the name, key and address given, as an open
/// one exactly if the key is blank.
pub proof fn law_own_network_is_told(ssid: Seq<char>, key: Seq<char>, bssid: Seq<char>)
    ensures
        ({
            let info = phone_wifi_info(ssid, key, bssid);
            &&& info.ssid == ssid && info.key == key && info.bssid == text::trimmed(bssid)
            &&& info.is_open <==> text::trimmed(key).len() == 0
            &&& !info.dynamic
            &&& text::trimmed(key).len() == 0 ==> info.security_name == "OPEN"@
            &&& text::trimmed(key).len() > 0 ==> info.security_name == "WPA2_PERSONAL"@
        }),
{
}

/// The placeholders of a join command stand for what they name.
pub proof fn law_placeholders_stand_for_what_they_name(
    iface: Seq<char>,
    info: WifiInfo<Seq<char>>,
)
    ensures
        join_command("{iface}"@, iface, info) == quoted(iface),
        join_command("{ssid}"@, iface, info) == quoted(info.ssid),
        join_command("{bssid}"@, iface, info) == quoted(info.bssid),
        join_command("{key}"@, iface, info) == quoted(info.key),
        join_command("{security}"@, iface, info) == quoted(info.security_name),
{
    reveal_strlit("{iface}");
    reveal_strlit("{ssid}");
    reveal_strlit("{bssid}");
    reveal_strlit("{key}");
    reveal_strlit("{security}");
    lemma_placeholder_alone(Placeholder::Iface, iface, info);
    lemma_placeholder_alone(Placeholder::Ssid, iface, info);
    lemma_placeholder_alone(Placeholder::Bssid, iface, info);
    lemma_placeholder_alone(Placeholder::Key, iface, info);
    lemma_placeholder_alone(Placeholder::Security, iface, info);
}

proof fn lemma_placeholder_alone(p: Placeholder, iface: Seq<char>, info: WifiInfo<Seq<char>>)
    ensures
        join_command(placeholder_text(p), iface, info) == quoted(placeholder_value(p, iface, info)),
{
    reveal_strlit("{iface}");
    reveal_strlit("{ssid}");
    reveal_strlit("{bssid}");
    reveal_strlit("{key}");
    reveal_strlit("{security}");
    let s = placeholder_text(p);
    assert(s.subrange(0, s.len() as int) =~= s);
    assert(text::begins(s, s));
    lemma_only_placeholder(p);
    lemma_first_part(s);
    let parts = template_parts(s);
    let rest = s.subrange(s.len() as int, s.len() as int);
    assert(rest =~= Seq::<char>::empty());
    assert(template_parts(rest) =~= Seq::<TemplatePart>::empty());
    assert(parts.len() == 1);
    let q = quoted(placeholder_value(p, iface, info));
    assert(filled_in(parts.subrange(1, parts.len() as int), iface, info) =~= Seq::<char>::empty());
    assert(q + Seq::<char>::empty() =~= q);
}

proof fn lemma_only_placeholder(p: Placeholder)
    ensures
        leading_placeholder(placeholder_text(p)) == Some(p),
{
    reveal_strlit("{iface}");
    reveal_strlit("{ssid}");
    reveal_strlit("{bssid}");
    reveal_strlit("{key}");
    reveal_strlit("{security}");
    let s = placeholder_text(p);
    assert(s.subrange(0, s.len() as int) =~= s);
    assert(text::begins(s, s));
    lemma_other_letter(s, Placeholder::Iface);
    lemma_other_letter(s, Placeholder::Ssid);
    lemma_other_letter(s, Placeholder::Bssid);
    lemma_other_letter(s, Placeholder::Key);
    lemma_other_letter(s, Placeholder::Security);
}

proof fn lemma_other_letter(s: Seq<char>, q: Placeholder)
    ensures
        text::begins(s, placeholder_text(q)) ==> s.len() >= placeholder_text(q).len() && s[1]
            == placeholder_text(q)[1] && s[2] == placeholder_text(q)[2],
{
    reveal_strlit("{iface}");
    reveal_strlit("{ssid}");
    reveal_strlit("{bssid}");
    reveal_strlit("{key}");
    reveal_strlit("{security}");
    let t = placeholder_text(q);
    if text::begins(s, t) {
        let head = s.subrange(0, t.len() as int);
        assert(head[1] == s[1]);
        assert(head[2] == s[2]);
    }
}

} // verus!
