//! Pairing with the configured head unit.

use crate::address;
use crate::address::BtAddress;
use crate::text;
use vstd::prelude::*;
use vstd::string::StringExecFns;

verus! {

// ---------------------------------------------------------------------
// Requests while a device pairs

/// What a device asks for while it pairs.
#[derive(Clone, Copy, PartialEq, Eq, Structural)]
pub enum PairingRequest {
    PinCode,
    DisplayPinCode,
    Passkey,
    DisplayPasskey,
    Confirmation,
    Authorization,
    Service,
}

/// How it is answered.
#[derive(Clone, Copy, PartialEq, Eq, Structural)]
pub enum PairingReply {
    Reject,
    Accept,
    /// Accept, and trust the device from now on.
    AcceptAndTrust,
    /// The PIN code `0000`.
    ZeroPin,
    /// The passkey zero.
    ZeroPasskey,
}

pub open spec fn pairing_reply(request: PairingRequest, device: BtAddress, allowed: BtAddress) -> PairingReply {
    if device != allowed {
        PairingReply::Reject
    } else {
        match request {
            PairingRequest::PinCode => PairingReply::ZeroPin,
            PairingRequest::Passkey => PairingReply::ZeroPasskey,
            PairingRequest::Confirmation => PairingReply::AcceptAndTrust,
            PairingRequest::Authorization => PairingReply::AcceptAndTrust,
            _ => PairingReply::Accept,
        }
    }
}

/// Answers the configured head unit and no other device.
pub fn auto_accept_only_configured_hu(
    request: PairingRequest,
    device: BtAddress,
    allowed_hu: BtAddress,
) -> (r: PairingReply)
    ensures
        r == pairing_reply(request, device, allowed_hu),
{
    if device != allowed_hu {
        return PairingReply::Reject;
    }
    match request {
        PairingRequest::PinCode => PairingReply::ZeroPin,
        PairingRequest::Passkey => PairingReply::ZeroPasskey,
        PairingRequest::Confirmation => PairingReply::AcceptAndTrust,
        PairingRequest::Authorization => PairingReply::AcceptAndTrust,
        _ => PairingReply::Accept,
    }
}

/// Only the configured head unit is ever accepted, whatever is asked for.
pub proof fn law_only_the_configured_hu_pairs(
    request: PairingRequest,
    device: BtAddress,
    allowed: BtAddress,
)
    ensures
        pairing_reply(request, device, allowed) != PairingReply::Reject <==> device == allowed,
{
}

// ---------------------------------------------------------------------
// The class of the adapter

/// The digits of a class value, without the mark before them.
pub open spec fn class_digits(value: Seq<char>) -> Seq<char> {
    let t = text::trimmed(value);
    match text::after_prefix(t, "0x"@) {
        Some(rest) => rest,
        None => match text::after_prefix(t, "0X"@) {
            Some(rest) => rest,
            None => t,
        },
    }
}

/// A class value in its usual form: `0x` and six digits.
pub open spec fn class_value(value: Seq<char>) -> Option<Seq<char>> {
    let d = class_digits(value);
    if 1 <= d.len() <= 6 && text::all_digits(d, 16) {
        Some("0x"@ + text::hex_fixed(text::number_value(d, 16), 6))
    } else {
        None
    }
}

proof fn lemma_plus_is_no_digit(d: Seq<char>)
    requires
        d.len() > 0,
        d[0] == '+',
    ensures
        !text::all_digits(d, 16),
{
    assert(text::digit_value(d[0]) == 16);
}

proof fn lemma_six_digits(d: Seq<char>)
    requires
        d.len() <= 6,
        text::all_digits(d, 16),
    ensures
        d.len() == 0 ==> text::number_value(d, 16) < 0x1,
        d.len() == 1 ==> text::number_value(d, 16) < 0x10,
        d.len() == 2 ==> text::number_value(d, 16) < 0x100,
        d.len() == 3 ==> text::number_value(d, 16) < 0x1000,
        d.len() == 4 ==> text::number_value(d, 16) < 0x1_0000,
        d.len() == 5 ==> text::number_value(d, 16) < 0x10_0000,
        d.len() == 6 ==> text::number_value(d, 16) < 0x100_0000,
    decreases d.len(),
{
    if d.len() > 0 {
        let head = d.drop_last();
        assert forall|i: int| 0 <= i < head.len() implies text::digit_value(#[trigger] head[i])
            < 16 by {
            assert(head[i] == d[i]);
        }
        lemma_six_digits(head);
        assert(text::digit_value(d[d.len() - 1]) < 16);
    }
}

pub fn normalize_bt_class_value(value: &str) -> (r: Option<String>)
    ensures
        r.deep_view() == class_value(value@),
{
    let trimmed = text::trim(value);
    let digits = match text::strip_prefix(trimmed, "0x") {
        Some(rest) => rest,
        None => match text::strip_prefix(trimmed, "0X") {
            Some(rest) => rest,
            None => trimmed,
        },
    };
    let n: usize = vstd::string::StrSliceExecFns::unicode_len(digits);
    if n == 0 || n > 6 {
        return None;
    }
    if vstd::string::StrSliceExecFns::get_char(digits, 0) == '+' {
        proof {
            lemma_plus_is_no_digit(digits@);
        }
        return None;
    }
    proof {
        assert(text::unsigned_digits(digits@) == digits@);
        if text::all_digits(digits@, 16) {
            lemma_six_digits(digits@);
        }
    }
    match text::parse_number(digits, 16, 0xff_ffff) {
        Some(v) => {
            let hex = text::hex_text(v, 6);
            Some(text::cat2("0x", hex.as_str()))
        },
        None => None,
    }
}

spec fn pow16(width: nat) -> nat
    decreases width,
{
    if width == 0 {
        1
    } else {
        16 * pow16((width - 1) as nat)
    }
}

proof fn lemma_hex_is_read_back(n: nat, width: nat)
    requires
        n < pow16(width),
    ensures
        text::hex_fixed(n, width).len() == width,
        text::all_digits(text::hex_fixed(n, width), 16),
        forall|i: int| 0 <= i < width ==> !text::is_space(#[trigger] text::hex_fixed(n, width)[i]),
        text::number_value(text::hex_fixed(n, width), 16) == n,
    decreases width,
{
    if width > 0 {
        let head = text::hex_fixed(n / 16, (width - 1) as nat);
        let all = text::hex_fixed(n, width);
        lemma_hex_is_read_back(n / 16, (width - 1) as nat);
        assert(all.drop_last() =~= head);
        assert(text::digit_value(text::digit_char(n % 16)) == n % 16);
        assert forall|i: int| 0 <= i < all.len() implies text::digit_value(#[trigger] all[i])
            < 16 && !text::is_space(all[i]) by {
            if i < head.len() {
                assert(all[i] == head[i]);
            }
        }
    }
}

/// A class value in its usual form is its own usual form.
pub proof fn law_class_value_is_read_back(value: Seq<char>)
    ensures
        class_value(value) matches Some(v) ==> class_value(v) == Some(v),
{
    if let Some(v) = class_value(value) {
        reveal_strlit("0x");
        let d = class_digits(value);
        let n = text::number_value(d, 16);
        lemma_six_digits(d);
        reveal_with_fuel(pow16, 7);
        lemma_hex_is_read_back(n, 6);
        let h = text::hex_fixed(n, 6);
        assert(v =~= "0x"@ + h);
        assert(v[0] == '0');
        assert(v.last() == h[5]);
        assert(text::trimmed(v) == v);
        assert(v.subrange(0, 2) =~= "0x"@);
        assert(v.subrange(2, v.len() as int) =~= h);
        assert(class_digits(v) == h);
    }
}

/// White space and commas separate the words that `hciconfig` prints.
pub open spec fn blanked(s: Seq<char>) -> Seq<char> {
    s.map_values(
        |c: char|
            if c == ',' {
                ' '
            } else {
                c
            },
    )
}

fn blank_commas(s: &str) -> (r: String)
    ensures
        r@ == blanked(s@),
{
    let mut out = String::new();
    for c in it: s.chars()
        invariant
            out@ == blanked(s@.take(it.index() as int)),
            it.seq() == s@,
    {
        if c == ',' {
            out.push(' ');
        } else {
            out.push(c);
        }
        assert(blanked(s@.take(it.index() as int + 1)) =~= blanked(
            s@.take(it.index() as int),
        ).push(
            if c == ',' {
                ' '
            } else {
                c
            },
        ));
    }
    assert(s@.take(s@.len() as int) =~= s@);
    out
}

/// The first word, from `i` on, that is a class value behind `0x`.
pub open spec fn first_class(words: Seq<Seq<char>>, i: int) -> Option<Seq<char>>
    decreases words.len() - i,
{
    if !(0 <= i < words.len()) {
        None
    } else if (text::begins(words[i], "0x"@) || text::begins(words[i], "0X"@)) && class_value(
        words[i],
    ) is Some {
        class_value(words[i])
    } else {
        first_class(words, i + 1)
    }
}

/// The class in the output of `hciconfig <iface> class`.
pub open spec fn printed_class(stdout: Seq<char>, stderr: Seq<char>) -> Option<Seq<char>> {
    first_class(text::words(blanked(stdout + "\n"@ + stderr)), 0)
}

pub fn read_adapter_class_via_hciconfig(stdout: &str, stderr: &str) -> (r: Option<String>)
    ensures
        r.deep_view() == printed_class(stdout@, stderr@),
{
    let all = text::cat3(stdout, "\n", stderr);
    let blank = blank_commas(all.as_str());
    let words = text::split_whitespace(blank.as_str());
    let ghost w = text::words(blank@);
    for i in 0..words.len()
        invariant
            w == words.deep_view(),
            w == text::words(blanked(stdout@ + "\n"@ + stderr@)),
            first_class(w, 0) == first_class(w, i as int),
    {
        assert(w[i as int] == words@[i as int]@);
        if text::starts_with(words[i].as_str(), "0x") || text::starts_with(
            words[i].as_str(),
            "0X",
        ) {
            let class = normalize_bt_class_value(words[i].as_str());
            if class.is_some() {
                return class;
            }
        }
    }
    None
}

// ---------------------------------------------------------------------
// Looking like a phone while the head unit pairs

/// What the adapter was before it was made to look like a phone.
pub struct SavedIdentity<T> {
    pub alias: Option<T>,
    pub class: Option<T>,
    pub class_iface: Option<T>,
}

pub type PairingIdentity = SavedIdentity<String>;

impl View for SavedIdentity<String> {
    type V = SavedIdentity<Seq<char>>;

    open spec fn view(&self) -> SavedIdentity<Seq<char>> {
        SavedIdentity {
            alias: self.alias.deep_view(),
            class: self.class.deep_view(),
            class_iface: self.class_iface.deep_view(),
        }
    }
}

pub open spec fn pairing_alias(requested: Seq<char>) -> Seq<char> {
    if text::trimmed(requested).len() == 0 {
        "AndroidAuto"@
    } else {
        text::trimmed(requested)
    }
}

/// The class of a smartphone, where none is given.
pub open spec fn pairing_class(requested: Seq<char>) -> Seq<char> {
    match class_value(requested) {
        Some(v) => v,
        None => "0x00020c"@,
    }
}

/// What is kept of an adapter.
pub open spec fn identity_of(alias: Seq<char>, iface: Seq<char>, class: Option<Seq<char>>) -> SavedIdentity<
    Seq<char>,
> {
    SavedIdentity { alias: Some(alias), class, class_iface: Some(iface) }
}

/// The interface and the class that the adapter goes back to, if both are known.
pub open spec fn class_to_restore(s: SavedIdentity<Seq<char>>) -> Option<(Seq<char>, Seq<char>)> {
    match (s.class_iface, s.class) {
        (Some(i), Some(c)) => Some((i, c)),
        _ => None,
    }
}

/// What an adapter is given back is what it had: its alias, and its class where
/// that could be read.
pub proof fn law_identity_is_given_back(
    alias: Seq<char>,
    iface: Seq<char>,
    class: Option<Seq<char>>,
)
    ensures
        identity_of(alias, iface, class).alias == Some(alias),
        class_to_restore(identity_of(alias, iface, class)) == (match class {
            Some(c) => Some((iface, c)),
            None => None,
        }),
{
}

impl SavedIdentity<String> {
    pub fn new() -> (r: Self)
        ensures
            r@ == (SavedIdentity::<Seq<char>> { alias: None, class: None, class_iface: None }),
    {
        SavedIdentity { alias: None, class: None, class_iface: None }
    }

    /// Keeps what the adapter is now, and tells the alias and the class that it
    /// is to take on.
    pub fn apply_phone_like_hu_pairing_identity(
        &mut self,
        requested_alias: &str,
        requested_class: &str,
        adapter_alias: &str,
        iface: &str,
        current_class: Option<String>,
    ) -> (r: (String, String))
        ensures
            r.0@ == pairing_alias(requested_alias@),
            r.1@ == pairing_class(requested_class@),
            final(self)@ == identity_of(adapter_alias@, iface@, current_class.deep_view()),
    {
        let alias = text::trim(requested_alias);
        let alias = if alias.is_empty() {
            "AndroidAuto"
        } else {
            alias
        };
        let class = match normalize_bt_class_value(requested_class) {
            Some(v) => v,
            None => "0x00020c".to_owned(),
        };
        self.alias = Some(adapter_alias.to_owned());
        self.class = current_class;
        self.class_iface = Some(iface.to_owned());
        (alias.to_owned(), class)
    }

    /// Tells the alias, and the interface and class, that the adapter is to go
    /// back to, and forgets them.
    pub fn restore_phone_like_hu_pairing_identity(&mut self) -> (r: (
        Option<String>,
        Option<(String, String)>,
    ))
        ensures
            r.0.deep_view() == old(self)@.alias,
            match r.1 {
                Some(p) => class_to_restore(old(self)@) == Some((p.0@, p.1@)),
                None => class_to_restore(old(self)@) is None,
            },
            final(self)@ == (SavedIdentity::<Seq<char>> {
                alias: None,
                class: None,
                class_iface: None,
            }),
    {
        let alias = self.alias.take();
        let iface = self.class_iface.take();
        let class = self.class.take();
        let both = match (iface, class) {
            (Some(i), Some(c)) => Some((i, c)),
            _ => None,
        };
        (alias, both)
    }
}

pub open spec fn code_text(code: Option<i32>) -> Seq<char> {
    match code {
        Some(n) => "Some("@ + signed_text(n as int) + ")"@,
        None => "None"@,
    }
}

pub open spec fn signed_text(n: int) -> Seq<char> {
    if n < 0 {
        "-"@ + text::decimal((-n) as nat)
    } else {
        text::decimal(n as nat)
    }
}

pub fn show_signed(n: i64) -> (r: String)
    ensures
        r@ == signed_text(n as int),
{
    if n < 0 {
        let size: u64 = (-1 - n) as u64 + 1;
        let digits = text::decimal_text(size);
        text::cat2("-", digits.as_str())
    } else {
        text::decimal_text(n as u64)
    }
}

/// What to make of a call of `hciconfig` that set the class.
pub fn set_adapter_class_via_hciconfig(
    iface: &str,
    class_value: &str,
    success: bool,
    code: Option<i32>,
    stdout: &str,
    stderr: &str,
) -> (r: Result<(), String>)
    ensures
        match r {
            Ok(_) => success,
            Err(e) => !success && e@ == "hciconfig "@ + iface@ + " class "@ + class_value@
                + " failed status="@ + code_text(code) + " stdout="@ + text::trimmed(stdout@)
                + " stderr="@ + text::trimmed(stderr@),
        },
{
    if success {
        return Ok(());
    }
    let status = match code {
        Some(n) => {
            let digits = show_signed(n as i64);
            text::cat3("Some(", digits.as_str(), ")")
        },
        None => "None".to_owned(),
    };
    let mut e = text::cat6(
        "hciconfig ",
        iface,
        " class ",
        class_value,
        " failed status=",
        status.as_str(),
    );
    e.append(" stdout=");
    e.append(text::trim(stdout));
    e.append(" stderr=");
    e.append(text::trim(stderr));
    Err(e)
}

// ---------------------------------------------------------------------
// The pairing window

/// How long the window stays open: ten seconds at least, in thirty-two bits.
pub open spec fn window_length(secs: u64) -> u32 {
    ((if secs < 10 {
        10u64
    } else {
        secs
    }) % 0x1_0000_0000) as u32
}

/// What the window waits for.
#[derive(Clone, Copy, PartialEq, Eq, Structural)]
pub enum WindowPhase {
    Begin,
    /// The state of the device, before anything is done.
    First,
    /// The device is being trusted; then its state is looked at again.
    FirstTrust,
    FirstAgain,
    Identity,
    Agent,
    Open,
    Discovery,
    /// The state of the device, in each round.
    Poll,
    Pause,
    /// A device may be discovered; so much of the window was left before.
    Event { remaining_secs: u32 },
    /// The state of the device that was just discovered.
    Seen { remaining_secs: u32 },
    Pairing,
    AfterPairing,
    /// The device is being trusted before the window is closed.
    Trust,
    /// The window is being closed; then the outcome is told.
    Close,
    Ended,
}

/// What is asked of the adapter.
#[derive(Clone, Copy, PartialEq, Eq, Structural)]
pub enum WindowTask {
    /// Is the device known, paired, trusted?
    DeviceState,
    Trust,
    /// Make the adapter look like a phone.
    ApplyIdentity,
    /// Answer the requests of pairing devices.
    RegisterAgent,
    /// Be visible and open to pairing, for this long.
    OpenFor(u32),
    StartDiscovery,
    /// Wait a second.
    Pause,
    /// Wait a second for a device to be discovered.
    NextEvent,
    /// Pair, within this many seconds.
    Pair(u32),
    /// Undo the identity; the adapter stays visible and open if so told; drop
    /// the agent.
    CleanUp { stay_open: bool },
}

#[derive(Clone, Copy, PartialEq, Eq, Structural)]
pub enum WindowEvent {
    Done,
    Failed,
    Device { known: bool, paired: bool, trusted: bool },
    Discovered(BtAddress),
    /// Discovery has ended.
    NoMore,
}

/// How the window ends.
#[derive(Clone, Copy, PartialEq, Eq, Structural)]
pub enum WindowEnd {
    Ready,
    /// There is no head unit to pair with.
    Skipped,
    /// A step failed, with the error that was told last.
    StepFailed,
    TimedOut,
}

#[derive(Clone, Copy, PartialEq, Eq, Structural)]
pub enum WindowStep {
    Do(WindowTask),
    End(WindowEnd),
}

/// A pairing window for one head unit.
#[derive(Clone, Copy, PartialEq, Eq, Structural)]
pub struct PairingWindow {
    pub hu: Option<BtAddress>,
    pub window_secs: u32,
    pub phone_like: bool,
    /// An agent answers already.
    pub has_agent: bool,
    /// The companion's agent answers; the adapter stays open for it.
    pub has_companion: bool,
    pub discovering: bool,
    pub phase: WindowPhase,
    /// What is told when the window is closed.
    pub end: WindowEnd,
}

pub open spec fn pw(w: PairingWindow, phase: WindowPhase, task: WindowTask) -> (
    PairingWindow,
    WindowStep,
) {
    (PairingWindow { phase, ..w }, WindowStep::Do(task))
}

pub open spec fn pw_end(w: PairingWindow, end: WindowEnd) -> (PairingWindow, WindowStep) {
    (PairingWindow { phase: WindowPhase::Ended, end, ..w }, WindowStep::End(end))
}

pub open spec fn pw_close(w: PairingWindow, end: WindowEnd) -> (PairingWindow, WindowStep) {
    (
        PairingWindow { phase: WindowPhase::Close, end, ..w },
        WindowStep::Do(WindowTask::CleanUp { stay_open: w.has_companion }),
    )
}

pub open spec fn pw_agent(w: PairingWindow) -> (PairingWindow, WindowStep) {
    if w.has_agent || w.has_companion {
        pw(w, WindowPhase::Open, WindowTask::OpenFor(w.window_secs))
    } else {
        pw(w, WindowPhase::Agent, WindowTask::RegisterAgent)
    }
}

/// The head unit is not ready: the window is opened.
pub open spec fn pw_open(w: PairingWindow) -> (PairingWindow, WindowStep) {
    if w.phone_like {
        pw(w, WindowPhase::Identity, WindowTask::ApplyIdentity)
    } else {
        pw_agent(w)
    }
}

pub open spec fn is_paired(e: WindowEvent) -> bool {
    e matches WindowEvent::Device { known, paired, .. } && known && paired
}

pub open spec fn is_trusted(e: WindowEvent) -> bool {
    e matches WindowEvent::Device { known, trusted, .. } && known && trusted
}

pub open spec fn is_known(e: WindowEvent) -> bool {
    e matches WindowEvent::Device { known, .. } && known
}

/// How many seconds of the window are left, but one at least.
pub open spec fn secs_left(window_secs: u32, elapsed_ms: u64) -> u32 {
    let elapsed = (elapsed_ms / 1000) % 0x1_0000_0000;
    if window_secs > elapsed + 1 {
        (window_secs - elapsed) as u32
    } else {
        1
    }
}

/// How long one pairing may take: what is left of the window, between five and
/// forty-five seconds.
pub open spec fn pair_timeout(remaining: u32) -> u32 {
    if remaining > 45 {
        45
    } else if remaining < 5 {
        5
    } else {
        remaining
    }
}

/// One step of the window. A paired and trusted head unit needs none. Otherwise
/// the adapter is opened, and the head unit is both waited for and looked for,
/// until it is paired or the time is up; the window is closed in every case.
pub open spec fn window_step(w: PairingWindow, e: WindowEvent, elapsed_ms: u64) -> (
    PairingWindow,
    WindowStep,
) {
    match w.phase {
        WindowPhase::Begin => match w.hu {
            Some(_) => pw(w, WindowPhase::First, WindowTask::DeviceState),
            None => pw_end(w, WindowEnd::Skipped),
        },
        WindowPhase::First => if is_paired(e) && !is_trusted(e) {
            pw(w, WindowPhase::FirstTrust, WindowTask::Trust)
        } else if is_paired(e) {
            pw_end(w, WindowEnd::Ready)
        } else {
            pw_open(w)
        },
        WindowPhase::FirstTrust => pw(w, WindowPhase::FirstAgain, WindowTask::DeviceState),
        WindowPhase::FirstAgain => if is_trusted(e) {
            pw_end(w, WindowEnd::Ready)
        } else {
            pw_open(w)
        },
        WindowPhase::Identity => pw_agent(w),
        WindowPhase::Agent => if e == WindowEvent::Failed {
            pw_close(w, WindowEnd::StepFailed)
        } else {
            pw(w, WindowPhase::Open, WindowTask::OpenFor(w.window_secs))
        },
        WindowPhase::Open => if e == WindowEvent::Failed {
            pw_close(w, WindowEnd::StepFailed)
        } else {
            pw(w, WindowPhase::Discovery, WindowTask::StartDiscovery)
        },
        WindowPhase::Discovery => pw(
            PairingWindow { discovering: e != WindowEvent::Failed, ..w },
            WindowPhase::Poll,
            WindowTask::DeviceState,
        ),
        WindowPhase::Poll => if is_paired(e) {
            (
                PairingWindow { phase: WindowPhase::Trust, end: WindowEnd::Ready, ..w },
                WindowStep::Do(WindowTask::Trust),
            )
        } else if elapsed_ms >= w.window_secs * 1000 {
            pw_close(w, WindowEnd::TimedOut)
        } else if !w.discovering {
            pw(w, WindowPhase::Pause, WindowTask::Pause)
        } else {
            pw(
                w,
                WindowPhase::Event { remaining_secs: secs_left(w.window_secs, elapsed_ms) },
                WindowTask::NextEvent,
            )
        },
        WindowPhase::Pause => pw(w, WindowPhase::Poll, WindowTask::DeviceState),
        WindowPhase::Event { remaining_secs } => match e {
            WindowEvent::Discovered(a) => if w.hu == Some(a) {
                pw(w, WindowPhase::Seen { remaining_secs }, WindowTask::DeviceState)
            } else {
                pw(w, WindowPhase::Poll, WindowTask::DeviceState)
            },
            WindowEvent::NoMore => pw(
                PairingWindow { discovering: false, ..w },
                WindowPhase::Poll,
                WindowTask::DeviceState,
            ),
            _ => pw(w, WindowPhase::Poll, WindowTask::DeviceState),
        },
        WindowPhase::Seen { remaining_secs } => if !is_known(e) {
            pw(w, WindowPhase::Poll, WindowTask::DeviceState)
        } else if is_paired(e) {
            (
                PairingWindow { phase: WindowPhase::Trust, end: WindowEnd::Ready, ..w },
                WindowStep::Do(WindowTask::Trust),
            )
        } else {
            pw(w, WindowPhase::Pairing, WindowTask::Pair(pair_timeout(remaining_secs)))
        },
        WindowPhase::Pairing => pw(w, WindowPhase::AfterPairing, WindowTask::DeviceState),
        WindowPhase::AfterPairing => if is_paired(e) {
            (
                PairingWindow { phase: WindowPhase::Trust, end: WindowEnd::Ready, ..w },
                WindowStep::Do(WindowTask::Trust),
            )
        } else {
            pw(w, WindowPhase::Poll, WindowTask::DeviceState)
        },
        WindowPhase::Trust => pw_close(w, w.end),
        WindowPhase::Close => pw_end(w, w.end),
        WindowPhase::Ended => (w, WindowStep::End(w.end)),
    }
}

impl PairingWindow {
    /// A window for the head unit that the configuration names; without a name
    /// there is nothing to do. None if the name is no address.
    pub fn new(
        hu_mac: &str,
        pairing_window_secs: u64,
        phone_like: bool,
        has_agent: bool,
        has_companion: bool,
    ) -> (r: Option<Self>)
        ensures
            ({
                let mac = text::trimmed(hu_mac@);
                match r {
                    Some(w) => (mac.len() == 0 || address::named_address(mac) is Some) && w == (
                    PairingWindow {
                        hu: if mac.len() == 0 {
                            None
                        } else {
                            address::named_address(mac)
                        },
                        window_secs: window_length(pairing_window_secs),
                        phone_like,
                        has_agent,
                        has_companion,
                        discovering: false,
                        phase: WindowPhase::Begin,
                        end: WindowEnd::Skipped,
                    }),
                    None => mac.len() > 0 && address::named_address(mac) is None,
                }
            }),
    {
        let mac = text::trim(hu_mac);
        let hu = if mac.is_empty() {
            None
        } else {
            match address::parse_address(mac) {
                Some(a) => Some(a),
                None => {
                    return None;
                },
            }
        };
        let secs: u64 = if pairing_window_secs < 10 {
            10
        } else {
            pairing_window_secs
        };
        Some(
            PairingWindow {
                hu,
                window_secs: (secs % 0x1_0000_0000) as u32,
                phone_like,
                has_agent,
                has_companion,
                discovering: false,
                phase: WindowPhase::Begin,
                end: WindowEnd::Skipped,
            },
        )
    }

    fn go(&mut self, phase: WindowPhase, task: WindowTask) -> (r: WindowStep)
        ensures
            (*final(self), r) == pw(*old(self), phase, task),
    {
        self.phase = phase;
        WindowStep::Do(task)
    }

    fn finish(&mut self, end: WindowEnd) -> (r: WindowStep)
        ensures
            (*final(self), r) == pw_end(*old(self), end),
    {
        self.phase = WindowPhase::Ended;
        self.end = end;
        WindowStep::End(end)
    }

    fn close(&mut self, end: WindowEnd) -> (r: WindowStep)
        ensures
            (*final(self), r) == pw_close(*old(self), end),
    {
        self.phase = WindowPhase::Close;
        self.end = end;
        WindowStep::Do(WindowTask::CleanUp { stay_open: self.has_companion })
    }

    fn agent(&mut self) -> (r: WindowStep)
        ensures
            (*final(self), r) == pw_agent(*old(self)),
    {
        if self.has_agent || self.has_companion {
            let secs: u32 = self.window_secs;
            self.go(WindowPhase::Open, WindowTask::OpenFor(secs))
        } else {
            self.go(WindowPhase::Agent, WindowTask::RegisterAgent)
        }
    }

    fn open(&mut self) -> (r: WindowStep)
        ensures
            (*final(self), r) == pw_open(*old(self)),
    {
        if self.phone_like {
            self.go(WindowPhase::Identity, WindowTask::ApplyIdentity)
        } else {
            self.agent()
        }
    }

    fn poll(&mut self) -> (r: WindowStep)
        ensures
            (*final(self), r) == pw(*old(self), WindowPhase::Poll, WindowTask::DeviceState),
    {
        self.go(WindowPhase::Poll, WindowTask::DeviceState)
    }

    fn trust(&mut self) -> (r: WindowStep)
        ensures
            (*final(self), r) == ((PairingWindow {
                phase: WindowPhase::Trust,
                end: WindowEnd::Ready,
                ..*old(self)
            }), WindowStep::Do(WindowTask::Trust)),
    {
        self.end = WindowEnd::Ready;
        self.go(WindowPhase::Trust, WindowTask::Trust)
    }

    /// Takes what came of the last task, and how long the window has been open.
    pub fn step(&mut self, e: WindowEvent, elapsed_ms: u64) -> (r: WindowStep)
        requires
            old(self).phase != WindowPhase::Ended,
        ensures
            (*final(self), r) == window_step(*old(self), e, elapsed_ms),
    {
        let (known, paired, trusted) = match e {
            WindowEvent::Device { known, paired, trusted } => (
                known,
                known && paired,
                known && trusted,
            ),
            _ => (false, false, false),
        };
        let failed = match e {
            WindowEvent::Failed => true,
            _ => false,
        };
        match self.phase {
            WindowPhase::Begin => {
                if self.hu.is_some() {
                    self.go(WindowPhase::First, WindowTask::DeviceState)
                } else {
                    self.finish(WindowEnd::Skipped)
                }
            },
            WindowPhase::First => {
                if paired && !trusted {
                    self.go(WindowPhase::FirstTrust, WindowTask::Trust)
                } else if paired {
                    self.finish(WindowEnd::Ready)
                } else {
                    self.open()
                }
            },
            WindowPhase::FirstTrust => self.go(WindowPhase::FirstAgain, WindowTask::DeviceState),
            WindowPhase::FirstAgain => {
                if trusted {
                    self.finish(WindowEnd::Ready)
                } else {
                    self.open()
                }
            },
            WindowPhase::Identity => self.agent(),
            WindowPhase::Agent => {
                if failed {
                    self.close(WindowEnd::StepFailed)
                } else {
                    let secs: u32 = self.window_secs;
                    self.go(WindowPhase::Open, WindowTask::OpenFor(secs))
                }
            },
            WindowPhase::Open => {
                if failed {
                    self.close(WindowEnd::StepFailed)
                } else {
                    self.go(WindowPhase::Discovery, WindowTask::StartDiscovery)
                }
            },
            WindowPhase::Discovery => {
                self.discovering = !failed;
                self.poll()
            },
            WindowPhase::Poll => {
                if paired {
                    self.trust()
                } else if elapsed_ms >= self.window_secs as u64 * 1000 {
                    self.close(WindowEnd::TimedOut)
                } else if !self.discovering {
                    self.go(WindowPhase::Pause, WindowTask::Pause)
                } else {
                    let elapsed: u64 = (elapsed_ms / 1000) % 0x1_0000_0000;
                    let remaining_secs: u32 = if self.window_secs as u64 > elapsed + 1 {
                        self.window_secs - elapsed as u32
                    } else {
                        1
                    };
                    self.go(WindowPhase::Event { remaining_secs }, WindowTask::NextEvent)
                }
            },
            WindowPhase::Pause => self.poll(),
            WindowPhase::Event { remaining_secs } => {
                match e {
                    WindowEvent::Discovered(a) => {
                        let is_hu = match self.hu {
                            Some(hu) => hu == a,
                            None => false,
                        };
                        if is_hu {
                            self.go(WindowPhase::Seen { remaining_secs }, WindowTask::DeviceState)
                        } else {
                            self.poll()
                        }
                    },
                    WindowEvent::NoMore => {
                        self.discovering = false;
                        self.poll()
                    },
                    _ => self.poll(),
                }
            },
            WindowPhase::Seen { remaining_secs } => {
                if !known {
                    self.poll()
                } else if paired {
                    self.trust()
                } else {
                    let secs: u32 = if remaining_secs > 45 {
                        45
                    } else if remaining_secs < 5 {
                        5
                    } else {
                        remaining_secs
                    };
                    self.go(WindowPhase::Pairing, WindowTask::Pair(secs))
                }
            },
            WindowPhase::Pairing => self.go(WindowPhase::AfterPairing, WindowTask::DeviceState),
            WindowPhase::AfterPairing => {
                if paired {
                    self.trust()
                } else {
                    self.poll()
                }
            },
            WindowPhase::Trust => {
                let end = self.end;
                self.close(end)
            },
            WindowPhase::Close => {
                let end = self.end;
                self.finish(end)
            },
            WindowPhase::Ended => vstd::pervasive::unreached(),
        }
    }

    /// The error when the head unit did not pair in time.
    pub fn timeout_error(&self, hu_addr: &str) -> (r: String)
        ensures
            r@ == "timed out waiting "@ + text::decimal(self.window_secs as nat) + "s for HU "@
                + hu_addr@
                + " pairing; on HUs like MBUX open the car's add-phone screen and keep bt_wireless_proxy_hu_mac set to the HU Bluetooth MAC, not Wi-Fi BSSID"@,
    {
        let secs = text::decimal_text(self.window_secs as u64);
        text::cat5(
            "timed out waiting ",
            secs.as_str(),
            "s for HU ",
            hu_addr,
            " pairing; on HUs like MBUX open the car's add-phone screen and keep bt_wireless_proxy_hu_mac set to the HU Bluetooth MAC, not Wi-Fi BSSID",
        )
    }
}

/// Whether the adapter has been changed and not been put back.
pub open spec fn is_open(phase: WindowPhase) -> bool {
    match phase {
        WindowPhase::Begin => false,
        WindowPhase::First => false,
        WindowPhase::FirstTrust => false,
        WindowPhase::FirstAgain => false,
        WindowPhase::Close => false,
        WindowPhase::Ended => false,
        _ => true,
    }
}

/// A window that was opened ends only by being closed, and only then.
pub proof fn law_window_is_closed(w: PairingWindow, e: WindowEvent, elapsed_ms: u64)
    requires
        w.phase != WindowPhase::Ended,
    ensures
        is_open(w.phase) ==> window_step(w, e, elapsed_ms).1 is Do,
        is_open(w.phase) && !is_open(window_step(w, e, elapsed_ms).0.phase) ==> window_step(
            w,
            e,
            elapsed_ms,
        ).1 == WindowStep::Do(WindowTask::CleanUp { stay_open: w.has_companion }),
        window_step(w, e, elapsed_ms).1 is End ==> !is_open(w.phase),
{
}

/// Pairing is only ever begun with the configured head unit, and the window
/// reports it ready only when it was seen to be paired.
pub proof fn law_window_pairs_with_the_hu(w: PairingWindow, e: WindowEvent, elapsed_ms: u64)
    requires
        w.phase != WindowPhase::Ended,
    ensures
        window_step(w, e, elapsed_ms).0.phase is Seen ==> (e matches WindowEvent::Discovered(a)
            && w.hu == Some(a)),
        window_step(w, e, elapsed_ms).1 matches WindowStep::Do(WindowTask::Pair(secs))
            ==> w.phase is Seen && 5 <= secs <= 45,
        window_step(w, e, elapsed_ms).0.phase == WindowPhase::Trust ==> is_paired(e),
        window_step(w, e, elapsed_ms).0.hu == w.hu,
{
}

/// A pairing may take what was left of the window when the wait for the head unit
/// began, between five and forty-five seconds.
pub proof fn law_pairing_fits_the_window(
    w: PairingWindow,
    polled: WindowEvent,
    found: WindowEvent,
    state: WindowEvent,
    polled_ms: u64,
    found_ms: u64,
    state_ms: u64,
)
    requires
        w.phase == WindowPhase::Poll,
        window_step(w, polled, polled_ms).0.phase is Event,
    ensures
        ({
            let waiting = window_step(w, polled, polled_ms).0;
            let seen = window_step(waiting, found, found_ms).0;
            seen.phase is Seen ==> (window_step(seen, state, state_ms).1 matches WindowStep::Do(
                WindowTask::Pair(secs),
            ) ==> secs == pair_timeout(secs_left(w.window_secs, polled_ms)))
        }),
{
}

// ---------------------------------------------------------------------
// Whole pairings

/// The configured head unit gets what it asks for: codes are zero, and what it confirms
/// makes it trusted.
pub proof fn law_head_unit_gets_what_it_asks_for(hu: BtAddress)
    ensures
        pairing_reply(PairingRequest::PinCode, hu, hu) == PairingReply::ZeroPin,
        pairing_reply(PairingRequest::Passkey, hu, hu) == PairingReply::ZeroPasskey,
        pairing_reply(PairingRequest::Confirmation, hu, hu) == PairingReply::AcceptAndTrust,
        pairing_reply(PairingRequest::Authorization, hu, hu) == PairingReply::AcceptAndTrust,
        pairing_reply(PairingRequest::DisplayPinCode, hu, hu) == PairingReply::Accept,
        pairing_reply(PairingRequest::DisplayPasskey, hu, hu) == PairingReply::Accept,
        pairing_reply(PairingRequest::Service, hu, hu) == PairingReply::Accept,
{
}

/// A class keeps its value, in whatever form it was written: with a mark before it or
/// without, and with up to six digits. Anything else is no class.
pub proof fn law_class_keeps_its_value(d: Seq<char>)
    requires
        forall|i: int| 0 <= i < d.len() ==> !text::is_space(#[trigger] d[i]),
        !text::begins(d, "0x"@) && !text::begins(d, "0X"@),
    ensures
        1 <= d.len() <= 6 && text::all_digits(d, 16) ==> (class_value(d) matches Some(v) && v.len()
            == 8 && v.subrange(0, 2) == "0x"@ && text::number_value(v.subrange(2, 8), 16)
            == text::number_value(d, 16)),
        d.len() == 0 || d.len() > 6 || !text::all_digits(d, 16) ==> class_value(d) is None,
        class_value("0x"@ + d) == class_value(d),
        class_value("0X"@ + d) == class_value(d),
{
    reveal_strlit("0x");
    reveal_strlit("0X");
    let a = "0x"@ + d;
    let b = "0X"@ + d;
    assert(text::trimmed(d) == d) by {
        if d.len() > 0 {
            assert(!text::is_space(d[0]));
            assert(!text::is_space(d[d.len() - 1]));
        }
    }
    assert(text::trimmed(a) == a) by {
        assert(a[0] == '0');
        if d.len() > 0 {
            assert(a.last() == d[d.len() - 1]);
        }
    }
    assert(text::trimmed(b) == b) by {
        assert(b[0] == '0');
        if d.len() > 0 {
            assert(b.last() == d[d.len() - 1]);
        }
    }
    assert(a.subrange(0, 2) =~= "0x"@);
    assert(b.subrange(0, 2) =~= "0X"@);
    assert(b.subrange(0, 2)[1] == 'X');
    assert(a.subrange(2, a.len() as int) =~= d);
    assert(b.subrange(2, b.len() as int) =~= d);
    if 1 <= d.len() <= 6 && text::all_digits(d, 16) {
        let n = text::number_value(d, 16);
        lemma_six_digits(d);
        reveal_with_fuel(pow16, 7);
        lemma_hex_is_read_back(n, 6);
        let h = text::hex_fixed(n, 6);
        let v = "0x"@ + h;
        assert(v.subrange(0, 2) =~= "0x"@);
        assert(v.subrange(2, 8) =~= h);
    }
}

/// The first class value that `hciconfig` prints counts.
pub proof fn law_first_printed_class_counts(words: Seq<Seq<char>>, i: int, k: int)
    requires
        0 <= i <= k < words.len(),
        text::begins(words[k], "0x"@) || text::begins(words[k], "0X"@),
        class_value(words[k]) is Some,
        forall|j: int|
            i <= j < k ==> !text::begins(#[trigger] words[j], "0x"@) && !text::begins(
                words[j],
                "0X"@,
            ),
    ensures
        first_class(words, i) == class_value(words[k]),
    decreases k - i,
{
    if i < k {
        assert(!text::begins(words[i], "0x"@));
        law_first_printed_class_counts(words, i + 1, k);
    }
}

/// While it pairs the adapter looks as configured, or like a phone.
pub proof fn law_adapter_looks_like_a_phone(alias: Seq<char>, class: Seq<char>)
    ensures
        text::trimmed(alias).len() > 0 ==> pairing_alias(alias) == text::trimmed(alias),
        text::trimmed(alias).len() == 0 ==> pairing_alias(alias) == "AndroidAuto"@,
        class_value(class) matches Some(v) ==> pairing_class(class) == v,
        class_value(class) is None ==> pairing_class(class) == "0x00020c"@,
{
}

/// A number with a sign is shown by its size, behind a minus if it is below zero.
pub proof fn law_signs_are_shown(n: int)
    ensures
        n >= 0 ==> signed_text(n) == text::decimal(n as nat),
        n < 0 ==> signed_text(n) == seq!['-'] + text::decimal((-n) as nat),
{
    reveal_strlit("-");
    assert("-"@ =~= seq!['-']);
}

/// A window is open for as long as configured, but for ten seconds at least.
pub proof fn law_window_is_long_enough(secs: u64)
    ensures
        secs < 10 ==> window_length(secs) == 10,
        10 <= secs <= 0xffff_ffff ==> window_length(secs) == secs,
{
}

/// Whether these are a stretch of a pairing window.
pub open spec fn is_window_stretch(
    events: Seq<WindowEvent>,
    elapsed: Seq<u64>,
    states: Seq<PairingWindow>,
    steps: Seq<WindowStep>,
) -> bool {
    &&& states.len() == events.len() + 1 && steps.len() == events.len() && elapsed.len()
        == events.len()
    &&& forall|k: int|
        0 <= k < events.len() ==> (states[k + 1], #[trigger] steps[k]) == window_step(
            states[k],
            events[k],
            elapsed[k],
        )
}

/// A head unit that is paired and trusted needs no window; one that is only paired is
/// trusted, and needs none if that works.
pub proof fn law_paired_head_unit_needs_no_window(
    events: Seq<WindowEvent>,
    elapsed: Seq<u64>,
    states: Seq<PairingWindow>,
    steps: Seq<WindowStep>,
    trusted: bool,
)
    requires
        is_window_stretch(events, elapsed, states, steps),
        events.len() == 4,
        states[0].phase == WindowPhase::Begin,
        states[0].hu is Some,
        events[1] == (WindowEvent::Device { known: true, paired: true, trusted }),
        events[3] == (WindowEvent::Device { known: true, paired: true, trusted: true }),
    ensures
        steps[0] == WindowStep::Do(WindowTask::DeviceState),
        trusted ==> steps[1] == WindowStep::End(WindowEnd::Ready),
        !trusted ==> steps[1] == WindowStep::Do(WindowTask::Trust) && steps[2] == WindowStep::Do(
            WindowTask::DeviceState,
        ) && steps[3] == WindowStep::End(WindowEnd::Ready),
{
    assert(steps[0] == window_step(states[0], events[0], elapsed[0]).1);
    assert(steps[1] == window_step(states[1], events[1], elapsed[1]).1);
    assert(steps[2] == window_step(states[2], events[2], elapsed[2]).1);
    assert(steps[3] == window_step(states[3], events[3], elapsed[3]).1);
}

/// Without a head unit nothing is done.
pub proof fn law_no_head_unit_no_window(w: PairingWindow, e: WindowEvent, elapsed_ms: u64)
    requires
        w.phase == WindowPhase::Begin,
        w.hu is None,
    ensures
        window_step(w, e, elapsed_ms).1 == WindowStep::End(WindowEnd::Skipped),
{
}

/// What a window that is needed is opened with: a phone's looks where they are wanted,
/// somebody who answers unless somebody does, and the adapter visible for its time while
/// the head unit is looked for.
pub proof fn law_window_is_opened(
    events: Seq<WindowEvent>,
    elapsed: Seq<u64>,
    states: Seq<PairingWindow>,
    steps: Seq<WindowStep>,
    paired: bool,
)
    requires
        is_window_stretch(events, elapsed, states, steps),
        events.len() == 5,
        states[0].phase == WindowPhase::First,
        events[0] == (WindowEvent::Device { known: true, paired: false, trusted: false }) || events[0]
            == (WindowEvent::Device { known: false, paired, trusted: false }),
        events[1] == WindowEvent::Done && events[2] == WindowEvent::Done && events[3]
            == WindowEvent::Done && events[4] == WindowEvent::Done,
    ensures
        ({
            let w = states[0];
            let answered = w.has_agent || w.has_companion;
            let a = if w.phone_like {
                1int
            } else {
                0int
            };
            let b = if answered {
                a
            } else {
                a + 1
            };
            &&& w.phone_like ==> steps[0] == WindowStep::Do(WindowTask::ApplyIdentity)
            &&& !answered ==> steps[a] == WindowStep::Do(WindowTask::RegisterAgent)
            &&& steps[b] == WindowStep::Do(WindowTask::OpenFor(w.window_secs))
            &&& steps[b + 1] == WindowStep::Do(WindowTask::StartDiscovery)
            &&& steps[b + 2] == WindowStep::Do(WindowTask::DeviceState)
            &&& states[b + 3].phase == WindowPhase::Poll && states[b + 3].discovering
        }),
{
    assert(steps[0] == window_step(states[0], events[0], elapsed[0]).1);
    assert(steps[1] == window_step(states[1], events[1], elapsed[1]).1);
    assert(steps[2] == window_step(states[2], events[2], elapsed[2]).1);
    assert(steps[3] == window_step(states[3], events[3], elapsed[3]).1);
    assert(steps[4] == window_step(states[4], events[4], elapsed[4]).1);
}

/// A head unit that turns up while the window is open is paired with and trusted, and
/// the window is closed behind it.
pub proof fn law_head_unit_that_turns_up_is_paired_with(
    events: Seq<WindowEvent>,
    elapsed: Seq<u64>,
    states: Seq<PairingWindow>,
    steps: Seq<WindowStep>,
    hu: BtAddress,
)
    requires
        is_window_stretch(events, elapsed, states, steps),
        events.len() == 7,
        states[0].phase == WindowPhase::Poll,
        states[0].discovering,
        states[0].hu == Some(hu),
        elapsed[0] < states[0].window_secs * 1000,
        events[0] == (WindowEvent::Device { known: true, paired: false, trusted: false }),
        events[1] == WindowEvent::Discovered(hu),
        events[2] == (WindowEvent::Device { known: true, paired: false, trusted: false }),
        events[4] == (WindowEvent::Device { known: true, paired: true, trusted: false }),
    ensures
        steps[0] == WindowStep::Do(WindowTask::NextEvent),
        steps[1] == WindowStep::Do(WindowTask::DeviceState),
        steps[2] matches WindowStep::Do(WindowTask::Pair(secs)) && 5 <= secs <= 45,
        steps[3] == WindowStep::Do(WindowTask::DeviceState),
        steps[4] == WindowStep::Do(WindowTask::Trust),
        steps[5] == WindowStep::Do(WindowTask::CleanUp { stay_open: states[0].has_companion }),
        steps[6] == WindowStep::End(WindowEnd::Ready),
{
    assert(steps[0] == window_step(states[0], events[0], elapsed[0]).1);
    assert(steps[1] == window_step(states[1], events[1], elapsed[1]).1);
    assert(steps[2] == window_step(states[2], events[2], elapsed[2]).1);
    assert(steps[3] == window_step(states[3], events[3], elapsed[3]).1);
    assert(steps[4] == window_step(states[4], events[4], elapsed[4]).1);
    assert(steps[5] == window_step(states[5], events[5], elapsed[5]).1);
    assert(steps[6] == window_step(states[6], events[6], elapsed[6]).1);
}

/// A window ends when its time is over, and only then; it is closed before. Until then
/// the head unit is looked at again and again: behind another device, behind silence,
/// and behind a pairing that did not work.
pub proof fn law_window_ends_with_its_time(
    w: PairingWindow,
    elapsed_ms: u64,
    e: WindowEvent,
    later: u64,
)
    requires
        w.phase == WindowPhase::Poll,
    ensures
        ({
            let unpaired = WindowEvent::Device { known: true, paired: false, trusted: false };
            let (next, step) = window_step(w, unpaired, elapsed_ms);
            if elapsed_ms >= w.window_secs * 1000 {
                &&& step == WindowStep::Do(WindowTask::CleanUp { stay_open: w.has_companion })
                &&& window_step(next, e, later).1 == WindowStep::End(WindowEnd::TimedOut)
            } else {
                &&& w.discovering ==> step == WindowStep::Do(WindowTask::NextEvent)
                &&& !w.discovering ==> step == WindowStep::Do(WindowTask::Pause)
                &&& !(e is Discovered) ==> window_step(next, e, later).1 == WindowStep::Do(
                    WindowTask::DeviceState,
                ) && window_step(next, e, later).0.phase == WindowPhase::Poll
            }
        }),
{
}

pub proof fn law_other_devices_are_left_alone(w: PairingWindow, other: BtAddress, later: u64, secs: u32)
    requires
        w.phase == (WindowPhase::Event { remaining_secs: secs }),
        w.hu != Some(other),
    ensures
        window_step(w, WindowEvent::Discovered(other), later).0.phase == WindowPhase::Poll,
        window_step(w, WindowEvent::Discovered(other), later).1 == WindowStep::Do(
            WindowTask::DeviceState,
        ),
{
}

/// A window that cannot be answered or opened is closed, and says so.
pub proof fn law_window_that_cannot_be_opened(
    w: PairingWindow,
    elapsed_ms: u64,
    e: WindowEvent,
    later: u64,
)
    requires
        w.phase == WindowPhase::Agent || w.phase == WindowPhase::Open,
    ensures
        ({
            let (next, step) = window_step(w, WindowEvent::Failed, elapsed_ms);
            &&& step == WindowStep::Do(WindowTask::CleanUp { stay_open: w.has_companion })
            &&& window_step(next, e, later).1 == WindowStep::End(WindowEnd::StepFailed)
        }),
{
}

/// The code of a program that ended, as it is told: with its sign, or none.
pub proof fn law_codes_are_told(n: i32)
    ensures
        code_text(None) == "None"@,
        n >= 0 ==> code_text(Some(n)) == "Some("@ + text::decimal(n as nat) + ")"@,
        n < 0 ==> code_text(Some(n)) == "Some("@ + ("-"@ + text::decimal((-n) as nat)) + ")"@,
{
}

} // verus!
