//! Bringing the phone and the head unit together.

use crate::address;
use crate::address::BtAddress;
use crate::clock;
use crate::frame;
use crate::frame::FrameModel;
use crate::frame::ProxyFrame;
use crate::frame::ProxyMessageId;
use crate::text;
use vstd::prelude::*;

verus! {

// ---------------------------------------------------------------------
// Which comes first

#[derive(Clone, Copy, PartialEq, Eq, Structural, Debug)]
pub enum CarWifiRendezvousMode {
    Auto,
    HuFirst,
    PhoneFirst,
}

/// The configured mode. What is not known is `auto`.
pub open spec fn rendezvous_mode(configured: Seq<char>) -> CarWifiRendezvousMode {
    let m = text::replaced(text::lower(text::trimmed(configured)), "-"@, "_"@);
    if m == "phone_first"@ || m == "phonefirst"@ || m == "phone"@ {
        CarWifiRendezvousMode::PhoneFirst
    } else if m == "hu_first"@ || m == "hufirst"@ || m == "headunit_first"@ || m
        == "head_unit_first"@ || m == "hu"@ {
        CarWifiRendezvousMode::HuFirst
    } else {
        CarWifiRendezvousMode::Auto
    }
}

impl CarWifiRendezvousMode {
    pub fn parse(configured: &str) -> (r: Self)
        ensures
            r == rendezvous_mode(configured@),
    {
        proof {
            reveal_strlit("-");
        }
        let low = text::to_ascii_lowercase(text::trim(configured));
        let m = text::replace(low.as_str(), "-", "_");
        let m = m.as_str();
        if text::same(m, "phone_first") || text::same(m, "phonefirst") || text::same(m, "phone") {
            CarWifiRendezvousMode::PhoneFirst
        } else if text::same(m, "hu_first") || text::same(m, "hufirst") || text::same(
            m,
            "headunit_first",
        ) || text::same(m, "head_unit_first") || text::same(m, "hu") {
            CarWifiRendezvousMode::HuFirst
        } else {
            CarWifiRendezvousMode::Auto
        }
    }

    pub open spec fn label(self) -> Seq<char> {
        match self {
            CarWifiRendezvousMode::Auto => "auto"@,
            CarWifiRendezvousMode::HuFirst => "hu_first"@,
            CarWifiRendezvousMode::PhoneFirst => "phone_first"@,
        }
    }

    pub fn as_str(self) -> (r: &'static str)
        ensures
            r@ == self.label(),
    {
        match self {
            CarWifiRendezvousMode::Auto => "auto",
            CarWifiRendezvousMode::HuFirst => "hu_first",
            CarWifiRendezvousMode::PhoneFirst => "phone_first",
        }
    }
}

// ---------------------------------------------------------------------
// The phones to call

/// The phones that the configuration names; the address of any device stands
/// for the known ones.
pub struct BluetoothAddressList(pub Option<Vec<BtAddress>>);

pub open spec fn names_any(list: Seq<BtAddress>) -> bool {
    list.contains(address::any_address())
}

fn has_any(list: &Vec<BtAddress>) -> (r: bool)
    ensures
        r == names_any(list@),
{
    let any = BtAddress::any();
    for i in 0..list.len()
        invariant
            any == address::any_address(),
            forall|j: int| 0 <= j < i ==> list@[j] != any,
    {
        if list[i] == any {
            assert(list@[i as int] == any);
            return true;
        }
    }
    false
}

fn copy_addresses(list: &Vec<BtAddress>) -> (r: Vec<BtAddress>)
    ensures
        r@ == list@,
{
    let mut out: Vec<BtAddress> = Vec::new();
    for i in 0..list.len()
        invariant
            out@ == list@.take(i as int),
    {
        out.push(list[i]);
        assert(list@.take(i as int + 1) =~= list@.take(i as int).push(list@[i as int]));
    }
    assert(list@.take(list@.len() as int) =~= list@);
    out
}

/// The phones that are called: none if none are named.
pub open spec fn phones_to_call(list: BluetoothAddressList, known: Seq<BtAddress>) -> Seq<BtAddress> {
    match list.0 {
        Some(named) => if names_any(named@) {
            known
        } else {
            named@
        },
        None => Seq::empty(),
    }
}

/// The addresses among some texts; a text that is none is passed over.
pub open spec fn addresses_in(texts: Seq<Seq<char>>) -> Seq<BtAddress>
    decreases texts.len(),
{
    if texts.len() == 0 {
        Seq::empty()
    } else {
        let before = addresses_in(texts.drop_last());
        match address::named_address(text::trimmed(texts.last())) {
            Some(a) => before.push(a),
            None => before,
        }
    }
}

/// The addresses that a text names, with commas between them; none if it is blank.
pub open spec fn addresses_named(s: Seq<char>) -> Option<Seq<BtAddress>> {
    if text::trimmed(s).len() == 0 {
        None
    } else {
        Some(addresses_in(text::pieces(s, ',')))
    }
}

impl BluetoothAddressList {
    pub fn parse(s: &str) -> (r: Self)
        ensures
            match r.0 {
                Some(list) => addresses_named(s@) == Some(list@),
                None => addresses_named(s@) is None,
            },
    {
        if text::trim(s).is_empty() {
            return BluetoothAddressList(None);
        }
        let texts = text::split(s, ',');
        let ghost all = texts.deep_view();
        let mut out: Vec<BtAddress> = Vec::new();
        assert(all.take(0) =~= Seq::<Seq<char>>::empty());
        assert(out@ =~= addresses_in(all.take(0)));
        for i in 0..texts.len()
            invariant
                all == texts.deep_view(),
                out@ == addresses_in(all.take(i as int)),
        {
            proof {
                assert(all[i as int] == texts@[i as int]@);
                assert(all.take(i + 1).drop_last() =~= all.take(i as int));
            }
            if let Some(a) = address::parse_address(text::trim(texts[i].as_str())) {
                out.push(a);
            }
        }
        assert(all.take(all.len() as int) =~= all);
        BluetoothAddressList(Some(out))
    }

    /// Whether the address of any device is named.
    pub open spec fn wildcard(self) -> bool {
        self.0 matches Some(named) && names_any(named@)
    }

    pub fn is_wildcard(&self) -> (r: bool)
        ensures
            r == self.wildcard(),
    {
        match &self.0 {
            Some(named) => has_any(named),
            None => false,
        }
    }

    /// The phones to call, given those that are known.
    pub fn addresses(&self, known: &Vec<BtAddress>) -> (r: Vec<BtAddress>)
        ensures
            r@ == phones_to_call(*self, known@),
    {
        match &self.0 {
            Some(named) => {
                if has_any(named) {
                    copy_addresses(known)
                } else {
                    copy_addresses(named)
                }
            },
            None => {
                let none: Vec<BtAddress> = Vec::new();
                assert(none@ =~= Seq::<BtAddress>::empty());
                none
            },
        }
    }
}

/// Whether a phone in dongle mode is called: its name says so.
pub fn is_dongle_phone(name: &str) -> (r: bool)
    ensures
        r == text::begins(name@, "AndroidAuto-"@),
{
    text::starts_with(name, "AndroidAuto-")
}

/// How often each phone is called.
pub const ATTEMPTS: usize = 3;

/// The phone that is called as the `k`-th: in each round every phone once,
/// beginning with the one whose turn it is.
pub open spec fn call_at(n: int, start: int, k: int) -> int {
    (start + k % n) % n
}

/// The order in which `n` phones are called.
pub open spec fn call_order(n: nat, start: nat) -> Seq<usize> {
    Seq::new(3 * n, |k: int| call_at(n as int, start as int, k) as usize)
}

pub fn try_connect_bluetooth_addresses(n: usize, start_index: usize) -> (r: Vec<usize>)
    requires
        3 * n <= usize::MAX,
    ensures
        r@ == call_order(n as nat, start_index as nat),
        forall|k: int| 0 <= k < r@.len() ==> #[trigger] r@[k] < n,
{
    let mut out: Vec<usize> = Vec::new();
    if n == 0 {
        assert(out@ =~= call_order(n as nat, start_index as nat));
        return out;
    }
    let start: usize = start_index % n;
    let total: usize = 3 * n;
    let mut i: usize = 0;
    proof {
        vstd::arithmetic::div_mod::lemma_small_mod(0, n as nat);
    }
    for k in 0..total
        invariant
            0 < 3 * n <= usize::MAX,
            total == 3 * n,
            start == start_index % n,
            i == k % n,
            out@ == call_order(n as nat, start_index as nat).take(k as int),
            forall|j: int| 0 <= j < out@.len() ==> #[trigger] out@[j] < n,
    {
        let sum: usize = start + i;
        let idx: usize = if sum >= n {
            sum - n
        } else {
            sum
        };
        proof {
            lemma_call_index(n as int, start_index as int, k as int);
            lemma_next_mod(n as int, k as int);
        }
        out.push(idx);
        i = if i + 1 == n {
            0
        } else {
            i + 1
        };
        assert(call_order(n as nat, start_index as nat).take(k as int + 1) =~= call_order(
            n as nat,
            start_index as nat,
        ).take(k as int).push(idx));
    }
    assert(call_order(n as nat, start_index as nat).take(total as int) =~= call_order(
        n as nat,
        start_index as nat,
    ));
    out
}

proof fn lemma_call_index(n: int, start: int, k: int)
    requires
        0 < n,
        0 <= start,
        0 <= k,
    ensures
        call_at(n, start, k) == (if start % n + k % n >= n {
            start % n + k % n - n
        } else {
            start % n + k % n
        }),
        0 <= call_at(n, start, k) < n,
{
    let a = start % n;
    let b = k % n;
    vstd::arithmetic::div_mod::lemma_add_mod_noop(start, b, n);
    vstd::arithmetic::div_mod::lemma_mod_bound(start, n);
    vstd::arithmetic::div_mod::lemma_mod_bound(k, n);
    vstd::arithmetic::div_mod::lemma_small_mod(b as nat, n as nat);
    assert((a + b) % n == (start + b) % n);
    if a + b >= n {
        vstd::arithmetic::div_mod::lemma_mod_sub_multiples_vanish(a + b, n);
        vstd::arithmetic::div_mod::lemma_small_mod((a + b - n) as nat, n as nat);
    } else {
        vstd::arithmetic::div_mod::lemma_small_mod((a + b) as nat, n as nat);
    }
    vstd::arithmetic::div_mod::lemma_mod_bound(start + b, n);
}

proof fn lemma_next_mod(n: int, k: int)
    requires
        0 < n,
        0 <= k,
    ensures
        (k + 1) % n == (if k % n + 1 == n {
            0
        } else {
            k % n + 1
        }),
{
    vstd::arithmetic::div_mod::lemma_add_mod_noop(k, 1, n);
    vstd::arithmetic::div_mod::lemma_mod_bound(k, n);
    if n == 1 {
        assert((k + 1) % 1 == 0);
        assert(k % 1 == 0);
    } else {
        vstd::arithmetic::div_mod::lemma_small_mod(1, n as nat);
        assert((k + 1) % n == (k % n + 1) % n);
        if k % n + 1 == n {
            vstd::arithmetic::div_mod::lemma_mod_self_0(n);
        } else {
            vstd::arithmetic::div_mod::lemma_small_mod((k % n + 1) as nat, n as nat);
        }
    }
}

#[derive(Clone, Copy, PartialEq, Eq, Structural)]
pub enum CallPhase {
    Begin,
    Asked,
    Called,
    Ended,
}

/// What is asked for next.
pub enum CallAction<T> {
    /// Is the phone at this index paired?
    AskPaired(usize),
    /// Call it.
    Call(usize),
    /// It was reached.
    Reached(usize),
    /// No phone was.
    Fail { error: T },
}

impl View for CallAction<String> {
    type V = CallAction<Seq<char>>;

    open spec fn view(&self) -> CallAction<Seq<char>> {
        match *self {
            CallAction::AskPaired(i) => CallAction::AskPaired(i),
            CallAction::Call(i) => CallAction::Call(i),
            CallAction::Reached(i) => CallAction::Reached(i),
            CallAction::Fail { error } => CallAction::Fail { error: error@ },
        }
    }
}

/// Calling phones until one is reached.
pub struct CallRound<S> {
    /// The phones in the order in which they are called.
    pub order: S,
    /// Where in that order the round is.
    pub at: usize,
    pub phase: CallPhase,
}

pub type PhoneCallRound = CallRound<Vec<usize>>;

pub type CallRoundModel = CallRound<Seq<usize>>;

impl View for CallRound<Vec<usize>> {
    type V = CallRound<Seq<usize>>;

    open spec fn view(&self) -> CallRound<Seq<usize>> {
        CallRound { order: self.order@, at: self.at, phase: self.phase }
    }
}

/// A round that is on is at a phone.
pub open spec fn round_ok(c: CallRoundModel) -> bool {
    c.phase == CallPhase::Asked || c.phase == CallPhase::Called ==> c.at < c.order.len()
}

/// The round goes on at a place in the order, or ends behind the last one.
pub open spec fn call_from(c: CallRoundModel, at: int) -> (CallRoundModel, CallAction<Seq<char>>) {
    if at < c.order.len() {
        (
            CallRound { at: at as usize, phase: CallPhase::Asked, ..c },
            CallAction::AskPaired(c.order[at]),
        )
    } else {
        (
            CallRound { phase: CallPhase::Ended, ..c },
            CallAction::Fail { error: "Unable to connect to the provided addresses"@ },
        )
    }
}

/// One step: a phone that is paired is called, and the first one that takes the call
/// ends the round.
pub open spec fn call_step(c: CallRoundModel, yes: bool) -> (
    CallRoundModel,
    CallAction<Seq<char>>,
) {
    match c.phase {
        CallPhase::Begin => call_from(c, 0),
        CallPhase::Asked => if yes {
            (
                CallRound { phase: CallPhase::Called, ..c },
                CallAction::Call(c.order[c.at as int]),
            )
        } else {
            call_from(c, c.at + 1)
        },
        _ => if yes {
            (
                CallRound { phase: CallPhase::Ended, ..c },
                CallAction::Reached(c.order[c.at as int]),
            )
        } else {
            call_from(c, c.at + 1)
        },
    }
}

impl CallRound<Vec<usize>> {
    /// A round over `n` phones, beginning with the one whose turn it is.
    pub fn new(n: usize, start_index: usize) -> (r: Self)
        requires
            3 * n <= usize::MAX,
        ensures
            r@ == (CallRound {
                order: call_order(n as nat, start_index as nat),
                at: 0,
                phase: CallPhase::Begin,
            }),
            round_ok(r@),
    {
        CallRound {
            order: try_connect_bluetooth_addresses(n, start_index),
            at: 0,
            phase: CallPhase::Begin,
        }
    }

    fn go_on(&mut self, at: usize) -> (r: CallAction<String>)
        ensures
            (final(self)@, r@) == call_from(old(self)@, at as int),
            round_ok(final(self)@),
    {
        if at < self.order.len() {
            self.at = at;
            self.phase = CallPhase::Asked;
            CallAction::AskPaired(self.order[at])
        } else {
            self.phase = CallPhase::Ended;
            CallAction::Fail { error: "Unable to connect to the provided addresses".to_owned() }
        }
    }

    /// Takes the answer to the last action and tells the next one. The first call
    /// takes any answer.
    pub fn step(&mut self, yes: bool) -> (r: CallAction<String>)
        requires
            old(self).phase != CallPhase::Ended,
            round_ok(old(self)@),
        ensures
            (final(self)@, r@) == call_step(old(self)@, yes),
            round_ok(final(self)@),
    {
        assert(self.order@.len() == self.order.len());
        match self.phase {
            CallPhase::Begin => self.go_on(0),
            CallPhase::Asked => {
                if yes {
                    self.phase = CallPhase::Called;
                    CallAction::Call(self.order[self.at])
                } else {
                    self.go_on(self.at + 1)
                }
            },
            _ => {
                if yes {
                    self.phase = CallPhase::Ended;
                    CallAction::Reached(self.order[self.at])
                } else {
                    self.go_on(self.at + 1)
                }
            },
        }
    }
}

/// A phone counts as reached only if it was paired and took the call; and a round
/// fails only behind the last phone of its order.
pub proof fn law_round_ends_with_the_first_phone_that_answers(c: CallRoundModel, yes: bool)
    requires
        c.phase != CallPhase::Ended,
        round_ok(c),
    ensures
        call_step(c, yes).1 matches CallAction::Reached(i) ==> c.phase == CallPhase::Called && yes
            && i == c.order[c.at as int],
        call_step(c, yes).1 matches CallAction::Call(i) ==> c.phase == CallPhase::Asked && yes && i
            == c.order[c.at as int],
        c.phase == CallPhase::Called && yes ==> call_step(c, yes).1 is Reached,
        call_step(c, yes).1 is Fail ==> (if c.phase == CallPhase::Begin {
            c.order.len() == 0
        } else {
            !yes && c.at + 1 == c.order.len()
        }),
        call_step(c, yes).0.order == c.order,
{
}

/// The phone whose turn it is behind one that was reached.
pub fn next_index(reached: usize, n: usize) -> (r: usize)
    requires
        reached < n,
    ensures
        r == (reached + 1) % n as int,
        r < n,
{
    if reached + 1 == n {
        proof {
            vstd::arithmetic::div_mod::lemma_mod_self_0(n as int);
        }
        0
    } else {
        proof {
            vstd::arithmetic::div_mod::lemma_small_mod((reached + 1) as nat, n as nat);
        }
        reached + 1
    }
}

/// In each round every phone is called once before any is called again.
pub proof fn law_each_phone_once_a_round(n: int, start: int, round: int, i: int, j: int)
    requires
        0 < n,
        0 <= start,
        0 <= round,
        0 <= i < j < n,
    ensures
        call_at(n, start, round * n + i) != call_at(n, start, round * n + j),
{
    lemma_call_index(n, start, round * n + i);
    lemma_call_index(n, start, round * n + j);
    vstd::arithmetic::div_mod::lemma_mod_multiples_vanish(round, i, n);
    vstd::arithmetic::div_mod::lemma_mod_multiples_vanish(round, j, n);
    vstd::arithmetic::div_mod::lemma_small_mod(i as nat, n as nat);
    vstd::arithmetic::div_mod::lemma_small_mod(j as nat, n as nat);
    assert(n * round + i == round * n + i) by (nonlinear_arith);
    assert(n * round + j == round * n + j) by (nonlinear_arith);
    vstd::arithmetic::div_mod::lemma_mod_bound(start, n);
    assert(round * n + i >= 0) by (nonlinear_arith)
        requires
            round >= 0,
            n > 0,
            i >= 0,
    ;
    assert(round * n + j >= 0) by (nonlinear_arith)
        requires
            round >= 0,
            n > 0,
            j >= 0,
    ;
}

// ---------------------------------------------------------------------
// Waiting for the phone

/// How long to go on waiting for the phone, or the error when the time is up.
pub fn wait_for_phone_aa_profile_request(elapsed_ms: u64, timeout_ms: u64, reason: &str) -> (r:
    Result<u64, String>)
    ensures
        match r {
            Ok(ms) => clock::time_left(elapsed_ms, timeout_ms) == Some(ms),
            Err(e) => clock::time_left(elapsed_ms, timeout_ms) is None && e@ == phone_timeout(
                timeout_ms,
                reason@,
            ),
        },
{
    match clock::remaining_ms(elapsed_ms, timeout_ms) {
        Some(ms) => Ok(ms),
        None => Err(phone_timeout_error(timeout_ms, reason)),
    }
}

pub open spec fn phone_timeout(timeout_ms: u64, reason: Seq<char>) -> Seq<char> {
    "timed out after "@ + clock::duration_debug_text(timeout_ms)
        + " waiting for PHONE AA Wireless RFCOMM ("@ + reason + ")"@
}

pub fn phone_timeout_error(timeout_ms: u64, reason: &str) -> (r: String)
    ensures
        r@ == phone_timeout(timeout_ms, reason@),
{
    let span = clock::duration_text(timeout_ms);
    text::cat5(
        "timed out after ",
        span.as_str(),
        " waiting for PHONE AA Wireless RFCOMM (",
        reason,
        ")",
    )
}

/// What to do with a device that calls while the phone is waited for: the head
/// unit is sent away, any other is the phone.
pub fn is_phone_request(device: BtAddress, rejected: Option<BtAddress>) -> (r: bool)
    ensures
        r == (rejected != Some(device)),
{
    match rejected {
        Some(a) => a != device,
        None => true,
    }
}

/// The frames that may be kept for the phone.
pub const MAX_BUFFERED: usize = 32;

/// What is done with a frame of the head unit while the phone is waited for.
pub enum BufferAction<T, B> {
    /// Send the payload back as a ping response.
    ReplyPing(B),
    KeepWaiting,
    Fail(T),
}

impl View for BufferAction<String, Vec<u8>> {
    type V = BufferAction<Seq<char>, Seq<u8>>;

    open spec fn view(&self) -> BufferAction<Seq<char>, Seq<u8>> {
        match *self {
            BufferAction::ReplyPing(b) => BufferAction::ReplyPing(b@),
            BufferAction::KeepWaiting => BufferAction::KeepWaiting,
            BufferAction::Fail(e) => BufferAction::Fail(e@),
        }
    }
}

/// Frames of the head unit that are kept until the phone is there.
pub struct HuFrameBuffer {
    pub frames: Vec<ProxyFrame>,
}

impl View for HuFrameBuffer {
    type V = Seq<FrameModel>;

    open spec fn view(&self) -> Seq<FrameModel> {
        self.frames.deep_view()
    }
}

pub open spec fn buffer_step(kept: Seq<FrameModel>, f: FrameModel) -> (
    Seq<FrameModel>,
    BufferAction<Seq<char>, Seq<u8>>,
) {
    if f.id == ProxyMessageId::WifiPingRequest.number() {
        (kept, BufferAction::ReplyPing(f.payload))
    } else if f.id == ProxyMessageId::WifiPingResponse.number() {
        (kept, BufferAction::KeepWaiting)
    } else if kept.len() + 1 > MAX_BUFFERED {
        (
            kept.push(f),
            BufferAction::Fail(
                "too many HU frames buffered before phone arrived in HU-first rendezvous"@,
            ),
        )
    } else {
        (kept.push(f), BufferAction::KeepWaiting)
    }
}

pub open spec fn buffer_timeout(timeout_ms: u64, kept: nat) -> Seq<char> {
    "timed out after "@ + clock::duration_debug_text(timeout_ms)
        + " waiting for phone AA RFCOMM after HU-first connect; buffered "@ + text::decimal(kept)
        + " HU frame(s)"@
}

impl HuFrameBuffer {
    pub fn new() -> (r: Self)
        ensures
            r@ == Seq::<FrameModel>::empty(),
    {
        let b = HuFrameBuffer { frames: Vec::new() };
        assert(b@ =~= Seq::<FrameModel>::empty());
        b
    }

    /// Takes a frame that the head unit sent before the phone was there.
    pub fn on_hu_frame(&mut self, f: ProxyFrame) -> (r: BufferAction<String, Vec<u8>>)
        ensures
            (final(self)@, r@) == buffer_step(old(self)@, f@),
    {
        if f.id == ProxyMessageId::WifiPingRequest.as_u16() {
            return BufferAction::ReplyPing(f.payload);
        }
        if f.id == ProxyMessageId::WifiPingResponse.as_u16() {
            return BufferAction::KeepWaiting;
        }
        let ghost before = self@;
        let n: usize = self.frames.len();
        self.frames.push(f);
        assert(self@ =~= before.push(f@));
        if n >= MAX_BUFFERED {
            BufferAction::Fail(
                "too many HU frames buffered before phone arrived in HU-first rendezvous".to_owned(),
            )
        } else {
            BufferAction::KeepWaiting
        }
    }

    /// How long to go on waiting, or the error when the time is up.
    pub fn time_left(&self, elapsed_ms: u64, timeout_ms: u64) -> (r: Result<u64, String>)
        ensures
            match r {
                Ok(ms) => clock::time_left(elapsed_ms, timeout_ms) == Some(ms),
                Err(e) => clock::time_left(elapsed_ms, timeout_ms) is None && e@ == buffer_timeout(
                    timeout_ms,
                    self@.len(),
                ),
            },
    {
        match clock::remaining_ms(elapsed_ms, timeout_ms) {
            Some(ms) => Ok(ms),
            None => {
                let span = clock::duration_text(timeout_ms);
                let n = text::decimal_text(self.frames.len() as u64);
                Err(
                    text::cat5(
                        "timed out after ",
                        span.as_str(),
                        " waiting for phone AA RFCOMM after HU-first connect; buffered ",
                        n.as_str(),
                        " HU frame(s)",
                    ),
                )
            },
        }
    }

    /// The error when the head unit hangs up.
    pub fn hu_ended(&self, error: &str) -> (r: String)
        ensures
            r@ == "HU RFCOMM ended while waiting for phone in HU-first rendezvous after buffering "@
                + text::decimal(self@.len()) + " frame(s): "@ + error@,
    {
        let n = text::decimal_text(self.frames.len() as u64);
        text::cat4(
            "HU RFCOMM ended while waiting for phone in HU-first rendezvous after buffering ",
            n.as_str(),
            " frame(s): ",
            error,
        )
    }
}

/// No ping is ever kept, the rest is kept in order, and the wait fails as soon
/// as more than the allowed number is kept.
pub proof fn law_buffer_keeps_frames_in_order(kept: Seq<FrameModel>, f: FrameModel)
    ensures
        ({
            let ping = f.id == ProxyMessageId::WifiPingRequest.number() || f.id
                == ProxyMessageId::WifiPingResponse.number();
            let (after, action) = buffer_step(kept, f);
            &&& after == (if ping {
                kept
            } else {
                kept.push(f)
            })
            &&& action is ReplyPing <==> f.id == ProxyMessageId::WifiPingRequest.number()
            &&& action is Fail <==> !ping && after.len() > MAX_BUFFERED
        }),
{
}

// ---------------------------------------------------------------------
// Calling the head unit

/// The channel that is configured, if one is: zero is none.
pub open spec fn configured_channel(channel: Option<u8>) -> Option<u8> {
    match channel {
        Some(c) => if c > 0 {
            Some(c)
        } else {
            None
        },
        None => None,
    }
}

pub fn filter_channel(channel: Option<u8>) -> (r: Option<u8>)
    ensures
        r == configured_channel(channel),
{
    match channel {
        Some(c) => {
            if c > 0 {
                Some(c)
            } else {
                None
            }
        },
        None => None,
    }
}

/// Where the head unit is called: its address, and its channel where that need
/// not be asked for. None if the name is no address.
pub fn connect_hu_aa_wireless_proxy_inner(hu_mac: &str, hu_channel: Option<u8>) -> (r: Result<
    (BtAddress, Option<u8>),
    Option<String>,
>)
    ensures
        ({
            let mac = text::trimmed(hu_mac@);
            match r {
                Ok((a, c)) => mac.len() > 0 && address::named_address(mac) == Some(a) && c
                    == configured_channel(hu_channel),
                Err(Some(e)) => mac.len() == 0 && e@ == "bt_wireless_proxy_hu_mac must be set"@,
                Err(None) => mac.len() > 0 && address::named_address(mac) is None,
            }
        }),
{
    let mac = text::trim(hu_mac);
    if mac.is_empty() {
        return Err(Some("bt_wireless_proxy_hu_mac must be set".to_owned()));
    }
    match address::parse_address(mac) {
        Some(a) => Ok((a, filter_channel(hu_channel))),
        None => Err(None),
    }
}

// ---------------------------------------------------------------------
// The barrier before the head unit is told

/// What the wait for the phone's TCP connection comes to.
pub enum Barrier<T> {
    /// The phone is connected, with this sequence number.
    Passed(u64),
    /// Wait on, no longer than this.
    Wait(u64),
    Fail(T),
}

impl View for Barrier<String> {
    type V = Barrier<Seq<char>>;

    open spec fn view(&self) -> Barrier<Seq<char>> {
        match *self {
            Barrier::Passed(n) => Barrier::Passed(n),
            Barrier::Wait(ms) => Barrier::Wait(ms),
            Barrier::Fail(e) => Barrier::Fail(e@),
        }
    }
}

pub open spec fn barrier_error(timeout_ms: u64, before: u64, current: u64) -> Seq<char> {
    "timed out after "@ + clock::duration_debug_text(timeout_ms)
        + " waiting for PHONE TCP accept barrier (seq_before="@ + text::decimal(before as nat)
        + ", current="@ + text::decimal(current as nat) + ")"@
}

/// A connection counts from the moment at which the sequence number has grown.
pub open spec fn barrier(before: u64, current: u64, elapsed_ms: u64, timeout_ms: u64) -> Barrier<
    Seq<char>,
> {
    if current > before {
        Barrier::Passed(current)
    } else {
        match clock::time_left(elapsed_ms, timeout_ms) {
            Some(ms) => Barrier::Wait(ms),
            None => Barrier::Fail(barrier_error(timeout_ms, before, current)),
        }
    }
}

pub fn wait_for_phone_tcp_accept_barrier(
    seq_before: u64,
    current: u64,
    elapsed_ms: u64,
    timeout_ms: u64,
) -> (r: Barrier<String>)
    ensures
        r@ == barrier(seq_before, current, elapsed_ms, timeout_ms),
{
    if current > seq_before {
        return Barrier::Passed(current);
    }
    match clock::remaining_ms(elapsed_ms, timeout_ms) {
        Some(ms) => Barrier::Wait(ms),
        None => Barrier::Fail(tcp_barrier_error(timeout_ms, seq_before, current)),
    }
}

pub fn tcp_barrier_error(timeout_ms: u64, seq_before: u64, current: u64) -> (r: String)
    ensures
        r@ == barrier_error(timeout_ms, seq_before, current),
{
    let span = clock::duration_text(timeout_ms);
    let a = text::decimal_text(seq_before);
    let b = text::decimal_text(current);
    text::cat7(
        "timed out after ",
        span.as_str(),
        " waiting for PHONE TCP accept barrier (seq_before=",
        a.as_str(),
        ", current=",
        b.as_str(),
        ")",
    )
}

// ---------------------------------------------------------------------
// Meeting

#[derive(Clone, Copy, PartialEq, Eq, Structural)]
pub enum MeetingPhase {
    Begin,
    First,
    Second,
    Third,
    Ended,
}

/// What is asked for next; it may fail, and the meeting with it.
#[derive(Clone, Copy, PartialEq, Eq, Structural, Debug)]
pub enum MeetingTask {
    ConnectHu,
    /// Call phones so that one opens its connection.
    TriggerPhones,
    AwaitPhone,
    /// Wait for the phone, and keep what the head unit sends meanwhile.
    AwaitPhoneBesideHu,
}

#[derive(Clone, Copy, PartialEq, Eq, Structural, Debug)]
pub enum MeetingStep {
    Do(MeetingTask),
    /// Both sides are connected.
    Met,
    /// The task that was told last has failed.
    Fail,
    /// The phone that was waited for never came.
    NoPhone,
}

/// What came of a task.
#[derive(Clone, Copy, PartialEq, Eq, Structural, Debug)]
pub enum MeetingOutcome {
    Done,
    Failed,
    /// Its time was over.
    TimedOut,
}

/// Connecting the head unit and the phone, in one order or the other.
#[derive(Clone, Copy, PartialEq, Eq, Structural)]
pub struct Meeting {
    pub hu_first: bool,
    pub phase: MeetingPhase,
}

/// The tasks of a meeting in their order.
pub open spec fn meeting_tasks(hu_first: bool) -> Seq<MeetingTask> {
    if hu_first {
        seq![MeetingTask::ConnectHu, MeetingTask::TriggerPhones, MeetingTask::AwaitPhoneBesideHu]
    } else {
        seq![MeetingTask::TriggerPhones, MeetingTask::AwaitPhone, MeetingTask::ConnectHu]
    }
}

/// How many tasks have been told.
pub open spec fn tasks_told(phase: MeetingPhase) -> int {
    match phase {
        MeetingPhase::Begin => 0,
        MeetingPhase::First => 1,
        MeetingPhase::Second => 2,
        MeetingPhase::Third => 3,
        MeetingPhase::Ended => 4,
    }
}

pub open spec fn phase_after(told: int) -> MeetingPhase {
    if told == 1 {
        MeetingPhase::First
    } else if told == 2 {
        MeetingPhase::Second
    } else if told == 3 {
        MeetingPhase::Third
    } else {
        MeetingPhase::Ended
    }
}

/// Whether the task that was told last is to wait for the phone.
pub open spec fn awaits_phone(m: Meeting) -> bool {
    let task = meeting_tasks(m.hu_first)[tasks_told(m.phase) - 1];
    task == MeetingTask::AwaitPhone || task == MeetingTask::AwaitPhoneBesideHu
}

/// One step: the next task when the last one was done. The first call takes any
/// outcome.
pub open spec fn meeting_step(m: Meeting, outcome: MeetingOutcome) -> (Meeting, MeetingStep) {
    let told = tasks_told(m.phase);
    if m.phase != MeetingPhase::Begin && outcome == MeetingOutcome::TimedOut && awaits_phone(m) {
        (Meeting { phase: MeetingPhase::Ended, ..m }, MeetingStep::NoPhone)
    } else if m.phase != MeetingPhase::Begin && outcome != MeetingOutcome::Done {
        (Meeting { phase: MeetingPhase::Ended, ..m }, MeetingStep::Fail)
    } else if told < 3 {
        (
            Meeting { phase: phase_after(told + 1), ..m },
            MeetingStep::Do(meeting_tasks(m.hu_first)[told]),
        )
    } else {
        (Meeting { phase: MeetingPhase::Ended, ..m }, MeetingStep::Met)
    }
}

impl Meeting {
    /// The head unit is connected first, and only behind that a phone is called.
    pub fn car_wifi_mitm_hu_first_rendezvous() -> (r: Self)
        ensures
            r == (Meeting { hu_first: true, phase: MeetingPhase::Begin }),
    {
        Meeting { hu_first: true, phase: MeetingPhase::Begin }
    }

    /// The phone comes first.
    pub fn car_wifi_mitm_phone_first_rendezvous() -> (r: Self)
        ensures
            r == (Meeting { hu_first: false, phase: MeetingPhase::Begin }),
    {
        Meeting { hu_first: false, phase: MeetingPhase::Begin }
    }

    pub fn step(&mut self, outcome: MeetingOutcome) -> (r: MeetingStep)
        requires
            old(self).phase != MeetingPhase::Ended,
        ensures
            (*final(self), r) == meeting_step(*old(self), outcome),
    {
        if self.phase != MeetingPhase::Begin && outcome != MeetingOutcome::Done {
            let waited = if self.hu_first {
                self.phase == MeetingPhase::Third
            } else {
                self.phase == MeetingPhase::Second
            };
            self.phase = MeetingPhase::Ended;
            return if waited && outcome == MeetingOutcome::TimedOut {
                MeetingStep::NoPhone
            } else {
                MeetingStep::Fail
            };
        }
        match self.phase {
            MeetingPhase::Begin => {
                self.phase = MeetingPhase::First;
                if self.hu_first {
                    MeetingStep::Do(MeetingTask::ConnectHu)
                } else {
                    MeetingStep::Do(MeetingTask::TriggerPhones)
                }
            },
            MeetingPhase::First => {
                self.phase = MeetingPhase::Second;
                if self.hu_first {
                    MeetingStep::Do(MeetingTask::TriggerPhones)
                } else {
                    MeetingStep::Do(MeetingTask::AwaitPhone)
                }
            },
            MeetingPhase::Second => {
                self.phase = MeetingPhase::Third;
                if self.hu_first {
                    MeetingStep::Do(MeetingTask::AwaitPhoneBesideHu)
                } else {
                    MeetingStep::Do(MeetingTask::ConnectHu)
                }
            },
            MeetingPhase::Third => {
                self.phase = MeetingPhase::Ended;
                MeetingStep::Met
            },
            MeetingPhase::Ended => vstd::pervasive::unreached(),
        }
    }
}

/// Where the head unit comes first, no phone is called before it is connected;
/// and the two sides have met only when no task failed.
pub proof fn law_hu_first_means_first(m: Meeting, outcome: MeetingOutcome)
    requires
        m.phase != MeetingPhase::Ended,
    ensures
        m.hu_first && meeting_step(m, outcome).1 == MeetingStep::Do(MeetingTask::TriggerPhones)
            ==> m.phase == MeetingPhase::First && outcome == MeetingOutcome::Done,
        m.hu_first && meeting_step(m, outcome).1 == MeetingStep::Do(MeetingTask::ConnectHu)
            ==> m.phase == MeetingPhase::Begin,
        meeting_step(m, outcome).1 == MeetingStep::Met ==> m.phase == MeetingPhase::Third
            && outcome == MeetingOutcome::Done,
        tasks_told(meeting_step(m, outcome).0.phase) > tasks_told(m.phase),
{
}

// ---------------------------------------------------------------------
// Recovering

/// How long the phones that were hung up on are left alone, if there are any.
pub fn disconnect_triggered_phone_devices(phones: &Vec<BtAddress>) -> (r: Option<u64>)
    ensures
        r == (if phones@.len() == 0 {
            None
        } else {
            Some(750u64)
        }),
{
    if phones.len() == 0 {
        None
    } else {
        Some(750)
    }
}

pub open spec fn recovery_reason(reason: Seq<char>) -> Seq<char> {
    if text::trimmed(reason).len() == 0 {
        "car-wifi-mitm error"@
    } else {
        text::trimmed(reason)
    }
}

/// How long both sides are left alone after an error: longest when the head
/// unit offered no channel, longer when a connection broke.
pub open spec fn cooldown_ms(reason: Seq<char>) -> u64 {
    if text::holds(reason, "could not find RFCOMM channel"@) || text::holds(reason, "attrs=3500"@)
        || text::holds(reason, "internal SDP discovery failed"@) {
        25000
    } else if text::holds(reason, "Connection reset by peer"@) || text::holds(
        reason,
        "Software caused connection abort"@,
    ) || text::holds(reason, "Transport endpoint is not connected"@) {
        12000
    } else {
        7000
    }
}

pub fn recovery_cooldown(reason: &str) -> (r: u64)
    ensures
        r == cooldown_ms(reason@),
{
    if text::contains(reason, "could not find RFCOMM channel") || text::contains(
        reason,
        "attrs=3500",
    ) || text::contains(reason, "internal SDP discovery failed") {
        25000
    } else if text::contains(reason, "Connection reset by peer") || text::contains(
        reason,
        "Software caused connection abort",
    ) || text::contains(reason, "Transport endpoint is not connected") {
        12000
    } else {
        7000
    }
}

/// What is done after an error.
pub struct Recovery {
    /// The phones to hang up on.
    pub phones: Vec<BtAddress>,
    /// The head unit to hang up on.
    pub hu: Option<BtAddress>,
    pub reason: String,
    pub cooldown_ms: u64,
}

pub fn plan_recovery(
    connect: &BluetoothAddressList,
    known: &Vec<BtAddress>,
    hu_mac: &str,
    reason: &str,
) -> (r: Recovery)
    ensures
        r.phones@ == phones_to_call(*connect, known@),
        r.hu == address::named_address(text::trimmed(hu_mac@)),
        r.reason@ == recovery_reason(reason@),
        r.cooldown_ms == cooldown_ms(recovery_reason(reason@)),
{
    let why = text::trim(reason);
    let why = if why.is_empty() {
        "car-wifi-mitm error"
    } else {
        why
    };
    Recovery {
        phones: connect.addresses(known),
        hu: address::parse_address(text::trim(hu_mac)),
        reason: why.to_owned(),
        cooldown_ms: recovery_cooldown(why),
    }
}

// ---------------------------------------------------------------------
// More laws

/// The words for the order of the meeting, with hyphens or underscores; any other word
/// leaves it to the proxy.
pub proof fn law_orders_are_named(word: Seq<char>)
    ensures
        ({
            let m = text::replaced(text::lower(text::trimmed(word)), "-"@, "_"@);
            let phone = m == "phone_first"@ || m == "phonefirst"@ || m == "phone"@;
            let hu = m == "hu_first"@ || m == "hufirst"@ || m == "headunit_first"@ || m
                == "head_unit_first"@ || m == "hu"@;
            &&& rendezvous_mode(word) == CarWifiRendezvousMode::PhoneFirst <==> phone
            &&& rendezvous_mode(word) == CarWifiRendezvousMode::HuFirst <==> hu && !phone
            &&& rendezvous_mode(word) == CarWifiRendezvousMode::Auto <==> !hu && !phone
        }),
{
}

/// The phones that are named are called, all known ones where any is named, and none
/// where none is.
pub proof fn law_named_phones_are_called(
    list: BluetoothAddressList,
    named: Vec<BtAddress>,
    known: Seq<BtAddress>,
)
    ensures
        list.0 is None ==> phones_to_call(list, known).len() == 0,
        list.0 == Some(named) && named@.contains(address::any_address()) ==> phones_to_call(
            list,
            known,
        ) == known,
        list.0 == Some(named) && !named@.contains(address::any_address()) ==> phones_to_call(
            list,
            known,
        ) == named@,
{
}

/// A list of addresses is read piece by piece: what is an address is added at the end,
/// and what is none is passed over.
pub proof fn law_addresses_are_read_in_order(texts: Seq<Seq<char>>, more: Seq<char>)
    ensures
        addresses_in(Seq::empty()) == Seq::<BtAddress>::empty(),
        address::named_address(text::trimmed(more)) matches Some(a) ==> addresses_in(
            texts.push(more),
        ) == addresses_in(texts).push(a),
        address::named_address(text::trimmed(more)) is None ==> addresses_in(texts.push(more))
            == addresses_in(texts),
        text::trimmed(more).len() == 0 <==> addresses_named(more) is None,
        addresses_named(more) matches Some(list) ==> list == addresses_in(text::pieces(more, ',')),
{
    assert(texts.push(more).drop_last() =~= texts);
}

/// In each of three rounds the phones are called in their order, from the one on whose
/// turn it is, and behind the last one the first.
pub proof fn law_phones_are_called_in_turn(n: int, start: int, round: int, i: int)
    requires
        0 < n,
        0 <= start < n,
        0 <= round < 3,
        0 <= i < n,
    ensures
        call_order(n as nat, start as nat).len() == 3 * n,
        start + i < n ==> call_at(n, start, round * n + i) == start + i,
        start + i >= n ==> call_at(n, start, round * n + i) == start + i - n,
        n <= usize::MAX ==> call_order(n as nat, start as nat)[round * n + i] == call_at(
            n,
            start,
            round * n + i,
        ),
{
    assert(round * n + i >= 0) by (nonlinear_arith)
        requires
            round >= 0,
            n > 0,
            i >= 0,
    ;
    assert(round * n + i < 3 * n) by (nonlinear_arith)
        requires
            round < 3,
            n > 0,
            i < n,
    ;
    lemma_call_index(n, start, round * n + i);
    vstd::arithmetic::div_mod::lemma_mod_multiples_vanish(round, i, n);
    assert(n * round + i == round * n + i) by (nonlinear_arith);
    vstd::arithmetic::div_mod::lemma_small_mod(i as nat, n as nat);
    vstd::arithmetic::div_mod::lemma_small_mod(start as nat, n as nat);
}

/// A ping of the head unit is answered with its own payload while the phone is waited
/// for.
pub proof fn law_ping_is_answered_meanwhile(kept: Seq<FrameModel>, payload: Seq<u8>)
    ensures
        buffer_step(kept, frame::Frame { id: 8, payload }).1
            == BufferAction::<Seq<char>, Seq<u8>>::ReplyPing(payload),
{
}

/// A channel that is configured is taken, unless it is zero.
pub proof fn law_zero_is_no_channel(c: u8)
    ensures
        configured_channel(None) is None,
        configured_channel(Some(0u8)) is None,
        c > 0 ==> configured_channel(Some(c)) == Some(c),
{
}

/// The barrier is passed as soon as one more phone has connected than before; until
/// then it is waited for, and when the time is over it fails.
pub proof fn law_barrier_waits_for_one_more_phone(
    before: u64,
    current: u64,
    elapsed_ms: u64,
    timeout_ms: u64,
)
    ensures
        ({
            let b = barrier(before, current, elapsed_ms, timeout_ms);
            &&& current > before ==> b == Barrier::<Seq<char>>::Passed(current)
            &&& current <= before && elapsed_ms < timeout_ms ==> b == Barrier::<Seq<char>>::Wait(
                (timeout_ms - elapsed_ms) as u64,
            )
            &&& current <= before && elapsed_ms >= timeout_ms ==> b is Fail
        }),
{
}

/// The tasks of a meeting: head unit, call, wait; or call, wait, head unit. The two sides
/// have met when all three are done.
pub proof fn law_meeting_takes_its_course(m: Meeting)
    requires
        m.phase == MeetingPhase::Begin,
    ensures
        ({
            let done = MeetingOutcome::Done;
            let (m1, s1) = meeting_step(m, done);
            let (m2, s2) = meeting_step(m1, done);
            let (m3, s3) = meeting_step(m2, done);
            let s4 = meeting_step(m3, done).1;
            &&& m.hu_first ==> s1 == MeetingStep::Do(MeetingTask::ConnectHu) && s2
                == MeetingStep::Do(MeetingTask::TriggerPhones) && s3 == MeetingStep::Do(
                MeetingTask::AwaitPhoneBesideHu,
            )
            &&& !m.hu_first ==> s1 == MeetingStep::Do(MeetingTask::TriggerPhones) && s2
                == MeetingStep::Do(MeetingTask::AwaitPhone) && s3 == MeetingStep::Do(
                MeetingTask::ConnectHu,
            )
            &&& s4 == MeetingStep::Met
            &&& meeting_step(m1, MeetingOutcome::Failed).1 == MeetingStep::Fail
            &&& meeting_step(m2, MeetingOutcome::Failed).1 == MeetingStep::Fail
            &&& meeting_step(m3, MeetingOutcome::Failed).1 == MeetingStep::Fail
            &&& meeting_step(m1, MeetingOutcome::TimedOut).1 == MeetingStep::Fail
            &&& m.hu_first ==> meeting_step(m3, MeetingOutcome::TimedOut).1 == MeetingStep::NoPhone
            &&& !m.hu_first ==> meeting_step(m2, MeetingOutcome::TimedOut).1
                == MeetingStep::NoPhone && meeting_step(m3, MeetingOutcome::TimedOut).1
                == MeetingStep::Fail
        }),
{
}

/// After an error both sides are left alone: longest where the head unit offered no
/// channel, longer where a connection broke. An error without words has a name.
pub proof fn law_broken_sides_are_left_alone(a: Seq<char>, b: Seq<char>)
    ensures
        cooldown_ms(a + "could not find RFCOMM channel"@ + b) == 25000,
        cooldown_ms(a + "attrs=3500"@ + b) == 25000,
        cooldown_ms(a + "internal SDP discovery failed"@ + b) == 25000,
        cooldown_ms(a + "Connection reset by peer"@ + b) >= 12000,
        cooldown_ms(a + "Software caused connection abort"@ + b) >= 12000,
        cooldown_ms(a + "Transport endpoint is not connected"@ + b) >= 12000,
        cooldown_ms(a) == 25000 || cooldown_ms(a) == 12000 || cooldown_ms(a) == 7000,
        cooldown_ms(a) == 25000 ==> text::holds(a, "could not find RFCOMM channel"@) || text::holds(
            a,
            "attrs=3500"@,
        ) || text::holds(a, "internal SDP discovery failed"@),
        cooldown_ms(a) == 12000 ==> text::holds(a, "Connection reset by peer"@) || text::holds(
            a,
            "Software caused connection abort"@,
        ) || text::holds(a, "Transport endpoint is not connected"@),
        text::trimmed(a).len() > 0 ==> recovery_reason(a) == text::trimmed(a),
        text::trimmed(a).len() == 0 ==> recovery_reason(a) == "car-wifi-mitm error"@,
{
    text::lemma_holds_within(a, "could not find RFCOMM channel"@, b);
    text::lemma_holds_within(a, "attrs=3500"@, b);
    text::lemma_holds_within(a, "internal SDP discovery failed"@, b);
    text::lemma_holds_within(a, "Connection reset by peer"@, b);
    text::lemma_holds_within(a, "Software caused connection abort"@, b);
    text::lemma_holds_within(a, "Transport endpoint is not connected"@, b);
}

/// A round of calls goes from phone to phone: one that is paired is called, one
/// that is not is passed over, one that does not take the call too; behind the
/// last one the round has failed.
pub proof fn law_round_goes_from_phone_to_phone(c: CallRoundModel)
    requires
        round_ok(c),
        c.phase != CallPhase::Ended,
        c.order.len() <= usize::MAX,
    ensures
        ({
            let next = if c.phase == CallPhase::Begin {
                0
            } else {
                c.at + 1
            };
            let (yes, no) = (call_step(c, true), call_step(c, false));
            let on = if c.phase == CallPhase::Begin {
                yes
            } else {
                no
            };
            &&& next < c.order.len() ==> on.1 == CallAction::<Seq<char>>::AskPaired(c.order[next])
                && on.0.at == next && on.0.phase == CallPhase::Asked
            &&& next >= c.order.len() ==> on.1 == (CallAction::<Seq<char>>::Fail {
                error: "Unable to connect to the provided addresses"@,
            }) && on.0.phase == CallPhase::Ended
            &&& c.phase == CallPhase::Asked ==> yes.1 == CallAction::<Seq<char>>::Call(
                c.order[c.at as int],
            ) && yes.0.phase == CallPhase::Called && yes.0.at == c.at
            &&& c.phase == CallPhase::Called ==> yes.1 == CallAction::<Seq<char>>::Reached(
                c.order[c.at as int],
            ) && yes.0.phase == CallPhase::Ended
            &&& yes.0.order == c.order && no.0.order == c.order
        }),
{
}

} // verus!
