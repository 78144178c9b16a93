//! The exchange before the Wi-Fi bootstrap proper: frames of the head unit are
//! passed on to the phone until the head unit names its projection endpoint.

use crate::clock;
use crate::frame;
use crate::frame::Frame;
use crate::frame::FrameModel;
use crate::frame::ProxyFrame;
use crate::frame::ProxyMessageId;
use crate::inspect;
use crate::inspect::ProjectionInfo;
use crate::messages;
use crate::messages::MAX_TEXT;
use crate::text;
use crate::wifi_iface;
use crate::wire;
use vstd::prelude::*;
use vstd::string::StringExecFns;

verus! {

// ---------------------------------------------------------------------
// Waiting for one message of the phone

/// What to do with a frame of the phone while a certain message is awaited.
#[derive(Clone, Copy, PartialEq, Eq, Structural)]
pub enum PhoneFrameUse {
    /// Hand the frame to whoever waits: it is the awaited one, or one that
    /// cannot be dealt with here.
    Return,
    /// Send the payload back as a ping response and go on waiting.
    ReplyPing,
    /// Go on waiting.
    Ignore,
    /// Send the cached Wi-Fi info once more and go on waiting.
    ResendWifiInfo,
}

pub open spec fn phone_frame_use(expected: ProxyMessageId, id: u16, has_cached_info: bool) -> PhoneFrameUse {
    if id == expected.number() {
        PhoneFrameUse::Return
    } else if id == ProxyMessageId::WifiPingRequest.number() {
        PhoneFrameUse::ReplyPing
    } else if id == ProxyMessageId::WifiPingResponse.number() {
        PhoneFrameUse::Ignore
    } else if expected == ProxyMessageId::WifiStartResponse && id
        == ProxyMessageId::WifiInfoRequest.number() && has_cached_info {
        PhoneFrameUse::ResendWifiInfo
    } else {
        PhoneFrameUse::Return
    }
}

/// Decides on a frame that came in while the phone's `expected` message is awaited.
pub fn read_phone_bootstrap_frame(
    expected: ProxyMessageId,
    id: u16,
    has_cached_info: bool,
) -> (r: PhoneFrameUse)
    ensures
        r == phone_frame_use(expected, id, has_cached_info),
{
    if id == expected.as_u16() {
        PhoneFrameUse::Return
    } else if id == ProxyMessageId::WifiPingRequest.as_u16() {
        PhoneFrameUse::ReplyPing
    } else if id == ProxyMessageId::WifiPingResponse.as_u16() {
        PhoneFrameUse::Ignore
    } else if expected == ProxyMessageId::WifiStartResponse && id
        == ProxyMessageId::WifiInfoRequest.as_u16() && has_cached_info {
        PhoneFrameUse::ResendWifiInfo
    } else {
        PhoneFrameUse::Return
    }
}

pub open spec fn phone_wait_error(expected: ProxyMessageId, timeout_ms: u64) -> Seq<char> {
    "timed out after "@ + clock::duration_debug_text(timeout_ms) + " waiting for PHONE "@
        + ProxyMessageId::label(expected.number()) + " during Wi-Fi bootstrap"@
}

/// How long the next read from the phone may take, or the error when the time is up.
pub fn phone_bootstrap_time_left(
    expected: ProxyMessageId,
    elapsed_ms: u64,
    timeout_ms: u64,
) -> (r: Result<u64, String>)
    ensures
        match r {
            Ok(ms) => clock::time_left(elapsed_ms, timeout_ms) == Some(ms),
            Err(e) => clock::time_left(elapsed_ms, timeout_ms) is None && e@ == phone_wait_error(
                expected,
                timeout_ms,
            ),
        },
{
    match clock::remaining_ms(elapsed_ms, timeout_ms) {
        Some(ms) => Ok(ms),
        None => {
            let mut e = String::from_str("timed out after ");
            let span = clock::duration_text(timeout_ms);
            e.append(span.as_str());
            e.append(" waiting for PHONE ");
            e.append(ProxyMessageId::name(expected.as_u16()));
            e.append(" during Wi-Fi bootstrap");
            Err(e)
        },
    }
}

/// Whether an error text tells of a connection that the phone dropped.
pub open spec fn is_dropped_connection(err: Seq<char>) -> bool {
    ||| text::holds(err, "Connection reset by peer"@)
    ||| text::holds(err, "Software caused connection abort"@)
    ||| text::holds(err, "Broken pipe"@)
    ||| text::holds(err, "Transport endpoint is not connected"@)
    ||| text::holds(err, "peer closed"@)
    ||| text::holds(err, "unexpected end of file"@)
    ||| text::holds(err, "early eof"@)
}

pub fn is_retriable_phone_bootstrap_disconnect(err: &str) -> (r: bool)
    ensures
        r == is_dropped_connection(err@),
{
    text::contains(err, "Connection reset by peer") || text::contains(
        err,
        "Software caused connection abort",
    ) || text::contains(err, "Broken pipe") || text::contains(
        err,
        "Transport endpoint is not connected",
    ) || text::contains(err, "peer closed") || text::contains(err, "unexpected end of file")
        || text::contains(err, "early eof")
}

// ---------------------------------------------------------------------
// The exchange

/// How the versions in the exchange are treated.
#[derive(Clone, Copy, PartialEq, Eq, Structural)]
pub struct ExchangeSettings {
    /// Use the endpoint of a version request when no start request follows it.
    pub use_version_projection_fallback: bool,
    pub protocol_version_override_enabled: bool,
    pub protocol_version_override_major: u16,
    pub protocol_version_override_minor: u16,
}

/// The frames that may be passed on before the exchange is given up.
pub const MAX_FORWARDED: usize = 32;

/// How long an explicit start request may take once an endpoint is known.
pub const START_GRACE_MS: u64 = 3000;

/// How long the phone may take to answer a version request.
pub const VERSION_RESPONSE_MS: u64 = 10000;

#[derive(Clone, Copy, PartialEq, Eq, Structural)]
pub enum ExchangePhase {
    /// The next frame of the head unit is wanted.
    Fetch,
    /// A frame is on its way to the phone; `version` tells of a version request.
    Forwarding { version: bool },
    /// The phone's version response is wanted.
    AwaitPhone,
    /// The phone's answer is on its way to the head unit.
    Answering,
    /// A start request is given a last chance.
    Grace,
    Ended,
}

/// What the exchange asks for next.
pub enum ExchangeAction<T, B> {
    /// Read a frame of the head unit.
    ReadHu,
    /// Read a frame of the head unit, but wait no longer than this.
    ReadHuWithin(u64),
    /// Wait this long for the phone's version response.
    ReadPhone(u64),
    SendHu { id: u16, payload: B },
    SendPhone { id: u16, payload: B },
    /// The head unit's start request, as it came.
    Start(B),
    /// A start request for the endpoint that a version request named.
    Synthesized(B),
    Fail(T),
}

impl View for ExchangeAction<String, Vec<u8>> {
    type V = ExchangeAction<Seq<char>, Seq<u8>>;

    open spec fn view(&self) -> ExchangeAction<Seq<char>, Seq<u8>> {
        match *self {
            ExchangeAction::ReadHu => ExchangeAction::ReadHu,
            ExchangeAction::ReadHuWithin(ms) => ExchangeAction::ReadHuWithin(ms),
            ExchangeAction::ReadPhone(ms) => ExchangeAction::ReadPhone(ms),
            ExchangeAction::SendHu { id, payload } => ExchangeAction::SendHu {
                id,
                payload: payload@,
            },
            ExchangeAction::SendPhone { id, payload } => ExchangeAction::SendPhone {
                id,
                payload: payload@,
            },
            ExchangeAction::Start(payload) => ExchangeAction::Start(payload@),
            ExchangeAction::Synthesized(payload) => ExchangeAction::Synthesized(payload@),
            ExchangeAction::Fail(error) => ExchangeAction::Fail(error@),
        }
    }
}

pub type ExchangeOutput = ExchangeAction<Seq<char>, Seq<u8>>;

/// What came of an action.
pub enum ExchangeEvent<F> {
    /// What was to be sent has been sent.
    Sent,
    HuFrame(F),
    PhoneFrame(F),
    /// Nothing came in time.
    Quiet,
}

impl View for ExchangeEvent<Frame<Vec<u8>>> {
    type V = ExchangeEvent<Frame<Seq<u8>>>;

    open spec fn view(&self) -> ExchangeEvent<Frame<Seq<u8>>> {
        match *self {
            ExchangeEvent::Sent => ExchangeEvent::Sent,
            ExchangeEvent::HuFrame(f) => ExchangeEvent::HuFrame(f@),
            ExchangeEvent::PhoneFrame(f) => ExchangeEvent::PhoneFrame(f@),
            ExchangeEvent::Quiet => ExchangeEvent::Quiet,
        }
    }
}

/// The state of the exchange.
pub struct ExchangeState<T, Q> {
    pub settings: ExchangeSettings,
    pub phase: ExchangePhase,
    /// How many frames went to the phone.
    pub forwarded: usize,
    /// Whether the last version request was rewritten.
    pub override_applied: bool,
    /// The last endpoint that a version request named.
    pub endpoint: Option<(T, u32)>,
    /// Frames of the head unit that came before the phone did.
    pub buffered: Q,
}

pub type ExchangeModel = ExchangeState<Seq<char>, Seq<FrameModel>>;

pub type PreBootstrapExchange = ExchangeState<String, Vec<ProxyFrame>>;

impl View for ExchangeState<String, Vec<Frame<Vec<u8>>>> {
    type V = ExchangeState<Seq<char>, Seq<Frame<Seq<u8>>>>;

    open spec fn view(&self) -> ExchangeState<Seq<char>, Seq<Frame<Seq<u8>>>> {
        ExchangeState {
            settings: self.settings,
            phase: self.phase,
            forwarded: self.forwarded,
            override_applied: self.override_applied,
            endpoint: match self.endpoint {
                Some(e) => Some((e.0@, e.1)),
                None => None,
            },
            buffered: self.buffered.deep_view(),
        }
    }
}

impl<T, Q> ExchangeState<T, Q> {
    pub open spec fn wf(self) -> bool {
        &&& self.forwarded <= MAX_FORWARDED + 1
        &&& self.phase == ExchangePhase::Fetch ==> self.forwarded <= MAX_FORWARDED
        &&& self.phase == ExchangePhase::Grace ==> self.endpoint is Some
    }
}

/// A payload with its version set, where that is wanted and possible.
pub open spec fn version_override(
    settings: ExchangeSettings,
    major: Option<u64>,
    minor: Option<u64>,
    payload: Seq<u8>,
) -> Seq<u8> {
    let rewritten = wire::with_version(
        payload,
        settings.protocol_version_override_major,
        settings.protocol_version_override_minor,
    );
    if settings.protocol_version_override_enabled && wire::overrides(
        major,
        minor,
        settings.protocol_version_override_major,
        settings.protocol_version_override_minor,
    ) && rewritten is Some {
        rewritten->0
    } else {
        payload
    }
}

/// A version request was rewritten, was new enough, or could not be rewritten:
/// only the first two settle how the phone's response is treated.
pub open spec fn override_state(
    st: ExchangeModel,
    major: Option<u64>,
    minor: Option<u64>,
    payload: Seq<u8>,
) -> bool {
    let s = st.settings;
    if !s.protocol_version_override_enabled {
        st.override_applied
    } else if !wire::overrides(
        major,
        minor,
        s.protocol_version_override_major,
        s.protocol_version_override_minor,
    ) {
        false
    } else {
        st.override_applied || wire::is_whole(payload)
    }
}

pub open spec fn endpoint_of(p: ProjectionInfo<Seq<char>>) -> Option<(Seq<char>, u32)> {
    match (p.ip_address, p.port) {
        (Some(ip), Some(port)) => Some((ip, port)),
        _ => None,
    }
}

/// A frame of the head unit that is passed on to the phone.
pub open spec fn forward(st: ExchangeModel, f: FrameModel) -> (ExchangeModel, ExchangeOutput) {
    let is_version = f.id == ProxyMessageId::WifiVersionRequest.number();
    let is_setup = f.id == ProxyMessageId::WifiSetupInfo.number();
    let request = inspect::version_request(f.payload);
    let setup = inspect::setup_info(f.payload);
    let endpoint = if is_version && endpoint_of(request.projection) is Some {
        endpoint_of(request.projection)
    } else {
        st.endpoint
    };
    let applied = if is_version {
        override_state(st, request.major_version, request.minor_version, f.payload)
    } else {
        st.override_applied
    };
    let payload = if is_version {
        version_override(st.settings, request.major_version, request.minor_version, f.payload)
    } else if is_setup {
        version_override(st.settings, setup.major_version, setup.minor_version, f.payload)
    } else {
        f.payload
    };
    (
        ExchangeState {
            phase: ExchangePhase::Forwarding { version: is_version },
            forwarded: (st.forwarded + 1) as usize,
            override_applied: applied,
            endpoint,
            ..st
        },
        ExchangeAction::SendPhone { id: f.id, payload },
    )
}

/// The next buffered frame that needs something done, or a read from the head
/// unit when none is left. Buffered ping responses are dropped.
pub open spec fn fetch(st: ExchangeModel) -> (ExchangeModel, ExchangeOutput)
    decreases st.buffered.len(),
{
    if st.buffered.len() == 0 {
        (ExchangeState { phase: ExchangePhase::Fetch, ..st }, ExchangeAction::ReadHu)
    } else {
        let f = st.buffered[0];
        let rest = ExchangeState {
            buffered: st.buffered.subrange(1, st.buffered.len() as int),
            ..st
        };
        if f.id == ProxyMessageId::WifiPingResponse.number() {
            fetch(rest)
        } else {
            take(rest, f)
        }
    }
}

/// A frame of the head unit other than a ping response.
pub open spec fn take(st: ExchangeModel, f: FrameModel) -> (ExchangeModel, ExchangeOutput) {
    if f.id == ProxyMessageId::WifiPingRequest.number() {
        (
            ExchangeState { phase: ExchangePhase::Fetch, ..st },
            ExchangeAction::SendHu {
                id: ProxyMessageId::WifiPingResponse.number(),
                payload: f.payload,
            },
        )
    } else if f.id == ProxyMessageId::WifiStartRequest.number() {
        (ExchangeState { phase: ExchangePhase::Ended, ..st }, ExchangeAction::Start(f.payload))
    } else {
        forward(st, f)
    }
}

pub open spec fn hu_frame(st: ExchangeModel, f: FrameModel) -> (ExchangeModel, ExchangeOutput) {
    if f.id == ProxyMessageId::WifiPingResponse.number() {
        fetch(st)
    } else {
        take(st, f)
    }
}

pub open spec fn too_many_frames() -> Seq<char> {
    "too many HU pre-bootstrap frames before WifiStartRequest; aborting car-wifi-mitm"@
}

pub open spec fn ended_with(st: ExchangeModel, action: ExchangeOutput) -> (
    ExchangeModel,
    ExchangeOutput,
) {
    (ExchangeState { phase: ExchangePhase::Ended, ..st }, action)
}

/// A round is over: the exchange fails if it has passed on too many frames.
pub open spec fn next_round(st: ExchangeModel) -> (ExchangeModel, ExchangeOutput) {
    if st.forwarded > MAX_FORWARDED {
        ended_with(st, ExchangeAction::Fail(too_many_frames()))
    } else {
        fetch(st)
    }
}

/// The phone's answer as it goes to the head unit: the version is set where
/// that of the request was.
pub open spec fn phone_answer(st: ExchangeModel, f: FrameModel) -> Seq<u8> {
    let s = st.settings;
    let rewritten = wire::with_version(
        f.payload,
        s.protocol_version_override_major,
        s.protocol_version_override_minor,
    );
    if f.id == ProxyMessageId::WifiVersionResponse.number() && s.protocol_version_override_enabled
        && st.override_applied && rewritten is Some {
        rewritten->0
    } else {
        f.payload
    }
}

pub open spec fn port_error(port: u32) -> Seq<char> {
    "WifiStartRequest port is out of range for generated proto setter: "@ + text::decimal(
        port as nat,
    )
}

/// Whether a port fits the field of the start request.
pub open spec fn port_fits(port: u32) -> bool {
    port <= 0x7fff_ffff
}

/// Whether an address fits the field of the start request.
pub open spec fn address_fits(ip: Seq<char>) -> bool {
    wifi_iface::byte_len(ip) <= MAX_TEXT
}

pub open spec fn synthesized(st: ExchangeModel) -> ExchangeOutput {
    let (ip, port) = st.endpoint->0;
    if !port_fits(port) {
        ExchangeAction::Fail(port_error(port))
    } else if !address_fits(ip) {
        ExchangeAction::Fail("WifiStartRequest address is too long"@)
    } else {
        ExchangeAction::Synthesized(messages::start_bytes(ip, port as i32))
    }
}

/// Whether an event can follow on what the exchange asked for.
pub open spec fn answers<F>(phase: ExchangePhase, event: ExchangeEvent<F>) -> bool {
    match phase {
        ExchangePhase::Fetch => event is Sent || event is HuFrame,
        ExchangePhase::Forwarding { .. } => event is Sent,
        ExchangePhase::AwaitPhone => event is PhoneFrame,
        ExchangePhase::Answering => event is Sent,
        ExchangePhase::Grace => event is HuFrame || event is Quiet,
        ExchangePhase::Ended => false,
    }
}

/// One step of the exchange.
pub open spec fn exchange_step(st: ExchangeModel, event: ExchangeEvent<FrameModel>) -> (
    ExchangeModel,
    ExchangeOutput,
) {
    match event {
        ExchangeEvent::Sent => match st.phase {
            ExchangePhase::Forwarding { version: true } => (
                ExchangeState { phase: ExchangePhase::AwaitPhone, ..st },
                ExchangeAction::ReadPhone(VERSION_RESPONSE_MS),
            ),
            ExchangePhase::Answering => if st.settings.use_version_projection_fallback
                && st.endpoint is Some {
                (
                    ExchangeState { phase: ExchangePhase::Grace, ..st },
                    ExchangeAction::ReadHuWithin(START_GRACE_MS),
                )
            } else {
                next_round(st)
            },
            _ => next_round(st),
        },
        ExchangeEvent::HuFrame(f) => if st.forwarded > MAX_FORWARDED {
            ended_with(st, ExchangeAction::Fail(too_many_frames()))
        } else {
            hu_frame(st, f)
        },
        ExchangeEvent::PhoneFrame(f) => (
            ExchangeState { phase: ExchangePhase::Answering, ..st },
            ExchangeAction::SendHu { id: f.id, payload: phone_answer(st, f) },
        ),
        ExchangeEvent::Quiet => ended_with(st, synthesized(st)),
    }
}

/// A start request for an endpoint. Read again, it has that endpoint.
pub fn build_wifi_start_request_payload(ip_address: &str, port: u32) -> (r: Result<
    Vec<u8>,
    String,
>)
    ensures
        match r {
            Ok(b) => {
                &&& port_fits(port) && address_fits(ip_address@)
                &&& b@ == messages::start_bytes(ip_address@, port as i32)
                &&& messages::endpoint_in(b@) == Some((ip_address@, port as i32))
            },
            Err(e) => if !port_fits(port) {
                e@ == port_error(port)
            } else {
                !address_fits(ip_address@) && e@ == "WifiStartRequest address is too long"@
            },
        },
{
    if port > 0x7fff_ffff {
        let mut e = String::from_str(
            "WifiStartRequest port is out of range for generated proto setter: ",
        );
        let n = text::decimal_text(port as u64);
        e.append(n.as_str());
        Err(e)
    } else if ip_address.as_bytes().len() > MAX_TEXT {
        Err("WifiStartRequest address is too long".to_owned())
    } else {
        Ok(messages::encode_start(ip_address, port as i32))
    }
}

fn apply_override(
    settings: ExchangeSettings,
    major: Option<u64>,
    minor: Option<u64>,
    payload: Vec<u8>,
) -> (r: (Vec<u8>, bool))
    ensures
        r.0@ == version_override(settings, major, minor, payload@),
        r.1 == (settings.protocol_version_override_enabled && wire::overrides(
            major,
            minor,
            settings.protocol_version_override_major,
            settings.protocol_version_override_minor,
        ) && wire::is_whole(payload@)),
{
    if settings.protocol_version_override_enabled
        && wire::should_override_inspected_protocol_version(
        major,
        minor,
        settings.protocol_version_override_major,
        settings.protocol_version_override_minor,
    ) {
        match wire::override_wifi_version_request_payload(
            &payload,
            settings.protocol_version_override_major,
            settings.protocol_version_override_minor,
        ) {
            Some(rewritten) => (rewritten, true),
            None => (payload, false),
        }
    } else {
        (payload, false)
    }
}

impl ExchangeState<String, Vec<Frame<Vec<u8>>>> {
    /// Begins an exchange with the frames that the head unit sent early.
    pub fn new(settings: ExchangeSettings, buffered: Vec<ProxyFrame>) -> (r: Self)
        ensures
            r.wf(),
            r@ == (ExchangeState::<Seq<char>, Seq<FrameModel>> {
                settings,
                phase: ExchangePhase::Fetch,
                forwarded: 0,
                override_applied: false,
                endpoint: None,
                buffered: buffered.deep_view(),
            }),
    {
        ExchangeState {
            settings,
            phase: ExchangePhase::Fetch,
            forwarded: 0,
            override_applied: false,
            endpoint: None,
            buffered,
        }
    }

    fn forward_frame(&mut self, f: ProxyFrame) -> (r: ExchangeAction<String, Vec<u8>>)
        requires
            old(self).forwarded <= MAX_FORWARDED,
        ensures
            final(self).wf(),
            (final(self)@, r@) == forward(old(self)@, f@),
    {
        let id: u16 = f.id;
        let mut payload = f.payload;
        let mut version = false;
        if id == ProxyMessageId::WifiVersionRequest.as_u16() {
            version = true;
            let request = inspect::inspect_wifi_version_request(&payload);
            match (&request.projection.ip_address, request.projection.port) {
                (Some(ip), Some(port)) => {
                    self.endpoint = Some((ip.clone(), port));
                },
                _ => {},
            }
            let enabled = self.settings.protocol_version_override_enabled;
            if enabled && !wire::should_override_inspected_protocol_version(
                request.major_version,
                request.minor_version,
                self.settings.protocol_version_override_major,
                self.settings.protocol_version_override_minor,
            ) {
                self.override_applied = false;
            }
            let (rewritten, done) = apply_override(
                self.settings,
                request.major_version,
                request.minor_version,
                payload,
            );
            if done {
                self.override_applied = true;
            }
            payload = rewritten;
        } else if id == ProxyMessageId::WifiSetupInfo.as_u16() {
            let setup = inspect::inspect_wifi_setup_info(&payload);
            let (rewritten, _) = apply_override(
                self.settings,
                setup.major_version,
                setup.minor_version,
                payload,
            );
            payload = rewritten;
        }
        self.forwarded = self.forwarded + 1;
        self.phase = ExchangePhase::Forwarding { version };
        ExchangeAction::SendPhone { id, payload }
    }

    fn take_frame(&mut self, f: ProxyFrame) -> (r: ExchangeAction<String, Vec<u8>>)
        requires
            old(self).forwarded <= MAX_FORWARDED,
        ensures
            final(self).wf(),
            (final(self)@, r@) == take(old(self)@, f@),
    {
        if f.id == ProxyMessageId::WifiPingRequest.as_u16() {
            self.phase = ExchangePhase::Fetch;
            ExchangeAction::SendHu {
                id: ProxyMessageId::WifiPingResponse.as_u16(),
                payload: f.payload,
            }
        } else if f.id == ProxyMessageId::WifiStartRequest.as_u16() {
            self.phase = ExchangePhase::Ended;
            ExchangeAction::Start(f.payload)
        } else {
            self.forward_frame(f)
        }
    }

    fn fetch_frame(&mut self) -> (r: ExchangeAction<String, Vec<u8>>)
        requires
            old(self).forwarded <= MAX_FORWARDED,
        ensures
            final(self).wf(),
            (final(self)@, r@) == fetch(old(self)@),
    {
        let ghost start = self@;
        while self.buffered.len() > 0
            invariant
                self.forwarded <= MAX_FORWARDED,
                start == old(self)@,
                fetch(start) == fetch(self@),
            decreases self.buffered@.len(),
        {
            let ghost before = self@;
            let f = self.buffered.remove(0);
            assert(self@.buffered =~= before.buffered.subrange(1, before.buffered.len() as int));
            if f.id != ProxyMessageId::WifiPingResponse.as_u16() {
                return self.take_frame(f);
            }
        }
        self.phase = ExchangePhase::Fetch;
        ExchangeAction::ReadHu
    }

    fn end_round(&mut self) -> (r: ExchangeAction<String, Vec<u8>>)
        requires
            old(self).forwarded <= MAX_FORWARDED + 1,
        ensures
            final(self).wf(),
            (final(self)@, r@) == next_round(old(self)@),
    {
        if self.forwarded > MAX_FORWARDED {
            self.phase = ExchangePhase::Ended;
            ExchangeAction::Fail(
                String::from_str(
                    "too many HU pre-bootstrap frames before WifiStartRequest; aborting car-wifi-mitm",
                ),
            )
        } else {
            self.fetch_frame()
        }
    }

    /// What the exchange asks for first.
    pub fn start(&mut self) -> (r: ExchangeAction<String, Vec<u8>>)
        requires
            old(self).wf(),
            old(self).phase == ExchangePhase::Fetch,
        ensures
            final(self).wf(),
            (final(self)@, r@) == fetch(old(self)@),
    {
        self.fetch_frame()
    }

    /// Takes what came of the last action and tells what to do next.
    pub fn step(&mut self, event: ExchangeEvent<ProxyFrame>) -> (r: ExchangeAction<
        String,
        Vec<u8>,
    >)
        requires
            old(self).wf(),
            answers(old(self).phase, event),
        ensures
            final(self).wf(),
            (final(self)@, r@) == exchange_step(old(self)@, event@),
    {
        match event {
            ExchangeEvent::Sent => {
                match self.phase {
                    ExchangePhase::Forwarding { version } => {
                        if version {
                            self.phase = ExchangePhase::AwaitPhone;
                            ExchangeAction::ReadPhone(VERSION_RESPONSE_MS)
                        } else {
                            self.end_round()
                        }
                    },
                    ExchangePhase::Answering => {
                        if self.settings.use_version_projection_fallback
                            && self.endpoint.is_some() {
                            self.phase = ExchangePhase::Grace;
                            ExchangeAction::ReadHuWithin(START_GRACE_MS)
                        } else {
                            self.end_round()
                        }
                    },
                    _ => self.end_round(),
                }
            },
            ExchangeEvent::HuFrame(f) => {
                if self.forwarded > MAX_FORWARDED {
                    self.end_round()
                } else if f.id == ProxyMessageId::WifiPingResponse.as_u16() {
                    self.fetch_frame()
                } else {
                    self.take_frame(f)
                }
            },
            ExchangeEvent::PhoneFrame(f) => {
                let mut payload = f.payload;
                if f.id == ProxyMessageId::WifiVersionResponse.as_u16()
                    && self.settings.protocol_version_override_enabled && self.override_applied {
                    match wire::override_wifi_version_response_payload(
                        &payload,
                        self.settings.protocol_version_override_major,
                        self.settings.protocol_version_override_minor,
                    ) {
                        Some(rewritten) => {
                            payload = rewritten;
                        },
                        None => {},
                    }
                }
                self.phase = ExchangePhase::Answering;
                ExchangeAction::SendHu { id: f.id, payload }
            },
            ExchangeEvent::Quiet => {
                self.phase = ExchangePhase::Ended;
                match &self.endpoint {
                    Some(e) => {
                        match build_wifi_start_request_payload(e.0.as_str(), e.1) {
                            Ok(payload) => ExchangeAction::Synthesized(payload),
                            Err(error) => ExchangeAction::Fail(error),
                        }
                    },
                    None => vstd::pervasive::unreached(),
                }
            },
        }
    }
}


// ---------------------------------------------------------------------
// Laws

/// A well-formed state stays well-formed, whatever comes.
pub proof fn law_exchange_keeps_its_limits(st: ExchangeModel, event: ExchangeEvent<FrameModel>)
    requires
        st.wf(),
        answers(st.phase, event),
    ensures
        exchange_step(st, event).0.wf(),
        exchange_step(st, event).0.settings == st.settings,
        exchange_step(st, event).0.forwarded >= st.forwarded,
        exchange_step(st, event).1 is SendPhone <==> exchange_step(st, event).0.forwarded
            == st.forwarded + 1,
        exchange_step(st, event).0.forwarded <= MAX_FORWARDED + 1,
{
    lemma_fetch(st);
}

proof fn lemma_fetch(st: ExchangeModel)
    ensures
        fetch(st).0.settings == st.settings,
        fetch(st).0.forwarded == st.forwarded + (if fetch(st).1 is SendPhone {
            1int
        } else {
            0int
        }) || st.forwarded == usize::MAX,
        fetch(st).0.phase != ExchangePhase::Grace,
        fetch(st).0.phase == ExchangePhase::Fetch ==> fetch(st).0.forwarded == st.forwarded,
        fetch(st).1 !is Synthesized,
        fetch(st).1 !is Fail,
        fetch(st).0.buffered.len() <= st.buffered.len(),
        fetch(st).0.buffered == st.buffered.subrange(
            st.buffered.len() - fetch(st).0.buffered.len(),
            st.buffered.len() as int,
        ),
        match fetch(st).1 {
            ExchangeAction::SendPhone { id, payload } => exists|f: FrameModel|
                st.buffered.contains(f) && is_passed_on(st.settings, f, id, payload),
            ExchangeAction::SendHu { id, payload } => exists|f: FrameModel|
                st.buffered.contains(f) && is_ping_reply(f, id, payload),
            ExchangeAction::Start(payload) => exists|f: FrameModel|
                st.buffered.contains(f) && is_start(f, payload),
            _ => true,
        },
    decreases st.buffered.len(),
{
    if st.buffered.len() == 0 {
        assert(fetch(st).0.buffered =~= st.buffered.subrange(
            st.buffered.len() - fetch(st).0.buffered.len(),
            st.buffered.len() as int,
        ));
    } else {
        let f = st.buffered[0];
        let tail = st.buffered.subrange(1, st.buffered.len() as int);
        let rest = ExchangeState { buffered: tail, ..st };
        assert(st.buffered.contains(f));
        if f.id == ProxyMessageId::WifiPingResponse.number() {
            lemma_fetch(rest);
            assert forall|g: FrameModel| tail.contains(g) implies st.buffered.contains(g) by {
                let i = choose|i: int| 0 <= i < tail.len() && tail[i] == g;
                assert(st.buffered[i + 1] == g);
            }
        } else {
            lemma_take(rest, f);
        }
        assert(fetch(st).0.buffered =~= st.buffered.subrange(
            st.buffered.len() - fetch(st).0.buffered.len(),
            st.buffered.len() as int,
        ));
    }
}

proof fn lemma_take(st: ExchangeModel, f: FrameModel)
    requires
        f.id != ProxyMessageId::WifiPingResponse.number(),
    ensures
        match take(st, f).1 {
            ExchangeAction::SendPhone { id, payload } => is_passed_on(st.settings, f, id, payload),
            ExchangeAction::SendHu { id, payload } => is_ping_reply(f, id, payload),
            ExchangeAction::Start(payload) => is_start(f, payload),
            _ => true,
        },
{
}

/// A ping request is answered with its own payload.
pub open spec fn is_ping_reply(f: FrameModel, id: u16, payload: Seq<u8>) -> bool {
    &&& f.id == ProxyMessageId::WifiPingRequest.number()
    &&& id == ProxyMessageId::WifiPingResponse.number()
    &&& payload == f.payload
}

pub open spec fn is_start(f: FrameModel, payload: Seq<u8>) -> bool {
    f.id == ProxyMessageId::WifiStartRequest.number() && payload == f.payload
}

/// A frame passed on keeps its id, is no ping and no start request, and keeps
/// its payload unless it carries a version that is set.
pub open spec fn is_passed_on(
    settings: ExchangeSettings,
    f: FrameModel,
    id: u16,
    payload: Seq<u8>,
) -> bool {
    &&& id == f.id
    &&& id != ProxyMessageId::WifiPingRequest.number()
    &&& id != ProxyMessageId::WifiPingResponse.number()
    &&& id != ProxyMessageId::WifiStartRequest.number()
    &&& payload == f.payload || {
        &&& settings.protocol_version_override_enabled
        &&& id == ProxyMessageId::WifiVersionRequest.number() || id
            == ProxyMessageId::WifiSetupInfo.number()
        &&& wire::with_version(
            f.payload,
            settings.protocol_version_override_major,
            settings.protocol_version_override_minor,
        ) == Some(payload)
    }
}

/// The frame that an event brought, or one that had been buffered.
pub open spec fn is_hu_frame(
    st: ExchangeModel,
    event: ExchangeEvent<FrameModel>,
    f: FrameModel,
) -> bool {
    st.buffered.contains(f) || event == ExchangeEvent::HuFrame(f)
}

/// Everything that goes to the phone is a frame of the head unit that is passed
/// on; pings are answered and never passed on; a start request ends the
/// exchange with its own payload.
pub proof fn law_exchange_passes_frames_on(st: ExchangeModel, event: ExchangeEvent<FrameModel>)
    requires
        st.wf(),
        answers(st.phase, event),
    ensures
        match exchange_step(st, event).1 {
            ExchangeAction::SendPhone { id, payload } => exists|f: FrameModel|
                is_hu_frame(st, event, f) && is_passed_on(st.settings, f, id, payload),
            ExchangeAction::SendHu { id, payload } => event is PhoneFrame || exists|f: FrameModel|
                is_hu_frame(st, event, f) && is_ping_reply(f, id, payload),
            ExchangeAction::Start(payload) => exists|f: FrameModel|
                is_hu_frame(st, event, f) && is_start(f, payload),
            ExchangeAction::Synthesized(payload) => {
                &&& event is Quiet
                &&& st.endpoint matches Some(e) && payload == messages::start_bytes(
                    e.0,
                    e.1 as i32,
                )
            },
            _ => true,
        },
{
    lemma_fetch(st);
    if event is HuFrame {
        let f = event->HuFrame_0;
        if f.id != ProxyMessageId::WifiPingResponse.number() {
            lemma_take(st, f);
            assert(is_hu_frame(st, event, f));
        }
    }
    match fetch(st).1 {
        ExchangeAction::SendPhone { id, payload } => {
            let f = choose|f: FrameModel|
                st.buffered.contains(f) && is_passed_on(st.settings, f, id, payload);
            assert(is_hu_frame(st, event, f));
        },
        ExchangeAction::SendHu { id, payload } => {
            let f = choose|f: FrameModel| st.buffered.contains(f) && is_ping_reply(f, id, payload);
            assert(is_hu_frame(st, event, f));
        },
        ExchangeAction::Start(payload) => {
            let f = choose|f: FrameModel| st.buffered.contains(f) && is_start(f, payload);
            assert(is_hu_frame(st, event, f));
        },
        _ => {},
    }
}

/// Buffered frames are used up from the front, in the order in which they came.
pub proof fn law_buffered_frames_keep_their_order(
    st: ExchangeModel,
    event: ExchangeEvent<FrameModel>,
)
    requires
        st.wf(),
        answers(st.phase, event),
    ensures
        exchange_step(st, event).0.buffered.len() <= st.buffered.len(),
        exchange_step(st, event).0.buffered == st.buffered.subrange(
            st.buffered.len() - exchange_step(st, event).0.buffered.len(),
            st.buffered.len() as int,
        ),
{
    lemma_fetch(st);
    assert(st.buffered.subrange(0, st.buffered.len() as int) =~= st.buffered);
}

/// Whether a version is known and not below another one.
pub open spec fn is_new_enough(
    major: Option<u64>,
    minor: Option<u64>,
    target_major: u16,
    target_minor: u16,
) -> bool {
    major matches Some(a) && (minor matches Some(b) && (a > target_major || (a == target_major && b
        >= target_minor)))
}

/// Whether a payload has the wanted version in place of another one's, and every field
/// of it that is no version as it was.
pub open spec fn has_version_of(before: Seq<u8>, after: Seq<u8>, major: u16, minor: u16) -> bool {
    let fs = wire::fields(before);
    let gs = wire::fields(after);
    &&& wire::is_whole(after)
    &&& gs.len() >= fs.len()
    &&& forall|i: int|
        0 <= i < gs.len() ==> (#[trigger] gs[i] == fs[i] && i < fs.len()) || (gs[i].key == 8
            && gs[i].value == wire::FieldValue::Varint(major as u64)) || (gs[i].key == 16
            && gs[i].value == wire::FieldValue::Varint(minor as u64))
    &&& forall|i: int|
        0 <= i < fs.len() && (#[trigger] fs[i]).key != 8 && fs[i].key != 16 ==> gs[i] == fs[i]
    &&& exists|i: int| 0 <= i < gs.len() && (#[trigger] gs[i]).key == 8
    &&& exists|i: int| 0 <= i < gs.len() && (#[trigger] gs[i]).key == 16
}

proof fn lemma_overridden_has_version(payload: Seq<u8>, major: u16, minor: u16)
    requires
        wire::is_whole(payload),
    ensures
        wire::with_version(payload, major, minor) is Some,
        has_version_of(payload, wire::with_version(payload, major, minor)->0, major, minor),
{
    wire::law_override_sets_only_the_version(payload, major, minor);
    let fs = wire::fields(payload);
    let out = wire::with_version(payload, major, minor)->0;
    let gs = wire::fields(out);
    wire::lemma_fields_stand_alone(payload, 0);
    assert forall|i: int| 0 <= i < fs.len() implies #[trigger] gs[i] == wire::after_override(
        fs[i],
        major,
        minor,
    ) by {}
    assert forall|i: int| 0 <= i < gs.len() implies (#[trigger] gs[i] == fs[i] && i < fs.len()) || (
    gs[i].key == 8 && gs[i].value == wire::FieldValue::Varint(major as u64)) || (gs[i].key == 16
        && gs[i].value == wire::FieldValue::Varint(minor as u64)) by {
        if i < fs.len() {
            assert(gs[i] == wire::after_override(fs[i], major, minor));
        }
    }
    assert forall|i: int|
        0 <= i < fs.len() && (#[trigger] fs[i]).key != 8 && fs[i].key != 16 implies gs[i]
        == fs[i] by {
        assert(gs[i] == wire::after_override(fs[i], major, minor));
    }
    if wire::has_version_field(fs, 1) {
        let i = choose|i: int| 0 <= i < fs.len() && wire::is_version_field(#[trigger] fs[i], 1);
        assert(gs[i].key == 8);
    } else {
        assert(gs[fs.len() as int].key == 8);
    }
    if wire::has_version_field(fs, 2) {
        let i = choose|i: int| 0 <= i < fs.len() && wire::is_version_field(#[trigger] fs[i], 2);
        assert(gs[i].key == 16);
    } else {
        assert(gs[gs.len() - 1].key == 16);
    }
}

/// A frame of the phone goes to the head unit under its own id and as it is. Only a
/// version response has its version set, and only where that of the request was.
pub proof fn law_phone_frames_are_passed_back(st: ExchangeModel, f: FrameModel)
    requires
        st.wf(),
        st.phase == ExchangePhase::AwaitPhone,
    ensures
        exchange_step(st, ExchangeEvent::PhoneFrame(f)).1 matches ExchangeAction::SendHu {
            id,
            payload,
        } && id == f.id && (if f.id == 5 && st.settings.protocol_version_override_enabled
            && st.override_applied && wire::is_whole(f.payload) {
            has_version_of(
                f.payload,
                payload,
                st.settings.protocol_version_override_major,
                st.settings.protocol_version_override_minor,
            )
        } else {
            payload == f.payload
        }),
{
    if wire::is_whole(f.payload) {
        lemma_overridden_has_version(
            f.payload,
            st.settings.protocol_version_override_major,
            st.settings.protocol_version_override_minor,
        );
    }
}

/// What becomes of a frame of the head unit: a ping is answered with its own payload,
/// a start request ends the exchange, and any other frame goes to the phone under its
/// own id and as it is. Only a version request and a setup info have their version set,
/// where that is wanted, possible and not done already.
pub proof fn law_hu_frames_are_passed_on(st: ExchangeModel, f: FrameModel)
    requires
        st.wf(),
        st.forwarded <= 32,
        st.phase == ExchangePhase::Fetch || st.phase == ExchangePhase::Grace,
    ensures
        ({
            let (next, out) = exchange_step(st, ExchangeEvent::HuFrame(f));
            let s = st.settings;
            let shown = if f.id == 4 {
                (
                    inspect::version_request(f.payload).major_version,
                    inspect::version_request(f.payload).minor_version,
                )
            } else {
                (
                    inspect::setup_info(f.payload).major_version,
                    inspect::setup_info(f.payload).minor_version,
                )
            };
            let target = (s.protocol_version_override_major, s.protocol_version_override_minor);
            if f.id == 8 {
                out matches ExchangeAction::SendHu { id, payload } && id == 9 && payload
                    == f.payload && next.phase == ExchangePhase::Fetch
            } else if f.id == 1 {
                out matches ExchangeAction::Start(payload) && payload == f.payload && next.phase
                    == ExchangePhase::Ended
            } else if f.id == 9 {
                st.buffered.len() == 0 ==> out is ReadHu
            } else {
                &&& out matches ExchangeAction::SendPhone { id, payload } && id == f.id && (if (
                f.id == 4 || f.id == 11) && s.protocol_version_override_enabled
                    && wire::is_whole(f.payload) && !is_new_enough(
                    shown.0,
                    shown.1,
                    target.0,
                    target.1,
                ) {
                    has_version_of(f.payload, payload, target.0, target.1)
                } else {
                    payload == f.payload
                })
                &&& next.forwarded == st.forwarded + 1
                &&& next.buffered == st.buffered
            }
        }),
{
    if wire::is_whole(f.payload) {
        lemma_overridden_has_version(
            f.payload,
            st.settings.protocol_version_override_major,
            st.settings.protocol_version_override_minor,
        );
    }
}

/// Frames that the head unit sent early are dealt with as if they came now.
pub proof fn law_buffered_frame_counts_as_read(st: ExchangeModel)
    requires
        st.buffered.len() > 0,
    ensures
        fetch(st) == hu_frame(
            ExchangeState { buffered: st.buffered.subrange(1, st.buffered.len() as int), ..st },
            st.buffered[0],
        ),
        st.forwarded <= 32 ==> exchange_step(
            ExchangeState { buffered: st.buffered.subrange(1, st.buffered.len() as int), ..st },
            ExchangeEvent::HuFrame(st.buffered[0]),
        ) == fetch(st),
{
}

/// The phone is asked for its version exactly behind a version request; behind another
/// frame the head unit is heard again.
pub proof fn law_version_request_is_answered(st: ExchangeModel, f: FrameModel)
    requires
        st.wf(),
        st.forwarded < 32,
        st.phase == ExchangePhase::Fetch || st.phase == ExchangePhase::Grace,
        st.buffered.len() == 0,
        f.id != 1 && f.id != 8 && f.id != 9,
    ensures
        ({
            let sent = exchange_step(st, ExchangeEvent::HuFrame(f)).0;
            let (next, out) = exchange_step(sent, ExchangeEvent::Sent);
            if f.id == 4 {
                out == ExchangeOutput::ReadPhone(10000) && next.phase == ExchangePhase::AwaitPhone
            } else {
                out is ReadHu && next.phase == ExchangePhase::Fetch
            }
        }),
{
}

/// The phone's version is set exactly if that of the request was: two versions that
/// were told to both sides agree.
pub proof fn law_answer_follows_the_request(st: ExchangeModel, request: FrameModel, answer: FrameModel)
    requires
        st.wf(),
        st.forwarded <= 32,
        st.phase == ExchangePhase::Fetch || st.phase == ExchangePhase::Grace,
        request.id == 4,
        answer.id == 5,
        wire::is_whole(request.payload),
        wire::is_whole(answer.payload),
    ensures
        ({
            let s = st.settings;
            let shown = inspect::version_request(request.payload);
            let sent = exchange_step(st, ExchangeEvent::HuFrame(request)).0;
            let asked = exchange_step(sent, ExchangeEvent::Sent).0;
            let out = exchange_step(asked, ExchangeEvent::PhoneFrame(answer)).1;
            out matches ExchangeAction::SendHu { id, payload } && id == 5 && (if
            s.protocol_version_override_enabled && !is_new_enough(
                shown.major_version,
                shown.minor_version,
                s.protocol_version_override_major,
                s.protocol_version_override_minor,
            ) {
                has_version_of(
                    answer.payload,
                    payload,
                    s.protocol_version_override_major,
                    s.protocol_version_override_minor,
                )
            } else {
                payload == answer.payload
            })
        }),
{
    lemma_overridden_has_version(
        answer.payload,
        st.settings.protocol_version_override_major,
        st.settings.protocol_version_override_minor,
    );
}

/// A head unit that names its endpoint in a version request and then falls silent is
/// taken at its word: the start request is made up for that endpoint. It gets three
/// seconds to send one of its own.
pub proof fn law_silent_head_unit_is_taken_at_its_word(
    st: ExchangeModel,
    request: FrameModel,
    answer: FrameModel,
)
    requires
        st.wf(),
        st.forwarded < 32,
        st.phase == ExchangePhase::Fetch || st.phase == ExchangePhase::Grace,
        request.id == 4,
        inspect::version_request(request.payload).projection.ip_address is Some,
        inspect::version_request(request.payload).projection.port is Some,
    ensures
        ({
            let p = inspect::version_request(request.payload).projection;
            let (ip, port) = (p.ip_address->0, p.port->0);
            let sent = exchange_step(st, ExchangeEvent::HuFrame(request)).0;
            let asked = exchange_step(sent, ExchangeEvent::Sent).0;
            let answered = exchange_step(asked, ExchangeEvent::PhoneFrame(answer)).0;
            let (waiting, out) = exchange_step(answered, ExchangeEvent::Sent);
            if st.settings.use_version_projection_fallback {
                &&& out == ExchangeOutput::ReadHuWithin(3000)
                &&& port <= 0x7fff_ffff && wifi_iface::byte_len(ip) <= MAX_TEXT ==> exchange_step(
                    waiting,
                    ExchangeEvent::Quiet,
                ).1 == ExchangeOutput::Synthesized(
                    messages::string_field(1, ip) + wire::int32_field(2, port as i32),
                )
                &&& port > 0x7fff_ffff ==> exchange_step(waiting, ExchangeEvent::Quiet).1 is Fail
            } else {
                out !is ReadHuWithin
            }
        }),
{
    let sent = exchange_step(st, ExchangeEvent::HuFrame(request)).0;
    let asked = exchange_step(sent, ExchangeEvent::Sent).0;
    let answered = exchange_step(asked, ExchangeEvent::PhoneFrame(answer)).0;
    lemma_fetch(answered);
    lemma_no_timed_read(answered);
}

proof fn lemma_no_timed_read(st: ExchangeModel)
    ensures
        fetch(st).1 !is ReadHuWithin,
    decreases st.buffered.len(),
{
    if st.buffered.len() > 0 && st.buffered[0].id == ProxyMessageId::WifiPingResponse.number() {
        lemma_no_timed_read(
            ExchangeState { buffered: st.buffered.subrange(1, st.buffered.len() as int), ..st },
        );
    }
}

/// The exchange is given up behind the thirty-third frame for the phone, and not
/// before.
pub proof fn law_exchange_is_given_up(st: ExchangeModel, event: ExchangeEvent<FrameModel>)
    requires
        st.wf(),
        answers(st.phase, event),
        event is HuFrame || (event is Sent && (st.phase == ExchangePhase::Forwarding {
            version: false,
        } || st.phase == ExchangePhase::Fetch)),
    ensures
        exchange_step(st, event).1 is Fail <==> st.forwarded >= 33,
{
    lemma_fetch(st);
    if let ExchangeEvent::HuFrame(f) = event {
        if f.id != ProxyMessageId::WifiPingResponse.number() {
            lemma_take(st, f);
        }
    }
}

/// What becomes of the phone's frames while a message is awaited: that one is handed
/// on; pings are answered, answers to pings dropped; and a phone that asks for the
/// network again, where it should say whether it starts, is told it again.
pub proof fn law_awaited_message_is_handed_on(expected: ProxyMessageId, id: u16, cached: bool)
    ensures
        ({
            let r = phone_frame_use(expected, id, cached);
            &&& id == expected.number() ==> r == PhoneFrameUse::Return
            &&& id != expected.number() ==> {
                &&& r == PhoneFrameUse::ReplyPing <==> id == 8
                &&& r == PhoneFrameUse::Ignore <==> id == 9
                &&& r == PhoneFrameUse::ResendWifiInfo <==> id == 2 && cached && expected
                    == ProxyMessageId::WifiStartResponse
            }
        }),
{
}

/// An error is taken for a dropped connection wherever in it one of the system's words
/// for that stands.
pub proof fn law_dropped_connections_are_told_by_their_words(a: Seq<char>, b: Seq<char>)
    ensures
        is_dropped_connection(a + "Connection reset by peer"@ + b),
        is_dropped_connection(a + "Software caused connection abort"@ + b),
        is_dropped_connection(a + "Broken pipe"@ + b),
        is_dropped_connection(a + "Transport endpoint is not connected"@ + b),
        is_dropped_connection(a + "peer closed"@ + b),
        is_dropped_connection(a + "unexpected end of file"@ + b),
        is_dropped_connection(a + "early eof"@ + b),
        is_dropped_connection(a) ==> text::holds(a, "Connection reset by peer"@) || text::holds(
            a,
            "Software caused connection abort"@,
        ) || text::holds(a, "Broken pipe"@) || text::holds(
            a,
            "Transport endpoint is not connected"@,
        ) || text::holds(a, "peer closed"@) || text::holds(a, "unexpected end of file"@)
            || text::holds(a, "early eof"@),
{
    text::lemma_holds_within(a, "Connection reset by peer"@, b);
    text::lemma_holds_within(a, "Software caused connection abort"@, b);
    text::lemma_holds_within(a, "Broken pipe"@, b);
    text::lemma_holds_within(a, "Transport endpoint is not connected"@, b);
    text::lemma_holds_within(a, "peer closed"@, b);
    text::lemma_holds_within(a, "unexpected end of file"@, b);
    text::lemma_holds_within(a, "early eof"@, b);
}

/// What becomes of a frame of the phone while another one is awaited: the one
/// that is awaited is handed on; a ping is answered, the answer to one passed
/// over; a second request for the network, while the start is awaited, is
/// answered from what was kept; every other frame is handed on.
pub proof fn law_phone_frames_are_dealt_with(expected: ProxyMessageId, id: u16, kept: bool)
    ensures
        ({
            let got = phone_frame_use(expected, id, kept);
            let awaited = expected.number() == id;
            &&& awaited ==> got == PhoneFrameUse::Return
            &&& got == PhoneFrameUse::ReplyPing <==> !awaited && id == 8
            &&& got == PhoneFrameUse::Ignore <==> !awaited && id == 9
            &&& got == PhoneFrameUse::ResendWifiInfo <==> expected
                == ProxyMessageId::WifiStartResponse && id == 2 && kept
        }),
{
}

} // verus!
