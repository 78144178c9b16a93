//! The service discovery query by which the head unit's RFCOMM channel is found.

use crate::frame;
use crate::text;
use vstd::prelude::*;
use vstd::string::StringExecFns;

verus! {

pub const SDP_PSM: u16 = 0x0001;

pub const SDP_PDU_ERROR_RESPONSE: u8 = 0x01;

pub const SDP_PDU_SERVICE_SEARCH_ATTRIBUTE_REQUEST: u8 = 0x06;

pub const SDP_PDU_SERVICE_SEARCH_ATTRIBUTE_RESPONSE: u8 = 0x07;

/// As many attribute bytes as phones ask for.
pub const SDP_PHONE_LIKE_MAX_ATTRIBUTE_BYTES: u16 = 0x03f0;

/// The range of all attributes.
pub const SDP_ATTR_RANGE_ALL: u32 = 0x0000ffff;

/// The service of wireless Android Auto.
pub const AAWG_PROFILE_UUID: u128 = 0x4de17a0052cb11e6bdf40800200c9a66;

pub open spec fn aawg_uuid_text() -> Seq<char> {
    "4de17a00-52cb-11e6-bdf4-0800200c9a66"@
}

// ---------------------------------------------------------------------
// Data elements

/// The low `width` bytes of a number, the highest first.
pub open spec fn big_endian(n: nat, width: nat) -> Seq<u8>
    decreases width,
{
    if width == 0 {
        Seq::empty()
    } else {
        big_endian(n / 256, (width - 1) as nat).push((n % 256) as u8)
    }
}

fn push_big_endian(out: &mut Vec<u8>, n: u128, width: usize)
    ensures
        final(out)@ == old(out)@ + big_endian(n as nat, width as nat),
    decreases width,
{
    let ghost before = out@;
    if width > 0 {
        push_big_endian(out, n / 256, width - 1);
        out.push((n % 256) as u8);
    }
    assert(out@ =~= before + big_endian(n as nat, width as nat));
}

proof fn lemma_big_endian_len(n: nat, width: nat)
    ensures
        big_endian(n, width).len() == width,
    decreases width,
{
    if width > 0 {
        lemma_big_endian_len(n / 256, (width - 1) as nat);
    }
}

/// A sequence whose length fits into one byte.
pub open spec fn sequence_element(payload: Seq<u8>) -> Seq<u8> {
    seq![0x35u8, payload.len() as u8] + payload
}

pub fn sdp_de_sequence_u8(payload: Vec<u8>) -> (r: Result<Vec<u8>, String>)
    ensures
        match r {
            Ok(out) => payload@.len() <= 255 && out@ == sequence_element(payload@),
            Err(e) => payload@.len() > 255 && e@ == "SDP sequence too long for u8 length: "@
                + text::decimal(payload@.len()),
        },
{
    if payload.len() > 255 {
        let mut e = String::from_str("SDP sequence too long for u8 length: ");
        let n = text::decimal_text(payload.len() as u64);
        e.append(n.as_str());
        return Err(e);
    }
    let mut out: Vec<u8> = Vec::new();
    out.push(0x35);
    out.push(payload.len() as u8);
    out.extend_from_slice(&payload);
    assert(out@ =~= sequence_element(payload@));
    Ok(out)
}

pub open spec fn uuid_element(uuid: u128) -> Seq<u8> {
    seq![0x1cu8] + big_endian(uuid as nat, 16)
}

pub fn sdp_de_uuid128(uuid: u128) -> (r: Vec<u8>)
    ensures
        r@ == uuid_element(uuid),
{
    let mut out: Vec<u8> = Vec::new();
    out.push(0x1c);
    push_big_endian(&mut out, uuid, 16);
    assert(out@ =~= uuid_element(uuid));
    out
}

pub open spec fn uint32_element(value: u32) -> Seq<u8> {
    seq![0x0au8] + big_endian(value as nat, 4)
}

pub fn sdp_de_uint32(value: u32) -> (r: Vec<u8>)
    ensures
        r@ == uint32_element(value),
{
    let mut out: Vec<u8> = Vec::new();
    out.push(0x0a);
    push_big_endian(&mut out, value as u128, 4);
    assert(out@ =~= uint32_element(value));
    out
}

// ---------------------------------------------------------------------
// The request

pub open spec fn request_params(uuid: u128, continuation: Seq<u8>) -> Seq<u8> {
    sequence_element(uuid_element(uuid)) + frame::be16(SDP_PHONE_LIKE_MAX_ATTRIBUTE_BYTES)
        + sequence_element(uint32_element(SDP_ATTR_RANGE_ALL)) + seq![continuation.len() as u8]
        + continuation
}

/// A request for all attributes of the services with a UUID, from where the
/// continuation state says.
pub open spec fn request_pdu(transaction_id: u16, uuid: u128, continuation: Seq<u8>) -> Seq<u8> {
    let params = request_params(uuid, continuation);
    seq![SDP_PDU_SERVICE_SEARCH_ATTRIBUTE_REQUEST] + frame::be16(transaction_id) + frame::be16(
        params.len() as u16,
    ) + params
}

pub open spec fn continuation_error(len: nat) -> Seq<char> {
    "SDP continuation state too long: "@ + text::decimal(len)
}

pub fn build_sdp_service_search_attribute_request(
    transaction_id: u16,
    service_uuid: u128,
    continuation_state: &[u8],
) -> (r: Result<Vec<u8>, String>)
    ensures
        match r {
            Ok(pdu) => continuation_state@.len() <= 255 && pdu@ == request_pdu(
                transaction_id,
                service_uuid,
                continuation_state@,
            ),
            Err(e) => continuation_state@.len() > 255 && e@ == continuation_error(
                continuation_state@.len(),
            ),
        },
{
    if continuation_state.len() > 255 {
        let mut e = String::from_str("SDP continuation state too long: ");
        let n = text::decimal_text(continuation_state.len() as u64);
        e.append(n.as_str());
        return Err(e);
    }
    proof {
        lemma_big_endian_len(service_uuid as nat, 16);
        lemma_big_endian_len(SDP_ATTR_RANGE_ALL as nat, 4);
    }
    let service_search_pattern = sdp_de_sequence_u8(sdp_de_uuid128(service_uuid))?;
    let attribute_id_list = sdp_de_sequence_u8(sdp_de_uint32(SDP_ATTR_RANGE_ALL))?;
    let mut params: Vec<u8> = Vec::new();
    params.extend_from_slice(&service_search_pattern);
    frame::push_be16(&mut params, SDP_PHONE_LIKE_MAX_ATTRIBUTE_BYTES);
    params.extend_from_slice(&attribute_id_list);
    params.push(continuation_state.len() as u8);
    params.extend_from_slice(continuation_state);
    assert(params@ =~= request_params(service_uuid, continuation_state@));
    assert(params@.len() <= 0xffff);
    let mut pdu: Vec<u8> = Vec::new();
    pdu.push(SDP_PDU_SERVICE_SEARCH_ATTRIBUTE_REQUEST);
    frame::push_be16(&mut pdu, transaction_id);
    frame::push_be16(&mut pdu, params.len() as u16);
    pdu.extend_from_slice(&params);
    assert(pdu@ =~= request_pdu(transaction_id, service_uuid, continuation_state@));
    Ok(pdu)
}

/// The id, the transaction and the parameter length that a header announces.
pub fn read_sdp_pdu(header: &[u8; 5]) -> (r: (u8, u16, usize))
    ensures
        r.0 == header@[0],
        r.1 == frame::from_be16(header@[1], header@[2]),
        r.2 == frame::from_be16(header@[3], header@[4]),
{
    let len: u16 = frame::read_be16(header[3], header[4]);
    (header[0], frame::read_be16(header[1], header[2]), len as usize)
}

// ---------------------------------------------------------------------
// Errors

pub open spec fn sdp_error_label(code: u16) -> Seq<char> {
    if code == 1 {
        "Invalid/unsupported SDP version"@
    } else if code == 2 {
        "Invalid service record handle"@
    } else if code == 3 {
        "Invalid request syntax"@
    } else if code == 4 {
        "Invalid PDU size"@
    } else if code == 5 {
        "Invalid continuation state"@
    } else if code == 6 {
        "Insufficient resources"@
    } else {
        "Unknown SDP error"@
    }
}

pub open spec fn sdp_error_text(params: Seq<u8>) -> Seq<char> {
    if params.len() < 2 {
        "short SDP ErrorResponse params="@ + text::hex_bytes(params)
    } else {
        let code = frame::from_be16(params[0], params[1]);
        sdp_error_label(code) + " code=0x"@ + text::hex_fixed(code as nat, 4) + " params="@
            + text::hex_bytes(params)
    }
}

pub fn describe_sdp_error_response(params: &[u8]) -> (r: String)
    ensures
        r@ == sdp_error_text(params@),
{
    let bytes = text::hex_encode(params);
    if params.len() < 2 {
        let mut out = String::from_str("short SDP ErrorResponse params=");
        out.append(bytes.as_str());
        return out;
    }
    let code: u16 = frame::read_be16(params[0], params[1]);
    let label = if code == 1 {
        "Invalid/unsupported SDP version"
    } else if code == 2 {
        "Invalid service record handle"
    } else if code == 3 {
        "Invalid request syntax"
    } else if code == 4 {
        "Invalid PDU size"
    } else if code == 5 {
        "Invalid continuation state"
    } else if code == 6 {
        "Insufficient resources"
    } else {
        "Unknown SDP error"
    };
    let mut out = String::from_str(label);
    out.append(" code=0x");
    let digits = text::hex_text(code as u64, 4);
    out.append(digits.as_str());
    out.append(" params=");
    out.append(bytes.as_str());
    out
}

// ---------------------------------------------------------------------
// The channel

pub open spec fn as_channel(value: int) -> Option<u8> {
    if 1 <= value <= 30 {
        Some(value as u8)
    } else {
        None
    }
}

/// The RFCOMM channel in the unsigned integer at `pos`.
pub open spec fn channel_at(bytes: Seq<u8>, pos: int) -> Option<u8> {
    if !(0 <= pos < bytes.len()) {
        None
    } else if bytes[pos] == 0x08 && pos + 1 < bytes.len() {
        as_channel(bytes[pos + 1] as int)
    } else if bytes[pos] == 0x09 && pos + 2 < bytes.len() {
        as_channel(bytes[pos + 1] * 256 + bytes[pos + 2])
    } else if bytes[pos] == 0x0a && pos + 4 < bytes.len() {
        as_channel(
            ((bytes[pos + 1] * 256 + bytes[pos + 2]) * 256 + bytes[pos + 3]) * 256 + bytes[pos
                + 4],
        )
    } else {
        None
    }
}

fn channel_of(value: u64) -> (r: Option<u8>)
    ensures
        r == as_channel(value as int),
{
    if 1 <= value && value <= 30 {
        Some(value as u8)
    } else {
        None
    }
}

pub fn parse_rfcomm_channel_after_uuid16(bytes: &[u8], pos: usize) -> (r: Option<u8>)
    ensures
        r == channel_at(bytes@, pos as int),
{
    if pos >= bytes.len() {
        return None;
    }
    let room: usize = bytes.len() - pos;
    let tag: u8 = bytes[pos];
    if tag == 0x08 && room > 1 {
        channel_of(bytes[pos + 1] as u64)
    } else if tag == 0x09 && room > 2 {
        channel_of(bytes[pos + 1] as u64 * 256 + bytes[pos + 2] as u64)
    } else if tag == 0x0a && room > 4 {
        let high: u64 = bytes[pos + 1] as u64 * 256 + bytes[pos + 2] as u64;
        channel_of((high * 256 + bytes[pos + 3] as u64) * 256 + bytes[pos + 4] as u64)
    } else {
        None
    }
}

/// Whether the UUID of RFCOMM stands at `pos`.
pub open spec fn rfcomm_uuid_at(bytes: Seq<u8>, pos: int) -> bool {
    0 <= pos && pos + 3 <= bytes.len() && bytes[pos] == 0x19 && bytes[pos + 1] == 0x00 && bytes[pos
        + 2] == 0x03
}

/// The channel behind the RFCOMM UUID at `pos`, if both are there.
pub open spec fn rfcomm_channel_at(bytes: Seq<u8>, pos: int) -> Option<u8> {
    if rfcomm_uuid_at(bytes, pos) {
        channel_at(bytes, pos + 3)
    } else {
        None
    }
}

/// The first channel that follows on an RFCOMM UUID from `pos` on.
pub open spec fn first_channel(bytes: Seq<u8>, pos: int) -> Option<u8>
    decreases bytes.len() - pos,
{
    if pos >= bytes.len() {
        None
    } else if rfcomm_channel_at(bytes, pos) is Some {
        rfcomm_channel_at(bytes, pos)
    } else {
        first_channel(bytes, pos + 1)
    }
}

pub fn extract_rfcomm_channel_from_sdp_attribute_lists(bytes: &[u8]) -> (r: Option<u8>)
    ensures
        r == first_channel(bytes@, 0),
{
    let n: usize = bytes.len();
    for i in 0..n
        invariant
            n == bytes@.len(),
            first_channel(bytes@, 0) == first_channel(bytes@, i as int),
    {
        if n - i >= 3 && bytes[i] == 0x19 && bytes[i + 1] == 0x00 && bytes[i + 2] == 0x03 {
            let found = parse_rfcomm_channel_after_uuid16(bytes, i + 3);
            if found.is_some() {
                return found;
            }
        }
    }
    None
}

// ---------------------------------------------------------------------
// The query

/// How many requests one query may take.
pub const MAX_REQUESTS: u16 = 8;

/// A query under way: what the head unit has sent, and where to go on.
pub struct Query<B> {
    pub attribute_lists: B,
    pub continuation: B,
    pub requests: u16,
    pub complete: bool,
}

pub type SdpQuery = Query<Vec<u8>>;

impl View for Query<Vec<u8>> {
    type V = Query<Seq<u8>>;

    open spec fn view(&self) -> Query<Seq<u8>> {
        Query {
            attribute_lists: self.attribute_lists@,
            continuation: self.continuation@,
            requests: self.requests,
            complete: self.complete,
        }
    }
}

/// The number of attribute bytes that a response announces.
pub open spec fn attr_count(params: Seq<u8>) -> int {
    frame::from_be16(params[0], params[1]) as int
}

pub open spec fn cont_len(params: Seq<u8>) -> int {
    params[2 + attr_count(params)] as int
}

/// What is wrong with a response, if anything is.
pub open spec fn response_error(pdu_id: u8, params: Seq<u8>) -> Option<Seq<char>> {
    if pdu_id == SDP_PDU_ERROR_RESPONSE {
        Some(
            "HU returned SDP ErrorResponse for AA Wireless UUID "@ + aawg_uuid_text() + ": "@
                + sdp_error_text(params),
        )
    } else if pdu_id != SDP_PDU_SERVICE_SEARCH_ATTRIBUTE_RESPONSE {
        Some(
            "unexpected SDP PDU 0x"@ + text::hex_fixed(pdu_id as nat, 2)
                + "; expected ServiceSearchAttributeResponse 0x07"@,
        )
    } else if params.len() < 3 {
        Some(
            "short SDP ServiceSearchAttributeResponse: "@ + text::decimal(params.len())
                + " bytes"@,
        )
    } else if params.len() < 2 + attr_count(params) + 1 {
        Some(
            "truncated SDP response: attr_count="@ + text::decimal(attr_count(params) as nat)
                + " total_params="@ + text::decimal(params.len()),
        )
    } else if params.len() < 2 + attr_count(params) + 1 + cont_len(params) {
        Some(
            "truncated SDP continuation state: cont_len="@ + text::decimal(
                cont_len(params) as nat,
            ) + " total_params="@ + text::decimal(params.len()),
        )
    } else {
        None
    }
}

/// The query behind a response that is in order.
pub open spec fn after_response(q: Query<Seq<u8>>, params: Seq<u8>) -> Query<Seq<u8>> {
    let at = 2 + attr_count(params);
    let continuation = params.subrange(at + 1, at + 1 + cont_len(params));
    Query {
        attribute_lists: q.attribute_lists + params.subrange(2, at),
        continuation,
        requests: q.requests,
        complete: continuation.len() == 0,
    }
}

pub open spec fn wants_request(q: Query<Seq<u8>>) -> bool {
    !q.complete && q.requests < MAX_REQUESTS
}

pub open spec fn no_attributes_error(hu_addr: Seq<char>) -> Seq<char> {
    "HU "@ + hu_addr + " returned no SDP attributes for AA Wireless UUID "@ + aawg_uuid_text()
}

pub open spec fn no_channel_error(hu_addr: Seq<char>, attributes: Seq<u8>) -> Seq<char> {
    "could not find RFCOMM channel in HU "@ + hu_addr
        + " SDP ProtocolDescriptorList for AA Wireless UUID "@ + aawg_uuid_text() + "; attrs="@
        + text::hex_bytes(attributes)
}

impl Query<Vec<u8>> {
    pub fn new() -> (r: Self)
        ensures
            r@ == (Query::<Seq<u8>> {
                attribute_lists: Seq::empty(),
                continuation: Seq::empty(),
                requests: 0,
                complete: false,
            }),
    {
        let q = Query {
            attribute_lists: Vec::new(),
            continuation: Vec::new(),
            requests: 0,
            complete: false,
        };
        assert(q@.attribute_lists =~= Seq::<u8>::empty());
        assert(q@.continuation =~= Seq::<u8>::empty());
        q
    }

    /// The next request to send: none when the answer is complete or the
    /// requests are used up. Every request has transaction number zero.
    pub fn next_request(&mut self) -> (r: Result<Option<Vec<u8>>, String>)
        ensures
            final(self)@.attribute_lists == old(self)@.attribute_lists,
            final(self)@.continuation == old(self)@.continuation,
            final(self)@.complete == old(self)@.complete,
            final(self)@.requests == old(self)@.requests + (if wants_request(old(self)@) {
                1int
            } else {
                0int
            }),
            match r {
                Ok(Some(pdu)) => wants_request(old(self)@) && old(self)@.continuation.len() <= 255
                    && pdu@ == request_pdu(0, AAWG_PROFILE_UUID, old(self)@.continuation),
                Ok(None) => !wants_request(old(self)@),
                Err(e) => wants_request(old(self)@) && old(self)@.continuation.len() > 255 && e@
                    == continuation_error(old(self)@.continuation.len()),
            },
    {
        if self.complete || self.requests >= MAX_REQUESTS {
            return Ok(None);
        }
        self.requests = self.requests + 1;
        match build_sdp_service_search_attribute_request(
            0,
            AAWG_PROFILE_UUID,
            &self.continuation,
        ) {
            Ok(pdu) => Ok(Some(pdu)),
            Err(e) => Err(e),
        }
    }

    /// Takes a response and keeps its attributes.
    pub fn on_response(&mut self, pdu_id: u8, params: &[u8]) -> (r: Result<(), String>)
        ensures
            match r {
                Ok(_) => response_error(pdu_id, params@) is None && final(self)@ == after_response(
                    old(self)@,
                    params@,
                ),
                Err(e) => response_error(pdu_id, params@) == Some(e@) && final(self)@ == old(
                    self,
                )@,
            },
    {
        if pdu_id == SDP_PDU_ERROR_RESPONSE {
            let mut e = String::from_str("HU returned SDP ErrorResponse for AA Wireless UUID ");
            e.append("4de17a00-52cb-11e6-bdf4-0800200c9a66");
            e.append(": ");
            let what = describe_sdp_error_response(params);
            e.append(what.as_str());
            return Err(e);
        }
        if pdu_id != SDP_PDU_SERVICE_SEARCH_ATTRIBUTE_RESPONSE {
            let mut e = String::from_str("unexpected SDP PDU 0x");
            let digits = text::hex_text(pdu_id as u64, 2);
            e.append(digits.as_str());
            e.append("; expected ServiceSearchAttributeResponse 0x07");
            return Err(e);
        }
        let n: usize = params.len();
        let total = text::decimal_text(n as u64);
        if n < 3 {
            let mut e = String::from_str("short SDP ServiceSearchAttributeResponse: ");
            e.append(total.as_str());
            e.append(" bytes");
            return Err(e);
        }
        let attrs: u16 = frame::read_be16(params[0], params[1]);
        let count: usize = attrs as usize;
        if n - 3 < count {
            let mut e = String::from_str("truncated SDP response: attr_count=");
            let digits = text::decimal_text(count as u64);
            e.append(digits.as_str());
            e.append(" total_params=");
            e.append(total.as_str());
            return Err(e);
        }
        let at: usize = 2 + count;
        let more: usize = params[at] as usize;
        if n - at - 1 < more {
            let mut e = String::from_str("truncated SDP continuation state: cont_len=");
            let digits = text::decimal_text(more as u64);
            e.append(digits.as_str());
            e.append(" total_params=");
            e.append(total.as_str());
            return Err(e);
        }
        self.attribute_lists.extend_from_slice(vstd::slice::slice_subrange(params, 2, at));
        self.continuation = vstd::slice::slice_to_vec(
            vstd::slice::slice_subrange(params, at + 1, at + 1 + more),
        );
        self.complete = self.continuation.len() == 0;
        assert(self@.attribute_lists =~= after_response(old(self)@, params@).attribute_lists);
        assert(self@.continuation =~= after_response(old(self)@, params@).continuation);
        Ok(())
    }

    /// The channel that the attributes name.
    pub fn channel(&self, hu_addr: &str) -> (r: Result<u8, String>)
        ensures
            match r {
                Ok(channel) => first_channel(self@.attribute_lists, 0) == Some(channel),
                Err(e) => first_channel(self@.attribute_lists, 0) is None && e@ == (if self@.attribute_lists.len()
                    == 0 {
                    no_attributes_error(hu_addr@)
                } else {
                    no_channel_error(hu_addr@, self@.attribute_lists)
                }),
            },
    {
        if self.attribute_lists.len() == 0 {
            let mut e = String::from_str("HU ");
            e.append(hu_addr);
            e.append(" returned no SDP attributes for AA Wireless UUID ");
            e.append("4de17a00-52cb-11e6-bdf4-0800200c9a66");
            return Err(e);
        }
        match extract_rfcomm_channel_from_sdp_attribute_lists(&self.attribute_lists) {
            Some(channel) => Ok(channel),
            None => {
                let mut e = String::from_str("could not find RFCOMM channel in HU ");
                e.append(hu_addr);
                e.append(" SDP ProtocolDescriptorList for AA Wireless UUID ");
                e.append("4de17a00-52cb-11e6-bdf4-0800200c9a66");
                e.append("; attrs=");
                let bytes = text::hex_encode(&self.attribute_lists);
                e.append(bytes.as_str());
                Err(e)
            },
        }
    }
}

// ---------------------------------------------------------------------
// Trying again

/// How often the query is tried.
pub const DISCOVERY_ATTEMPTS: usize = 3;

/// The pause behind an attempt that failed.
pub const DISCOVERY_PAUSE_MS: u64 = 350;

/// How long a fresh connection is left alone before the first request: longer
/// with each attempt. None when the attempts are used up.
pub fn discovery_settle_ms(attempt: usize) -> (r: Option<u64>)
    ensures
        attempt == 0 ==> r == Some(1500u64),
        attempt == 1 ==> r == Some(2200u64),
        attempt == 2 ==> r == Some(3000u64),
        attempt >= DISCOVERY_ATTEMPTS ==> r is None,
{
    if attempt == 0 {
        Some(1500)
    } else if attempt == 1 {
        Some(2200)
    } else if attempt == 2 {
        Some(3000)
    } else {
        None
    }
}

pub fn discovery_error(hu_addr: &str, last_error: &str) -> (r: String)
    ensures
        r@ == "internal SDP discovery failed for HU "@ + hu_addr@
            + " after 3 attempts; last error: "@ + last_error@,
{
    let mut e = String::from_str("internal SDP discovery failed for HU ");
    e.append(hu_addr);
    e.append(" after 3 attempts; last error: ");
    e.append(last_error);
    e
}

// ---------------------------------------------------------------------
// Laws

/// Any channel that is found is a valid one, and stands behind the UUID of RFCOMM.
pub proof fn law_channel_is_valid(bytes: Seq<u8>, pos: int)
    requires
        0 <= pos,
    ensures
        match first_channel(bytes, pos) {
            Some(channel) => 1 <= channel <= 30 && exists|i: int|
                pos <= i && #[trigger] rfcomm_channel_at(bytes, i) == Some(channel),
            None => forall|i: int| pos <= i ==> #[trigger] rfcomm_channel_at(bytes, i) is None,
        },
    decreases bytes.len() - pos,
{
    if pos < bytes.len() {
        if rfcomm_channel_at(bytes, pos) is None {
            law_channel_is_valid(bytes, pos + 1);
        }
    }
}

/// Attributes that come in several responses are put together in order, and a
/// query ends with the first response without a continuation state.
pub proof fn law_responses_add_up(q: Query<Seq<u8>>, params: Seq<u8>)
    requires
        response_error(SDP_PDU_SERVICE_SEARCH_ATTRIBUTE_RESPONSE, params) is None,
    ensures
        q.attribute_lists.is_prefix_of(after_response(q, params).attribute_lists),
        after_response(q, params).attribute_lists.len() == q.attribute_lists.len() + attr_count(
            params,
        ),
        after_response(q, params).complete <==> cont_len(params) == 0,
{
    assert(q.attribute_lists.is_prefix_of(after_response(q, params).attribute_lists));
}

// ---------------------------------------------------------------------
// What goes over the wire

proof fn lemma_service_bytes()
    ensures
        big_endian(AAWG_PROFILE_UUID as nat, 16) == seq![
            0x4du8, 0xe1u8, 0x7au8, 0x00u8, 0x52u8, 0xcbu8, 0x11u8, 0xe6u8,
            0xbdu8, 0xf4u8, 0x08u8, 0x00u8, 0x20u8, 0x0cu8, 0x9au8, 0x66u8,
        ],
{
    reveal_with_fuel(big_endian, 17);
}

/// A request, byte for byte: its id, the transaction number, the length of what
/// follows, the pattern that holds the UUID of wireless Android Auto, 1008 as
/// the largest answer, the range of all attributes, and the continuation state
/// behind its length.
pub proof fn law_request_is_laid_out(transaction_id: u16, continuation: Seq<u8>)
    requires
        continuation.len() <= 255,
    ensures
        ({
            let pdu = request_pdu(transaction_id, 0x4de17a0052cb11e6bdf40800200c9a66, continuation);
            let n = 29 + continuation.len();
            pdu == seq![
                0x06u8,
                (transaction_id / 256) as u8,
                (transaction_id % 256) as u8,
                (n / 256) as u8,
                (n % 256) as u8,
                0x35u8, 0x11u8, 0x1cu8,
                0x4du8, 0xe1u8, 0x7au8, 0x00u8, 0x52u8, 0xcbu8, 0x11u8, 0xe6u8,
                0xbdu8, 0xf4u8, 0x08u8, 0x00u8, 0x20u8, 0x0cu8, 0x9au8, 0x66u8,
                0x03u8, 0xf0u8,
                0x35u8, 0x05u8, 0x0au8, 0x00u8, 0x00u8, 0xffu8, 0xffu8,
                continuation.len() as u8,
            ] + continuation
        }),
{
    lemma_service_bytes();
    assert(big_endian(0xffff, 4) == seq![0u8, 0u8, 0xffu8, 0xffu8]) by {
        reveal_with_fuel(big_endian, 5);
    }
    let params = request_params(AAWG_PROFILE_UUID, continuation);
    assert(uuid_element(AAWG_PROFILE_UUID).len() == 17);
    assert(uint32_element(SDP_ATTR_RANGE_ALL).len() == 5);
    assert(params.len() == 29 + continuation.len());
}

/// The number that a run of bytes stands for, the highest byte first.
pub open spec fn number_in(bytes: Seq<u8>) -> nat
    decreases bytes.len(),
{
    if bytes.len() == 0 {
        0
    } else {
        number_in(bytes.drop_last()) * 256 + bytes.last() as nat
    }
}

/// A number that fits into its bytes is read back from them.
pub proof fn law_number_is_read_back(n: nat, width: nat)
    requires
        width <= 16,
        n < vstd::arithmetic::power::pow(256, width),
    ensures
        big_endian(n, width).len() == width,
        number_in(big_endian(n, width)) == n,
    decreases width,
{
    reveal(vstd::arithmetic::power::pow);
    lemma_big_endian_len(n, width);
    if width > 0 {
        assert(vstd::arithmetic::power::pow(256, width) == 256 * vstd::arithmetic::power::pow(
            256,
            (width - 1) as nat,
        ));
        assert(n / 256 < vstd::arithmetic::power::pow(256, (width - 1) as nat));
        law_number_is_read_back(n / 256, (width - 1) as nat);
        assert(big_endian(n, width).drop_last() == big_endian(n / 256, (width - 1) as nat));
    }
}

/// A channel in one, two or four bytes is found behind the UUID of RFCOMM where
/// no such UUID stands before it, whatever stands around the two; a number that
/// is no channel is not taken for one.
pub proof fn law_channel_is_found(
    before: Seq<u8>,
    shape: int,
    value: u32,
    behind: Seq<u8>,
    written: Seq<u8>,
)
    requires
        shape == 1 ==> value <= 0xff && written == seq![0x19u8, 0x00u8, 0x03u8, 0x08u8, value as u8],
        shape == 2 ==> value <= 0xffff && written == seq![
            0x19u8, 0x00u8, 0x03u8, 0x09u8, (value / 256) as u8, (value % 256) as u8,
        ],
        shape == 4 ==> written == seq![
            0x19u8, 0x00u8, 0x03u8, 0x0au8,
            (value / 0x100_0000) as u8,
            (value / 0x1_0000 % 256) as u8,
            (value / 256 % 256) as u8,
            (value % 256) as u8,
        ],
        shape == 1 || shape == 2 || shape == 4,
        forall|i: int|
            0 <= i < before.len() ==> !(#[trigger] (before + written + behind)[i] == 0x19 && (before
                + written + behind)[i + 1] == 0x00 && (before + written + behind)[i + 2] == 0x03),
    ensures
        1 <= value <= 30 ==> first_channel(before + written + behind, 0) == Some(value as u8),
        rfcomm_channel_at(before + written + behind, before.len() as int) == (if 1 <= value <= 30 {
            Some(value as u8)
        } else {
            None
        }),
{
    let all = before + written + behind;
    let at = before.len() as int;
    assert(written.len() >= 5);
    assert forall|k: int| 0 <= k < written.len() implies #[trigger] all[at + k] == written[k] by {}
    assert(all[at + 0] == 0x19);
    assert(all[at + 1] == 0x00);
    assert(all[at + 2] == 0x03);
    assert(all[at + 3] == written[3]);
    assert(all[at + 4] == written[4]);
    if shape == 2 {
        assert(all[at + 5] == written[5]);
        assert((value / 256) * 256 + value % 256 == value);
    }
    if shape == 4 {
        assert(all[at + 5] == written[5]);
        assert(all[at + 6] == written[6]);
        assert(all[at + 7] == written[7]);
        let a = value as int / 0x100_0000;
        let b = value as int / 0x1_0000 % 256;
        let c = value as int / 256 % 256;
        let d = value as int % 256;
        assert(((a * 256 + b) * 256 + c) * 256 + d == value);
    }
    assert(rfcomm_channel_at(all, at) == as_channel(value as int));
    if 1 <= value <= 30 {
        lemma_first_channel_from(all, 0, at);
    }
}

proof fn lemma_first_channel_from(bytes: Seq<u8>, pos: int, at: int)
    requires
        0 <= pos <= at < bytes.len(),
        rfcomm_channel_at(bytes, at) is Some,
        forall|i: int| pos <= i < at ==> #[trigger] rfcomm_channel_at(bytes, i) is None,
    ensures
        first_channel(bytes, pos) == rfcomm_channel_at(bytes, at),
    decreases at - pos,
{
    if pos < at {
        assert(rfcomm_channel_at(bytes, pos) is None);
        lemma_first_channel_from(bytes, pos + 1, at);
    }
}

/// Where the UUID of RFCOMM stands nowhere, no channel is found.
pub proof fn law_no_channel_is_made_up(bytes: Seq<u8>)
    requires
        forall|i: int|
            0 <= i && i + 2 < bytes.len() ==> !(#[trigger] bytes[i] == 0x19 && bytes[i + 1] == 0x00
                && bytes[i + 2] == 0x03),
    ensures
        first_channel(bytes, 0) is None,
{
    law_channel_is_valid(bytes, 0);
    if first_channel(bytes, 0) is Some {
        let i = choose|i: int|
            0 <= i && #[trigger] rfcomm_channel_at(bytes, i) == first_channel(bytes, 0);
        assert(bytes[i] == 0x19);
    }
}

/// A response is taken apart where it was put together: two bytes with the
/// number of attribute bytes, these bytes, one byte with the length of the
/// continuation state, and this state; what else follows is left out. The
/// attributes are put behind those that were there, and the answer is complete
/// when there is no continuation state.
pub proof fn law_response_is_taken_apart(
    q: Query<Seq<u8>>,
    attributes: Seq<u8>,
    continuation: Seq<u8>,
    rest: Seq<u8>,
)
    requires
        attributes.len() <= 0xffff,
        continuation.len() <= 0xff,
    ensures
        ({
            let params = seq![
                (attributes.len() / 256) as u8,
                (attributes.len() % 256) as u8,
            ] + attributes + seq![continuation.len() as u8] + continuation + rest;
            &&& response_error(0x07, params) is None
            &&& after_response(q, params).attribute_lists == q.attribute_lists + attributes
            &&& after_response(q, params).continuation == continuation
            &&& after_response(q, params).complete == (continuation.len() == 0)
            &&& after_response(q, params).requests == q.requests
        }),
{
    let params = seq![(attributes.len() / 256) as u8, (attributes.len() % 256) as u8] + attributes
        + seq![continuation.len() as u8] + continuation + rest;
    let n = attributes.len() as int;
    assert(params[0] == n / 256);
    assert(params[1] == n % 256);
    assert((n / 256) * 256 + n % 256 == n);
    assert(attr_count(params) == n);
    assert(params[2 + n] == continuation.len());
    assert(params.subrange(2, 2 + n) == attributes);
    assert(params.subrange(3 + n, 3 + n + continuation.len()) == continuation);
}

/// What is refused: every id but that of a response, and a response that is
/// shorter than it says.
pub proof fn law_broken_responses_are_refused(pdu_id: u8, params: Seq<u8>)
    ensures
        pdu_id != 0x07 ==> response_error(pdu_id, params) is Some,
        params.len() < 3 ==> response_error(pdu_id, params) is Some,
        params.len() >= 3 && params.len() < params[0] * 256 + params[1] + 3 ==> response_error(
            pdu_id,
            params,
        ) is Some,
        params.len() >= 3 && params.len() >= params[0] * 256 + params[1] + 3 && params.len()
            < params[0] * 256 + params[1] + 3 + params[params[0] * 256 + params[1] + 2]
            ==> response_error(pdu_id, params) is Some,
        pdu_id == 0x01 && params.len() >= 2 ==> text::holds(
            response_error(pdu_id, params)->0,
            text::hex_bytes(params),
        ),
{
    if pdu_id == 0x01 && params.len() >= 2 {
        let code = frame::from_be16(params[0], params[1]);
        let a = "HU returned SDP ErrorResponse for AA Wireless UUID "@ + aawg_uuid_text() + ": "@
            + (sdp_error_label(code) + " code=0x"@ + text::hex_fixed(code as nat, 4)
            + " params="@);
        text::lemma_holds_within(a, text::hex_bytes(params), Seq::empty());
        assert(a + text::hex_bytes(params) + Seq::<char>::empty() == response_error(
            pdu_id,
            params,
        )->0);
    }
}

/// The words for an error, by its number.
pub proof fn law_errors_have_their_words(code: u16)
    ensures
        code == 1 ==> sdp_error_label(code) == "Invalid/unsupported SDP version"@,
        code == 2 ==> sdp_error_label(code) == "Invalid service record handle"@,
        code == 3 ==> sdp_error_label(code) == "Invalid request syntax"@,
        code == 4 ==> sdp_error_label(code) == "Invalid PDU size"@,
        code == 5 ==> sdp_error_label(code) == "Invalid continuation state"@,
        code == 6 ==> sdp_error_label(code) == "Insufficient resources"@,
        code == 0 || code > 6 ==> sdp_error_label(code) == "Unknown SDP error"@,
{
}

/// A request is owed as long as the answer is incomplete, eight times at most.
pub proof fn law_eight_requests_at_most(q: Query<Seq<u8>>)
    ensures
        wants_request(q) <==> !q.complete && q.requests < 8,
{
}

} // verus!
