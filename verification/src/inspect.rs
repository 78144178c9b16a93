//! Reading the Wi-Fi bootstrap messages that the proxy looks into.

use crate::net_text;
use crate::wire;
use crate::wire::Field;
use crate::wire::FieldValue;
use vstd::prelude::*;

verus! {

/// The text that bytes encode in UTF-8.
pub open spec fn utf8_text(bytes: Seq<u8>) -> Option<Seq<char>> {
    if vstd::utf8::valid_utf8(bytes) {
        Some(vstd::utf8::decode_utf8(bytes))
    } else {
        None
    }
}

/// `std::str::from_utf8` gives the text that the bytes encode, and fails exactly
/// on bytes that are not valid UTF-8.
#[verifier::external_body]
pub(crate) fn try_utf8(bytes: &[u8]) -> (r: Option<String>)
    ensures
        r.deep_view() == utf8_text(bytes@),
{
    std::str::from_utf8(bytes).ok().map(|s| s.to_string())
}

/// A field number as the readers of these messages see it: its lower 32 bits.
pub open spec fn short_number(f: Field) -> u64 {
    f.number() % 0x1_0000_0000
}

// ---------------------------------------------------------------------
// The projection endpoint

pub struct ProjectionInfo<T> {
    pub ip_address: Option<T>,
    pub port: Option<u32>,
}

pub type WifiProjectionProtocolDebugInfo = ProjectionInfo<String>;

impl View for ProjectionInfo<String> {
    type V = ProjectionInfo<Seq<char>>;

    open spec fn view(&self) -> ProjectionInfo<Seq<char>> {
        ProjectionInfo { ip_address: self.ip_address.deep_view(), port: self.port }
    }
}

impl ProjectionInfo<String> {
    pub fn empty() -> (r: Self)
        ensures
            r@ == no_projection(),
    {
        ProjectionInfo { ip_address: None, port: None }
    }
}

pub open spec fn no_projection() -> ProjectionInfo<Seq<char>> {
    ProjectionInfo { ip_address: None, port: None }
}

pub open spec fn projection_step(
    info: ProjectionInfo<Seq<char>>,
    f: Field,
) -> ProjectionInfo<Seq<char>> {
    match f.value {
        FieldValue::Varint(v) => if short_number(f) == 2 {
            ProjectionInfo { port: Some((v % 0x1_0000_0000) as u32), ..info }
        } else {
            info
        },
        FieldValue::Bytes(b) => if short_number(f) == 1 {
            ProjectionInfo { ip_address: utf8_text(b), ..info }
        } else {
            info
        },
        FieldValue::Fixed => info,
    }
}

pub open spec fn projection_of(
    fs: Seq<Field>,
    info: ProjectionInfo<Seq<char>>,
) -> ProjectionInfo<Seq<char>>
    decreases fs.len(),
{
    if fs.len() == 0 {
        info
    } else {
        projection_of(fs.subrange(1, fs.len() as int), projection_step(info, fs[0]))
    }
}

proof fn lemma_next(f: Field, rest: Seq<Field>)
    ensures
        (seq![f] + rest).subrange(1, (seq![f] + rest).len() as int) == rest,
        (seq![f] + rest)[0] == f,
{
    assert((seq![f] + rest).subrange(1, (seq![f] + rest).len() as int) =~= rest);
}

pub fn inspect_wifi_projection_protocol_info(payload: &[u8]) -> (r: WifiProjectionProtocolDebugInfo)
    ensures
        r@ == projection_of(wire::fields(payload@), no_projection()),
{
    let mut info = ProjectionInfo::empty();
    let mut offset: usize = 0;
    while offset < payload.len()
        invariant_except_break
            offset <= payload@.len(),
            projection_of(wire::fields(payload@), no_projection()) == projection_of(
                wire::fields_from(payload@, offset as int),
                info@,
            ),
        ensures
            info@ == projection_of(wire::fields(payload@), no_projection()),
        decreases payload@.len() - offset,
    {
        let ghost f = wire::field_at(payload@, offset as int);
        match wire::next_field(payload, &mut offset) {
            Some(found) => {
                proof {
                    lemma_next(f, wire::fields_from(payload@, offset as int));
                }
                let number: u64 = found.number % 0x1_0000_0000;
                if found.wire == 0 && number == 2 {
                    info.port = Some((found.varint % 0x1_0000_0000) as u32);
                } else if found.wire == 2 && number == 1 {
                    info.ip_address = try_utf8(
                        vstd::slice::slice_subrange(payload, found.from, found.to),
                    );
                }
            },
            None => {
                break ;
            },
        }
    }
    proof {
        wire::lemma_no_fields_at_end(payload@);
    }
    info
}

/// An endpoint can be used when it names an IP address and a port above zero.
pub open spec fn is_endpoint(info: ProjectionInfo<Seq<char>>) -> bool {
    &&& info.ip_address matches Some(ip) && net_text::is_ip(ip)
    &&& info.port matches Some(port) && port > 0
}

pub fn wifi_projection_info_looks_valid(info: &WifiProjectionProtocolDebugInfo) -> (r: bool)
    ensures
        r == is_endpoint(info@),
{
    match &info.ip_address {
        Some(ip) => {
            if !net_text::check_ip(ip) {
                return false;
            }
            match info.port {
                Some(port) => port > 0,
                None => false,
            }
        },
        None => false,
    }
}

// ---------------------------------------------------------------------
// The head unit

pub struct HeadUnitInfo<T> {
    pub car_make: Option<T>,
    pub car_model: Option<T>,
    pub car_year: Option<T>,
    pub vehicle_id: Option<T>,
    pub head_unit_make: Option<T>,
    pub head_unit_model: Option<T>,
    pub head_unit_software_build: Option<T>,
    pub head_unit_software_version: Option<T>,
}

impl View for HeadUnitInfo<String> {
    type V = HeadUnitInfo<Seq<char>>;

    open spec fn view(&self) -> HeadUnitInfo<Seq<char>> {
        HeadUnitInfo {
            car_make: self.car_make.deep_view(),
            car_model: self.car_model.deep_view(),
            car_year: self.car_year.deep_view(),
            vehicle_id: self.vehicle_id.deep_view(),
            head_unit_make: self.head_unit_make.deep_view(),
            head_unit_model: self.head_unit_model.deep_view(),
            head_unit_software_build: self.head_unit_software_build.deep_view(),
            head_unit_software_version: self.head_unit_software_version.deep_view(),
        }
    }
}

pub open spec fn no_head_unit() -> HeadUnitInfo<Seq<char>> {
    HeadUnitInfo {
        car_make: None,
        car_model: None,
        car_year: None,
        vehicle_id: None,
        head_unit_make: None,
        head_unit_model: None,
        head_unit_software_build: None,
        head_unit_software_version: None,
    }
}

impl HeadUnitInfo<String> {
    pub fn empty() -> (r: Self)
        ensures
            r@ == no_head_unit(),
    {
        HeadUnitInfo {
            car_make: None,
            car_model: None,
            car_year: None,
            vehicle_id: None,
            head_unit_make: None,
            head_unit_model: None,
            head_unit_software_build: None,
            head_unit_software_version: None,
        }
    }
}

pub open spec fn head_unit_step(
    info: HeadUnitInfo<Seq<char>>,
    f: Field,
) -> HeadUnitInfo<Seq<char>> {
    match f.value {
        FieldValue::Bytes(b) => {
            let value = utf8_text(b);
            let n = short_number(f);
            if n == 1 {
                HeadUnitInfo { car_make: value, ..info }
            } else if n == 2 {
                HeadUnitInfo { car_model: value, ..info }
            } else if n == 3 {
                HeadUnitInfo { car_year: value, ..info }
            } else if n == 4 {
                HeadUnitInfo { vehicle_id: value, ..info }
            } else if n == 5 {
                HeadUnitInfo { head_unit_make: value, ..info }
            } else if n == 6 {
                HeadUnitInfo { head_unit_model: value, ..info }
            } else if n == 7 {
                HeadUnitInfo { head_unit_software_build: value, ..info }
            } else if n == 8 {
                HeadUnitInfo { head_unit_software_version: value, ..info }
            } else {
                info
            }
        },
        _ => info,
    }
}

pub open spec fn head_unit_of(
    fs: Seq<Field>,
    info: HeadUnitInfo<Seq<char>>,
) -> HeadUnitInfo<Seq<char>>
    decreases fs.len(),
{
    if fs.len() == 0 {
        info
    } else {
        head_unit_of(fs.subrange(1, fs.len() as int), head_unit_step(info, fs[0]))
    }
}

pub fn inspect_wifi_version_head_unit_info(payload: &[u8], info: &mut HeadUnitInfo<String>)
    ensures
        final(info)@ == head_unit_of(wire::fields(payload@), old(info)@),
{
    let ghost before = info@;
    let mut offset: usize = 0;
    while offset < payload.len()
        invariant_except_break
            offset <= payload@.len(),
            head_unit_of(wire::fields(payload@), before) == head_unit_of(
                wire::fields_from(payload@, offset as int),
                info@,
            ),
        ensures
            info@ == head_unit_of(wire::fields(payload@), before),
        decreases payload@.len() - offset,
    {
        let ghost f = wire::field_at(payload@, offset as int);
        match wire::next_field(payload, &mut offset) {
            Some(found) => {
                proof {
                    lemma_next(f, wire::fields_from(payload@, offset as int));
                }
                if found.wire == 2 {
                    let number: u64 = found.number % 0x1_0000_0000;
                    let value = try_utf8(
                        vstd::slice::slice_subrange(payload, found.from, found.to),
                    );
                    if number == 1 {
                        info.car_make = value;
                    } else if number == 2 {
                        info.car_model = value;
                    } else if number == 3 {
                        info.car_year = value;
                    } else if number == 4 {
                        info.vehicle_id = value;
                    } else if number == 5 {
                        info.head_unit_make = value;
                    } else if number == 6 {
                        info.head_unit_model = value;
                    } else if number == 7 {
                        info.head_unit_software_build = value;
                    } else if number == 8 {
                        info.head_unit_software_version = value;
                    }
                }
            },
            None => {
                break ;
            },
        }
    }
    proof {
        wire::lemma_no_fields_at_end(payload@);
    }
}

pub open spec fn or_else<T>(a: Option<T>, b: Option<T>) -> Option<T> {
    if a is Some {
        a
    } else {
        b
    }
}

/// What is known of the head unit, completed by what another record says of it.
pub open spec fn merged_head_unit<T>(dst: HeadUnitInfo<T>, src: HeadUnitInfo<T>) -> HeadUnitInfo<
    T,
> {
    HeadUnitInfo {
        car_make: or_else(dst.car_make, src.car_make),
        car_model: or_else(dst.car_model, src.car_model),
        car_year: or_else(dst.car_year, src.car_year),
        vehicle_id: or_else(dst.vehicle_id, src.vehicle_id),
        head_unit_make: or_else(dst.head_unit_make, src.head_unit_make),
        head_unit_model: or_else(dst.head_unit_model, src.head_unit_model),
        head_unit_software_build: or_else(dst.head_unit_software_build, src.head_unit_software_build),
        head_unit_software_version: or_else(dst.head_unit_software_version, src.head_unit_software_version),
    }
}

pub fn merge_wifi_version_head_unit_info(dst: &mut HeadUnitInfo<String>, src: HeadUnitInfo<String>)
    ensures
        final(dst)@ == merged_head_unit(old(dst)@, src@),
{
    if dst.car_make.is_none() {
        dst.car_make = src.car_make;
    }
    if dst.car_model.is_none() {
        dst.car_model = src.car_model;
    }
    if dst.car_year.is_none() {
        dst.car_year = src.car_year;
    }
    if dst.vehicle_id.is_none() {
        dst.vehicle_id = src.vehicle_id;
    }
    if dst.head_unit_make.is_none() {
        dst.head_unit_make = src.head_unit_make;
    }
    if dst.head_unit_model.is_none() {
        dst.head_unit_model = src.head_unit_model;
    }
    if dst.head_unit_software_build.is_none() {
        dst.head_unit_software_build = src.head_unit_software_build;
    }
    if dst.head_unit_software_version.is_none() {
        dst.head_unit_software_version = src.head_unit_software_version;
    }
}

pub open spec fn is_populated<T>(info: HeadUnitInfo<T>) -> bool {
    ||| info.car_make is Some
    ||| info.car_model is Some
    ||| info.car_year is Some
    ||| info.vehicle_id is Some
    ||| info.head_unit_make is Some
    ||| info.head_unit_model is Some
    ||| info.head_unit_software_build is Some
    ||| info.head_unit_software_version is Some
}

pub fn wifi_version_head_unit_info_looks_populated(info: &HeadUnitInfo<String>) -> (r: bool)
    ensures
        r == is_populated(info@),
{
    info.car_make.is_some() || info.car_model.is_some() || info.car_year.is_some() || info.vehicle_id.is_some() || info.head_unit_make.is_some() || info.head_unit_model.is_some() || info.head_unit_software_build.is_some() || info.head_unit_software_version.is_some()
}

// ---------------------------------------------------------------------
// The version request

pub struct VersionRequestInfo<T, C> {
    pub major_version: Option<u64>,
    pub minor_version: Option<u64>,
    pub supported_wifi_channels: C,
    pub head_unit: HeadUnitInfo<T>,
    pub projection: ProjectionInfo<T>,
}

pub type WifiVersionRequestDebugInfo = VersionRequestInfo<String, Vec<i64>>;

pub type VersionRequestModel = VersionRequestInfo<Seq<char>, Seq<i64>>;

impl View for VersionRequestInfo<String, Vec<i64>> {
    type V = VersionRequestInfo<Seq<char>, Seq<i64>>;

    open spec fn view(&self) -> VersionRequestInfo<Seq<char>, Seq<i64>> {
        VersionRequestInfo {
            major_version: self.major_version,
            minor_version: self.minor_version,
            supported_wifi_channels: self.supported_wifi_channels@,
            head_unit: self.head_unit@,
            projection: self.projection@,
        }
    }
}

/// The varints that stand one behind the other in packed data.
pub open spec fn packed_from(data: Seq<u8>, pos: int) -> Seq<i64>
    decreases data.len() - pos,
{
    match wire::varint_at(data, pos) {
        Some(v) => if 0 <= pos < wire::varint_after(data, pos) <= data.len() {
            seq![wire::as_signed(v)] + packed_from(data, wire::varint_after(data, pos))
        } else {
            Seq::empty()
        },
        None => Seq::empty(),
    }
}

/// The fifth field of a version request holds a projection endpoint in one
/// revision of the message and the head unit in another.
pub open spec fn request_fifth_field(info: VersionRequestModel, data: Seq<u8>) -> VersionRequestModel {
    let projection = projection_of(wire::fields(data), no_projection());
    let head_unit = head_unit_of(wire::fields(data), no_head_unit());
    if is_endpoint(projection) || !is_populated(head_unit) {
        VersionRequestInfo { projection, ..info }
    } else {
        VersionRequestInfo { head_unit: merged_head_unit(info.head_unit, head_unit), ..info }
    }
}

pub open spec fn request_step(info: VersionRequestModel, f: Field) -> VersionRequestModel {
    let n = short_number(f);
    match f.value {
        FieldValue::Varint(v) => if n == 1 {
            VersionRequestInfo { major_version: Some(v), ..info }
        } else if n == 2 {
            VersionRequestInfo { minor_version: Some(v), ..info }
        } else if n == 3 || n == 4 {
            VersionRequestInfo {
                supported_wifi_channels: info.supported_wifi_channels.push(wire::as_signed(v)),
                ..info
            }
        } else {
            info
        },
        FieldValue::Bytes(b) => if n == 3 {
            VersionRequestInfo {
                supported_wifi_channels: info.supported_wifi_channels + packed_from(b, 0),
                ..info
            }
        } else if n == 4 {
            VersionRequestInfo {
                head_unit: head_unit_of(wire::fields(b), info.head_unit),
                ..info
            }
        } else if n == 5 {
            request_fifth_field(info, b)
        } else {
            info
        },
        FieldValue::Fixed => info,
    }
}

pub open spec fn request_of(fs: Seq<Field>, info: VersionRequestModel) -> VersionRequestModel
    decreases fs.len(),
{
    if fs.len() == 0 {
        info
    } else {
        request_of(fs.subrange(1, fs.len() as int), request_step(info, fs[0]))
    }
}

pub open spec fn no_request() -> VersionRequestModel {
    VersionRequestInfo {
        major_version: None,
        minor_version: None,
        supported_wifi_channels: Seq::empty(),
        head_unit: no_head_unit(),
        projection: no_projection(),
    }
}

/// What a version request says, field by field, as far as it can be read.
pub open spec fn version_request(payload: Seq<u8>) -> VersionRequestModel {
    request_of(wire::fields(payload), no_request())
}

fn push_packed(data: &[u8], channels: &mut Vec<i64>)
    ensures
        final(channels)@ == old(channels)@ + packed_from(data@, 0),
{
    let ghost before = channels@;
    let mut offset: usize = 0;
    assert(before + packed_from(data@, 0) =~= channels@ + packed_from(data@, 0));
    while offset < data.len()
        invariant_except_break
            offset <= data@.len(),
            before + packed_from(data@, 0) == channels@ + packed_from(data@, offset as int),
        ensures
            channels@ == before + packed_from(data@, 0),
        decreases data@.len() - offset,
    {
        let ghost pos = offset as int;
        match wire::read_proto_varint(data, &mut offset) {
            Some(v) => {
                let ghost so_far = channels@;
                channels.push(wire::signed_from_proto_varint(v));
                assert(so_far + packed_from(data@, pos) =~= channels@ + packed_from(
                    data@,
                    offset as int,
                ));
            },
            None => {
                assert(channels@ + packed_from(data@, pos) =~= channels@);
                break ;
            },
        }
    }
    proof {
        assert(!wire::varint_ends(data@, data@.len() as int, 0));
        assert(channels@ + packed_from(data@, data@.len() as int) =~= channels@);
    }
}

pub fn inspect_wifi_version_request(payload: &[u8]) -> (r: WifiVersionRequestDebugInfo)
    ensures
        r@ == version_request(payload@),
{
    let mut info = VersionRequestInfo {
        major_version: None,
        minor_version: None,
        supported_wifi_channels: Vec::new(),
        head_unit: HeadUnitInfo::empty(),
        projection: ProjectionInfo::empty(),
    };
    let mut offset: usize = 0;
    assert(info@.supported_wifi_channels =~= Seq::<i64>::empty());
    while offset < payload.len()
        invariant_except_break
            offset <= payload@.len(),
            version_request(payload@) == request_of(
                wire::fields_from(payload@, offset as int),
                info@,
            ),
        ensures
            info@ == version_request(payload@),
        decreases payload@.len() - offset,
    {
        let ghost f = wire::field_at(payload@, offset as int);
        match wire::next_field(payload, &mut offset) {
            Some(found) => {
                proof {
                    lemma_next(f, wire::fields_from(payload@, offset as int));
                }
                let ghost before = info@;
                let number: u64 = found.number % 0x1_0000_0000;
                if found.wire == 0 {
                    if number == 1 {
                        info.major_version = Some(found.varint);
                    } else if number == 2 {
                        info.minor_version = Some(found.varint);
                    } else if number == 3 || number == 4 {
                        info.supported_wifi_channels.push(
                            wire::signed_from_proto_varint(found.varint),
                        );
                    }
                } else if found.wire == 2 {
                    let data = vstd::slice::slice_subrange(payload, found.from, found.to);
                    if number == 3 {
                        push_packed(data, &mut info.supported_wifi_channels);
                    } else if number == 4 {
                        inspect_wifi_version_head_unit_info(data, &mut info.head_unit);
                    } else if number == 5 {
                        let projection = inspect_wifi_projection_protocol_info(data);
                        let mut head_unit = HeadUnitInfo::empty();
                        inspect_wifi_version_head_unit_info(data, &mut head_unit);
                        if wifi_projection_info_looks_valid(&projection)
                            || !wifi_version_head_unit_info_looks_populated(&head_unit) {
                            info.projection = projection;
                        } else {
                            merge_wifi_version_head_unit_info(&mut info.head_unit, head_unit);
                        }
                    }
                }
                assert(info@ == request_step(before, f));
            },
            None => {
                break ;
            },
        }
    }
    proof {
        wire::lemma_no_fields_at_end(payload@);
    }
    info
}

// ---------------------------------------------------------------------
// The version response

pub struct VersionResponseInfo<T> {
    pub major_version: Option<u64>,
    pub minor_version: Option<u64>,
    pub device_serial: Option<T>,
    pub status: Option<i64>,
    pub selected_wifi_channel_type: Option<u64>,
    pub device_id: Option<T>,
    pub connectivity_lifetime_id: Option<T>,
}

pub type WifiVersionResponseDebugInfo = VersionResponseInfo<String>;

impl View for VersionResponseInfo<String> {
    type V = VersionResponseInfo<Seq<char>>;

    open spec fn view(&self) -> VersionResponseInfo<Seq<char>> {
        VersionResponseInfo {
            major_version: self.major_version,
            minor_version: self.minor_version,
            device_serial: self.device_serial.deep_view(),
            status: self.status,
            selected_wifi_channel_type: self.selected_wifi_channel_type,
            device_id: self.device_id.deep_view(),
            connectivity_lifetime_id: self.connectivity_lifetime_id.deep_view(),
        }
    }
}

pub open spec fn device_step(
    info: VersionResponseInfo<Seq<char>>,
    f: Field,
) -> VersionResponseInfo<Seq<char>> {
    match f.value {
        FieldValue::Bytes(b) => if short_number(f) == 1 {
            VersionResponseInfo { device_id: utf8_text(b), ..info }
        } else if short_number(f) == 2 {
            VersionResponseInfo { connectivity_lifetime_id: utf8_text(b), ..info }
        } else {
            info
        },
        _ => info,
    }
}

pub open spec fn device_of(
    fs: Seq<Field>,
    info: VersionResponseInfo<Seq<char>>,
) -> VersionResponseInfo<Seq<char>>
    decreases fs.len(),
{
    if fs.len() == 0 {
        info
    } else {
        device_of(fs.subrange(1, fs.len() as int), device_step(info, fs[0]))
    }
}

pub fn inspect_wifi_version_device_info(payload: &[u8], info: &mut WifiVersionResponseDebugInfo)
    ensures
        final(info)@ == device_of(wire::fields(payload@), old(info)@),
{
    let ghost before = info@;
    let mut offset: usize = 0;
    while offset < payload.len()
        invariant_except_break
            offset <= payload@.len(),
            device_of(wire::fields(payload@), before) == device_of(
                wire::fields_from(payload@, offset as int),
                info@,
            ),
        ensures
            info@ == device_of(wire::fields(payload@), before),
        decreases payload@.len() - offset,
    {
        let ghost f = wire::field_at(payload@, offset as int);
        match wire::next_field(payload, &mut offset) {
            Some(found) => {
                proof {
                    lemma_next(f, wire::fields_from(payload@, offset as int));
                }
                if found.wire == 2 {
                    let number: u64 = found.number % 0x1_0000_0000;
                    let value = try_utf8(
                        vstd::slice::slice_subrange(payload, found.from, found.to),
                    );
                    if number == 1 {
                        info.device_id = value;
                    } else if number == 2 {
                        info.connectivity_lifetime_id = value;
                    }
                }
            },
            None => {
                break ;
            },
        }
    }
    proof {
        wire::lemma_no_fields_at_end(payload@);
    }
}

pub open spec fn response_step(
    info: VersionResponseInfo<Seq<char>>,
    f: Field,
) -> VersionResponseInfo<Seq<char>> {
    let n = short_number(f);
    match f.value {
        FieldValue::Varint(v) => if n == 1 {
            VersionResponseInfo { major_version: Some(v), ..info }
        } else if n == 2 {
            VersionResponseInfo { minor_version: Some(v), ..info }
        } else if n == 4 {
            VersionResponseInfo { status: Some(wire::as_signed(v)), ..info }
        } else if n == 5 {
            VersionResponseInfo { selected_wifi_channel_type: Some(v), ..info }
        } else {
            info
        },
        FieldValue::Bytes(b) => if n == 3 {
            VersionResponseInfo { device_serial: utf8_text(b), ..info }
        } else if n == 6 {
            device_of(wire::fields(b), info)
        } else {
            info
        },
        FieldValue::Fixed => info,
    }
}

pub open spec fn response_of(
    fs: Seq<Field>,
    info: VersionResponseInfo<Seq<char>>,
) -> VersionResponseInfo<Seq<char>>
    decreases fs.len(),
{
    if fs.len() == 0 {
        info
    } else {
        response_of(fs.subrange(1, fs.len() as int), response_step(info, fs[0]))
    }
}

pub open spec fn no_response() -> VersionResponseInfo<Seq<char>> {
    VersionResponseInfo {
        major_version: None,
        minor_version: None,
        device_serial: None,
        status: None,
        selected_wifi_channel_type: None,
        device_id: None,
        connectivity_lifetime_id: None,
    }
}

/// What a version response says, field by field, as far as it can be read.
pub open spec fn version_response(payload: Seq<u8>) -> VersionResponseInfo<Seq<char>> {
    response_of(wire::fields(payload), no_response())
}

pub fn inspect_wifi_version_response(payload: &[u8]) -> (r: WifiVersionResponseDebugInfo)
    ensures
        r@ == version_response(payload@),
{
    let mut info: WifiVersionResponseDebugInfo = VersionResponseInfo {
        major_version: None,
        minor_version: None,
        device_serial: None,
        status: None,
        selected_wifi_channel_type: None,
        device_id: None,
        connectivity_lifetime_id: None,
    };
    let mut offset: usize = 0;
    while offset < payload.len()
        invariant_except_break
            offset <= payload@.len(),
            version_response(payload@) == response_of(
                wire::fields_from(payload@, offset as int),
                info@,
            ),
        ensures
            info@ == version_response(payload@),
        decreases payload@.len() - offset,
    {
        let ghost f = wire::field_at(payload@, offset as int);
        match wire::next_field(payload, &mut offset) {
            Some(found) => {
                proof {
                    lemma_next(f, wire::fields_from(payload@, offset as int));
                }
                let number: u64 = found.number % 0x1_0000_0000;
                if found.wire == 0 {
                    if number == 1 {
                        info.major_version = Some(found.varint);
                    } else if number == 2 {
                        info.minor_version = Some(found.varint);
                    } else if number == 4 {
                        info.status = Some(wire::signed_from_proto_varint(found.varint));
                    } else if number == 5 {
                        info.selected_wifi_channel_type = Some(found.varint);
                    }
                } else if found.wire == 2 {
                    let data = vstd::slice::slice_subrange(payload, found.from, found.to);
                    if number == 3 {
                        info.device_serial = try_utf8(data);
                    } else if number == 6 {
                        inspect_wifi_version_device_info(data, &mut info);
                    }
                }
            },
            None => {
                break ;
            },
        }
    }
    proof {
        wire::lemma_no_fields_at_end(payload@);
    }
    info
}

// ---------------------------------------------------------------------
// The setup info

#[derive(Clone, Copy, PartialEq, Eq, Structural)]
pub struct WifiSetupInfoDebugInfo {
    pub major_version: Option<u64>,
    pub minor_version: Option<u64>,
}

/// The versions of a setup info from `pos` on. A version whose varint does not
/// end is unknown, and reading goes on behind it.
pub open spec fn setup_from(
    payload: Seq<u8>,
    pos: int,
    info: WifiSetupInfoDebugInfo,
) -> WifiSetupInfoDebugInfo
    decreases payload.len() - pos,
{
    if !(0 <= pos < payload.len()) || varint_missing(payload, pos) {
        info
    } else {
        let key = wire::varint_at(payload, pos)->0;
        let from = wire::varint_after(payload, pos);
        let next = wire::varint_after(payload, from);
        proof {
            wire::lemma_stop_bounds(payload, pos, 0);
            wire::lemma_stop_bounds(payload, from, 0);
        }
        if key == 8 {
            setup_from(
                payload,
                next,
                WifiSetupInfoDebugInfo { major_version: wire::varint_at(payload, from), ..info },
            )
        } else if key == 16 {
            setup_from(
                payload,
                next,
                WifiSetupInfoDebugInfo { minor_version: wire::varint_at(payload, from), ..info },
            )
        } else {
            match wire::value_end(payload, from, key % 8) {
                Some(end) => setup_from(payload, end, info),
                None => info,
            }
        }
    }
}

pub open spec fn varint_missing(payload: Seq<u8>, pos: int) -> bool {
    wire::varint_at(payload, pos) is None
}

pub open spec fn setup_info(payload: Seq<u8>) -> WifiSetupInfoDebugInfo {
    setup_from(
        payload,
        0,
        WifiSetupInfoDebugInfo { major_version: None, minor_version: None },
    )
}

pub fn inspect_wifi_setup_info(payload: &[u8]) -> (r: WifiSetupInfoDebugInfo)
    ensures
        r == setup_info(payload@),
{
    let mut info = WifiSetupInfoDebugInfo { major_version: None, minor_version: None };
    let mut offset: usize = 0;
    while offset < payload.len()
        invariant_except_break
            offset <= payload@.len(),
            setup_info(payload@) == setup_from(payload@, offset as int, info),
        ensures
            info == setup_info(payload@),
        decreases payload@.len() - offset,
    {
        match wire::read_proto_varint(payload, &mut offset) {
            Some(key) => {
                if key == 8 {
                    info.major_version = wire::read_proto_varint(payload, &mut offset);
                } else if key == 16 {
                    info.minor_version = wire::read_proto_varint(payload, &mut offset);
                } else if !wire::skip_proto_value(payload, &mut offset, (key % 8) as u8) {
                    break ;
                }
            },
            None => {
                break ;
            },
        }
    }
    info
}


// ---------------------------------------------------------------------
// What an override looks like to the readers

/// Whether each varint with the given key holds the given value, and there is one.
pub open spec fn all_hold(fs: Seq<Field>, number: u64, value: u16) -> bool {
    forall|i: int|
        0 <= i < fs.len() && wire::is_version_field(#[trigger] fs[i], number) ==> fs[i].value
            == FieldValue::Varint(value as u64)
}

proof fn lemma_after_override_holds(fs: Seq<Field>, major: u16, minor: u16)
    ensures
        all_hold(wire::fields_after_override(fs, major, minor), 1, major),
        all_hold(wire::fields_after_override(fs, major, minor), 2, minor),
        wire::has_version_field(wire::fields_after_override(fs, major, minor), 1),
        wire::has_version_field(wire::fields_after_override(fs, major, minor), 2),
{
    let out = wire::fields_after_override(fs, major, minor);
    wire::lemma_override_has_both(fs, major, minor);
    assert forall|i: int| 0 <= i < out.len() implies (wire::is_version_field(
        #[trigger] out[i],
        1,
    ) ==> out[i].value == FieldValue::Varint(major as u64)) && (wire::is_version_field(out[i], 2)
        ==> out[i].value == FieldValue::Varint(minor as u64)) by {
        if i < fs.len() {
            assert(out[i] == wire::after_override(fs[i], major, minor));
        }
    }
}

proof fn lemma_tail(fs: Seq<Field>, number: u64, value: u16)
    requires
        fs.len() > 0,
        all_hold(fs, number, value),
    ensures
        all_hold(fs.subrange(1, fs.len() as int), number, value),
        wire::has_version_field(fs, number) ==> wire::is_version_field(fs[0], number)
            || wire::has_version_field(fs.subrange(1, fs.len() as int), number),
{
    let rest = fs.subrange(1, fs.len() as int);
    assert forall|i: int|
        0 <= i < rest.len() && wire::is_version_field(
            #[trigger] rest[i],
            number,
        ) implies rest[i].value == FieldValue::Varint(value as u64) by {
        assert(rest[i] == fs[i + 1]);
        assert(wire::is_version_field(fs[i + 1], number));
    }
    if wire::has_version_field(fs, number) {
        let i = choose|i: int|
            0 <= i < fs.len() && wire::is_version_field(#[trigger] fs[i], number);
        if i > 0 {
            assert(rest[i - 1] == fs[i]);
            assert(wire::is_version_field(rest[i - 1], number));
        }
    }
}

proof fn lemma_setup_versions(payload: Seq<u8>, pos: int, info: WifiSetupInfoDebugInfo, major: u16, minor: u16)
    requires
        0 <= pos <= payload.len(),
        wire::fields_stop(payload, pos) == payload.len(),
        all_hold(wire::fields_from(payload, pos), 1, major),
        all_hold(wire::fields_from(payload, pos), 2, minor),
        wire::has_version_field(wire::fields_from(payload, pos), 1) || info.major_version == Some(
            major as u64,
        ),
        wire::has_version_field(wire::fields_from(payload, pos), 2) || info.minor_version == Some(
            minor as u64,
        ),
    ensures
        setup_from(payload, pos, info).major_version == Some(major as u64),
        setup_from(payload, pos, info).minor_version == Some(minor as u64),
    decreases payload.len() - pos,
{
    if pos == payload.len() {
        wire::lemma_no_fields_at_end(payload);
    } else {
        let f = wire::field_at(payload, pos);
        let fs = wire::fields_from(payload, pos);
        let end = wire::field_end(payload, pos)->0;
        let rest = wire::fields_from(payload, end);
        wire::lemma_field_end_bounds(payload, pos);
        lemma_next(f, rest);
        assert(fs == seq![f] + rest);
        lemma_tail(fs, 1, major);
        lemma_tail(fs, 2, minor);
        assert(fs[0] == f);
        let key = f.key;
        let from = wire::varint_after(payload, pos);
        let next_info = if key == 8 {
            WifiSetupInfoDebugInfo { major_version: wire::varint_at(payload, from), ..info }
        } else if key == 16 {
            WifiSetupInfoDebugInfo { minor_version: wire::varint_at(payload, from), ..info }
        } else {
            info
        };
        assert(wire::is_version_field(f, 1) == (key == 8));
        assert(wire::is_version_field(f, 2) == (key == 16));
        lemma_setup_versions(payload, end, next_info, major, minor);
    }
}

/// A whole setup info shows the version that was put into it.
pub proof fn law_override_shows_in_setup_info(payload: Seq<u8>, major: u16, minor: u16)
    requires
        wire::is_whole(payload),
    ensures
        setup_info(wire::with_version(payload, major, minor)->0) == (WifiSetupInfoDebugInfo {
            major_version: Some(major as u64),
            minor_version: Some(minor as u64),
        }),
{
    wire::law_override_sets_only_the_version(payload, major, minor);
    lemma_after_override_holds(wire::fields(payload), major, minor);
    let out = wire::with_version(payload, major, minor)->0;
    lemma_setup_versions(
        out,
        0,
        WifiSetupInfoDebugInfo { major_version: None, minor_version: None },
        major,
        minor,
    );
}

/// Whether no field number is cut down to that of a version.
pub open spec fn numbers_fit(fs: Seq<Field>) -> bool {
    forall|i: int| 0 <= i < fs.len() ==> (#[trigger] fs[i]).number() < 0x1_0000_0000
}

proof fn lemma_request_versions(fs: Seq<Field>, info: VersionRequestModel, major: u16, minor: u16)
    requires
        numbers_fit(fs),
        forall|i: int| 0 <= i < fs.len() ==> wire::stands_alone(#[trigger] fs[i]),
        all_hold(fs, 1, major),
        all_hold(fs, 2, minor),
        wire::has_version_field(fs, 1) || info.major_version == Some(major as u64),
        wire::has_version_field(fs, 2) || info.minor_version == Some(minor as u64),
    ensures
        request_of(fs, info).major_version == Some(major as u64),
        request_of(fs, info).minor_version == Some(minor as u64),
    decreases fs.len(),
{
    if fs.len() > 0 {
        let rest = fs.subrange(1, fs.len() as int);
        lemma_tail(fs, 1, major);
        lemma_tail(fs, 2, minor);
        assert forall|i: int| 0 <= i < rest.len() implies wire::stands_alone(#[trigger] rest[i])
            && rest[i].number() < 0x1_0000_0000 by {
            assert(rest[i] == fs[i + 1]);
        }
        assert(wire::stands_alone(fs[0]));
        assert(fs[0].number() < 0x1_0000_0000);
        lemma_request_versions(rest, request_step(info, fs[0]), major, minor);
    }
}

proof fn lemma_response_versions(
    fs: Seq<Field>,
    info: VersionResponseInfo<Seq<char>>,
    major: u16,
    minor: u16,
)
    requires
        numbers_fit(fs),
        forall|i: int| 0 <= i < fs.len() ==> wire::stands_alone(#[trigger] fs[i]),
        all_hold(fs, 1, major),
        all_hold(fs, 2, minor),
        wire::has_version_field(fs, 1) || info.major_version == Some(major as u64),
        wire::has_version_field(fs, 2) || info.minor_version == Some(minor as u64),
    ensures
        response_of(fs, info).major_version == Some(major as u64),
        response_of(fs, info).minor_version == Some(minor as u64),
    decreases fs.len(),
{
    if fs.len() > 0 {
        let rest = fs.subrange(1, fs.len() as int);
        lemma_tail(fs, 1, major);
        lemma_tail(fs, 2, minor);
        assert forall|i: int| 0 <= i < rest.len() implies wire::stands_alone(#[trigger] rest[i])
            && rest[i].number() < 0x1_0000_0000 by {
            assert(rest[i] == fs[i + 1]);
        }
        assert(wire::stands_alone(fs[0]));
        assert(fs[0].number() < 0x1_0000_0000);
        if fs[0].value is Bytes {
            lemma_device_keeps_versions(wire::fields(fs[0].value->Bytes_0), info);
        }
        lemma_response_versions(rest, response_step(info, fs[0]), major, minor);
    }
}

proof fn lemma_device_keeps_versions(fs: Seq<Field>, info: VersionResponseInfo<Seq<char>>)
    ensures
        device_of(fs, info).major_version == info.major_version,
        device_of(fs, info).minor_version == info.minor_version,
    decreases fs.len(),
{
    if fs.len() > 0 {
        lemma_device_keeps_versions(fs.subrange(1, fs.len() as int), device_step(info, fs[0]));
    }
}

/// Whether two requests differ in their versions at most.
pub open spec fn same_but_version(a: VersionRequestModel, b: VersionRequestModel) -> bool {
    b == VersionRequestInfo {
        major_version: b.major_version,
        minor_version: b.minor_version,
        ..a
    }
}

/// Whether two responses differ in their versions at most.
pub open spec fn same_response_but_version(
    a: VersionResponseInfo<Seq<char>>,
    b: VersionResponseInfo<Seq<char>>,
) -> bool {
    b == VersionResponseInfo {
        major_version: b.major_version,
        minor_version: b.minor_version,
        ..a
    }
}

/// Whether fields are those of another list with versions put in, and behind them
/// nothing but versions.
spec fn is_overridden(fs: Seq<Field>, gs: Seq<Field>, major: u16, minor: u16) -> bool {
    &&& gs.len() >= fs.len()
    &&& forall|i: int|
        0 <= i < fs.len() ==> #[trigger] gs[i] == wire::after_override(fs[i], major, minor)
    &&& forall|i: int|
        fs.len() <= i < gs.len() ==> (#[trigger] gs[i] == wire::version_field(1, major) || gs[i]
            == wire::version_field(2, minor))
}

proof fn lemma_overridden_tail(fs: Seq<Field>, gs: Seq<Field>, major: u16, minor: u16)
    requires
        is_overridden(fs, gs, major, minor),
        gs.len() > 0,
    ensures
        fs.len() > 0 ==> is_overridden(
            fs.subrange(1, fs.len() as int),
            gs.subrange(1, gs.len() as int),
            major,
            minor,
        ) && gs[0] == wire::after_override(fs[0], major, minor),
        fs.len() == 0 ==> is_overridden(fs, gs.subrange(1, gs.len() as int), major, minor) && (
        gs[0] == wire::version_field(1, major) || gs[0] == wire::version_field(2, minor)),
{
    let rest = gs.subrange(1, gs.len() as int);
    if fs.len() > 0 {
        let fs1 = fs.subrange(1, fs.len() as int);
        assert forall|i: int| 0 <= i < fs1.len() implies #[trigger] rest[i]
            == wire::after_override(fs1[i], major, minor) by {
            assert(gs[i + 1] == wire::after_override(fs[i + 1], major, minor));
        }
        assert forall|i: int| fs1.len() <= i < rest.len() implies (#[trigger] rest[i]
            == wire::version_field(1, major) || rest[i] == wire::version_field(2, minor)) by {
            assert(rest[i] == gs[i + 1]);
        }
    } else {
        assert forall|i: int| 0 <= i < rest.len() implies (#[trigger] rest[i]
            == wire::version_field(1, major) || rest[i] == wire::version_field(2, minor)) by {
            assert(rest[i] == gs[i + 1]);
        }
    }
}

proof fn lemma_request_keeps_the_rest(
    fs: Seq<Field>,
    gs: Seq<Field>,
    a: VersionRequestModel,
    b: VersionRequestModel,
    major: u16,
    minor: u16,
)
    requires
        forall|i: int| 0 <= i < fs.len() ==> wire::stands_alone(#[trigger] fs[i]),
        is_overridden(fs, gs, major, minor),
        same_but_version(a, b),
    ensures
        same_but_version(request_of(fs, a), request_of(gs, b)),
    decreases gs.len(),
{
    if gs.len() > 0 {
        let rest = gs.subrange(1, gs.len() as int);
        lemma_overridden_tail(fs, gs, major, minor);
        if fs.len() > 0 {
            let fs1 = fs.subrange(1, fs.len() as int);
            assert forall|i: int| 0 <= i < fs1.len() implies wire::stands_alone(
                #[trigger] fs1[i],
            ) by {
                assert(fs1[i] == fs[i + 1]);
            }
            assert(wire::stands_alone(fs[0]));
            lemma_request_keeps_the_rest(
                fs1,
                rest,
                request_step(a, fs[0]),
                request_step(b, gs[0]),
                major,
                minor,
            );
        } else {
            lemma_request_keeps_the_rest(fs, rest, a, request_step(b, gs[0]), major, minor);
        }
    }
}

proof fn lemma_device_keeps_the_rest(
    fs: Seq<Field>,
    a: VersionResponseInfo<Seq<char>>,
    b: VersionResponseInfo<Seq<char>>,
)
    requires
        same_response_but_version(a, b),
    ensures
        same_response_but_version(device_of(fs, a), device_of(fs, b)),
    decreases fs.len(),
{
    if fs.len() > 0 {
        lemma_device_keeps_the_rest(
            fs.subrange(1, fs.len() as int),
            device_step(a, fs[0]),
            device_step(b, fs[0]),
        );
    }
}

proof fn lemma_response_keeps_the_rest(
    fs: Seq<Field>,
    gs: Seq<Field>,
    a: VersionResponseInfo<Seq<char>>,
    b: VersionResponseInfo<Seq<char>>,
    major: u16,
    minor: u16,
)
    requires
        forall|i: int| 0 <= i < fs.len() ==> wire::stands_alone(#[trigger] fs[i]),
        is_overridden(fs, gs, major, minor),
        same_response_but_version(a, b),
    ensures
        same_response_but_version(response_of(fs, a), response_of(gs, b)),
    decreases gs.len(),
{
    if gs.len() > 0 {
        let rest = gs.subrange(1, gs.len() as int);
        lemma_overridden_tail(fs, gs, major, minor);
        if fs.len() > 0 {
            let fs1 = fs.subrange(1, fs.len() as int);
            assert forall|i: int| 0 <= i < fs1.len() implies wire::stands_alone(
                #[trigger] fs1[i],
            ) by {
                assert(fs1[i] == fs[i + 1]);
            }
            assert(wire::stands_alone(fs[0]));
            if fs[0].value is Bytes {
                lemma_device_keeps_the_rest(wire::fields(fs[0].value->Bytes_0), a, b);
            }
            lemma_response_keeps_the_rest(
                fs1,
                rest,
                response_step(a, fs[0]),
                response_step(b, gs[0]),
                major,
                minor,
            );
        } else {
            lemma_response_keeps_the_rest(fs, rest, a, response_step(b, gs[0]), major, minor);
        }
    }
}

/// A whole version request or response shows the version that was put into it, and
/// for the rest what it showed before, unless a field number is so large that the
/// readers cut it down.
pub proof fn law_override_shows_in_versions(payload: Seq<u8>, major: u16, minor: u16)
    requires
        wire::is_whole(payload),
        numbers_fit(wire::fields(payload)),
    ensures
        version_request(wire::with_version(payload, major, minor)->0) == (VersionRequestInfo {
            major_version: Some(major as u64),
            minor_version: Some(minor as u64),
            ..version_request(payload)
        }),
        version_response(wire::with_version(payload, major, minor)->0) == (VersionResponseInfo {
            major_version: Some(major as u64),
            minor_version: Some(minor as u64),
            ..version_response(payload)
        }),
{
    wire::law_override_sets_only_the_version(payload, major, minor);
    lemma_after_override_holds(wire::fields(payload), major, minor);
    let out = wire::with_version(payload, major, minor)->0;
    let fs = wire::fields(payload);
    let gs = wire::fields(out);
    assert forall|i: int| 0 <= i < gs.len() implies (#[trigger] gs[i]).number()
        < 0x1_0000_0000 by {
        if i < fs.len() {
            assert(gs[i] == wire::after_override(fs[i], major, minor));
            assert(fs[i].number() < 0x1_0000_0000);
        }
    }
    wire::lemma_fields_stand_alone(payload, 0);
    wire::lemma_fields_stand_alone(out, 0);
    lemma_request_versions(gs, no_request(), major, minor);
    lemma_response_versions(gs, no_response(), major, minor);
    assert(is_overridden(fs, gs, major, minor));
    lemma_request_keeps_the_rest(fs, gs, no_request(), no_request(), major, minor);
    lemma_response_keeps_the_rest(fs, gs, no_response(), no_response(), major, minor);
}

// ---------------------------------------------------------------------
// Field by field

proof fn lemma_projection_of_push(fs: Seq<Field>, f: Field, info: ProjectionInfo<Seq<char>>)
    ensures
        projection_of(fs.push(f), info) == projection_step(projection_of(fs, info), f),
    decreases fs.len(),
{
    let all = fs.push(f);
    let rest = all.subrange(1, all.len() as int);
    if fs.len() == 0 {
        assert(rest =~= Seq::<Field>::empty());
        assert(all[0] == f);
        assert(projection_of(rest, projection_step(info, f)) == projection_step(info, f));
    } else {
        assert(rest =~= fs.subrange(1, fs.len() as int).push(f));
        assert(all[0] == fs[0]);
        lemma_projection_of_push(fs.subrange(1, fs.len() as int), f, projection_step(info, fs[0]));
    }
}

proof fn lemma_head_unit_of_push(fs: Seq<Field>, f: Field, info: HeadUnitInfo<Seq<char>>)
    ensures
        head_unit_of(fs.push(f), info) == head_unit_step(head_unit_of(fs, info), f),
    decreases fs.len(),
{
    let all = fs.push(f);
    let rest = all.subrange(1, all.len() as int);
    if fs.len() == 0 {
        assert(rest =~= Seq::<Field>::empty());
        assert(all[0] == f);
        assert(head_unit_of(rest, head_unit_step(info, f)) == head_unit_step(info, f));
    } else {
        assert(rest =~= fs.subrange(1, fs.len() as int).push(f));
        assert(all[0] == fs[0]);
        lemma_head_unit_of_push(fs.subrange(1, fs.len() as int), f, head_unit_step(info, fs[0]));
    }
}

proof fn lemma_request_of_push(fs: Seq<Field>, f: Field, info: VersionRequestModel)
    ensures
        request_of(fs.push(f), info) == request_step(request_of(fs, info), f),
    decreases fs.len(),
{
    let all = fs.push(f);
    let rest = all.subrange(1, all.len() as int);
    if fs.len() == 0 {
        assert(rest =~= Seq::<Field>::empty());
        assert(all[0] == f);
        assert(request_of(rest, request_step(info, f)) == request_step(info, f));
    } else {
        assert(rest =~= fs.subrange(1, fs.len() as int).push(f));
        assert(all[0] == fs[0]);
        lemma_request_of_push(fs.subrange(1, fs.len() as int), f, request_step(info, fs[0]));
    }
}

proof fn lemma_device_of_push(fs: Seq<Field>, f: Field, info: VersionResponseInfo<Seq<char>>)
    ensures
        device_of(fs.push(f), info) == device_step(device_of(fs, info), f),
    decreases fs.len(),
{
    let all = fs.push(f);
    let rest = all.subrange(1, all.len() as int);
    if fs.len() == 0 {
        assert(rest =~= Seq::<Field>::empty());
        assert(all[0] == f);
        assert(device_of(rest, device_step(info, f)) == device_step(info, f));
    } else {
        assert(rest =~= fs.subrange(1, fs.len() as int).push(f));
        assert(all[0] == fs[0]);
        lemma_device_of_push(fs.subrange(1, fs.len() as int), f, device_step(info, fs[0]));
    }
}

proof fn lemma_response_of_push(fs: Seq<Field>, f: Field, info: VersionResponseInfo<Seq<char>>)
    ensures
        response_of(fs.push(f), info) == response_step(response_of(fs, info), f),
    decreases fs.len(),
{
    let all = fs.push(f);
    let rest = all.subrange(1, all.len() as int);
    if fs.len() == 0 {
        assert(rest =~= Seq::<Field>::empty());
        assert(all[0] == f);
        assert(response_of(rest, response_step(info, f)) == response_step(info, f));
    } else {
        assert(rest =~= fs.subrange(1, fs.len() as int).push(f));
        assert(all[0] == fs[0]);
        lemma_response_of_push(fs.subrange(1, fs.len() as int), f, response_step(info, fs[0]));
    }
}

/// What one more field says of the projection endpoint: a text in the first
/// field is its address, a number in the second is its port, and nothing else
/// counts. The last one of each stands.
pub proof fn law_projection_is_told_by_its_fields(
    fs: Seq<Field>,
    f: Field,
    info: ProjectionInfo<Seq<char>>,
)
    requires
        f.key < 0x8_0000_0000,
    ensures
        ({
            let was = projection_of(fs, info);
            let now = projection_of(fs.push(f), info);
            let n = f.key / 8;
            &&& f.value is Bytes && n == 1 ==> now == (ProjectionInfo {
                ip_address: utf8_text(f.value->Bytes_0),
                ..was
            })
            &&& f.value is Varint && n == 2 ==> now == (ProjectionInfo {
                port: Some((f.value->Varint_0 % 0x1_0000_0000) as u32),
                ..was
            })
            &&& !(f.value is Bytes && n == 1) && !(f.value is Varint && n == 2) ==> now == was
        }),
        projection_of(Seq::empty(), info) == info,
{
    lemma_projection_of_push(fs, f, info);
}

/// What one more field says of the head unit: the texts in the first eight
/// fields are the make, model and year of the car, its id, and the make, model,
/// build and version of the head unit; nothing else counts.
pub proof fn law_head_unit_is_told_by_its_fields(
    fs: Seq<Field>,
    f: Field,
    info: HeadUnitInfo<Seq<char>>,
)
    requires
        f.key < 0x8_0000_0000,
        f.value is Bytes,
    ensures
        ({
            let was = head_unit_of(fs, info);
            let now = head_unit_of(fs.push(f), info);
            let n = f.key / 8;
            let text = utf8_text(f.value->Bytes_0);
            &&& n == 1 ==> now == (HeadUnitInfo { car_make: text, ..was })
            &&& n == 2 ==> now == (HeadUnitInfo { car_model: text, ..was })
            &&& n == 3 ==> now == (HeadUnitInfo { car_year: text, ..was })
            &&& n == 4 ==> now == (HeadUnitInfo { vehicle_id: text, ..was })
            &&& n == 5 ==> now == (HeadUnitInfo { head_unit_make: text, ..was })
            &&& n == 6 ==> now == (HeadUnitInfo { head_unit_model: text, ..was })
            &&& n == 7 ==> now == (HeadUnitInfo { head_unit_software_build: text, ..was })
            &&& n == 8 ==> now == (HeadUnitInfo { head_unit_software_version: text, ..was })
            &&& n == 0 || n > 8 ==> now == was
        }),
        head_unit_of(Seq::empty(), info) == info,
{
    lemma_head_unit_of_push(fs, f, info);
}

/// Numbers say nothing of the head unit.
pub proof fn law_head_unit_has_no_numbers(fs: Seq<Field>, f: Field, info: HeadUnitInfo<Seq<char>>)
    requires
        !(f.value is Bytes),
    ensures
        head_unit_of(fs.push(f), info) == head_unit_of(fs, info),
{
    lemma_head_unit_of_push(fs, f, info);
}

/// What a number says in a version request: the first two fields are the
/// version, the next two name a channel each.
pub proof fn law_request_is_told_by_its_numbers(fs: Seq<Field>, f: Field, info: VersionRequestModel)
    requires
        f.key < 0x8_0000_0000,
        f.value is Varint,
    ensures
        ({
            let was = request_of(fs, info);
            let now = request_of(fs.push(f), info);
            let n = f.key / 8;
            let v = f.value->Varint_0;
            &&& n == 1 ==> now == (VersionRequestInfo { major_version: Some(v), ..was })
            &&& n == 2 ==> now == (VersionRequestInfo { minor_version: Some(v), ..was })
            &&& n == 3 || n == 4 ==> now == (VersionRequestInfo {
                supported_wifi_channels: was.supported_wifi_channels.push(wire::as_signed(v)),
                ..was
            })
            &&& n == 0 || n > 4 ==> now == was
        }),
        request_of(Seq::empty(), info) == info,
{
    lemma_request_of_push(fs, f, info);
}

/// What bytes say in a version request: the third field is a list of channels,
/// the fourth is the head unit, the fifth is the projection endpoint where it
/// holds one or holds no head unit, and else fills in what is not known yet of
/// the head unit.
pub proof fn law_request_is_told_by_its_bytes(fs: Seq<Field>, f: Field, info: VersionRequestModel)
    requires
        f.key < 0x8_0000_0000,
        f.value is Bytes,
    ensures
        ({
            let was = request_of(fs, info);
            let now = request_of(fs.push(f), info);
            let n = f.key / 8;
            let b = f.value->Bytes_0;
            let inner = wire::fields(b);
            let endpoint = projection_of(
                inner,
                ProjectionInfo { ip_address: None::<Seq<char>>, port: None },
            );
            let unit = head_unit_of(inner, no_head_unit());
            &&& n == 3 ==> now == (VersionRequestInfo {
                supported_wifi_channels: was.supported_wifi_channels + packed_from(b, 0),
                ..was
            })
            &&& n == 4 ==> now == (VersionRequestInfo {
                head_unit: head_unit_of(inner, was.head_unit),
                ..was
            })
            &&& n == 5 && is_endpoint(endpoint) ==> now == (VersionRequestInfo {
                projection: endpoint,
                ..was
            })
            &&& n == 5 && unit == no_head_unit() ==> now == (VersionRequestInfo {
                projection: endpoint,
                ..was
            })
            &&& n == 5 && !is_endpoint(endpoint) && unit != no_head_unit() ==> now == (
            VersionRequestInfo { head_unit: merged_head_unit(was.head_unit, unit), ..was })
            &&& n < 3 || n > 5 ==> now == was
        }),
{
    lemma_request_of_push(fs, f, info);
    let unit = head_unit_of(wire::fields(f.value->Bytes_0), no_head_unit());
    assert(!is_populated(unit) ==> unit == no_head_unit());
}

/// Fields of a fixed size say nothing in either message.
pub proof fn law_fixed_fields_say_nothing(
    fs: Seq<Field>,
    f: Field,
    request: VersionRequestModel,
    response: VersionResponseInfo<Seq<char>>,
)
    requires
        f.value is Fixed,
    ensures
        request_of(fs.push(f), request) == request_of(fs, request),
        response_of(fs.push(f), response) == response_of(fs, response),
{
    lemma_request_of_push(fs, f, request);
    lemma_response_of_push(fs, f, response);
}

/// A message of one varint after the other is the list of their numbers.
pub proof fn law_packed_numbers_are_read(before: Seq<u8>, value: u64, behind: Seq<u8>)
    ensures
        ({
            let data = before + wire::varint_bytes(value as nat) + behind;
            let next = before.len() + wire::varint_bytes(value as nat).len();
            packed_from(data, before.len() as int) == seq![wire::as_signed(value)] + packed_from(
                data,
                next as int,
            )
        }),
        packed_from(before, before.len() as int).len() == 0,
{
    wire::law_varint_round_trip(before, value, behind);
}

/// An endpoint is an address in the usual notation and a port other than zero.
pub proof fn law_endpoint_has_address_and_port(info: ProjectionInfo<Seq<char>>)
    ensures
        is_endpoint(info) <==> info.ip_address is Some && info.port is Some && info.port->0 != 0
            && net_text::is_ip(info.ip_address->0),
{
}

/// Merging keeps what is known and fills in what is not.
pub proof fn law_merging_fills_gaps(dst: HeadUnitInfo<Seq<char>>, src: HeadUnitInfo<Seq<char>>)
    ensures
        ({
            let out = merged_head_unit(dst, src);
            &&& out.car_make == (if dst.car_make is Some {
                dst.car_make
            } else {
                src.car_make
            })
            &&& out.car_model == (if dst.car_model is Some {
                dst.car_model
            } else {
                src.car_model
            })
            &&& out.car_year == (if dst.car_year is Some {
                dst.car_year
            } else {
                src.car_year
            })
            &&& out.vehicle_id == (if dst.vehicle_id is Some {
                dst.vehicle_id
            } else {
                src.vehicle_id
            })
            &&& out.head_unit_make == (if dst.head_unit_make is Some {
                dst.head_unit_make
            } else {
                src.head_unit_make
            })
            &&& out.head_unit_model == (if dst.head_unit_model is Some {
                dst.head_unit_model
            } else {
                src.head_unit_model
            })
            &&& out.head_unit_software_build == (if dst.head_unit_software_build is Some {
                dst.head_unit_software_build
            } else {
                src.head_unit_software_build
            })
            &&& out.head_unit_software_version == (if dst.head_unit_software_version is Some {
                dst.head_unit_software_version
            } else {
                src.head_unit_software_version
            })
        }),
        is_populated(dst) <==> dst != no_head_unit(),
{
}

/// What a number says in a version response: the first two fields are the
/// version, the fourth is the status, the fifth the type of the channel.
pub proof fn law_response_is_told_by_its_numbers(
    fs: Seq<Field>,
    f: Field,
    info: VersionResponseInfo<Seq<char>>,
)
    requires
        f.key < 0x8_0000_0000,
        f.value is Varint,
    ensures
        ({
            let was = response_of(fs, info);
            let now = response_of(fs.push(f), info);
            let n = f.key / 8;
            let v = f.value->Varint_0;
            &&& n == 1 ==> now == (VersionResponseInfo { major_version: Some(v), ..was })
            &&& n == 2 ==> now == (VersionResponseInfo { minor_version: Some(v), ..was })
            &&& n == 4 ==> now == (VersionResponseInfo {
                status: Some(wire::as_signed(v)),
                ..was
            })
            &&& n == 5 ==> now == (VersionResponseInfo {
                selected_wifi_channel_type: Some(v),
                ..was
            })
            &&& n == 0 || n == 3 || n > 5 ==> now == was
        }),
        response_of(Seq::empty(), info) == info,
{
    lemma_response_of_push(fs, f, info);
}

/// What bytes say in a version response: the third field is the serial number
/// of the device, the sixth tells of the device in fields of its own.
pub proof fn law_response_is_told_by_its_bytes(
    fs: Seq<Field>,
    f: Field,
    info: VersionResponseInfo<Seq<char>>,
)
    requires
        f.key < 0x8_0000_0000,
        f.value is Bytes,
    ensures
        ({
            let was = response_of(fs, info);
            let now = response_of(fs.push(f), info);
            let n = f.key / 8;
            &&& n == 3 ==> now == (VersionResponseInfo {
                device_serial: utf8_text(f.value->Bytes_0),
                ..was
            })
            &&& n == 6 ==> now == device_of(wire::fields(f.value->Bytes_0), was)
            &&& n != 3 && n != 6 ==> now == was
        }),
{
    lemma_response_of_push(fs, f, info);
}

/// What one more field says of the device: a text in the first field is its id,
/// one in the second that of its connection.
pub proof fn law_device_is_told_by_its_fields(
    fs: Seq<Field>,
    f: Field,
    info: VersionResponseInfo<Seq<char>>,
)
    requires
        f.key < 0x8_0000_0000,
    ensures
        ({
            let was = device_of(fs, info);
            let now = device_of(fs.push(f), info);
            let n = f.key / 8;
            &&& f.value is Bytes && n == 1 ==> now == (VersionResponseInfo {
                device_id: utf8_text(f.value->Bytes_0),
                ..was
            })
            &&& f.value is Bytes && n == 2 ==> now == (VersionResponseInfo {
                connectivity_lifetime_id: utf8_text(f.value->Bytes_0),
                ..was
            })
            &&& !(f.value is Bytes) || n == 0 || n > 2 ==> now == was
        }),
        device_of(Seq::empty(), info) == info,
{
    lemma_device_of_push(fs, f, info);
}

/// A message without fields says nothing.
pub proof fn law_nothing_is_said_without_fields()
    ensures
        version_request(Seq::empty()) == (VersionRequestInfo {
            major_version: None,
            minor_version: None,
            supported_wifi_channels: Seq::<i64>::empty(),
            head_unit: no_head_unit(),
            projection: ProjectionInfo { ip_address: None::<Seq<char>>, port: None },
        }),
        version_response(Seq::empty()) == (VersionResponseInfo::<Seq<char>> {
            major_version: None,
            minor_version: None,
            device_serial: None,
            status: None,
            selected_wifi_channel_type: None,
            device_id: None,
            connectivity_lifetime_id: None,
        }),
        setup_info(Seq::empty()) == (WifiSetupInfoDebugInfo {
            major_version: None,
            minor_version: None,
        }),
{
    wire::law_empty_message_has_no_fields();
    assert(wire::fields(Seq::<u8>::empty()) =~= Seq::<Field>::empty());
}

} // verus!
