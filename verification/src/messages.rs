//! The two messages whose fields the proxy reads and fills in: the request to
//! start, and the description of a network.

use crate::inspect;
use crate::pairing;
use crate::text;
use crate::wifi_iface;
use crate::wifi_text::CarWifiInfo;
use crate::wifi_text::WifiInfo;
use crate::wire;
use protobuf::well_known_types::empty::Empty;
use protobuf::CodedOutputStream;
use protobuf::Message;
use vstd::prelude::*;
use vstd::utf8;

verus! {

// ---------------------------------------------------------------------
// Messages without a schema

/// The value of a field as it is written.
pub enum RawValue<B> {
    Fixed32(u32),
    Fixed64(u64),
    Varint(u64),
    Bytes(B),
}

pub type ValueModel = RawValue<Seq<u8>>;

impl View for RawValue<Vec<u8>> {
    type V = RawValue<Seq<u8>>;

    open spec fn view(&self) -> RawValue<Seq<u8>> {
        match *self {
            RawValue::Fixed32(v) => RawValue::Fixed32(v),
            RawValue::Fixed64(v) => RawValue::Fixed64(v),
            RawValue::Varint(v) => RawValue::Varint(v),
            RawValue::Bytes(b) => RawValue::Bytes(b@),
        }
    }
}

/// A field of a message.
pub struct MessageField<B> {
    pub number: u32,
    pub value: RawValue<B>,
}

pub type RawField = MessageField<Vec<u8>>;

pub type RawFieldModel = MessageField<Seq<u8>>;

impl DeepView for MessageField<Vec<u8>> {
    type V = MessageField<Seq<u8>>;

    open spec fn deep_view(&self) -> MessageField<Seq<u8>> {
        MessageField { number: self.number, value: self.value@ }
    }
}

/// The values of all fields with one number, those of each sort in their order.
pub struct FieldValues {
    pub fixed32: Seq<u32>,
    pub fixed64: Seq<u64>,
    pub varints: Seq<u64>,
    pub bytes: Seq<Seq<u8>>,
}

pub open spec fn no_values() -> FieldValues {
    FieldValues {
        fixed32: Seq::empty(),
        fixed64: Seq::empty(),
        varints: Seq::empty(),
        bytes: Seq::empty(),
    }
}

pub open spec fn with_value(values: FieldValues, value: ValueModel) -> FieldValues {
    match value {
        RawValue::Fixed32(v) => FieldValues { fixed32: values.fixed32.push(v), ..values },
        RawValue::Fixed64(v) => FieldValues { fixed64: values.fixed64.push(v), ..values },
        RawValue::Varint(v) => FieldValues { varints: values.varints.push(v), ..values },
        RawValue::Bytes(v) => FieldValues { bytes: values.bytes.push(v), ..values },
    }
}

/// The values of one message behind those of another.
pub open spec fn joined(a: FieldValues, b: FieldValues) -> FieldValues {
    FieldValues {
        fixed32: a.fixed32 + b.fixed32,
        fixed64: a.fixed64 + b.fixed64,
        varints: a.varints + b.varints,
        bytes: a.bytes + b.bytes,
    }
}

/// The values with one number in a list of fields.
pub open spec fn collected(fields: Seq<RawFieldModel>, number: u32) -> FieldValues
    decreases fields.len(),
{
    if fields.len() == 0 {
        no_values()
    } else {
        let before = collected(fields.drop_last(), number);
        if fields.last().number == number {
            with_value(before, fields.last().value)
        } else {
            before
        }
    }
}

#[verifier::external_type_specification]
#[verifier::external_body]
pub struct ExEmpty(Empty);

/// The fields of a message: for each number the values that it has.
pub uninterp spec fn message_fields(message: Empty) -> Map<u32, FieldValues>;

/// The fields of the message that bytes are, or why they are none.
pub uninterp spec fn message_in(bytes: Seq<u8>) -> Result<Map<u32, FieldValues>, Seq<char>>;

/// The fields of the message that bytes are, if they are one.
pub open spec fn fields_in_bytes(bytes: Seq<u8>) -> Option<Map<u32, FieldValues>> {
    match message_in(bytes) {
        Ok(f) => Some(f),
        Err(_) => None,
    }
}

/// Numbers of fields have twenty-nine bits.
pub open spec fn is_field_number(number: u32) -> bool {
    0 < number <= 0x1fff_ffff
}

/// Whether every number is one that a field can have, and no length takes more
/// than thirty-two bits.
pub open spec fn can_be_written(fields: Map<u32, FieldValues>) -> bool {
    &&& forall|n: u32| !is_field_number(n) ==> #[trigger] fields[n] == no_values()
    &&& forall|n: u32, i: int|
        0 <= i < fields[n].bytes.len() ==> (#[trigger] fields[n].bytes[i]).len() <= MAX_TEXT
}

/// `protobuf::Message::parse_from_bytes` for a message that knows no field, and so
/// keeps each of them. Of the result, and of the text of the error, it is claimed
/// that it depends on the bytes alone, and that numbers and lengths are such as
/// messages have.
#[verifier::external_body]
fn parse_message(bytes: &[u8]) -> (r: Result<Empty, String>)
    ensures
        match r {
            Ok(m) => (message_in(bytes@) matches Ok(f) && f == message_fields(m)
                && can_be_written(f)),
            Err(e) => (message_in(bytes@) matches Err(error) && error == e@),
        },
{
    Empty::parse_from_bytes(bytes).map_err(|e| e.to_string())
}

/// `protobuf::UnknownFields::iter`: the fields of a message. In which order the
/// numbers come is not said.
#[verifier::external_body]
fn message_values(message: &Empty) -> (r: Vec<RawField>)
    ensures
        forall|n: u32| #[trigger] collected(r.deep_view(), n) == message_fields(*message)[n],
{
    let fields = message.special_fields.unknown_fields().iter();
    fields.map(|(number, v)| MessageField { number, value: match v {
        protobuf::UnknownValueRef::Fixed32(n) => RawValue::Fixed32(n),
        protobuf::UnknownValueRef::Fixed64(n) => RawValue::Fixed64(n),
        protobuf::UnknownValueRef::Varint(n) => RawValue::Varint(n),
        protobuf::UnknownValueRef::LengthDelimited(b) => RawValue::Bytes(b.to_vec()),
    } }).collect()
}

/// `protobuf::Message::new`: a message without fields.
#[verifier::external_body]
fn new_message() -> (r: Empty)
    ensures
        forall|n: u32| #[trigger] message_fields(r)[n] == no_values(),
{
    Empty::new()
}

/// Whether a message has got one value more, behind those that its field had.
pub open spec fn is_added(
    before: Map<u32, FieldValues>,
    after: Map<u32, FieldValues>,
    number: u32,
    value: ValueModel,
) -> bool {
    forall|n: u32| #[trigger]
        after[n] == (if n == number {
            with_value(before[n], value)
        } else {
            before[n]
        })
}

/// `protobuf::UnknownFields::add_fixed32`: the field gets a value more.
#[verifier::external_body]
fn add_fixed32(message: &mut Empty, number: u32, v: u32)
    ensures
        is_added(
            message_fields(*old(message)),
            message_fields(*final(message)),
            number,
            RawValue::Fixed32(v),
        ),
{
    message.special_fields.mut_unknown_fields().add_fixed32(number, v);
}

/// `protobuf::UnknownFields::add_fixed64`: the field gets a value more.
#[verifier::external_body]
fn add_fixed64(message: &mut Empty, number: u32, v: u64)
    ensures
        is_added(
            message_fields(*old(message)),
            message_fields(*final(message)),
            number,
            RawValue::Fixed64(v),
        ),
{
    message.special_fields.mut_unknown_fields().add_fixed64(number, v);
}

/// `protobuf::UnknownFields::add_varint`: the field gets a value more.
#[verifier::external_body]
fn add_varint(message: &mut Empty, number: u32, v: u64)
    ensures
        is_added(
            message_fields(*old(message)),
            message_fields(*final(message)),
            number,
            RawValue::Varint(v),
        ),
{
    message.special_fields.mut_unknown_fields().add_varint(number, v);
}

/// `protobuf::UnknownFields::add_length_delimited`: the field gets a value more.
#[verifier::external_body]
fn add_bytes(message: &mut Empty, number: u32, v: Vec<u8>)
    ensures
        is_added(
            message_fields(*old(message)),
            message_fields(*final(message)),
            number,
            RawValue::Bytes(v@),
        ),
{
    message.special_fields.mut_unknown_fields().add_length_delimited(number, v);
}

/// The fields of bytes that may be none: no bytes have no fields.
pub open spec fn fields_so_far(bytes: Seq<u8>) -> Option<Map<u32, FieldValues>> {
    if bytes.len() == 0 {
        Some(Map::total(|n: u32| no_values()))
    } else {
        fields_in_bytes(bytes)
    }
}

/// Whether bytes that got a field more have the fields that they had, and that one.
pub open spec fn has_one_more(
    before: Seq<u8>,
    after: Seq<u8>,
    number: u32,
    value: ValueModel,
) -> bool {
    fields_so_far(before) matches Some(f) ==> (fields_in_bytes(after) matches Some(g) && is_added(
        f,
        g,
        number,
        value,
    ))
}

/// Whether the fields of one message stand behind those of another.
pub open spec fn are_joined(
    a: Map<u32, FieldValues>,
    b: Map<u32, FieldValues>,
    both: Map<u32, FieldValues>,
) -> bool {
    forall|n: u32| #[trigger] both[n] == joined(a[n], b[n])
}

/// Whether bytes that got a message more have the fields of both.
pub open spec fn has_both(
    before: Seq<u8>,
    after: Seq<u8>,
    more: Map<u32, FieldValues>,
) -> bool {
    fields_so_far(before) matches Some(f) ==> (fields_in_bytes(after) matches Some(g)
        && are_joined(f, more, g))
}

/// `protobuf::Message::write_to_with_cached_sizes`: adds the fields of a message to
/// bytes. Read again, the bytes have the fields of both. In which order the fields
/// of the message stand is not said.
#[verifier::external_body]
fn append_message(out: &mut Vec<u8>, message: &Empty)
    requires
        can_be_written(message_fields(*message)),
    ensures
        final(out)@.len() >= old(out)@.len(),
        final(out)@.take(old(out)@.len() as int) == old(out)@,
        has_both(old(out)@, final(out)@, message_fields(*message)),
{
    let mut stream = CodedOutputStream::vec(out);
    let _ = message.write_to_with_cached_sizes(&mut stream);
    let _ = stream.flush();
}

/// A text field: its number, its length, and the text in UTF-8.
pub open spec fn string_field(number: nat, s: Seq<char>) -> Seq<u8> {
    wire::varint_bytes(number * 8 + 2) + wire::varint_bytes(utf8::encode_utf8(s).len())
        + utf8::encode_utf8(s)
}

/// The longest text that a message can hold.
pub const MAX_TEXT: usize = 0xffff_ffff;

/// `protobuf::CodedOutputStream::write_string`: adds a text field. Read again, the
/// bytes have that field more. Lengths have thirty-two bits.
#[verifier::external_body]
fn write_string(out: &mut Vec<u8>, number: u32, s: &str)
    requires
        is_field_number(number),
        wifi_iface::byte_len(s@) <= MAX_TEXT,
    ensures
        final(out)@ == old(out)@ + string_field(number as nat, s@),
        has_one_more(
            old(out)@,
            final(out)@,
            number,
            RawValue::Bytes(utf8::encode_utf8(s@)),
        ),
{
    let mut stream = CodedOutputStream::vec(out);
    let _ = stream.write_string(number, s);
    let _ = stream.flush();
}

/// `protobuf::CodedOutputStream::write_int32`: adds a number field. Read again, the
/// bytes have that field more.
#[verifier::external_body]
fn write_int32(out: &mut Vec<u8>, number: u32, value: i32)
    requires
        is_field_number(number),
    ensures
        final(out)@ == old(out)@ + wire::int32_field(number as nat, value),
        has_one_more(
            old(out)@,
            final(out)@,
            number,
            RawValue::Varint(wire::as_unsigned(value as int) as u64),
        ),
{
    let mut stream = CodedOutputStream::vec(out);
    let _ = stream.write_int32(number, value);
    let _ = stream.flush();
}

// ---------------------------------------------------------------------
// Reading fields

/// The text of a field: the last one that was written, or an empty one; none if
/// one of them is not UTF-8.
pub open spec fn text_of(values: Seq<Seq<u8>>) -> Option<Seq<char>>
    decreases values.len(),
{
    if values.len() == 0 {
        Some(Seq::empty())
    } else {
        match text_of(values.drop_last()) {
            Some(_) => inspect::utf8_text(values.last()),
            None => None,
        }
    }
}

/// A number of thirty-two bits with a sign, written with sixty-four.
pub open spec fn as_int32(v: u64) -> Option<i32> {
    let n = wire::as_signed(v);
    if i32::MIN <= n <= i32::MAX {
        Some(n as i32)
    } else {
        None
    }
}

/// The number of a field: the last one that was written, or zero; none if one of
/// them does not fit.
pub open spec fn int_of(values: Seq<u64>) -> Option<i32>
    decreases values.len(),
{
    if values.len() == 0 {
        Some(0)
    } else {
        match int_of(values.drop_last()) {
            Some(_) => as_int32(values.last()),
            None => None,
        }
    }
}

/// One field more is taken into account.
proof fn lemma_collected(fields: Seq<RawFieldModel>, i: int, number: u32)
    requires
        0 <= i < fields.len(),
    ensures
        collected(fields.take(i + 1), number) == (if fields[i].number == number {
            with_value(collected(fields.take(i), number), fields[i].value)
        } else {
            collected(fields.take(i), number)
        }),
{
    assert(fields.take(i + 1).drop_last() =~= fields.take(i));
}

fn read_text(fields: &Vec<RawField>, number: u32) -> (r: Option<String>)
    ensures
        r.deep_view() == text_of(collected(fields.deep_view(), number).bytes),
{
    let ghost all = fields.deep_view();
    let none = String::new();
    assert(none@ =~= Seq::<char>::empty());
    let mut current: Option<String> = Some(none);
    assert(all.take(0) =~= Seq::<RawFieldModel>::empty());
    for i in 0..fields.len()
        invariant
            all == fields.deep_view(),
            current.deep_view() == text_of(collected(all.take(i as int), number).bytes),
    {
        proof {
            assert(all[i as int] == fields@[i as int].deep_view());
            lemma_collected(all, i as int, number);
        }
        if fields[i].number == number {
            if let RawValue::Bytes(b) = &fields[i].value {
                let ghost before = collected(all.take(i as int), number).bytes;
                assert(before.push(b@).drop_last() =~= before);
                current = match current {
                    Some(_) => inspect::try_utf8(b.as_slice()),
                    None => None,
                };
            }
        }
    }
    assert(all.take(all.len() as int) =~= all);
    current
}

fn read_int(fields: &Vec<RawField>, number: u32) -> (r: Option<i32>)
    ensures
        r == int_of(collected(fields.deep_view(), number).varints),
{
    let ghost all = fields.deep_view();
    let mut current: Option<i32> = Some(0);
    assert(all.take(0) =~= Seq::<RawFieldModel>::empty());
    for i in 0..fields.len()
        invariant
            all == fields.deep_view(),
            current == int_of(collected(all.take(i as int), number).varints),
    {
        proof {
            assert(all[i as int] == fields@[i as int].deep_view());
            lemma_collected(all, i as int, number);
        }
        if fields[i].number == number {
            if let RawValue::Varint(v) = &fields[i].value {
                let ghost before = collected(all.take(i as int), number).varints;
                assert(before.push(*v).drop_last() =~= before);
                let n: i64 = wire::signed_from_proto_varint(*v);
                current = match current {
                    Some(_) => {
                        if -0x8000_0000 <= n && n <= 0x7fff_ffff {
                            Some(n as i32)
                        } else {
                            None
                        }
                    },
                    None => None,
                };
            }
        }
    }
    assert(all.take(all.len() as int) =~= all);
    current
}

// ---------------------------------------------------------------------
// What is wrong with a message

/// The first number that does not fit, if there is one.
pub open spec fn int_error(values: Seq<u64>) -> Option<Seq<char>>
    decreases values.len(),
{
    if values.len() == 0 {
        None
    } else {
        match int_error(values.drop_last()) {
            Some(error) => Some(error),
            None => if as_int32(values.last()) is None {
                Some(
                    "Value too large for i32: "@ + pairing::signed_text(
                        wire::as_signed(values.last()) as int,
                    ),
                )
            } else {
                None
            },
        }
    }
}

/// What is wrong with the values of a field that is to be a text or a number.
pub open spec fn field_error(values: FieldValues, is_text: bool) -> Option<Seq<char>> {
    if !is_text {
        int_error(values.varints)
    } else if text_of(values.bytes) is None {
        Some("Invalid UTF-8 sequence"@)
    } else {
        None
    }
}

/// What is wrong with the fields of a message. Of the numbers up to `last`, the
/// first `texts` are to be texts, and the others numbers.
pub open spec fn fields_error(f: Map<u32, FieldValues>, texts: nat, last: nat) -> Option<Seq<char>>
    decreases last,
{
    if last == 0 {
        None
    } else {
        match fields_error(f, texts, (last - 1) as nat) {
            Some(error) => Some(error),
            None => field_error(f[last as u32], last <= texts),
        }
    }
}

/// Where the field ends that begins at a place: the first place from `end` on up to
/// which the bytes are a message.
pub open spec fn piece_end(bytes: Seq<u8>, pos: int, end: int) -> Option<int>
    decreases bytes.len() + 1 - end,
{
    if end > bytes.len() {
        None
    } else if fields_in_bytes(bytes.subrange(pos, end)) is Some {
        Some(end)
    } else {
        piece_end(bytes, pos, end + 1)
    }
}

/// What is wrong with the first field, from a place on, that is not as it is to be.
pub open spec fn first_error(bytes: Seq<u8>, pos: int, texts: nat, last: nat) -> Option<Seq<char>>
    decreases bytes.len() - pos,
{
    match piece_end(bytes, pos, pos + 1) {
        Some(end) => if pos < end <= bytes.len() {
            match fields_error(fields_in_bytes(bytes.subrange(pos, end))->0, texts, last) {
                Some(error) => Some(error),
                None => first_error(bytes, end, texts, last),
            }
        } else {
            None
        },
        None => None,
    }
}

/// What is wrong with a message, if anything is: the fields are read one behind the
/// other, so what stands first is told.
pub open spec fn reading_error(bytes: Seq<u8>, texts: nat, last: nat) -> Option<Seq<char>> {
    match first_error(bytes, 0, texts, last) {
        Some(error) => Some(error),
        None => match message_in(bytes) {
            Ok(f) => fields_error(f, texts, last),
            Err(error) => Some(error),
        },
    }
}

proof fn lemma_int_error(values: Seq<u64>)
    ensures
        int_error(values) is Some == int_of(values) is None,
    decreases values.len(),
{
    if values.len() > 0 {
        lemma_int_error(values.drop_last());
    }
}

fn find_int_error(fields: &Vec<RawField>, number: u32) -> (r: Option<String>)
    ensures
        r.deep_view() == int_error(collected(fields.deep_view(), number).varints),
{
    let ghost all = fields.deep_view();
    let mut found: Option<String> = None;
    assert(all.take(0) =~= Seq::<RawFieldModel>::empty());
    for i in 0..fields.len()
        invariant
            all == fields.deep_view(),
            found.deep_view() == int_error(collected(all.take(i as int), number).varints),
    {
        proof {
            assert(all[i as int] == fields@[i as int].deep_view());
            lemma_collected(all, i as int, number);
        }
        if fields[i].number == number {
            if let RawValue::Varint(v) = &fields[i].value {
                let ghost before = collected(all.take(i as int), number).varints;
                assert(before.push(*v).drop_last() =~= before);
                let n: i64 = wire::signed_from_proto_varint(*v);
                if found.is_none() && (n < -0x8000_0000 || n > 0x7fff_ffff) {
                    let shown = pairing::show_signed(n);
                    found = Some(text::cat2("Value too large for i32: ", shown.as_str()));
                }
            }
        }
    }
    assert(all.take(all.len() as int) =~= all);
    found
}

fn find_fields_error(message: &Empty, texts: u32, last: u32) -> (r: Option<String>)
    requires
        last < u32::MAX,
    ensures
        r.deep_view() == fields_error(message_fields(*message), texts as nat, last as nat),
{
    let fields = message_values(message);
    let mut found: Option<String> = None;
    let mut number: u32 = 0;
    while number < last
        invariant
            number <= last < u32::MAX,
            forall|n: u32| #[trigger]
                collected(fields.deep_view(), n) == message_fields(*message)[n],
            found.deep_view() == fields_error(
                message_fields(*message),
                texts as nat,
                number as nat,
            ),
        decreases last - number,
    {
        number = number + 1;
        assert(collected(fields.deep_view(), number) == message_fields(*message)[number]);
        if found.is_none() {
            if number > texts {
                found = find_int_error(&fields, number);
            } else if read_text(&fields, number).is_none() {
                found = Some("Invalid UTF-8 sequence".to_owned());
            }
        }
    }
    found
}

/// The next field: the message that it makes, and where it ends.
fn next_piece(bytes: &[u8], pos: usize) -> (r: Option<(Empty, usize)>)
    requires
        pos < bytes@.len(),
    ensures
        match r {
            Some((m, end)) => {
                &&& piece_end(bytes@, pos as int, pos + 1) == Some(end as int)
                &&& pos < end <= bytes@.len()
                &&& fields_in_bytes(bytes@.subrange(pos as int, end as int)) == Some(
                    message_fields(m),
                )
            },
            None => piece_end(bytes@, pos as int, pos + 1) is None,
        },
{
    let mut end: usize = pos;
    while end < bytes.len()
        invariant
            pos <= end <= bytes@.len(),
            piece_end(bytes@, pos as int, pos + 1) == piece_end(bytes@, pos as int, end + 1),
        decreases bytes@.len() - end,
    {
        end = end + 1;
        if let Ok(m) = parse_message(vstd::slice::slice_subrange(bytes, pos, end)) {
            return Some((m, end));
        }
    }
    None
}

fn find_first_error(bytes: &[u8], texts: u32, last: u32) -> (r: Option<String>)
    requires
        last < u32::MAX,
    ensures
        r.deep_view() == first_error(bytes@, 0, texts as nat, last as nat),
{
    let mut pos: usize = 0;
    while pos < bytes.len()
        invariant
            pos <= bytes@.len(),
            last < u32::MAX,
            first_error(bytes@, 0, texts as nat, last as nat) == first_error(
                bytes@,
                pos as int,
                texts as nat,
                last as nat,
            ),
        decreases bytes@.len() - pos,
    {
        match next_piece(bytes, pos) {
            Some((m, end)) => {
                let found = find_fields_error(&m, texts, last);
                if found.is_some() {
                    return found;
                }
                pos = end;
            },
            None => {
                return None;
            },
        }
    }
    assert(piece_end(bytes@, pos as int, pos + 1) is None);
    None
}

fn find_error(bytes: &[u8], texts: u32, last: u32) -> (r: Option<String>)
    requires
        last < u32::MAX,
    ensures
        r.deep_view() == reading_error(bytes@, texts as nat, last as nat),
{
    let first = find_first_error(bytes, texts, last);
    if first.is_some() {
        return first;
    }
    match parse_message(bytes) {
        Ok(m) => find_fields_error(&m, texts, last),
        Err(error) => Some(error),
    }
}

// ---------------------------------------------------------------------
// The request to start

/// The endpoint in the fields of a request: its address in the first one, its port
/// in the second.
pub open spec fn endpoint_of(first: FieldValues, second: FieldValues) -> Option<(Seq<char>, i32)> {
    match (text_of(first.bytes), int_of(second.varints)) {
        (Some(ip), Some(port)) => Some((ip, port)),
        _ => None,
    }
}

/// Reads an endpoint out of the fields of a request.
pub fn endpoint_from(fields: &Vec<RawField>) -> (r: Option<(String, i32)>)
    ensures
        ({
            let all = fields.deep_view();
            let e = endpoint_of(collected(all, 1), collected(all, 2));
            match r {
                Some(x) => e == Some((x.0@, x.1)),
                None => e is None,
            }
        }),
{
    match (read_text(fields, 1), read_int(fields, 2)) {
        (Some(ip), Some(port)) => Some((ip, port)),
        _ => None,
    }
}

/// The endpoint that a request names.
pub open spec fn endpoint_in(bytes: Seq<u8>) -> Option<(Seq<char>, i32)> {
    match fields_in_bytes(bytes) {
        Some(f) => endpoint_of(f[1], f[2]),
        None => None,
    }
}

/// Why a request cannot be read.
pub open spec fn start_error(bytes: Seq<u8>) -> Option<Seq<char>> {
    reading_error(bytes, 1, 2)
}

/// What cannot be read has an error.
proof fn lemma_start_error(bytes: Seq<u8>)
    requires
        endpoint_in(bytes) is None,
    ensures
        start_error(bytes) is Some,
{
    reveal_with_fuel(fields_error, 3);
    if let Ok(f) = message_in(bytes) {
        lemma_int_error(f[2].varints);
    }
}

fn find_start_error(payload: &[u8]) -> (r: String)
    requires
        endpoint_in(payload@) is None,
    ensures
        start_error(payload@) == Some(r@),
{
    proof {
        lemma_start_error(payload@);
    }
    match find_error(payload, 1, 2) {
        Some(error) => error,
        None => vstd::pervasive::unreached(),
    }
}

/// The address and the port of a request, or why it cannot be read.
pub fn parse_start(payload: &[u8]) -> (r: Result<(String, i32), String>)
    ensures
        match r {
            Ok(e) => endpoint_in(payload@) == Some((e.0@, e.1)),
            Err(e) => endpoint_in(payload@) is None && start_error(payload@) == Some(e@),
        },
{
    if let Ok(m) = parse_message(payload) {
        let fields = message_values(&m);
        assert(collected(fields.deep_view(), 1) == message_fields(m)[1]);
        assert(collected(fields.deep_view(), 2) == message_fields(m)[2]);
        if let Some(endpoint) = endpoint_from(&fields) {
            return Ok(endpoint);
        }
    }
    Err(find_start_error(payload))
}

pub open spec fn start_bytes(ip: Seq<char>, port: i32) -> Seq<u8> {
    string_field(1, ip) + wire::int32_field(2, port)
}

pub open spec fn text_field_value(s: Seq<char>) -> ValueModel {
    RawValue::Bytes(utf8::encode_utf8(s))
}

pub open spec fn int_field_value(v: i32) -> ValueModel {
    RawValue::Varint(wire::as_unsigned(v as int) as u64)
}

/// The values of the fields of a request with an endpoint and nothing else.
pub open spec fn start_values(ip: Seq<char>, port: i32, number: u32) -> FieldValues {
    if number == 1 {
        with_value(no_values(), text_field_value(ip))
    } else if number == 2 {
        with_value(no_values(), int_field_value(port))
    } else {
        no_values()
    }
}

/// A request with an address and a port.
pub fn encode_start(ip: &str, port: i32) -> (r: Vec<u8>)
    requires
        wifi_iface::byte_len(ip@) <= MAX_TEXT,
    ensures
        r@ == start_bytes(ip@, port),
        fields_in_bytes(r@) matches Some(f) && forall|n: u32| #[trigger]
            f[n] == start_values(ip@, port, n),
        endpoint_in(r@) == Some((ip@, port)),
{
    let mut out: Vec<u8> = Vec::new();
    write_string(&mut out, 1, ip);
    assert(out@.len() > 0) by {
        assert(wire::varint_bytes(10).len() == 1);
    }
    write_int32(&mut out, 2, port);
    proof {
        assert(out@ =~= start_bytes(ip@, port));
        let f = fields_in_bytes(out@)->0;
        assert forall|n: u32| #[trigger] f[n] == start_values(ip@, port, n) by {}
        lemma_text_is_read_back(no_values().bytes, ip@);
        lemma_int_is_read_back(no_values().varints, port);
    }
    out
}

proof fn lemma_text_is_read_back(before: Seq<Seq<u8>>, s: Seq<char>)
    requires
        text_of(before) is Some,
    ensures
        text_of(before.push(utf8::encode_utf8(s))) == Some(s),
{
    utf8::encode_utf8_valid_utf8(s);
    utf8::encode_utf8_decode_utf8(s);
    assert(before.push(utf8::encode_utf8(s)).drop_last() =~= before);
}

proof fn lemma_int_is_read_back(before: Seq<u64>, v: i32)
    requires
        int_of(before) is Some,
    ensures
        int_of(before.push(wire::as_unsigned(v as int) as u64)) == Some(v),
{
    assert(before.push(wire::as_unsigned(v as int) as u64).drop_last() =~= before);
}

/// Why a request was not rewritten: it cannot be read, for a reason, or the address
/// is too long for a message.
#[derive(PartialEq, Eq, Debug)]
pub enum RewriteError {
    NotAMessage(String),
    TooLarge,
}

/// What a request keeps of a field when its endpoint is taken out.
pub open spec fn without_endpoint(values: FieldValues, number: u32) -> FieldValues {
    if number == 1 {
        FieldValues { bytes: Seq::empty(), ..values }
    } else if number == 2 {
        FieldValues { varints: Seq::empty(), ..values }
    } else {
        values
    }
}

/// Whether a request has another endpoint, and for the rest the fields of a given
/// one.
pub open spec fn is_rewritten(
    fields: Map<u32, FieldValues>,
    rewritten: Map<u32, FieldValues>,
    ip: Seq<char>,
    port: i32,
) -> bool {
    forall|n: u32| #[trigger]
        rewritten[n] == joined(start_values(ip, port, n), without_endpoint(fields[n], n))
}

/// What is kept of a field that gets one value more.
proof fn lemma_kept(values: FieldValues, value: ValueModel, number: u32)
    ensures
        without_endpoint(with_value(values, value), number) == (if (number == 1 && value is Bytes)
            || (number == 2 && value is Varint) {
            without_endpoint(values, number)
        } else {
            with_value(without_endpoint(values, number), value)
        }),
{
}

/// A message with the fields of a request but its endpoint.
fn other_fields(fields: &Vec<RawField>) -> (r: Empty)
    ensures
        forall|n: u32| #[trigger]
            message_fields(r)[n] == without_endpoint(collected(fields.deep_view(), n), n),
{
    let ghost all = fields.deep_view();
    let mut rest = new_message();
    assert(all.take(0) =~= Seq::<RawFieldModel>::empty());
    assert forall|n: u32| #[trigger]
        message_fields(rest)[n] == without_endpoint(collected(all.take(0), n), n) by {}
    for i in 0..fields.len()
        invariant
            all == fields.deep_view(),
            forall|n: u32| #[trigger]
                message_fields(rest)[n] == without_endpoint(collected(all.take(i as int), n), n),
    {
        let ghost before = message_fields(rest);
        let number: u32 = fields[i].number;
        assert(all[i as int] == fields@[i as int].deep_view());
        let ghost value = fields@[i as int].value@;
        match &fields[i].value {
            RawValue::Fixed32(v) => add_fixed32(&mut rest, number, *v),
            RawValue::Fixed64(v) => add_fixed64(&mut rest, number, *v),
            RawValue::Varint(v) => {
                if number != 2 {
                    add_varint(&mut rest, number, *v);
                }
            },
            RawValue::Bytes(v) => {
                if number != 1 {
                    add_bytes(&mut rest, number, vstd::slice::slice_to_vec(v.as_slice()));
                }
            },
        }
        proof {
            assert forall|n: u32| #[trigger]
                message_fields(rest)[n] == without_endpoint(
                    collected(all.take(i + 1), n),
                    n,
                ) by {
                lemma_collected(all, i as int, n);
                lemma_kept(collected(all.take(i as int), n), value, n);
                assert(before[n] == without_endpoint(collected(all.take(i as int), n), n));
            }
        }
    }
    assert(all.take(all.len() as int) =~= all);
    rest
}

/// A request with another address and port; its other fields stay.
pub fn rewrite_start(payload: &[u8], ip: &str, port: i32) -> (r: Result<Vec<u8>, RewriteError>)
    ensures
        match r {
            Ok(out) => {
                &&& endpoint_in(payload@) is Some && wifi_iface::byte_len(ip@) <= MAX_TEXT
                &&& fields_in_bytes(out@) matches Some(g) && is_rewritten(
                    fields_in_bytes(payload@)->0,
                    g,
                    ip@,
                    port,
                )
                &&& endpoint_in(out@) == Some((ip@, port))
                &&& out@.len() >= start_bytes(ip@, port).len()
                &&& out@.take(start_bytes(ip@, port).len() as int) == start_bytes(ip@, port)
            },
            Err(RewriteError::NotAMessage(e)) => endpoint_in(payload@) is None && start_error(
                payload@,
            ) == Some(e@),
            Err(RewriteError::TooLarge) => endpoint_in(payload@) is Some && wifi_iface::byte_len(
                ip@,
            ) > MAX_TEXT,
        },
{
    let m = match parse_message(payload) {
        Ok(m) => m,
        Err(_) => {
            return Err(RewriteError::NotAMessage(find_start_error(payload)));
        },
    };
    let fields = message_values(&m);
    assert(collected(fields.deep_view(), 1) == message_fields(m)[1]);
    assert(collected(fields.deep_view(), 2) == message_fields(m)[2]);
    if endpoint_from(&fields).is_none() {
        return Err(RewriteError::NotAMessage(find_start_error(payload)));
    }
    if ip.as_bytes().len() > MAX_TEXT {
        return Err(RewriteError::TooLarge);
    }
    let rest = other_fields(&fields);
    let mut out = encode_start(ip, port);
    let ghost head = fields_in_bytes(out@)->0;
    assert(out@.len() > 0) by {
        assert(wire::varint_bytes(10).len() == 1);
    }
    proof {
        let f = message_fields(m);
        let g = message_fields(rest);
        assert forall|n: u32| #[trigger] g[n] == without_endpoint(f[n], n) by {
            assert(g[n] == without_endpoint(collected(fields.deep_view(), n), n));
        }
        assert(can_be_written(g)) by {
            assert forall|n: u32, i: int| 0 <= i < g[n].bytes.len() implies (
            #[trigger] g[n].bytes[i]).len() <= MAX_TEXT by {
                assert(f[n].bytes[i].len() <= MAX_TEXT);
            }
            assert forall|n: u32| !is_field_number(n) implies #[trigger] g[n] == no_values() by {
                assert(f[n] == no_values());
            }
        }
    }
    append_message(&mut out, &rest);
    proof {
        let f = message_fields(m);
        let g = fields_in_bytes(out@)->0;
        assert forall|n: u32| #[trigger]
            g[n] == joined(start_values(ip@, port, n), without_endpoint(f[n], n)) by {
            assert(head[n] == start_values(ip@, port, n));
            assert(message_fields(rest)[n] == without_endpoint(f[n], n));
        }
        law_rewritten_endpoint_is_read_back(f, g, ip@, port);
    }
    Ok(out)
}

/// An endpoint that was put into a request is read back, whatever other fields the
/// request has.
pub proof fn law_rewritten_endpoint_is_read_back(
    fields: Map<u32, FieldValues>,
    rewritten: Map<u32, FieldValues>,
    ip: Seq<char>,
    port: i32,
)
    requires
        is_rewritten(fields, rewritten, ip, port),
    ensures
        endpoint_of(rewritten[1], rewritten[2]) == Some((ip, port)),
        forall|n: u32| n != 1 && n != 2 ==> #[trigger] rewritten[n] == fields[n],
{
    assert(rewritten[1].bytes =~= Seq::<Seq<u8>>::empty().push(utf8::encode_utf8(ip)));
    assert(rewritten[2].varints =~= Seq::<u64>::empty().push(
        wire::as_unsigned(port as int) as u64,
    ));
    lemma_text_is_read_back(Seq::empty(), ip);
    lemma_int_is_read_back(Seq::empty(), port);
    assert forall|n: u32| n != 1 && n != 2 implies #[trigger] rewritten[n] == fields[n] by {
        let a = rewritten[n];
        assert(a == joined(no_values(), fields[n]));
        assert(a.fixed32 =~= fields[n].fixed32);
        assert(a.fixed64 =~= fields[n].fixed64);
        assert(a.varints =~= fields[n].varints);
        assert(a.bytes =~= fields[n].bytes);
    }
}

// ---------------------------------------------------------------------
// The description of a network

pub const SECURITY_OPEN: i32 = 1;

pub const SECURITY_WPA2_PERSONAL: i32 = 8;

pub const AP_STATIC: i32 = 0;

pub const AP_DYNAMIC: i32 = 1;

/// The name of a security mode.
pub open spec fn security_label(mode: i32) -> Seq<char> {
    if mode == 1 {
        "OPEN"@
    } else if mode == 2 {
        "WEP_64"@
    } else if mode == 3 {
        "WEP_128"@
    } else if mode == 4 {
        "WPA_PERSONAL"@
    } else if mode == 8 {
        "WPA2_PERSONAL"@
    } else if mode == 12 {
        "WPA_WPA2_PERSONAL"@
    } else if mode == 20 {
        "WPA_ENTERPRISE"@
    } else if mode == 24 {
        "WPA2_ENTERPRISE"@
    } else if mode == 28 {
        "WPA_WPA2_ENTERPRISE"@
    } else {
        "UNKNOWN_SECURITY_MODE"@
    }
}

fn security_name(mode: i32) -> (r: &'static str)
    ensures
        r@ == security_label(mode),
{
    if mode == 1 {
        "OPEN"
    } else if mode == 2 {
        "WEP_64"
    } else if mode == 3 {
        "WEP_128"
    } else if mode == 4 {
        "WPA_PERSONAL"
    } else if mode == 8 {
        "WPA2_PERSONAL"
    } else if mode == 12 {
        "WPA_WPA2_PERSONAL"
    } else if mode == 20 {
        "WPA_ENTERPRISE"
    } else if mode == 24 {
        "WPA2_ENTERPRISE"
    } else if mode == 28 {
        "WPA_WPA2_ENTERPRISE"
    } else {
        "UNKNOWN_SECURITY_MODE"
    }
}

/// The network that fields describe: its name, its key and its address are texts,
/// its security and the sort of its access point numbers. None if one of them
/// cannot be read.
pub open spec fn info_of(
    ssid: FieldValues,
    key: FieldValues,
    bssid: FieldValues,
    security: FieldValues,
    ap_type: FieldValues,
) -> Option<WifiInfo<Seq<char>>> {
    match (
        text_of(ssid.bytes),
        text_of(key.bytes),
        text_of(bssid.bytes),
        int_of(security.varints),
        int_of(ap_type.varints),
    ) {
        (Some(ssid), Some(key), Some(bssid), Some(mode), Some(ap)) => Some(
            WifiInfo {
                ssid,
                key,
                bssid,
                is_open: mode == SECURITY_OPEN,
                security_name: security_label(mode),
                dynamic: ap == AP_DYNAMIC,
            },
        ),
        _ => None,
    }
}

/// Reads a network out of the fields of a description.
pub fn info_from(fields: &Vec<RawField>) -> (r: Option<CarWifiInfo>)
    ensures
        ({
            let all = fields.deep_view();
            let info = info_of(
                collected(all, 1),
                collected(all, 2),
                collected(all, 3),
                collected(all, 4),
                collected(all, 5),
            );
            match r {
                Some(i) => info == Some(i@),
                None => info is None,
            }
        }),
{
    let ssid = read_text(fields, 1);
    let key = read_text(fields, 2);
    let bssid = read_text(fields, 3);
    let security = read_int(fields, 4);
    let ap_type = read_int(fields, 5);
    match (ssid, key, bssid, security, ap_type) {
        (Some(ssid), Some(key), Some(bssid), Some(mode), Some(ap)) => Some(
            WifiInfo {
                ssid,
                key,
                bssid,
                is_open: mode == SECURITY_OPEN,
                security_name: security_name(mode).to_owned(),
                dynamic: ap == AP_DYNAMIC,
            },
        ),
        _ => None,
    }
}

/// The network that bytes describe. The address of its access point must be there,
/// though it may be empty.
pub open spec fn info_in(bytes: Seq<u8>) -> Option<WifiInfo<Seq<char>>> {
    match fields_in_bytes(bytes) {
        Some(f) => if f[3].bytes.len() == 0 {
            None
        } else {
            info_of(f[1], f[2], f[3], f[4], f[5])
        },
        None => None,
    }
}

/// Why a description cannot be read.
pub open spec fn info_error(bytes: Seq<u8>) -> Option<Seq<char>> {
    match reading_error(bytes, 3, 5) {
        Some(error) => Some(error),
        None => if info_in(bytes) is None {
            Some("Message `WifiInfoResponse` is missing required fields"@)
        } else {
            None
        },
    }
}

fn has_bytes(fields: &Vec<RawField>, number: u32) -> (r: bool)
    ensures
        r == (collected(fields.deep_view(), number).bytes.len() > 0),
{
    let ghost all = fields.deep_view();
    let mut found = false;
    assert(all.take(0) =~= Seq::<RawFieldModel>::empty());
    for i in 0..fields.len()
        invariant
            all == fields.deep_view(),
            found == (collected(all.take(i as int), number).bytes.len() > 0),
    {
        proof {
            assert(all[i as int] == fields@[i as int].deep_view());
            lemma_collected(all, i as int, number);
        }
        if fields[i].number == number {
            if let RawValue::Bytes(_) = &fields[i].value {
                found = true;
            }
        }
    }
    assert(all.take(all.len() as int) =~= all);
    found
}

/// The network that a message describes, or why it cannot be read.
pub fn parse_info(payload: &[u8]) -> (r: Result<CarWifiInfo, String>)
    ensures
        match r {
            Ok(i) => info_in(payload@) == Some(i@),
            Err(e) => info_in(payload@) is None && info_error(payload@) == Some(e@),
        },
{
    if let Ok(m) = parse_message(payload) {
        let fields = message_values(&m);
        proof {
            let all = fields.deep_view();
            assert(collected(all, 1) == message_fields(m)[1]);
            assert(collected(all, 2) == message_fields(m)[2]);
            assert(collected(all, 3) == message_fields(m)[3]);
            assert(collected(all, 4) == message_fields(m)[4]);
            assert(collected(all, 5) == message_fields(m)[5]);
        }
        if has_bytes(&fields, 3) {
            if let Some(info) = info_from(&fields) {
                return Ok(info);
            }
        }
    }
    match find_error(payload, 3, 5) {
        Some(error) => Err(error),
        None => Err("Message `WifiInfoResponse` is missing required fields".to_owned()),
    }
}

pub open spec fn info_bytes(info: WifiInfo<Seq<char>>) -> Seq<u8> {
    string_field(1, info.ssid) + string_field(2, info.key) + string_field(3, info.bssid)
        + wire::int32_field(
        4,
        if info.is_open {
            SECURITY_OPEN
        } else {
            SECURITY_WPA2_PERSONAL
        },
    ) + wire::int32_field(
        5,
        if info.dynamic {
            AP_DYNAMIC
        } else {
            AP_STATIC
        },
    )
}

/// Whether the texts of a network fit into a message.
pub open spec fn info_fits(info: WifiInfo<Seq<char>>) -> bool {
    wifi_iface::byte_len(info.ssid) <= MAX_TEXT && wifi_iface::byte_len(info.key) <= MAX_TEXT
        && wifi_iface::byte_len(info.bssid) <= MAX_TEXT
}

/// The description of a network of the proxy's own: open, or secured by a key.
pub fn encode_info(info: &CarWifiInfo) -> (r: Vec<u8>)
    requires
        info_fits(info@),
    ensures
        r@ == info_bytes(info@),
        info_in(r@) == Some(described(info@)),
{
    let security: i32 = if info.is_open {
        SECURITY_OPEN
    } else {
        SECURITY_WPA2_PERSONAL
    };
    let ap_type: i32 = if info.dynamic {
        AP_DYNAMIC
    } else {
        AP_STATIC
    };
    let mut out: Vec<u8> = Vec::new();
    write_string(&mut out, 1, info.ssid.as_str());
    assert(out@.len() > 0) by {
        assert(wire::varint_bytes(10).len() == 1);
    }
    write_string(&mut out, 2, info.key.as_str());
    write_string(&mut out, 3, info.bssid.as_str());
    write_int32(&mut out, 4, security);
    write_int32(&mut out, 5, ap_type);
    proof {
        assert(out@ =~= info_bytes(info@));
        let f = fields_in_bytes(out@)->0;
        assert(f[1].bytes == Seq::<Seq<u8>>::empty().push(utf8::encode_utf8(info@.ssid)));
        assert(f[2].bytes == Seq::<Seq<u8>>::empty().push(utf8::encode_utf8(info@.key)));
        assert(f[3].bytes == Seq::<Seq<u8>>::empty().push(utf8::encode_utf8(info@.bssid)));
        lemma_text_is_read_back(Seq::empty(), info@.ssid);
        lemma_text_is_read_back(Seq::empty(), info@.key);
        lemma_text_is_read_back(Seq::empty(), info@.bssid);
        lemma_int_is_read_back(Seq::empty(), security);
        lemma_int_is_read_back(Seq::empty(), ap_type);
    }
    out
}

/// A network as it is read back: of its security only whether it is open is kept.
pub open spec fn described(info: WifiInfo<Seq<char>>) -> WifiInfo<Seq<char>> {
    WifiInfo {
        security_name: security_label(
            if info.is_open {
                SECURITY_OPEN
            } else {
                SECURITY_WPA2_PERSONAL
            },
        ),
        ..info
    }
}

// ---------------------------------------------------------------------
// Laws

/// The names of the security modes, by their numbers.
pub proof fn law_security_modes_are_named(mode: i32)
    ensures
        mode == 1 ==> security_label(mode) == "OPEN"@,
        mode == 2 ==> security_label(mode) == "WEP_64"@,
        mode == 3 ==> security_label(mode) == "WEP_128"@,
        mode == 4 ==> security_label(mode) == "WPA_PERSONAL"@,
        mode == 8 ==> security_label(mode) == "WPA2_PERSONAL"@,
        mode == 12 ==> security_label(mode) == "WPA_WPA2_PERSONAL"@,
        mode == 20 ==> security_label(mode) == "WPA_ENTERPRISE"@,
        mode == 24 ==> security_label(mode) == "WPA2_ENTERPRISE"@,
        mode == 28 ==> security_label(mode) == "WPA_WPA2_ENTERPRISE"@,
        mode < 1 || 4 < mode < 8 || 8 < mode < 12 || 12 < mode < 20 || 20 < mode < 24 || 24 < mode
            < 28 || mode > 28 ==> security_label(mode) == "UNKNOWN_SECURITY_MODE"@,
{
}

/// Of texts in one field the last one counts, and without one the text is empty;
/// one that is not UTF-8 makes the whole unreadable.
pub proof fn law_last_text_counts(values: Seq<Seq<u8>>)
    ensures
        values.len() == 0 ==> text_of(values) == Some(Seq::<char>::empty()),
        text_of(values) is Some <==> forall|i: int|
            0 <= i < values.len() ==> utf8::valid_utf8(#[trigger] values[i]),
        values.len() > 0 && text_of(values) is Some ==> text_of(values)->0 == utf8::decode_utf8(
            values.last(),
        ),
    decreases values.len(),
{
    if values.len() > 0 {
        let head = values.drop_last();
        law_last_text_counts(head);
        if text_of(values) is Some {
            assert forall|i: int| 0 <= i < values.len() implies utf8::valid_utf8(
                #[trigger] values[i],
            ) by {
                if i < head.len() {
                    assert(head[i] == values[i]);
                }
            }
        }
        if forall|i: int| 0 <= i < values.len() ==> utf8::valid_utf8(#[trigger] values[i]) {
            assert forall|i: int| 0 <= i < head.len() implies utf8::valid_utf8(
                #[trigger] head[i],
            ) by {
                assert(head[i] == values[i]);
            }
            assert(utf8::valid_utf8(values[values.len() - 1]));
        }
    }
}

/// Of numbers in one field the last one counts, and without one the number is
/// zero; one that takes more than thirty-two bits makes the whole unreadable,
/// and the first such number is told.
pub proof fn law_last_number_counts(values: Seq<u64>, i: int)
    ensures
        values.len() == 0 ==> int_of(values) == Some(0i32),
        values.len() > 0 && int_of(values) is Some ==> int_of(values)->0 as int == wire::as_signed(
            values.last(),
        ) as int,
        0 <= i < values.len() && !(-0x8000_0000 <= wire::as_signed(values[i]) <= 0x7fff_ffff) && (
        forall|j: int|
            0 <= j < i ==> -0x8000_0000 <= wire::as_signed(#[trigger] values[j]) <= 0x7fff_ffff)
            ==> int_of(values) is None && int_error(values) == Some(
            "Value too large for i32: "@ + pairing::signed_text(wire::as_signed(values[i]) as int),
        ),
        (forall|j: int|
            0 <= j < values.len() ==> -0x8000_0000 <= wire::as_signed(#[trigger] values[j])
                <= 0x7fff_ffff) ==> int_of(values) is Some && int_error(values) is None,
    decreases values.len(),
{
    if values.len() > 0 {
        let head = values.drop_last();
        law_last_number_counts(head, i);
        lemma_int_error(values);
        lemma_int_error(head);
        assert(forall|j: int| 0 <= j < head.len() ==> head[j] == values[j]);
        if 0 <= i < values.len() && !(-0x8000_0000 <= wire::as_signed(values[i]) <= 0x7fff_ffff) && (
        forall|j: int|
            0 <= j < i ==> -0x8000_0000 <= wire::as_signed(#[trigger] values[j]) <= 0x7fff_ffff) {
            if i < head.len() {
                assert(head[i] == values[i]);
                assert forall|j: int| 0 <= j < i implies -0x8000_0000 <= wire::as_signed(
                    #[trigger] head[j],
                ) <= 0x7fff_ffff by {
                    assert(head[j] == values[j]);
                }
            } else {
                assert forall|j: int| 0 <= j < head.len() implies -0x8000_0000 <= wire::as_signed(
                    #[trigger] head[j],
                ) <= 0x7fff_ffff by {
                    assert(head[j] == values[j]);
                }
            }
        }
        if forall|j: int|
            0 <= j < values.len() ==> -0x8000_0000 <= wire::as_signed(#[trigger] values[j])
                <= 0x7fff_ffff {
            assert forall|j: int| 0 <= j < head.len() implies -0x8000_0000 <= wire::as_signed(
                #[trigger] head[j],
            ) <= 0x7fff_ffff by {
                assert(head[j] == values[j]);
            }
            assert(-0x8000_0000 <= wire::as_signed(values[values.len() - 1]) <= 0x7fff_ffff);
        }
    }
}

/// A request as bytes: a text in the first field, the address, and a number in
/// the second, the port; nothing else.
pub proof fn law_request_is_two_fields(ip: Seq<char>, port: i32)
    requires
        utf8::encode_utf8(ip).len() <= 0xffff_ffff,
    ensures
        ({
            let fs = wire::fields(start_bytes(ip, port));
            &&& wire::is_whole(start_bytes(ip, port))
            &&& fs.len() == 2
            &&& fs[0].number() == 1
            &&& fs[0].value == wire::FieldValue::Bytes(utf8::encode_utf8(ip))
            &&& fs[1].number() == 2
            &&& fs[1].value is Varint
            &&& wire::as_signed(fs[1].value->Varint_0) == port
        }),
{
    let t = utf8::encode_utf8(ip);
    wire::law_empty_message_has_no_fields();
    wire::law_bytes_field_is_read(Seq::empty(), 1, t);
    let a = string_field(1, ip);
    assert(Seq::<u8>::empty() + a =~= a);
    wire::law_signs_keep_the_bits(0, port as i64);
    let v = wire::as_unsigned(port as int) as u64;
    wire::law_number_field_is_read(a, 2, v);
    let fs = wire::fields(start_bytes(ip, port));
    assert(fs.drop_last() == wire::fields(a));
    assert(fs[0] == wire::fields(a)[0]);
    assert(wire::fields(a)[0] == wire::fields(a).last());
}

proof fn lemma_one_text_more(buf: Seq<u8>, number: u64, s: Seq<char>)
    requires
        wire::is_whole(buf),
        0 < number < 6,
        utf8::encode_utf8(s).len() <= 0xffff_ffff,
    ensures
        ({
            let all = buf + string_field(number as nat, s);
            &&& wire::is_whole(all)
            &&& wire::fields(all).len() == wire::fields(buf).len() + 1
            &&& wire::fields(all).drop_last() == wire::fields(buf)
            &&& wire::fields(all).last().number() == number
            &&& wire::fields(all).last().value == wire::FieldValue::Bytes(utf8::encode_utf8(s))
        }),
{
    wire::law_bytes_field_is_read(buf, number, utf8::encode_utf8(s));
}

proof fn lemma_one_number_more(buf: Seq<u8>, number: u64, v: i32)
    requires
        wire::is_whole(buf),
        0 < number < 6,
        v >= 0,
    ensures
        ({
            let all = buf + wire::int32_field(number as nat, v);
            &&& wire::is_whole(all)
            &&& wire::fields(all).len() == wire::fields(buf).len() + 1
            &&& wire::fields(all).drop_last() == wire::fields(buf)
            &&& wire::fields(all).last().number() == number
            &&& wire::fields(all).last().value == wire::FieldValue::Varint(v as u64)
        }),
{
    wire::law_number_field_is_read(buf, number, v as u64);
}

/// A description as bytes: the name of the network, its key and the address of
/// its access point in the first three fields, in the fourth one for an open
/// network and eight for one with a key, in the fifth one for an access point of
/// the moment and zero for a lasting one; nothing else.
pub proof fn law_description_is_five_fields(info: WifiInfo<Seq<char>>)
    requires
        utf8::encode_utf8(info.ssid).len() <= 0xffff_ffff,
        utf8::encode_utf8(info.key).len() <= 0xffff_ffff,
        utf8::encode_utf8(info.bssid).len() <= 0xffff_ffff,
    ensures
        ({
            let fs = wire::fields(info_bytes(info));
            &&& wire::is_whole(info_bytes(info))
            &&& fs.len() == 5
            &&& fs[0].number() == 1 && fs[0].value == wire::FieldValue::Bytes(
                utf8::encode_utf8(info.ssid),
            )
            &&& fs[1].number() == 2 && fs[1].value == wire::FieldValue::Bytes(
                utf8::encode_utf8(info.key),
            )
            &&& fs[2].number() == 3 && fs[2].value == wire::FieldValue::Bytes(
                utf8::encode_utf8(info.bssid),
            )
            &&& fs[3].number() == 4
            &&& info.is_open ==> fs[3].value == wire::FieldValue::Varint(1)
            &&& !info.is_open ==> fs[3].value == wire::FieldValue::Varint(8)
            &&& fs[4].number() == 5
            &&& info.dynamic ==> fs[4].value == wire::FieldValue::Varint(1)
            &&& !info.dynamic ==> fs[4].value == wire::FieldValue::Varint(0)
        }),
{
    wire::law_empty_message_has_no_fields();
    let none = Seq::<u8>::empty();
    let a = string_field(1, info.ssid);
    let b = a + string_field(2, info.key);
    let c = b + string_field(3, info.bssid);
    let mode: i32 = if info.is_open {
        1
    } else {
        8
    };
    let sort: i32 = if info.dynamic {
        1
    } else {
        0
    };
    let d = c + wire::int32_field(4, mode);
    let e = d + wire::int32_field(5, sort);
    lemma_one_text_more(none, 1, info.ssid);
    assert(none + a =~= a);
    lemma_one_text_more(a, 2, info.key);
    lemma_one_text_more(b, 3, info.bssid);
    lemma_one_number_more(c, 4, mode);
    lemma_one_number_more(d, 5, sort);
    assert(info_bytes(info) == e);
    let fs = wire::fields(e);
    assert(fs[3] == wire::fields(d)[3]);
    assert(fs[2] == wire::fields(d)[2] && wire::fields(d)[2] == wire::fields(c)[2]);
    assert(fs[1] == wire::fields(d)[1] && wire::fields(d)[1] == wire::fields(c)[1]
        && wire::fields(c)[1] == wire::fields(b)[1]);
    assert(fs[0] == wire::fields(d)[0] && wire::fields(d)[0] == wire::fields(c)[0]
        && wire::fields(c)[0] == wire::fields(b)[0] && wire::fields(b)[0] == wire::fields(a)[0]);
}

/// A description is read out of its five fields: a network is open where the
/// last number of the fourth field is one, and its access point is one of the
/// moment where that of the fifth is.
pub proof fn law_description_is_read_by_its_fields(bytes: Seq<u8>)
    ensures
        info_in(bytes) is Some ==> ({
            let f = fields_in_bytes(bytes)->0;
            let i = info_in(bytes)->0;
            &&& fields_in_bytes(bytes) is Some
            &&& f[3].bytes.len() > 0
            &&& i.bssid == utf8::decode_utf8(f[3].bytes.last())
            &&& i.ssid == (if f[1].bytes.len() == 0 {
                Seq::<char>::empty()
            } else {
                utf8::decode_utf8(f[1].bytes.last())
            })
            &&& i.key == (if f[2].bytes.len() == 0 {
                Seq::<char>::empty()
            } else {
                utf8::decode_utf8(f[2].bytes.last())
            })
            &&& i.is_open <==> f[4].varints.len() > 0 && wire::as_signed(f[4].varints.last()) == 1
            &&& i.security_name == security_label(
                if f[4].varints.len() == 0 {
                    0
                } else {
                    wire::as_signed(f[4].varints.last()) as i32
                },
            )
            &&& i.dynamic <==> f[5].varints.len() > 0 && wire::as_signed(f[5].varints.last()) == 1
        }),
{
    if info_in(bytes) is Some {
        let f = fields_in_bytes(bytes)->0;
        law_last_text_counts(f[1].bytes);
        law_last_text_counts(f[2].bytes);
        law_last_text_counts(f[3].bytes);
        law_last_number_counts(f[4].varints, 0);
        law_last_number_counts(f[5].varints, 0);
    }
}

/// An endpoint is read out of two fields: the address is the last text of the
/// first, the port the last number of the second.
pub proof fn law_endpoint_is_read_by_its_fields(bytes: Seq<u8>)
    ensures
        endpoint_in(bytes) is Some ==> ({
            let f = fields_in_bytes(bytes)->0;
            let e = endpoint_in(bytes)->0;
            &&& fields_in_bytes(bytes) is Some
            &&& e.0 == (if f[1].bytes.len() == 0 {
                Seq::<char>::empty()
            } else {
                utf8::decode_utf8(f[1].bytes.last())
            })
            &&& e.1 == (if f[2].varints.len() == 0 {
                0
            } else {
                wire::as_signed(f[2].varints.last()) as int
            })
        }),
{
    if endpoint_in(bytes) is Some {
        let f = fields_in_bytes(bytes)->0;
        law_last_text_counts(f[1].bytes);
        law_last_number_counts(f[2].varints, 0);
    }
}

/// What is read back of a description is what was described, but for the name
/// of the security, which is that of an open network or of one with a key.
pub proof fn law_description_keeps_the_network(info: WifiInfo<Seq<char>>)
    ensures
        described(info).ssid == info.ssid,
        described(info).key == info.key,
        described(info).bssid == info.bssid,
        described(info).is_open == info.is_open,
        described(info).dynamic == info.dynamic,
        info.is_open ==> described(info).security_name == "OPEN"@,
        !info.is_open ==> described(info).security_name == "WPA2_PERSONAL"@,
{
}

/// A new endpoint takes the place of the old one and of nothing else: of the
/// first field the texts go and of the second the numbers; values of other
/// sorts in these two fields stay, and so does every other field.
pub proof fn law_only_the_endpoint_is_rewritten(
    fields: Map<u32, FieldValues>,
    rewritten: Map<u32, FieldValues>,
    ip: Seq<char>,
    port: i32,
    n: u32,
)
    requires
        is_rewritten(fields, rewritten, ip, port),
    ensures
        n == 1 ==> rewritten[n].bytes == seq![utf8::encode_utf8(ip)],
        n == 2 ==> rewritten[n].varints == seq![wire::as_unsigned(port as int) as u64],
        n != 1 ==> rewritten[n].bytes == fields[n].bytes,
        n != 2 ==> rewritten[n].varints == fields[n].varints,
        rewritten[n].fixed32 == fields[n].fixed32,
        rewritten[n].fixed64 == fields[n].fixed64,
{
    assert(rewritten[n] == joined(start_values(ip, port, n), without_endpoint(fields[n], n)));
}

} // verus!
