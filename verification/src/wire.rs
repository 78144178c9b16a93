//! The protobuf wire format, as far as the Wi-Fi bootstrap messages need it.

use vstd::prelude::*;

verus! {

// ---------------------------------------------------------------------
// Varints

pub const MAX_VARINT_BYTES: usize = 10;

/// The number that base-128 digits write, least significant digit first.
pub open spec fn base128(digits: Seq<u8>) -> nat
    decreases digits.len(),
{
    if digits.len() == 0 {
        0
    } else {
        (digits[0] % 128) as nat + 128 * base128(digits.subrange(1, digits.len() as int))
    }
}

/// Whether the bytes at `pos` hold a byte below 128 before the buffer ends and
/// before ten bytes have gone by; `k` of the ten are used up.
pub open spec fn varint_ends(buf: Seq<u8>, pos: int, k: nat) -> bool
    decreases 10 - k,
{
    k < 10 && 0 <= pos < buf.len() && (buf[pos] < 128 || varint_ends(buf, pos + 1, k + 1))
}

/// Where reading a varint at `pos` stops, whether it ended or not.
pub open spec fn varint_stop(buf: Seq<u8>, pos: int, k: nat) -> int
    decreases 10 - k,
{
    if k >= 10 || !(0 <= pos < buf.len()) {
        pos
    } else if buf[pos] < 128 {
        pos + 1
    } else {
        varint_stop(buf, pos + 1, k + 1)
    }
}

/// The varint at `pos`. Bits beyond the sixty-fourth are lost.
pub open spec fn varint_at(buf: Seq<u8>, pos: int) -> Option<u64> {
    if varint_ends(buf, pos, 0) {
        Some((base128(buf.subrange(pos, varint_stop(buf, pos, 0))) % 0x1_0000_0000_0000_0000) as u64)
    } else {
        None
    }
}

pub open spec fn varint_after(buf: Seq<u8>, pos: int) -> int {
    varint_stop(buf, pos, 0)
}

pub open spec fn pow128(k: nat) -> nat
    decreases k,
{
    if k == 0 {
        1
    } else {
        128 * pow128((k - 1) as nat)
    }
}

proof fn lemma_base128_push(digits: Seq<u8>, d: u8)
    ensures
        base128(digits.push(d)) == base128(digits) + pow128(digits.len()) * (d % 128),
    decreases digits.len(),
{
    let all = digits.push(d);
    if digits.len() == 0 {
        assert(all.subrange(1, 1) =~= Seq::<u8>::empty());
        assert(base128(all.subrange(1, 1)) == 0);
        assert(pow128(0) * (d % 128) == d % 128) by (nonlinear_arith)
            requires
                pow128(0) == 1,
        ;
    } else {
        let rest = digits.subrange(1, digits.len() as int);
        lemma_base128_push(rest, d);
        assert(all.subrange(1, all.len() as int) =~= rest.push(d));
        let p = pow128(rest.len());
        let x = (d % 128) as nat;
        assert(128 * (p * x) == (128 * p) * x) by (nonlinear_arith);
    }
}

proof fn lemma_base128_bound(digits: Seq<u8>)
    ensures
        base128(digits) < pow128(digits.len()),
    decreases digits.len(),
{
    if digits.len() > 0 {
        lemma_base128_bound(digits.subrange(1, digits.len() as int));
    }
}

pub proof fn lemma_stop_bounds(buf: Seq<u8>, pos: int, k: nat)
    requires
        0 <= pos <= buf.len(),
        k <= 10,
    ensures
        pos <= varint_stop(buf, pos, k) <= buf.len(),
        varint_stop(buf, pos, k) <= pos + (10 - k),
        k < 10 && pos < buf.len() ==> pos < varint_stop(buf, pos, k),
    decreases 10 - k,
{
    if k < 10 && pos < buf.len() && buf[pos] >= 128 {
        lemma_stop_bounds(buf, pos + 1, k + 1);
    }
}

/// Reads a varint at `offset` and moves the offset behind the bytes it looked at.
pub fn read_proto_varint(buf: &[u8], offset: &mut usize) -> (r: Option<u64>)
    requires
        *old(offset) <= buf@.len(),
    ensures
        r == varint_at(buf@, *old(offset) as int),
        *final(offset) == varint_after(buf@, *old(offset) as int),
        *old(offset) <= *final(offset) <= buf@.len(),
        *old(offset) < buf@.len() ==> *old(offset) < *final(offset),
{
    let ghost start = *offset as int;
    let mut pos: usize = *offset;
    let mut value: u64 = 0;
    let mut scale: u64 = 1;
    let mut k: usize = 0;
    proof {
        lemma_stop_bounds(buf@, start, 0);
        assert(buf@.subrange(start, start) =~= Seq::<u8>::empty());
    }
    while pos < buf.len() && k < 10
        invariant
            0 <= start <= pos <= buf@.len(),
            start == *old(offset),
            pos == start + k,
            k <= 10,
            k <= 9 ==> scale == pow128(k as nat) && value == base128(
                buf@.subrange(start, pos as int),
            ),
            varint_ends(buf@, start, 0) == varint_ends(buf@, pos as int, k as nat),
            varint_stop(buf@, start, 0) == varint_stop(buf@, pos as int, k as nat),
        decreases 10 - k,
    {
        let b: u8 = buf[pos];
        let digit: u64 = (b % 128) as u64;
        let ghost read = buf@.subrange(start, pos as int);
        proof {
            lemma_base128_push(read, b);
            lemma_base128_bound(read);
            reveal_with_fuel(pow128, 11);
            assert(buf@.subrange(start, pos + 1) =~= read.push(b));
            if k < 9 {
                assert(scale * digit <= scale * 127) by (nonlinear_arith)
                    requires
                        digit <= 127,
                ;
            }
        }
        pos = pos + 1;
        if k < 9 {
            value = value + scale * digit;
            if k < 8 {
                scale = scale * 128;
            } else {
                assert(pow128(9) == 0x8000_0000_0000_0000);
                scale = 0x8000_0000_0000_0000;
            }
        } else {
            let ghost before = value as nat;
            proof {
                let full = before + pow128(9) * (b % 128);
                let top: int = ((b % 128) / 2) as int;
                let low: int = (b % 2) as int;
                assert((b % 128) == 2 * top + low) by {
                    assert((b % 128) % 2 == b % 2);
                }
                assert(0x8000_0000_0000_0000 * (2 * top + low) == 0x1_0000_0000_0000_0000 * top
                    + 0x8000_0000_0000_0000 * low) by (nonlinear_arith);
                let rem: int = before + 0x8000_0000_0000_0000 * low;
                assert(full == 0x1_0000_0000_0000_0000 * top + rem);
                assert(full % 0x1_0000_0000_0000_0000 == rem) by (nonlinear_arith)
                    requires
                        full == 0x1_0000_0000_0000_0000 * top + rem,
                        0 <= rem < 0x1_0000_0000_0000_0000,
                ;
            }
            if b % 2 == 1 {
                value = value + 0x8000_0000_0000_0000;
            }
        }
        if b < 128 {
            *offset = pos;
            proof {
                if k < 9 {
                    lemma_base128_bound(read.push(b));
                }
            }
            return Some(value);
        }
        k = k + 1;
    }
    *offset = pos;
    None
}

/// The shortest varint of a number.
pub open spec fn varint_bytes(value: nat) -> Seq<u8>
    decreases value,
{
    if value < 128 {
        seq![value as u8]
    } else {
        seq![(128 + value % 128) as u8] + varint_bytes(value / 128)
    }
}

pub fn encode_proto_varint(value: u64, out: &mut Vec<u8>)
    ensures
        final(out)@ == old(out)@ + varint_bytes(value as nat),
{
    let ghost before = out@;
    let mut rest: u64 = value;
    assert(before + varint_bytes(value as nat) =~= out@ + varint_bytes(rest as nat));
    while rest >= 128
        invariant
            before + varint_bytes(value as nat) == out@ + varint_bytes(rest as nat),
        decreases rest,
    {
        let ghost so_far = out@;
        let low: u8 = (rest % 128) as u8;
        out.push(128 + low);
        assert(so_far + varint_bytes(rest as nat) =~= out@ + varint_bytes((rest / 128) as nat));
        rest = rest / 128;
    }
    let ghost so_far = out@;
    out.push(rest as u8);
    assert(out@ =~= so_far + varint_bytes(rest as nat));
}

proof fn lemma_varint_bytes_len(value: nat, k: nat)
    requires
        value < pow128(k),
        k >= 1,
    ensures
        1 <= varint_bytes(value).len() <= k,
    decreases k,
{
    reveal_with_fuel(pow128, 2);
    if value >= 128 {
        lemma_varint_bytes_len(value / 128, (k - 1) as nat);
    }
}

proof fn lemma_base128_of_varint(value: nat)
    ensures
        base128(varint_bytes(value)) == value,
    decreases value,
{
    let e = varint_bytes(value);
    if value < 128 {
        assert(e.subrange(1, 1) =~= Seq::<u8>::empty());
        assert(base128(e.subrange(1, 1)) == 0);
    } else {
        assert(e.subrange(1, e.len() as int) =~= varint_bytes(value / 128));
        lemma_base128_of_varint(value / 128);
    }
}

proof fn lemma_varint_reads(buf: Seq<u8>, pos: int, value: nat, k: nat)
    requires
        0 <= pos,
        pos + varint_bytes(value).len() <= buf.len(),
        buf.subrange(pos, pos + varint_bytes(value).len()) == varint_bytes(value),
        k + varint_bytes(value).len() <= 10,
    ensures
        varint_ends(buf, pos, k),
        varint_stop(buf, pos, k) == pos + varint_bytes(value).len(),
    decreases value,
{
    let e = varint_bytes(value);
    assert(buf[pos] == buf.subrange(pos, pos + e.len())[0]);
    if value >= 128 {
        let rest = varint_bytes(value / 128);
        assert(e.len() == 1 + rest.len());
        assert(buf.subrange(pos + 1, pos + 1 + rest.len()) =~= rest) by {
            assert forall|i: int| 0 <= i < rest.len() implies buf[pos + 1 + i] == rest[i] by {
                assert(buf.subrange(pos, pos + e.len())[i + 1] == e[i + 1]);
            }
        }
        lemma_varint_reads(buf, pos + 1, value / 128, k + 1);
    }
}

/// Reading gives back what was encoded, wherever the encoding stands and
/// whatever follows it, and stops right behind it.
pub proof fn law_varint_round_trip(before: Seq<u8>, value: u64, after: Seq<u8>)
    ensures
        varint_at(before + varint_bytes(value as nat) + after, before.len() as int) == Some(value),
        varint_after(before + varint_bytes(value as nat) + after, before.len() as int)
            == before.len() + varint_bytes(value as nat).len(),
        1 <= varint_bytes(value as nat).len() <= 10,
{
    let e = varint_bytes(value as nat);
    let buf = before + e + after;
    let pos = before.len() as int;
    assert(pow128(10) == 0x40_0000_0000_0000_0000) by {
        reveal_with_fuel(pow128, 11);
    }
    lemma_varint_bytes_len(value as nat, 10);
    assert(buf.subrange(pos, pos + e.len()) =~= e);
    lemma_varint_reads(buf, pos, value as nat, 0);
    lemma_base128_of_varint(value as nat);
}


// ---------------------------------------------------------------------
// Fields

/// A varint as the signed number with the same sixty-four bits.
pub open spec fn as_signed(value: u64) -> i64 {
    if value < 0x8000_0000_0000_0000 {
        value as i64
    } else {
        (value - 0x1_0000_0000_0000_0000) as i64
    }
}

pub fn signed_from_proto_varint(value: u64) -> (r: i64)
    ensures
        r == as_signed(value),
{
    if value < 0x8000_0000_0000_0000 {
        value as i64
    } else {
        let below: u64 = 0xffff_ffff_ffff_ffff - value;
        -1 - (below as i64)
    }
}

/// Where the value at `pos` ends, for each wire type that has a length.
pub open spec fn value_end(payload: Seq<u8>, pos: int, wire: u64) -> Option<int> {
    if wire == 0 {
        if varint_at(payload, pos) is Some {
            Some(varint_after(payload, pos))
        } else {
            None
        }
    } else if wire == 1 {
        if pos + 8 <= payload.len() {
            Some(pos + 8)
        } else {
            None
        }
    } else if wire == 2 {
        match varint_at(payload, pos) {
            Some(len) => if varint_after(payload, pos) + len <= payload.len() {
                Some(varint_after(payload, pos) + len)
            } else {
                None
            },
            None => None,
        }
    } else if wire == 5 {
        if pos + 4 <= payload.len() {
            Some(pos + 4)
        } else {
            None
        }
    } else {
        None
    }
}

/// Moves the offset behind the value of the given wire type, if it is all there.
pub fn skip_proto_value(payload: &[u8], offset: &mut usize, wire: u8) -> (r: bool)
    requires
        *old(offset) <= payload@.len(),
    ensures
        r == value_end(payload@, *old(offset) as int, wire as u64) is Some,
        r ==> value_end(payload@, *old(offset) as int, wire as u64) == Some(*final(offset) as int),
        *old(offset) <= *final(offset) <= payload@.len(),
        !r ==> *final(offset) == (if wire == 0 || wire == 2 {
            varint_after(payload@, *old(offset) as int)
        } else {
            *old(offset) as int
        }),
{
    let room: usize = payload.len() - *offset;
    if wire == 0 {
        match read_proto_varint(payload, offset) {
            Some(_) => true,
            None => false,
        }
    } else if wire == 1 {
        if room < 8 {
            return false;
        }
        *offset = *offset + 8;
        true
    } else if wire == 2 {
        match read_proto_varint(payload, offset) {
            Some(len) => {
                if len > (payload.len() - *offset) as u64 {
                    return false;
                }
                *offset = *offset + len as usize;
                true
            },
            None => false,
        }
    } else if wire == 5 {
        if room < 4 {
            return false;
        }
        *offset = *offset + 4;
        true
    } else {
        false
    }
}

pub enum FieldValue {
    Varint(u64),
    Bytes(Seq<u8>),
    Fixed,
}

/// One field of a message, with the bytes it was read from.
pub struct Field {
    pub key: u64,
    pub value: FieldValue,
    pub raw: Seq<u8>,
}

impl Field {
    pub open spec fn number(self) -> u64 {
        self.key / 8
    }

    pub open spec fn wire(self) -> u64 {
        self.key % 8
    }
}

/// The end of the field at `pos`, if a whole field stands there.
pub open spec fn field_end(payload: Seq<u8>, pos: int) -> Option<int> {
    match varint_at(payload, pos) {
        Some(key) => value_end(payload, varint_after(payload, pos), key % 8),
        None => None,
    }
}

pub open spec fn field_at(payload: Seq<u8>, pos: int) -> Field
    recommends
        field_end(payload, pos) is Some,
{
    let key = varint_at(payload, pos)->0;
    let from = varint_after(payload, pos);
    let end = field_end(payload, pos)->0;
    Field {
        key,
        value: if key % 8 == 0 {
            FieldValue::Varint(varint_at(payload, from)->0)
        } else if key % 8 == 2 {
            FieldValue::Bytes(payload.subrange(varint_after(payload, from), end))
        } else {
            FieldValue::Fixed
        },
        raw: payload.subrange(pos, end),
    }
}

/// The fields from `pos` on, up to the first place where no whole field stands.
pub open spec fn fields_from(payload: Seq<u8>, pos: int) -> Seq<Field>
    decreases payload.len() - pos,
{
    match field_end(payload, pos) {
        Some(end) => if 0 <= pos < end <= payload.len() {
            seq![field_at(payload, pos)] + fields_from(payload, end)
        } else {
            Seq::empty()
        },
        None => Seq::empty(),
    }
}

/// Where the fields from `pos` on stop.
pub open spec fn fields_stop(payload: Seq<u8>, pos: int) -> int
    decreases payload.len() - pos,
{
    match field_end(payload, pos) {
        Some(end) => if 0 <= pos < end <= payload.len() {
            fields_stop(payload, end)
        } else {
            pos
        },
        None => pos,
    }
}

pub open spec fn fields(payload: Seq<u8>) -> Seq<Field> {
    fields_from(payload, 0)
}

/// A message is whole when its bytes are fields from the first to the last.
pub open spec fn is_whole(payload: Seq<u8>) -> bool {
    fields_stop(payload, 0) == payload.len()
}

pub proof fn lemma_field_end_bounds(payload: Seq<u8>, pos: int)
    requires
        0 <= pos <= payload.len(),
        field_end(payload, pos) is Some,
    ensures
        pos < varint_after(payload, pos),
        varint_after(payload, pos) <= field_end(payload, pos)->0 <= payload.len(),
        varint_at(payload, pos)->0 % 8 == 2 ==> varint_after(
            payload,
            varint_after(payload, pos),
        ) <= field_end(payload, pos)->0,
{
    lemma_stop_bounds(payload, pos, 0);
    lemma_stop_bounds(payload, varint_after(payload, pos), 0);
}

/// A field as it was found in a payload: a varint, or the place of its bytes.
pub struct FoundField {
    pub number: u64,
    pub wire: u8,
    pub varint: u64,
    pub from: usize,
    pub to: usize,
}

impl FoundField {
    pub open spec fn is_field(self, payload: Seq<u8>, f: Field) -> bool {
        &&& self.number == f.number()
        &&& self.wire == f.wire()
        &&& match f.value {
            FieldValue::Varint(v) => self.wire == 0 && self.varint == v,
            FieldValue::Bytes(b) => self.wire == 2 && self.from <= self.to <= payload.len()
                && b == payload.subrange(self.from as int, self.to as int),
            FieldValue::Fixed => self.wire == 1 || self.wire == 5,
        }
    }
}

/// Reads the field at the offset and moves the offset behind it.
pub fn next_field(payload: &[u8], offset: &mut usize) -> (r: Option<FoundField>)
    requires
        *old(offset) <= payload@.len(),
    ensures
        match r {
            Some(found) => {
                &&& *old(offset) < *final(offset) <= payload@.len()
                &&& field_end(payload@, *old(offset) as int) == Some(*final(offset) as int)
                &&& found.is_field(payload@, field_at(payload@, *old(offset) as int))
                &&& fields_from(payload@, *old(offset) as int) == seq![
                    field_at(payload@, *old(offset) as int),
                ] + fields_from(payload@, *final(offset) as int)
                &&& fields_stop(payload@, *old(offset) as int) == fields_stop(
                    payload@,
                    *final(offset) as int,
                )
            },
            None => {
                &&& field_end(payload@, *old(offset) as int) is None
                &&& fields_from(payload@, *old(offset) as int) == Seq::<Field>::empty()
                &&& fields_stop(payload@, *old(offset) as int) == *old(offset)
            },
        },
{
    let ghost start = *offset as int;
    let key: u64 = match read_proto_varint(payload, offset) {
        Some(key) => key,
        None => {
            return None;
        },
    };
    let wire: u8 = (key % 8) as u8;
    let from: usize = *offset;
    let mut varint: u64 = 0;
    let mut begin: usize = from;
    if wire == 0 || wire == 2 {
        match read_proto_varint(payload, &mut begin) {
            Some(v) => {
                varint = v;
            },
            None => {
                return None;
            },
        }
    }
    if !skip_proto_value(payload, offset, wire) {
        return None;
    }
    proof {
        lemma_field_end_bounds(payload@, start);
    }
    Some(FoundField { number: key / 8, wire, varint, from: begin, to: *offset })
}

// ---------------------------------------------------------------------
// Putting a version into a message

pub open spec fn is_version_field(f: Field, number: u64) -> bool {
    f.wire() == 0 && f.number() == number
}

/// A field as it is written out again: the two version numbers are replaced,
/// every other field keeps its bytes.
pub open spec fn rewritten(f: Field, major: u16, minor: u16) -> Seq<u8> {
    if is_version_field(f, 1) {
        varint_bytes(f.key as nat) + varint_bytes(major as nat)
    } else if is_version_field(f, 2) {
        varint_bytes(f.key as nat) + varint_bytes(minor as nat)
    } else {
        f.raw
    }
}

pub open spec fn rewritten_all(fs: Seq<Field>, major: u16, minor: u16) -> Seq<u8>
    decreases fs.len(),
{
    if fs.len() == 0 {
        Seq::empty()
    } else {
        rewritten_all(fs.drop_last(), major, minor) + rewritten(fs.last(), major, minor)
    }
}

pub open spec fn has_version_field(fs: Seq<Field>, number: u64) -> bool {
    exists|i: int| 0 <= i < fs.len() && is_version_field(#[trigger] fs[i], number)
}

pub open spec fn added(fs: Seq<Field>, number: u64, value: u16) -> Seq<u8> {
    if has_version_field(fs, number) {
        Seq::empty()
    } else {
        varint_bytes((number * 8) as nat) + varint_bytes(value as nat)
    }
}

/// The message with its top-level version set: none if the message is not whole.
pub open spec fn with_version(payload: Seq<u8>, major: u16, minor: u16) -> Option<Seq<u8>> {
    let fs = fields(payload);
    if is_whole(payload) {
        Some(rewritten_all(fs, major, minor) + added(fs, 1, major) + added(fs, 2, minor))
    } else {
        None
    }
}

proof fn lemma_fields_push(done: Seq<Field>, f: Field, rest: Seq<Field>)
    ensures
        done + (seq![f] + rest) == done.push(f) + rest,
        done.push(f).drop_last() == done,
        done.push(f).last() == f,
{
    assert(done + (seq![f] + rest) =~= done.push(f) + rest);
    assert(done.push(f).drop_last() =~= done);
}

pub fn override_wifi_version_request_payload(payload: &[u8], major: u16, minor: u16) -> (r: Option<
    Vec<u8>,
>)
    ensures
        match r {
            Some(out) => with_version(payload@, major, minor) == Some(out@),
            None => with_version(payload@, major, minor) is None,
        },
{
    let mut offset: usize = 0;
    let mut out: Vec<u8> = Vec::new();
    let mut saw_major = false;
    let mut saw_minor = false;
    let ghost all = fields(payload@);
    let ghost mut done = Seq::<Field>::empty();
    assert(done + all =~= all);
    while offset < payload.len()
        invariant
            offset <= payload@.len(),
            all == fields(payload@),
            all == done + fields_from(payload@, offset as int),
            fields_stop(payload@, 0) == fields_stop(payload@, offset as int),
            out@ == rewritten_all(done, major, minor),
            saw_major == has_version_field(done, 1),
            saw_minor == has_version_field(done, 2),
        decreases payload@.len() - offset,
    {
        let field_start: usize = offset;
        let ghost before = out@;
        match next_field(payload, &mut offset) {
            Some(found) => {
                let ghost f = field_at(payload@, field_start as int);
                if found.wire == 0 && (found.number == 1 || found.number == 2) {
                    let key: u64 = found.number * 8;
                    assert(key == f.key);
                    encode_proto_varint(key, &mut out);
                    if found.number == 1 {
                        encode_proto_varint(major as u64, &mut out);
                        saw_major = true;
                    } else {
                        encode_proto_varint(minor as u64, &mut out);
                        saw_minor = true;
                    }
                } else {
                    let raw = vstd::slice::slice_subrange(payload, field_start, offset);
                    out.extend_from_slice(raw);
                }
                proof {
                    assert(out@ =~= before + rewritten(f, major, minor));
                    lemma_fields_push(done, f, fields_from(payload@, offset as int));
                    lemma_has_version_push(done, f, 1);
                    lemma_has_version_push(done, f, 2);
                    done = done.push(f);
                }
            },
            None => {
                return None;
            },
        }
    }
    proof {
        lemma_no_fields_at_end(payload@);
        assert(all =~= done);
    }
    if !saw_major {
        encode_proto_varint(8, &mut out);
        encode_proto_varint(major as u64, &mut out);
    }
    let ghost mid = out@;
    assert(mid =~= rewritten_all(all, major, minor) + added(all, 1, major));
    if !saw_minor {
        encode_proto_varint(16, &mut out);
        encode_proto_varint(minor as u64, &mut out);
    }
    assert(out@ =~= mid + added(all, 2, minor));
    Some(out)
}

proof fn lemma_has_version_push(done: Seq<Field>, f: Field, number: u64)
    ensures
        has_version_field(done.push(f), number) == (has_version_field(done, number)
            || is_version_field(f, number)),
{
    let all = done.push(f);
    if has_version_field(done, number) {
        let i = choose|i: int| 0 <= i < done.len() && is_version_field(#[trigger] done[i], number);
        assert(is_version_field(all[i], number));
    }
    if is_version_field(f, number) {
        assert(is_version_field(all[done.len() as int], number));
    }
    if has_version_field(all, number) {
        let i = choose|i: int| 0 <= i < all.len() && is_version_field(#[trigger] all[i], number);
        if i < done.len() {
            assert(is_version_field(done[i], number));
        }
    }
}

pub proof fn lemma_no_fields_at_end(payload: Seq<u8>)
    ensures
        fields_from(payload, payload.len() as int) == Seq::<Field>::empty(),
        fields_stop(payload, payload.len() as int) == payload.len(),
{
    assert(!varint_ends(payload, payload.len() as int, 0));
}

pub fn override_wifi_version_response_payload(payload: &[u8], major: u16, minor: u16) -> (r: Option<
    Vec<u8>,
>)
    ensures
        match r {
            Some(out) => with_version(payload@, major, minor) == Some(out@),
            None => with_version(payload@, major, minor) is None,
        },
{
    override_wifi_version_request_payload(payload, major, minor)
}

pub fn override_wifi_setup_info_payload(payload: &[u8], major: u16, minor: u16) -> (r: Option<
    Vec<u8>,
>)
    ensures
        match r {
            Some(out) => with_version(payload@, major, minor) == Some(out@),
            None => with_version(payload@, major, minor) is None,
        },
{
    override_wifi_version_request_payload(payload, major, minor)
}

// ---------------------------------------------------------------------
// Versions

/// Versions are ordered by major, then by minor number.
pub open spec fn version_less(major: u64, minor: u64, target_major: u16, target_minor: u16) -> bool {
    major < target_major || (major == target_major && minor < target_minor)
}

pub fn protocol_version_less_than_pair(
    left_major: u64,
    left_minor: u64,
    right_major: u16,
    right_minor: u16,
) -> (r: bool)
    ensures
        r == version_less(left_major, left_minor, right_major, right_minor),
{
    left_major < right_major as u64 || (left_major == right_major as u64 && left_minor
        < right_minor as u64)
}

/// A version is overridden unless it is known and already as new as the target.
pub open spec fn overrides(
    major: Option<u64>,
    minor: Option<u64>,
    target_major: u16,
    target_minor: u16,
) -> bool {
    match (major, minor) {
        (Some(a), Some(b)) => version_less(a, b, target_major, target_minor),
        _ => true,
    }
}

pub fn should_override_inspected_protocol_version(
    major: Option<u64>,
    minor: Option<u64>,
    target_major: u16,
    target_minor: u16,
) -> (r: bool)
    ensures
        r == overrides(major, minor, target_major, target_minor),
{
    match (major, minor) {
        (Some(major), Some(minor)) => protocol_version_less_than_pair(
            major,
            minor,
            target_major,
            target_minor,
        ),
        _ => true,
    }
}

// ---------------------------------------------------------------------
// Small payloads

/// The sixty-four bits of a signed number.
pub open spec fn as_unsigned(value: int) -> nat {
    if value < 0 {
        (value + 0x1_0000_0000_0000_0000) as nat
    } else {
        value as nat
    }
}

/// One `int32` field: negative numbers are written with all sixty-four bits.
pub open spec fn int32_field(number: nat, status: i32) -> Seq<u8> {
    varint_bytes(number * 8) + varint_bytes(as_unsigned(status as int))
}

pub fn proto_int32_status_payload(field_number: u32, status: i32) -> (r: Vec<u8>)
    ensures
        r@ == int32_field(field_number as nat, status),
{
    let mut out: Vec<u8> = Vec::new();
    encode_proto_varint(field_number as u64 * 8, &mut out);
    let bits: u64 = if status < 0 {
        let below: u64 = (-1 - status as i64) as u64;
        0xffff_ffff_ffff_ffff - below
    } else {
        status as u64
    };
    encode_proto_varint(bits, &mut out);
    assert(out@ =~= int32_field(field_number as nat, status));
    out
}

/// The status of a `WifiConnectStatus` is its first field.
pub fn wifi_connect_status_payload(status: i32) -> (r: Vec<u8>)
    ensures
        r@ == int32_field(1, status),
{
    proto_int32_status_payload(1, status)
}

/// The status of a `WifiStartResponse` is its third field.
pub fn wifi_start_response_status_payload(status: i32) -> (r: Vec<u8>)
    ensures
        r@ == int32_field(3, status),
{
    proto_int32_status_payload(3, status)
}

/// A ping request with its time stamp in the first field.
pub open spec fn ping_payload(timestamp_ms: i64) -> Seq<u8> {
    varint_bytes(8) + varint_bytes(as_unsigned(timestamp_ms as int))
}

pub fn wifi_ping_request_payload(timestamp_ms: i64) -> (r: Vec<u8>)
    ensures
        r@ == ping_payload(timestamp_ms),
{
    let mut out: Vec<u8> = Vec::new();
    encode_proto_varint(8, &mut out);
    let bits: u64 = if timestamp_ms < 0 {
        let below: u64 = (-1 - timestamp_ms) as u64;
        0xffff_ffff_ffff_ffff - below
    } else {
        timestamp_ms as u64
    };
    encode_proto_varint(bits, &mut out);
    assert(out@ =~= ping_payload(timestamp_ms));
    out
}


// ---------------------------------------------------------------------
// What the override keeps and what it sets

proof fn lemma_varint_moves(a: Seq<u8>, i: int, b: Seq<u8>, j: int, k: nat)
    requires
        varint_ends(a, i, k),
        0 <= j,
        j + (varint_stop(a, i, k) - i) <= b.len(),
        forall|n: int| 0 <= n < varint_stop(a, i, k) - i ==> b[j + n] == #[trigger] a[i + n],
    ensures
        varint_ends(b, j, k),
        varint_stop(b, j, k) - j == varint_stop(a, i, k) - i,
    decreases 10 - k,
{
    lemma_stop_bounds(a, i, k);
    assert(b[j + 0] == a[i + 0]);
    if a[i] >= 128 {
        assert forall|n: int| 0 <= n < varint_stop(a, i + 1, k + 1) - (i + 1) implies b[j + 1 + n]
            == #[trigger] a[i + 1 + n] by {
            assert(b[j + (n + 1)] == a[i + (n + 1)]);
        }
        lemma_stop_bounds(a, i + 1, k + 1);
        lemma_varint_moves(a, i + 1, b, j + 1, k + 1);
    }
}

proof fn lemma_varint_value_moves(a: Seq<u8>, i: int, b: Seq<u8>, j: int, n: int)
    requires
        0 <= i,
        varint_at(a, i) is Some,
        0 <= j,
        varint_after(a, i) - i <= n,
        i + n <= a.len(),
        j + n <= b.len(),
        a.subrange(i, i + n) == b.subrange(j, j + n),
    ensures
        varint_at(b, j) == varint_at(a, i),
        varint_after(b, j) - j == varint_after(a, i) - i,
{
    let len = varint_after(a, i) - i;
    lemma_stop_bounds(a, i, 0);
    assert forall|m: int| 0 <= m < len implies b[j + m] == #[trigger] a[i + m] by {
        assert(a.subrange(i, i + n)[m] == a[i + m]);
        assert(b.subrange(j, j + n)[m] == b[j + m]);
    }
    lemma_varint_moves(a, i, b, j, 0);
    assert(a.subrange(i, i + len) =~= b.subrange(j, j + len));
}

/// A field reads the same wherever its bytes stand.
proof fn lemma_field_moves(a: Seq<u8>, i: int, b: Seq<u8>, j: int)
    requires
        0 <= i <= a.len(),
        field_end(a, i) is Some,
        0 <= j,
        j + (field_end(a, i)->0 - i) <= b.len(),
        a.subrange(i, field_end(a, i)->0) == b.subrange(j, j + (field_end(a, i)->0 - i)),
    ensures
        field_end(b, j) == Some(j + (field_end(a, i)->0 - i)),
        field_at(b, j) == field_at(a, i),
{
    let n = field_end(a, i)->0 - i;
    lemma_field_end_bounds(a, i);
    lemma_varint_value_moves(a, i, b, j, n);
    let key = varint_at(a, i)->0;
    let i2 = varint_after(a, i);
    let j2 = varint_after(b, j);
    let n2 = n - (i2 - i);
    assert(a.subrange(i2, i2 + n2) =~= b.subrange(j2, j2 + n2)) by {
        assert forall|m: int| 0 <= m < n2 implies #[trigger] a.subrange(
            i2,
            i2 + n2,
        )[m] == b.subrange(j2, j2 + n2)[m] by {
            assert(a.subrange(i, i + n)[i2 - i + m] == b.subrange(j, j + n)[i2 - i + m]);
        }
    }
    if key % 8 == 0 || key % 8 == 2 {
        lemma_stop_bounds(a, i2, 0);
        lemma_varint_value_moves(a, i2, b, j2, n2);
    }
    if key % 8 == 2 {
        let i3 = varint_after(a, i2);
        let j3 = varint_after(b, j2);
        let n3 = n - (i3 - i);
        assert(a.subrange(i3, i3 + n3) =~= b.subrange(j3, j3 + n3)) by {
            assert forall|m: int| 0 <= m < n3 implies #[trigger] a.subrange(
                i3,
                i3 + n3,
            )[m] == b.subrange(j3, j3 + n3)[m] by {
                assert(a.subrange(i, i + n)[i3 - i + m] == b.subrange(j, j + n)[i3 - i + m]);
            }
        }
    }
}

/// Whether the field's bytes alone read as that field.
pub open spec fn stands_alone(f: Field) -> bool {
    f.raw.len() > 0 && field_end(f.raw, 0) == Some(f.raw.len() as int) && field_at(f.raw, 0) == f
}

proof fn lemma_append_from(buf: Seq<u8>, pos: int, f: Field)
    requires
        0 <= pos <= buf.len(),
        fields_stop(buf, pos) == buf.len(),
        stands_alone(f),
    ensures
        fields_from(buf + f.raw, pos) == fields_from(buf, pos).push(f),
        fields_stop(buf + f.raw, pos) == buf.len() + f.raw.len(),
    decreases buf.len() - pos,
{
    let all = buf + f.raw;
    if pos == buf.len() {
        lemma_no_fields_at_end(buf);
        assert(f.raw.subrange(0, f.raw.len() as int) =~= f.raw);
        assert(all.subrange(pos, pos + f.raw.len()) =~= f.raw);
        lemma_field_moves(f.raw, 0, all, pos);
        lemma_no_fields_at_end(all);
        assert(fields_from(all, pos) =~= seq![f]);
        assert(fields_from(buf, pos).push(f) =~= seq![f]);
    } else {
        let end = field_end(buf, pos)->0;
        lemma_field_end_bounds(buf, pos);
        assert(all.subrange(pos, end) =~= buf.subrange(pos, end));
        lemma_field_moves(buf, pos, all, pos);
        lemma_append_from(buf, end, f);
        assert(fields_from(all, pos) =~= fields_from(buf, pos).push(f));
    }
}

proof fn lemma_append_field(buf: Seq<u8>, f: Field)
    requires
        is_whole(buf),
        stands_alone(f),
    ensures
        is_whole(buf + f.raw),
        fields(buf + f.raw) == fields(buf).push(f),
{
    lemma_append_from(buf, 0, f);
}

/// The version field with the given number and value.
pub open spec fn version_field(number: u64, value: u16) -> Field {
    Field {
        key: (number * 8) as u64,
        value: FieldValue::Varint(value as u64),
        raw: varint_bytes((number * 8) as nat) + varint_bytes(value as nat),
    }
}

proof fn lemma_version_field_stands(number: u64, value: u16)
    requires
        number == 1 || number == 2,
    ensures
        stands_alone(version_field(number, value)),
{
    let f = version_field(number, value);
    let key = (number * 8) as u64;
    let k = varint_bytes(key as nat);
    let v = varint_bytes(value as nat);
    law_varint_round_trip(Seq::empty(), key, v);
    assert(Seq::<u8>::empty() + k + v =~= f.raw);
    law_varint_round_trip(k, value as u64, Seq::empty());
    assert(k + v + Seq::<u8>::empty() =~= f.raw);
    assert(f.raw.subrange(0, f.raw.len() as int) =~= f.raw);
}

/// A field behind the override: the versions are the given ones.
pub open spec fn after_override(f: Field, major: u16, minor: u16) -> Field {
    if is_version_field(f, 1) {
        version_field(1, major)
    } else if is_version_field(f, 2) {
        version_field(2, minor)
    } else {
        f
    }
}

pub proof fn lemma_fields_stand_alone(payload: Seq<u8>, pos: int)
    requires
        0 <= pos <= payload.len(),
    ensures
        forall|i: int|
            0 <= i < fields_from(payload, pos).len() ==> stands_alone(
                #[trigger] fields_from(payload, pos)[i],
            ),
    decreases payload.len() - pos,
{
    if field_end(payload, pos) is Some {
        let end = field_end(payload, pos)->0;
        lemma_field_end_bounds(payload, pos);
        lemma_fields_stand_alone(payload, end);
        let f = field_at(payload, pos);
        assert(f.raw =~= payload.subrange(pos, end));
        assert(f.raw.subrange(0, f.raw.len() as int) =~= f.raw);
        lemma_field_moves(payload, pos, f.raw, 0);
        assert forall|i: int| 0 <= i < fields_from(payload, pos).len() implies stands_alone(
            #[trigger] fields_from(payload, pos)[i],
        ) by {
            if i > 0 {
                assert(fields_from(payload, pos)[i] == fields_from(payload, end)[i - 1]);
            }
        }
    }
}

proof fn lemma_rewritten_fields(fs: Seq<Field>, major: u16, minor: u16)
    requires
        forall|i: int| 0 <= i < fs.len() ==> stands_alone(#[trigger] fs[i]),
    ensures
        is_whole(rewritten_all(fs, major, minor)),
        fields(rewritten_all(fs, major, minor)) == fs.map_values(
            |f: Field| after_override(f, major, minor),
        ),
    decreases fs.len(),
{
    if fs.len() == 0 {
        lemma_no_fields_at_end(Seq::<u8>::empty());
        assert(fields(rewritten_all(fs, major, minor)) =~= fs.map_values(
            |f: Field| after_override(f, major, minor),
        ));
    } else {
        let f = fs.last();
        let head = fs.drop_last();
        assert forall|i: int| 0 <= i < head.len() implies stands_alone(#[trigger] head[i]) by {
            assert(stands_alone(fs[i]));
        }
        lemma_rewritten_fields(head, major, minor);
        lemma_version_field_stands(1, major);
        lemma_version_field_stands(2, minor);
        assert(stands_alone(fs[fs.len() - 1]));
        let g = after_override(f, major, minor);
        assert(rewritten(f, major, minor) == g.raw);
        lemma_append_field(rewritten_all(head, major, minor), g);
        assert(fs.map_values(|f: Field| after_override(f, major, minor)) =~= head.map_values(
            |f: Field| after_override(f, major, minor),
        ).push(g));
    }
}

/// The fields of an overridden message: those of the original, in order, with
/// the two version numbers set, and behind them those that were missing.
pub open spec fn fields_after_override(fs: Seq<Field>, major: u16, minor: u16) -> Seq<Field> {
    let changed = fs.map_values(|f: Field| after_override(f, major, minor));
    let with_major = if has_version_field(fs, 1) {
        changed
    } else {
        changed.push(version_field(1, major))
    };
    if has_version_field(fs, 2) {
        with_major
    } else {
        with_major.push(version_field(2, minor))
    }
}

/// Overriding the version of a whole message gives a whole message, sets the
/// version numbers, adds those that were missing, and changes nothing else.
pub proof fn law_override_sets_only_the_version(payload: Seq<u8>, major: u16, minor: u16)
    requires
        is_whole(payload),
    ensures
        with_version(payload, major, minor) is Some,
        is_whole(with_version(payload, major, minor)->0),
        fields(with_version(payload, major, minor)->0) == fields_after_override(
            fields(payload),
            major,
            minor,
        ),
{
    let fs = fields(payload);
    lemma_fields_stand_alone(payload, 0);
    lemma_rewritten_fields(fs, major, minor);
    lemma_version_field_stands(1, major);
    lemma_version_field_stands(2, minor);
    let base = rewritten_all(fs, major, minor);
    let mid = base + added(fs, 1, major);
    if has_version_field(fs, 1) {
        assert(mid =~= base);
    } else {
        lemma_append_field(base, version_field(1, major));
    }
    if has_version_field(fs, 2) {
        assert(mid + added(fs, 2, minor) =~= mid);
    } else {
        lemma_append_field(mid, version_field(2, minor));
    }
}

/// The bytes of fields that stand one behind the other.
pub open spec fn raw_bytes(fs: Seq<Field>) -> Seq<u8>
    decreases fs.len(),
{
    if fs.len() == 0 {
        Seq::empty()
    } else {
        fs[0].raw + raw_bytes(fs.subrange(1, fs.len() as int))
    }
}

proof fn lemma_fields_make_the_bytes(payload: Seq<u8>, pos: int)
    requires
        0 <= pos <= payload.len(),
        fields_stop(payload, pos) == payload.len(),
    ensures
        raw_bytes(fields_from(payload, pos)) == payload.subrange(pos, payload.len() as int),
    decreases payload.len() - pos,
{
    if pos == payload.len() {
        lemma_no_fields_at_end(payload);
        assert(payload.subrange(pos, payload.len() as int) =~= Seq::<u8>::empty());
    } else {
        let end = field_end(payload, pos)->0;
        lemma_field_end_bounds(payload, pos);
        lemma_fields_make_the_bytes(payload, end);
        let fs = fields_from(payload, pos);
        assert(fs.subrange(1, fs.len() as int) =~= fields_from(payload, end));
        assert(payload.subrange(pos, end) + payload.subrange(end, payload.len() as int)
            =~= payload.subrange(pos, payload.len() as int));
    }
}

/// A whole message is its fields: two with the same ones have the same bytes.
pub proof fn law_whole_message_is_its_fields(a: Seq<u8>, b: Seq<u8>)
    requires
        is_whole(a),
        is_whole(b),
        fields(a) == fields(b),
    ensures
        a == b,
{
    lemma_fields_make_the_bytes(a, 0);
    lemma_fields_make_the_bytes(b, 0);
    assert(a.subrange(0, a.len() as int) =~= a);
    assert(b.subrange(0, b.len() as int) =~= b);
}

/// Overriding twice is overriding once, with the later version.
pub proof fn law_override_again_replaces(
    payload: Seq<u8>,
    major: u16,
    minor: u16,
    later_major: u16,
    later_minor: u16,
)
    requires
        is_whole(payload),
    ensures
        with_version(with_version(payload, major, minor)->0, later_major, later_minor)
            == with_version(payload, later_major, later_minor),
{
    let once = with_version(payload, major, minor)->0;
    law_override_sets_only_the_version(payload, major, minor);
    law_override_sets_only_the_version(payload, later_major, later_minor);
    law_override_sets_only_the_version(once, later_major, later_minor);
    lemma_override_again(fields(payload), major, minor, later_major, later_minor);
    law_whole_message_is_its_fields(
        with_version(once, later_major, later_minor)->0,
        with_version(payload, later_major, later_minor)->0,
    );
}

proof fn lemma_override_again(
    fs: Seq<Field>,
    major: u16,
    minor: u16,
    later_major: u16,
    later_minor: u16,
)
    ensures
        fields_after_override(
            fields_after_override(fs, major, minor),
            later_major,
            later_minor,
        ) == fields_after_override(fs, later_major, later_minor),
{
    let gs = fields_after_override(fs, major, minor);
    lemma_override_has_both(fs, major, minor);
    let a = fields_after_override(gs, later_major, later_minor);
    let b = fields_after_override(fs, later_major, later_minor);
    assert(a.len() == b.len());
    assert forall|i: int| 0 <= i < a.len() implies a[i] == b[i] by {
        assert(a[i] == after_override(gs[i], later_major, later_minor));
        if i < fs.len() {
            assert(gs[i] == after_override(fs[i], major, minor));
            assert(b[i] == after_override(fs[i], later_major, later_minor));
        }
    }
    assert(a =~= b);
}

pub proof fn lemma_override_has_both(fs: Seq<Field>, major: u16, minor: u16)
    ensures
        has_version_field(fields_after_override(fs, major, minor), 1),
        has_version_field(fields_after_override(fs, major, minor), 2),
{
    let out = fields_after_override(fs, major, minor);
    let changed = fs.map_values(|f: Field| after_override(f, major, minor));
    if has_version_field(fs, 1) {
        let i = choose|i: int| 0 <= i < fs.len() && is_version_field(#[trigger] fs[i], 1);
        assert(out[i] == changed[i]);
        assert(is_version_field(out[i], 1));
    } else {
        assert(is_version_field(out[changed.len() as int], 1));
    }
    if has_version_field(fs, 2) {
        let i = choose|i: int| 0 <= i < fs.len() && is_version_field(#[trigger] fs[i], 2);
        assert(out[i] == changed[i]);
        assert(is_version_field(out[i], 2));
    } else {
        assert(is_version_field(out[out.len() - 1], 2));
    }
}

/// The order of versions: none is below itself, and of a version and a target
/// that differ exactly one is below the other.
pub proof fn law_version_order(a_major: u16, a_minor: u16, b_major: u16, b_minor: u16)
    ensures
        !version_less(a_major as u64, a_minor as u64, a_major, a_minor),
        (a_major, a_minor) != (b_major, b_minor) ==> (version_less(
            a_major as u64,
            a_minor as u64,
            b_major,
            b_minor,
        ) != version_less(b_major as u64, b_minor as u64, a_major, a_minor)),
{
}

// ---------------------------------------------------------------------
// The format, byte for byte

/// A varint holds seven bits a byte, the lowest first, and every byte but the
/// last is marked by its highest bit.
pub proof fn law_varint_is_laid_out(value: nat)
    ensures
        value < 0x80 ==> varint_bytes(value) == seq![value as u8],
        value >= 0x80 ==> varint_bytes(value) == seq![(0x80 + value % 0x80) as u8] + varint_bytes(
            value / 0x80,
        ),
{
}

/// The sixty-four bits of a number are the same bits with and without a sign.
pub proof fn law_signs_keep_the_bits(value: u64, status: i64)
    ensures
        (as_signed(value) as int - value as int) % 0x1_0000_0000_0000_0000 == 0,
        as_unsigned(status as int) < 0x1_0000_0000_0000_0000,
        as_signed(as_unsigned(status as int) as u64) == status,
{
    if value >= 0x8000_0000_0000_0000 {
        assert(as_signed(value) as int - value as int == -0x1_0000_0000_0000_0000);
        assert((-0x1_0000_0000_0000_0000int) % 0x1_0000_0000_0000_0000 == 0);
    }
}

proof fn lemma_key_stands(key: u64, behind: Seq<u8>)
    ensures
        varint_at(varint_bytes(key as nat) + behind, 0) == Some(key),
        varint_after(varint_bytes(key as nat) + behind, 0) == varint_bytes(key as nat).len(),
        varint_bytes(key as nat).len() >= 1,
{
    law_varint_round_trip(Seq::empty(), key, behind);
    assert(Seq::<u8>::empty() + varint_bytes(key as nat) + behind =~= varint_bytes(key as nat)
        + behind);
}

/// A number behind the key eight times its field is read as this field, behind
/// the fields that stand before it.
pub proof fn law_number_field_is_read(buf: Seq<u8>, number: u64, value: u64)
    requires
        is_whole(buf),
        number < 0x2000_0000_0000_0000,
    ensures
        ({
            let bytes = varint_bytes((number * 8) as nat) + varint_bytes(value as nat);
            &&& is_whole(buf + bytes)
            &&& fields(buf + bytes).len() == fields(buf).len() + 1
            &&& fields(buf + bytes).drop_last() == fields(buf)
            &&& fields(buf + bytes).last().number() == number
            &&& fields(buf + bytes).last().wire() == 0
            &&& fields(buf + bytes).last().value == FieldValue::Varint(value)
            &&& fields(buf + bytes).last().raw == bytes
        }),
{
    let key = (number * 8) as u64;
    let k = varint_bytes(key as nat);
    let v = varint_bytes(value as nat);
    let raw = k + v;
    lemma_key_stands(key, v);
    law_varint_round_trip(k, value, Seq::empty());
    assert(k + v + Seq::<u8>::empty() =~= raw);
    let f = Field { key, value: FieldValue::Varint(value), raw };
    assert(raw.subrange(0, raw.len() as int) =~= raw);
    assert(stands_alone(f));
    lemma_append_field(buf, f);
    assert(fields(buf).push(f).drop_last() =~= fields(buf));
}

/// Bytes behind the key eight times their field and two more, and behind their
/// length, are read as this field.
pub proof fn law_bytes_field_is_read(buf: Seq<u8>, number: u64, bytes: Seq<u8>)
    requires
        is_whole(buf),
        number < 0x2000_0000_0000_0000,
        bytes.len() < 0x8000_0000_0000_0000,
    ensures
        ({
            let raw = varint_bytes((number * 8 + 2) as nat) + varint_bytes(bytes.len()) + bytes;
            &&& is_whole(buf + raw)
            &&& fields(buf + raw).len() == fields(buf).len() + 1
            &&& fields(buf + raw).drop_last() == fields(buf)
            &&& fields(buf + raw).last().number() == number
            &&& fields(buf + raw).last().wire() == 2
            &&& fields(buf + raw).last().value == FieldValue::Bytes(bytes)
            &&& fields(buf + raw).last().raw == raw
        }),
{
    let key = (number * 8 + 2) as u64;
    let k = varint_bytes(key as nat);
    let n = varint_bytes(bytes.len());
    let raw = k + n + bytes;
    assert(k + (n + bytes) =~= raw);
    lemma_key_stands(key, n + bytes);
    law_varint_round_trip(k, bytes.len() as u64, bytes);
    assert(raw.subrange((k + n).len() as int, raw.len() as int) =~= bytes);
    let f = Field { key, value: FieldValue::Bytes(bytes), raw };
    assert(raw.subrange(0, raw.len() as int) =~= raw);
    assert(stands_alone(f));
    lemma_append_field(buf, f);
    assert(fields(buf).push(f).drop_last() =~= fields(buf));
}

/// A field of eight bytes has the key eight times its number and one more, one
/// of four bytes has five more; both are passed over.
pub proof fn law_fixed_field_is_passed_over(buf: Seq<u8>, number: u64, bytes: Seq<u8>, wire: u64)
    requires
        is_whole(buf),
        number < 0x2000_0000_0000_0000,
        wire == 1 && bytes.len() == 8 || wire == 5 && bytes.len() == 4,
    ensures
        ({
            let raw = varint_bytes((number * 8 + wire) as nat) + bytes;
            &&& is_whole(buf + raw)
            &&& fields(buf + raw).len() == fields(buf).len() + 1
            &&& fields(buf + raw).drop_last() == fields(buf)
            &&& fields(buf + raw).last().number() == number
            &&& fields(buf + raw).last().wire() == wire
            &&& fields(buf + raw).last().value == FieldValue::Fixed
            &&& fields(buf + raw).last().raw == raw
        }),
{
    let key = (number * 8 + wire) as u64;
    let k = varint_bytes(key as nat);
    let raw = k + bytes;
    lemma_key_stands(key, bytes);
    assert(key % 8 == wire);
    let f = Field { key, value: FieldValue::Fixed, raw };
    assert(raw.subrange(0, raw.len() as int) =~= raw);
    assert(stands_alone(f));
    lemma_append_field(buf, f);
    assert(fields(buf).push(f).drop_last() =~= fields(buf));
}

/// The message without bytes is whole and has no fields.
pub proof fn law_empty_message_has_no_fields()
    ensures
        is_whole(Seq::empty()),
        fields(Seq::empty()).len() == 0,
{
    lemma_no_fields_at_end(Seq::empty());
}

/// A status is one field, and its number is read back from it, below zero too.
pub proof fn law_status_is_read_back(number: u32, status: i32)
    ensures
        ({
            let fs = fields(int32_field(number as nat, status));
            &&& is_whole(int32_field(number as nat, status))
            &&& fs.len() == 1
            &&& fs[0].key == number * 8
            &&& fs[0].value is Varint
            &&& as_signed(fs[0].value->Varint_0) == status
        }),
{
    law_empty_message_has_no_fields();
    law_signs_keep_the_bits(0, status as i64);
    let v = as_unsigned(status as int) as u64;
    law_number_field_is_read(Seq::empty(), number as u64, v);
    assert(Seq::<u8>::empty() + int32_field(number as nat, status) =~= int32_field(
        number as nat,
        status,
    ));
}

/// A ping is one field, the first, and its time is read back from it.
pub proof fn law_ping_is_read_back(timestamp_ms: i64)
    ensures
        ({
            let fs = fields(ping_payload(timestamp_ms));
            &&& is_whole(ping_payload(timestamp_ms))
            &&& fs.len() == 1
            &&& fs[0].key == 8
            &&& fs[0].value is Varint
            &&& as_signed(fs[0].value->Varint_0) == timestamp_ms
        }),
{
    law_empty_message_has_no_fields();
    law_signs_keep_the_bits(0, timestamp_ms);
    let v = as_unsigned(timestamp_ms as int) as u64;
    law_number_field_is_read(Seq::empty(), 1, v);
    assert(Seq::<u8>::empty() + ping_payload(timestamp_ms) =~= ping_payload(timestamp_ms));
}

/// Behind an override every number in the first field is the major version and
/// every number in the second the minor one; each field else is as it was, at
/// its place. A version that the message lacks is put at its end, the major one
/// first.
pub proof fn law_override_is_told_field_by_field(payload: Seq<u8>, major: u16, minor: u16)
    requires
        is_whole(payload),
    ensures
        ({
            let was = fields(payload);
            let now = fields(with_version(payload, major, minor)->0);
            let has_major = exists|i: int| 0 <= i < was.len() && (#[trigger] was[i]).key == 8;
            let has_minor = exists|i: int| 0 <= i < was.len() && (#[trigger] was[i]).key == 16;
            let n = was.len() as int;
            &&& now.len() == n + (if has_major {
                0int
            } else {
                1int
            }) + (if has_minor {
                0int
            } else {
                1int
            })
            &&& forall|i: int|
                0 <= i < n ==> {
                    &&& (#[trigger] now[i]).key == was[i].key
                    &&& was[i].key == 8 ==> now[i].value == FieldValue::Varint(major as u64)
                    &&& was[i].key == 16 ==> now[i].value == FieldValue::Varint(minor as u64)
                    &&& was[i].key != 8 && was[i].key != 16 ==> now[i] == was[i]
                }
            &&& !has_major ==> now[n].key == 8 && now[n].value == FieldValue::Varint(major as u64)
            &&& !has_minor ==> now.last().key == 16 && now.last().value == FieldValue::Varint(
                minor as u64,
            )
        }),
        with_version(payload, major, minor) is Some,
{
    law_override_sets_only_the_version(payload, major, minor);
    let was = fields(payload);
    let now = fields(with_version(payload, major, minor)->0);
    assert forall|i: int| 0 <= i < was.len() implies (is_version_field(#[trigger] was[i], 1)
        <==> was[i].key == 8) && (is_version_field(was[i], 2) <==> was[i].key == 16) by {}
    if has_version_field(was, 1) {
        let i = choose|i: int| 0 <= i < was.len() && is_version_field(#[trigger] was[i], 1);
        assert(was[i].key == 8);
    }
    if has_version_field(was, 2) {
        let i = choose|i: int| 0 <= i < was.len() && is_version_field(#[trigger] was[i], 2);
        assert(was[i].key == 16);
    }
    assert forall|i: int| 0 <= i < was.len() implies #[trigger] now[i] == after_override(
        was[i],
        major,
        minor,
    ) by {}
}

/// A message that is not whole is not touched.
pub proof fn law_broken_message_is_left_alone(payload: Seq<u8>, major: u16, minor: u16)
    requires
        !is_whole(payload),
    ensures
        with_version(payload, major, minor) is None,
{
}

/// A version is overridden where it is below the one that is asked for, and
/// where one of its numbers is unknown.
pub proof fn law_older_versions_are_overridden(a: u64, b: u64, x: Option<u64>, m: u16, n: u16)
    ensures
        overrides(Some(a), Some(b), m, n) <==> a < m || a == m && b < n,
        overrides(None, x, m, n),
        overrides(x, None, m, n),
{
}

} // verus!
