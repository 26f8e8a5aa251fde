//! The byte layout of the gpiochip ioctl records.
//!
//! Each record is laid out field by field, with the widths and offsets of
//! the kernel's definition. Integers are written in the host's byte order,
//! which the caller passes as a `ByteOrder`.
use vstd::prelude::*;
use vstd::string::StringSliceAdditionalSpecFns;

use crate::error::GpioError;
use crate::flags::{EventRequestFlags, Flags, RequestFlags};
use crate::records::{gpiohandle_data, EventId, GpioEvent, LineInfo};
use crate::text::{copy_range, decode_text, field_text, label_field, lossy_text, encode_label, TEXT_FIELD_LEN};

verus! {

/// Largest number of lines in one handle request or value record.
pub const MAX_LINES: usize = 64;

/// `gpiochip_info`: name[32] @0, label[32] @32, lines u32 @64.
pub const CHIP_INFO_SIZE: usize = 68;
/// `gpioline_info`: line_offset u32 @0, flags u32 @4, name[32] @8, consumer[32] @40.
pub const LINE_INFO_SIZE: usize = 72;
/// `gpiohandle_request`: lineoffsets u32[64] @0, flags u32 @256,
/// default_values u8[64] @260, consumer_label[32] @324, lines u32 @356, fd i32 @360.
pub const HANDLE_REQUEST_SIZE: usize = 364;
/// `gpioevent_request`: lineoffset u32 @0, handleflags u32 @4, eventflags u32 @8,
/// consumer_label[32] @12, fd i32 @44.
pub const EVENT_REQUEST_SIZE: usize = 48;
/// `gpiohandle_data`: values u8[64] @0.
pub const HANDLE_DATA_SIZE: usize = 64;
/// `gpioevent_data`: timestamp u64 @0, id u32 @8, then 4 bytes of padding.
pub const EVENT_DATA_SIZE: usize = 16;

/// Offset of the resulting descriptor in a handle request.
pub const HANDLE_REQUEST_FD_AT: usize = 360;
/// Offset of the resulting descriptor in an event request.
pub const EVENT_REQUEST_FD_AT: usize = 44;

/// The order in which the bytes of an integer are laid out.
#[derive(Clone, Copy, Debug, PartialEq, Eq, Structural)]
pub enum ByteOrder {
    Little,
    Big,
}

/// The four bytes of `v`, least significant first.
pub open spec fn u32_le_bytes(v: u32) -> Seq<u8> {
    seq![(v % 256) as u8, ((v / 256) % 256) as u8, ((v / 65536) % 256) as u8, (v / 16777216) as u8]
}

/// The four bytes of `v` in order `o`.
pub open spec fn u32_bytes(v: u32, o: ByteOrder) -> Seq<u8> {
    let le = u32_le_bytes(v);
    match o {
        ByteOrder::Little => le,
        ByteOrder::Big => seq![le[3], le[2], le[1], le[0]],
    }
}

/// `b` read least significant byte first.
pub open spec fn le_value(b: Seq<u8>) -> int
    decreases b.len(),
{
    if b.len() == 0 {
        0
    } else {
        b[0] + 256 * le_value(b.drop_first())
    }
}

/// The unsigned integer that bytes `b` hold in order `o`.
pub open spec fn uint_value(b: Seq<u8>, o: ByteOrder) -> int {
    match o {
        ByteOrder::Little => le_value(b),
        ByteOrder::Big => le_value(b.reverse()),
    }
}

/// The bytes of the integers of `s`, one after another.
pub open spec fn u32s_bytes(s: Seq<u32>, o: ByteOrder) -> Seq<u8>
    decreases s.len(),
{
    if s.len() == 0 {
        Seq::empty()
    } else {
        u32s_bytes(s.drop_last(), o) + u32_bytes(s.last(), o)
    }
}

/// `s` cut or filled with zeros to length `n`.
pub open spec fn padded<T>(s: Seq<T>, n: nat, zero: T) -> Seq<T> {
    Seq::new(n, |i: int| if i < s.len() { s[i] } else { zero })
}

pub open spec fn zeros(n: nat) -> Seq<u8> {
    Seq::new(n, |i: int| 0u8)
}

/// The image of a line-info query for line `gpio`.
pub open spec fn line_info_query_bytes(gpio: u32, o: ByteOrder) -> Seq<u8> {
    u32_bytes(gpio, o) + zeros((LINE_INFO_SIZE - 4) as nat)
}

/// The image of a handle request.
pub open spec fn handle_request_bytes(
    consumer: Seq<u8>,
    flags: u32,
    gpios: Seq<u32>,
    defaults: Seq<u8>,
    o: ByteOrder,
) -> Seq<u8> {
    u32s_bytes(padded(gpios, MAX_LINES as nat, 0u32), o) + u32_bytes(flags, o) + padded(
        defaults,
        MAX_LINES as nat,
        0u8,
    ) + label_field(consumer) + u32_bytes(gpios.len() as u32, o) + u32_bytes(0, o)
}

/// The image of an event request.
pub open spec fn event_request_bytes(
    consumer: Seq<u8>,
    gpio: u32,
    handleflags: u32,
    eventflags: u32,
    o: ByteOrder,
) -> Seq<u8> {
    u32_bytes(gpio, o) + u32_bytes(handleflags, o) + u32_bytes(eventflags, o) + label_field(
        consumer,
    ) + u32_bytes(0, o)
}

/// Appends the bytes of `v` in order `o`.
fn push_u32(out: &mut Vec<u8>, v: u32, o: ByteOrder)
    ensures
        final(out)@ == old(out)@ + u32_bytes(v, o),
{
    let b0 = (v % 256) as u8;
    let b1 = ((v / 256) % 256) as u8;
    let b2 = ((v / 65536) % 256) as u8;
    let b3 = (v / 16777216) as u8;
    match o {
        ByteOrder::Little => {
            out.push(b0);
            out.push(b1);
            out.push(b2);
            out.push(b3);
        },
        ByteOrder::Big => {
            out.push(b3);
            out.push(b2);
            out.push(b1);
            out.push(b0);
        },
    }
    assert(final(out)@ =~= old(out)@ + u32_bytes(v, o));
}

/// Appends the bytes of `b`.
fn push_bytes(out: &mut Vec<u8>, b: &[u8])
    ensures
        final(out)@ == old(out)@ + b@,
{
    let ghost start = out@;
    let mut i: usize = 0;
    while i < b.len()
        invariant
            i <= b@.len(),
            out@ == start + b@.take(i as int),
        decreases b@.len() - i,
    {
        out.push(b[i]);
        i = i + 1;
        assert(out@ =~= start + b@.take(i as int));
    }
    assert(b@.take(b@.len() as int) =~= b@);
}

/// Appends `n` NUL bytes.
fn push_zeros(out: &mut Vec<u8>, n: usize)
    ensures
        final(out)@ == old(out)@ + zeros(n as nat),
{
    let ghost start = out@;
    let mut i: usize = 0;
    while i < n
        invariant
            i <= n,
            out@ == start + zeros(i as nat),
        decreases n - i,
    {
        out.push(0u8);
        i = i + 1;
        assert(out@ =~= start + zeros(i as nat));
    }
}

proof fn lemma_le4(s: Seq<u8>)
    requires
        s.len() == 4,
    ensures
        le_value(s) == s[0] + 256 * s[1] + 65536 * s[2] + 16777216 * s[3],
{
    let s1 = s.drop_first();
    let s2 = s1.drop_first();
    let s3 = s2.drop_first();
    let s4 = s3.drop_first();
    assert(le_value(s4) == 0);
    assert(le_value(s3) == s[3] + 256 * le_value(s4));
    assert(le_value(s2) == s[2] + 256 * le_value(s3));
    assert(le_value(s1) == s[1] + 256 * le_value(s2));
}

proof fn lemma_le8(s: Seq<u8>)
    requires
        s.len() == 8,
    ensures
        le_value(s) == s[0] + 256 * s[1] + 65536 * s[2] + 16777216 * s[3] + 4294967296 * s[4]
            + 1099511627776 * s[5] + 281474976710656 * s[6] + 72057594037927936 * s[7],
{
    let s1 = s.drop_first();
    let s2 = s1.drop_first();
    let s3 = s2.drop_first();
    let s4 = s3.drop_first();
    lemma_le4(s4);
    assert(le_value(s3) == s[3] + 256 * le_value(s4));
    assert(le_value(s2) == s[2] + 256 * le_value(s3));
    assert(le_value(s1) == s[1] + 256 * le_value(s2));
}

/// Reads the four bytes of `b` at `at` as an integer in order `o`.
fn read_u32(b: &[u8], at: usize, o: ByteOrder) -> (r: u32)
    requires
        at + 4 <= b.len(),
    ensures
        r as int == uint_value(b@.subrange(at as int, at as int + 4), o),
{
    let ghost s = b@.subrange(at as int, at as int + 4);
    let (x0, x1, x2, x3) = match o {
        ByteOrder::Little => (b[at], b[at + 1], b[at + 2], b[at + 3]),
        ByteOrder::Big => (b[at + 3], b[at + 2], b[at + 1], b[at]),
    };
    proof {
        let le = match o {
            ByteOrder::Little => s,
            ByteOrder::Big => s.reverse(),
        };
        assert(le =~= seq![x0, x1, x2, x3]);
        lemma_le4(le);
    }
    x0 as u32 + (x1 as u32) * 256 + (x2 as u32) * 65536 + (x3 as u32) * 16777216
}

/// Reads the eight bytes of `b` at `at` as an integer in order `o`.
fn read_u64(b: &[u8], at: usize, o: ByteOrder) -> (r: u64)
    requires
        at + 8 <= b.len(),
    ensures
        r as int == uint_value(b@.subrange(at as int, at as int + 8), o),
{
    let ghost s = b@.subrange(at as int, at as int + 8);
    let lo = read_u32(b, at, ByteOrder::Little);
    let hi = read_u32(b, at + 4, ByteOrder::Little);
    let (low, high) = match o {
        ByteOrder::Little => (lo, hi),
        ByteOrder::Big => (
            read_u32(b, at + 4, ByteOrder::Big),
            read_u32(b, at, ByteOrder::Big),
        ),
    };
    proof {
        let le = match o {
            ByteOrder::Little => s,
            ByteOrder::Big => s.reverse(),
        };
        let a = b@.subrange(at as int, at as int + 4);
        let c = b@.subrange(at as int + 4, at as int + 8);
        lemma_le4(a);
        lemma_le4(c);
        lemma_le4(a.reverse());
        lemma_le4(c.reverse());
        lemma_le8(le);
    }
    (low as u64) + (high as u64) * 4294967296
}

/// The text that a fixed-size field of `b` at `at` holds.
pub open spec fn text_at(b: Seq<u8>, at: int) -> Seq<char> {
    lossy_text(field_text(b.subrange(at, at + TEXT_FIELD_LEN)))
}

/// The event that an event record's timestamp and code stand for, if the
/// code names an edge.
pub open spec fn event_of(timestamp: int, code: int) -> Option<GpioEvent> {
    if code == 1 {
        Some(GpioEvent { timestamp: timestamp as u64, id: EventId::RISING_EDGE })
    } else if code == 2 {
        Some(GpioEvent { timestamp: timestamp as u64, id: EventId::FALLING_EDGE })
    } else {
        None
    }
}

/// Decodes the text field of `b` at `at`.
fn text_field_at(b: &[u8], at: usize) -> (r: String)
    requires
        at + TEXT_FIELD_LEN <= b.len(),
    ensures
        r@ == text_at(b@, at as int),
{
    let field = copy_range(b, at, at + TEXT_FIELD_LEN);
    decode_text(&field)
}

/// A zeroed record of `n` bytes, for the kernel to fill.
pub fn zeroed_record(n: usize) -> (r: Vec<u8>)
    ensures
        r@ == zeros(n as nat),
{
    let mut out: Vec<u8> = Vec::new();
    push_zeros(&mut out, n);
    assert(out@ =~= zeros(n as nat));
    out
}

/// Decodes a chip-info record into the chip's name, label and number of
/// lines.
pub fn decode_chip_info(buf: &[u8], o: ByteOrder) -> (r: (String, String, u32))
    requires
        buf.len() == CHIP_INFO_SIZE,
    ensures
        r.0@ == text_at(buf@, 0),
        r.1@ == text_at(buf@, 32),
        r.2 as int == uint_value(buf@.subrange(64, 68), o),
{
    let name = text_field_at(buf, 0);
    let label = text_field_at(buf, 32);
    let lines = read_u32(buf, 64, o);
    (name, label, lines)
}

/// Encodes a line-info query for line `gpio`.
pub fn encode_line_info_query(gpio: u32, o: ByteOrder) -> (r: Vec<u8>)
    ensures
        r@ == line_info_query_bytes(gpio, o),
        r@.len() == LINE_INFO_SIZE,
{
    let mut out: Vec<u8> = Vec::new();
    push_u32(&mut out, gpio, o);
    push_zeros(&mut out, LINE_INFO_SIZE - 4);
    out
}

/// Decodes the line-info record that the kernel filled for line `gpio`.
/// The result names the line that was asked for.
pub fn decode_line_info(gpio: u32, buf: &[u8], o: ByteOrder) -> (r: LineInfo)
    requires
        buf.len() == LINE_INFO_SIZE,
    ensures
        r.gpio == gpio,
        r.flags.bits as int == uint_value(buf@.subrange(4, 8), o),
        r.name@ == text_at(buf@, 8),
        r.consumer@ == text_at(buf@, 40),
{
    let bits = read_u32(buf, 4, o);
    let name = text_field_at(buf, 8);
    let consumer = text_field_at(buf, 40);
    LineInfo { gpio, name, consumer, flags: Flags::from_bits(bits) }
}

/// Whether a request for `n_gpios` lines with `n_defaults` default values
/// is rejected before it reaches the kernel.
pub open spec fn request_rejected(n_gpios: int, n_defaults: int) -> bool {
    n_gpios > MAX_LINES || n_gpios != n_defaults
}

/// Encodes a handle request for the lines `gpios`, in order, with their
/// default values. Fails with `InvalidInput` where the two sequences
/// differ in length or hold more than `MAX_LINES` entries.
pub fn encode_handle_request(
    consumer: &str,
    flags: RequestFlags,
    gpios: &[u32],
    default_values: &[u8],
    o: ByteOrder,
) -> (r: Result<Vec<u8>, GpioError>)
    ensures
        request_rejected(gpios@.len() as int, default_values@.len() as int) ==> r == Err::<
            Vec<u8>,
            GpioError,
        >(GpioError::InvalidInput),
        !request_rejected(gpios@.len() as int, default_values@.len() as int) ==> r is Ok
            && r->Ok_0@ == handle_request_bytes(
            consumer.spec_bytes(),
            flags.bits,
            gpios@,
            default_values@,
            o,
        ),
{
    if gpios.len() > MAX_LINES || gpios.len() != default_values.len() {
        return Err(GpioError::InvalidInput);
    }
    let mut out: Vec<u8> = Vec::new();
    let ghost offsets = padded(gpios@, MAX_LINES as nat, 0u32);
    let mut i: usize = 0;
    while i < MAX_LINES
        invariant
            i <= MAX_LINES,
            gpios@.len() <= MAX_LINES,
            offsets == padded(gpios@, MAX_LINES as nat, 0u32),
            out@ == u32s_bytes(offsets.take(i as int), o),
        decreases MAX_LINES - i,
    {
        let v: u32 = if i < gpios.len() {
            gpios[i]
        } else {
            0
        };
        push_u32(&mut out, v, o);
        proof {
            assert(offsets.take(i as int + 1).drop_last() =~= offsets.take(i as int));
        }
        i = i + 1;
    }
    assert(offsets.take(MAX_LINES as int) =~= offsets);
    push_u32(&mut out, flags.bits, o);
    let ghost head = out@;
    let mut j: usize = 0;
    while j < MAX_LINES
        invariant
            j <= MAX_LINES,
            default_values@.len() <= MAX_LINES,
            out@ == head + padded(default_values@, MAX_LINES as nat, 0u8).take(j as int),
        decreases MAX_LINES - j,
    {
        let v: u8 = if j < default_values.len() {
            default_values[j]
        } else {
            0
        };
        out.push(v);
        j = j + 1;
        assert(out@ =~= head + padded(default_values@, MAX_LINES as nat, 0u8).take(j as int));
    }
    assert(padded(default_values@, MAX_LINES as nat, 0u8).take(MAX_LINES as int) =~= padded(
        default_values@,
        MAX_LINES as nat,
        0u8,
    ));
    let label = encode_label(consumer);
    push_bytes(&mut out, &label);
    push_u32(&mut out, gpios.len() as u32, o);
    push_u32(&mut out, 0, o);
    assert(out@ =~= handle_request_bytes(
        consumer.spec_bytes(),
        flags.bits,
        gpios@,
        default_values@,
        o,
    ));
    Ok(out)
}

/// Encodes an event request for line `gpio`.
pub fn encode_event_request(
    consumer: &str,
    gpio: u32,
    handleflags: RequestFlags,
    eventflags: EventRequestFlags,
    o: ByteOrder,
) -> (r: Vec<u8>)
    ensures
        r@ == event_request_bytes(
            consumer.spec_bytes(),
            gpio,
            handleflags.bits,
            eventflags.bits,
            o,
        ),
        r@.len() == EVENT_REQUEST_SIZE,
{
    let mut out: Vec<u8> = Vec::new();
    push_u32(&mut out, gpio, o);
    push_u32(&mut out, handleflags.bits, o);
    push_u32(&mut out, eventflags.bits, o);
    let label = encode_label(consumer);
    push_bytes(&mut out, &label);
    push_u32(&mut out, 0, o);
    out
}

/// Reads the descriptor that the kernel wrote into a request record at
/// `at`.
pub fn read_fd(buf: &[u8], at: usize, o: ByteOrder) -> (r: i32)
    requires
        at + 4 <= buf.len(),
    ensures
        r == uint_value(buf@.subrange(at as int, at as int + 4), o) as i32,
{
    read_u32(buf, at, o) as i32
}

/// Encodes the values to set on a handle of `line_count` lines. Fails with
/// `InvalidInput` where their number is not `line_count`, or is above
/// `MAX_LINES`.
pub fn encode_values(values: &[u8], line_count: usize) -> (r: Result<Vec<u8>, GpioError>)
    ensures
        (values@.len() != line_count || values@.len() > MAX_LINES) ==> r == Err::<
            Vec<u8>,
            GpioError,
        >(GpioError::InvalidInput),
        !(values@.len() != line_count || values@.len() > MAX_LINES) ==> r is Ok && r->Ok_0@
            == padded(values@, MAX_LINES as nat, 0u8),
{
    if values.len() != line_count || values.len() > MAX_LINES {
        return Err(GpioError::InvalidInput);
    }
    let mut out: Vec<u8> = Vec::new();
    let mut j: usize = 0;
    while j < MAX_LINES
        invariant
            j <= MAX_LINES,
            values@.len() <= MAX_LINES,
            out@ == padded(values@, MAX_LINES as nat, 0u8).take(j as int),
        decreases MAX_LINES - j,
    {
        let v: u8 = if j < values.len() {
            values[j]
        } else {
            0
        };
        out.push(v);
        j = j + 1;
        assert(out@ =~= padded(values@, MAX_LINES as nat, 0u8).take(j as int));
    }
    assert(out@ =~= padded(values@, MAX_LINES as nat, 0u8));
    Ok(out)
}

/// Decodes a value record.
pub fn decode_values(buf: &[u8]) -> (r: gpiohandle_data)
    requires
        buf.len() == HANDLE_DATA_SIZE,
    ensures
        r.values@ == buf@,
{
    let values = copy_range(buf, 0, buf.len());
    assert(values@ =~= buf@);
    gpiohandle_data { values }
}

/// The value of the first line of a value record.
pub fn first_value(data: &gpiohandle_data) -> (r: u8)
    requires
        data.values@.len() > 0,
    ensures
        r == data.values@[0],
{
    data.values[0]
}

/// Setting one line and reading it back: the value record that sets a
/// single line to `v` holds `v` at the position that a read of the line
/// takes.
pub proof fn lemma_single_value_round_trip(v: u8)
    ensures
        padded(seq![v], MAX_LINES as nat, 0u8)[0] == v,
        padded(seq![v], MAX_LINES as nat, 0u8).len() == HANDLE_DATA_SIZE,
{
}

/// Decodes an event record of which `received` bytes arrived. Fails with
/// `InvalidData` where fewer than a whole record arrived, or where its
/// code names no edge.
pub fn decode_event(buf: &[u8], received: usize, o: ByteOrder) -> (r: Result<GpioEvent, GpioError>)
    requires
        buf.len() == EVENT_DATA_SIZE,
    ensures
        received < EVENT_DATA_SIZE ==> r == Err::<GpioEvent, GpioError>(GpioError::InvalidData),
        received >= EVENT_DATA_SIZE ==> match event_of(
            uint_value(buf@.subrange(0, 8), o),
            uint_value(buf@.subrange(8, 12), o),
        ) {
            Some(e) => r == Ok::<GpioEvent, GpioError>(e),
            None => r == Err::<GpioEvent, GpioError>(GpioError::InvalidData),
        },
{
    if received < EVENT_DATA_SIZE {
        return Err(GpioError::InvalidData);
    }
    let timestamp = read_u64(buf, 0, o);
    let code = read_u32(buf, 8, o);
    if code == 1 {
        Ok(GpioEvent { timestamp, id: EventId::RISING_EDGE })
    } else if code == 2 {
        Ok(GpioEvent { timestamp, id: EventId::FALLING_EDGE })
    } else {
        Err(GpioError::InvalidData)
    }
}

/// Writing an integer and reading it back in the same order gives it back.
pub proof fn lemma_u32_round_trip(v: u32, o: ByteOrder)
    ensures
        uint_value(u32_bytes(v, o), o) == v as int,
{
    let le = u32_le_bytes(v);
    lemma_le4(le);
    if o == ByteOrder::Big {
        assert(u32_bytes(v, o).reverse() =~= le);
    }
    let x = v as int;
    assert(x == x % 256 + 256 * ((x / 256) % 256) + 65536 * ((x / 65536) % 256) + 16777216 * (x
        / 16777216)) by (nonlinear_arith)
        requires
            0 <= x < 4294967296,
    ;
}

/// The line-info query for line `gpio` names that line: its offset field
/// reads back as `gpio`.
pub proof fn lemma_line_info_query_names_line(gpio: u32, o: ByteOrder)
    ensures
        uint_value(line_info_query_bytes(gpio, o).subrange(0, 4), o) == gpio as int,
{
    assert(line_info_query_bytes(gpio, o).subrange(0, 4) =~= u32_bytes(gpio, o));
    lemma_u32_round_trip(gpio, o);
}

} // verus!
