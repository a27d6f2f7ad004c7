//! Protocol-buffer wire encoding of workflow commands, as the host decodes
//! them: each field is a key (field number and wire type, as a varint)
//! followed by its value, and fields that hold their default are left out.

use vstd::prelude::*;

use crate::proto::{CommandView, Duration, WorkflowCommandVariant};

verus! {

/// The two wire types that workflow commands use
#[derive(Debug, Clone, Copy, PartialEq, Eq, Structural)]
pub enum WireType {
    Varint,
    LengthDelimited,
}

/// The number of a wire type on the wire
pub open spec fn wire_number(wt: WireType) -> u64 {
    match wt {
        WireType::Varint => 0,
        WireType::LengthDelimited => 2,
    }
}

/// Base-128 varint: seven bits per byte, least significant group first, the
/// high bit set on every byte but the last
pub open spec fn varint(v: u64) -> Seq<u8>
    decreases v,
{
    if v < 0x80 {
        seq![v as u8]
    } else {
        seq![((v % 0x80) + 0x80) as u8] + varint(v / 0x80)
    }
}

/// The largest field number the wire format allows
pub open spec fn max_field() -> u32 {
    0x1FFF_FFFF
}

/// A field's key: its number and wire type packed into one varint
pub open spec fn key(field: u32, wt: WireType) -> Seq<u8> {
    varint((field * 8 + wire_number(wt)) as u64)
}

/// A varint field; zero is the default and is left out
pub open spec fn uint_field(field: u32, v: u64) -> Seq<u8> {
    if v == 0 {
        seq![]
    } else {
        key(field, WireType::Varint) + varint(v)
    }
}

/// A boolean field; false is the default and is left out
pub open spec fn bool_field(field: u32, b: bool) -> Seq<u8> {
    if b {
        key(field, WireType::Varint) + seq![1u8]
    } else {
        seq![]
    }
}

/// A length-delimited field: key, length, then the bytes
pub open spec fn len_delimited(field: u32, body: Seq<u8>) -> Seq<u8> {
    key(field, WireType::LengthDelimited) + varint(body.len() as u64) + body
}

/// A string or bytes field; the empty value is the default and is left out
pub open spec fn bytes_field(field: u32, body: Seq<u8>) -> Seq<u8> {
    if body.len() == 0 {
        seq![]
    } else {
        len_delimited(field, body)
    }
}

/// An optional sub-message field; a present message is always written
pub open spec fn message_field(field: u32, body: Option<Seq<u8>>) -> Seq<u8> {
    match body {
        Some(b) => len_delimited(field, b),
        None => seq![],
    }
}

/// A duration: seconds as int64 (field 1), nanos as int32 (field 2); negative
/// values are written in two's complement over 64 bits
pub open spec fn duration_bytes(d: Duration) -> Seq<u8> {
    uint_field(1, d.seconds as u64) + uint_field(2, d.nanos as u64)
}

/// The field number of each command within the command envelope
pub open spec fn command_field(v: WorkflowCommandVariant) -> u32 {
    match v {
        WorkflowCommandVariant::StartTimer(_) => 1,
        WorkflowCommandVariant::ScheduleActivity(_) => 2,
        WorkflowCommandVariant::CancelTimer(_) => 5,
        WorkflowCommandVariant::SetPatchMarker(_) => 10,
        WorkflowCommandVariant::StartChildWorkflowExecution(_) => 11,
        WorkflowCommandVariant::RequestCancelExternalWorkflowExecution(_) => 13,
        WorkflowCommandVariant::SignalExternalWorkflowExecution(_) => 14,
        WorkflowCommandVariant::ScheduleLocalActivity(_) => 16,
        WorkflowCommandVariant::Other { field, .. } => field,
    }
}

/// Whether `f` is the field number of a command kind the library names
pub open spec fn is_named_command_field(f: u32) -> bool {
    f == 1 || f == 2 || f == 5 || f == 10 || f == 11 || f == 13 || f == 14 || f == 16
}

/// Encoded fields that come after field 1: empty, or opening with the key
/// of a later field
pub open spec fn after_field_one(fields: Seq<u8>) -> bool {
    fields.len() == 0 || fields[0] >= 0x10
}

/// A command whose carried fields are what its kind holds: the fields a
/// sequenced command carries come after its sequence number, and a command
/// of another kind has a field number of its own
pub open spec fn well_formed_command(v: WorkflowCommandVariant) -> bool {
    match v {
        WorkflowCommandVariant::ScheduleActivity(c) => after_field_one(c.fields@),
        WorkflowCommandVariant::StartChildWorkflowExecution(c) => after_field_one(c.fields@),
        WorkflowCommandVariant::RequestCancelExternalWorkflowExecution(c) => after_field_one(
            c.fields@,
        ),
        WorkflowCommandVariant::SignalExternalWorkflowExecution(c) => after_field_one(c.fields@),
        WorkflowCommandVariant::ScheduleLocalActivity(c) => after_field_one(c.fields@),
        WorkflowCommandVariant::Other { field, .. } => 1 <= field <= max_field()
            && !is_named_command_field(field),
        _ => true,
    }
}

/// A command that can be put in the envelope: its field number is one the
/// wire format allows
pub open spec fn encodable_command(v: WorkflowCommandVariant) -> bool {
    1 <= command_field(v) <= max_field()
}

/// The encoding of a command's own message
pub open spec fn command_body(v: WorkflowCommandVariant) -> Seq<u8> {
    match v {
        WorkflowCommandVariant::StartTimer(c) => uint_field(1, c.seq as u64) + message_field(
            2,
            match c.start_to_fire_timeout {
                Some(d) => Some(duration_bytes(d)),
                None => None,
            },
        ),
        WorkflowCommandVariant::ScheduleActivity(c) => uint_field(1, c.seq as u64) + c.fields@,
        WorkflowCommandVariant::CancelTimer(c) => uint_field(1, c.seq as u64),
        WorkflowCommandVariant::SetPatchMarker(c) => bytes_field(
            1,
            vstd::utf8::encode_utf8(c.patch_id@),
        ) + bool_field(2, c.deprecated),
        WorkflowCommandVariant::StartChildWorkflowExecution(c) => uint_field(1, c.seq as u64)
            + c.fields@,
        WorkflowCommandVariant::RequestCancelExternalWorkflowExecution(c) => uint_field(
            1,
            c.seq as u64,
        ) + c.fields@,
        WorkflowCommandVariant::SignalExternalWorkflowExecution(c) => uint_field(1, c.seq as u64)
            + c.fields@,
        WorkflowCommandVariant::ScheduleLocalActivity(c) => uint_field(1, c.seq as u64) + c.fields@,
        WorkflowCommandVariant::Other { message, .. } => message@,
    }
}

/// The encoding of the command envelope holding one command
pub open spec fn workflow_command_bytes(v: WorkflowCommandVariant) -> Seq<u8> {
    len_delimited(command_field(v), command_body(v))
}

/// Appends the varint encoding of `value` to `buf` by calling
/// `prost::encoding::encode_varint`, which pushes seven bits at a time, least
/// significant first, setting the high bit on all bytes but the last.
#[verifier::external_body]
fn put_varint(value: u64, buf: &mut Vec<u8>)
    ensures
        final(buf)@ == old(buf)@ + varint(value),
{
    prost::encoding::encode_varint(value, buf)
}

/// Appends a field key to `buf` by calling `prost::encoding::encode_key`,
/// which encodes `(tag << 3) | wire_type` as a varint; its tag must lie
/// between 1 and 2^29 - 1.
#[verifier::external_body]
fn put_key(tag: u32, wire_type: WireType, buf: &mut Vec<u8>)
    requires
        1 <= tag <= max_field(),
    ensures
        final(buf)@ == old(buf)@ + key(tag, wire_type),
{
    let wt = match wire_type {
        WireType::Varint => prost::encoding::WireType::Varint,
        WireType::LengthDelimited => prost::encoding::WireType::LengthDelimited,
    };
    prost::encoding::encode_key(tag, wt, buf)
}

/// Appends a varint field, leaving out zero
fn put_uint_field(buf: &mut Vec<u8>, field: u32, v: u64)
    requires
        1 <= field <= max_field(),
    ensures
        final(buf)@ == old(buf)@ + uint_field(field, v),
{
    if v != 0 {
        put_key(field, WireType::Varint, buf);
        put_varint(v, buf);
    } else {
        assert(old(buf)@ + uint_field(field, v) =~= old(buf)@);
    }
}

/// Appends a boolean field, leaving out false
fn put_bool_field(buf: &mut Vec<u8>, field: u32, b: bool)
    requires
        1 <= field <= max_field(),
    ensures
        final(buf)@ == old(buf)@ + bool_field(field, b),
{
    if b {
        put_key(field, WireType::Varint, buf);
        buf.push(1u8);
        assert(buf@ =~= old(buf)@ + bool_field(field, b));
    } else {
        assert(old(buf)@ + bool_field(field, b) =~= old(buf)@);
    }
}

/// Appends a length-delimited field holding `body`
fn put_len_delimited(buf: &mut Vec<u8>, field: u32, body: Vec<u8>)
    requires
        1 <= field <= max_field(),
    ensures
        final(buf)@ == old(buf)@ + len_delimited(field, body@),
{
    let ghost b = body@;
    let mut body = body;
    put_key(field, WireType::LengthDelimited, buf);
    put_varint(body.len() as u64, buf);
    buf.append(&mut body);
    assert(buf@ =~= old(buf)@ + len_delimited(field, b));
}

/// Appends a string or bytes field, leaving out the empty value
fn put_bytes_field(buf: &mut Vec<u8>, field: u32, body: Vec<u8>)
    requires
        1 <= field <= max_field(),
    ensures
        final(buf)@ == old(buf)@ + bytes_field(field, body@),
{
    if body.len() != 0 {
        put_len_delimited(buf, field, body);
    } else {
        assert(old(buf)@ + bytes_field(field, body@) =~= old(buf)@);
    }
}

/// Encodes a duration message
pub fn encode_duration(d: &Duration) -> (bytes: Vec<u8>)
    ensures
        bytes@ == duration_bytes(*d),
{
    let mut buf: Vec<u8> = Vec::new();
    put_uint_field(&mut buf, 1, d.seconds as u64);
    put_uint_field(&mut buf, 2, d.nanos as u64);
    assert(buf@ =~= duration_bytes(*d));
    buf
}

/// Appends `bytes` to `buf`
fn put_bytes(buf: &mut Vec<u8>, bytes: &Vec<u8>)
    ensures
        final(buf)@ == old(buf)@ + bytes@,
{
    let n = bytes.len();
    for i in 0..n
        invariant
            n == bytes@.len(),
            buf@ == old(buf)@ + bytes@.take(i as int),
    {
        buf.push(bytes[i]);
        assert(bytes@.take(i + 1) =~= bytes@.take(i as int).push(bytes@[i as int]));
    }
    assert(bytes@.take(n as int) =~= bytes@);
}

/// Appends a sequence number as field 1, then the fields that follow it
fn put_sequenced(buf: &mut Vec<u8>, seq: u32, fields: &Vec<u8>)
    ensures
        final(buf)@ == old(buf)@ + (uint_field(1, seq as u64) + fields@),
{
    put_uint_field(buf, 1, seq as u64);
    put_bytes(buf, fields);
    assert(buf@ =~= old(buf)@ + (uint_field(1, seq as u64) + fields@));
}

/// Encodes a command's own message
pub fn encode_command_body(v: &WorkflowCommandVariant) -> (bytes: Vec<u8>)
    ensures
        bytes@ == command_body(*v),
{
    let mut buf: Vec<u8> = Vec::new();
    match v {
        WorkflowCommandVariant::StartTimer(c) => {
            put_uint_field(&mut buf, 1, c.seq as u64);
            match &c.start_to_fire_timeout {
                Some(d) => {
                    let db = encode_duration(d);
                    put_len_delimited(&mut buf, 2, db);
                },
                None => {},
            }
        },
        WorkflowCommandVariant::ScheduleActivity(c) => put_sequenced(&mut buf, c.seq, &c.fields),
        WorkflowCommandVariant::CancelTimer(c) => put_uint_field(&mut buf, 1, c.seq as u64),
        WorkflowCommandVariant::SetPatchMarker(c) => {
            let id_bytes = c.patch_id.as_str().as_bytes_vec();
            put_bytes_field(&mut buf, 1, id_bytes);
            put_bool_field(&mut buf, 2, c.deprecated);
        },
        WorkflowCommandVariant::StartChildWorkflowExecution(c) => put_sequenced(
            &mut buf,
            c.seq,
            &c.fields,
        ),
        WorkflowCommandVariant::RequestCancelExternalWorkflowExecution(c) => put_sequenced(
            &mut buf,
            c.seq,
            &c.fields,
        ),
        WorkflowCommandVariant::SignalExternalWorkflowExecution(c) => put_sequenced(
            &mut buf,
            c.seq,
            &c.fields,
        ),
        WorkflowCommandVariant::ScheduleLocalActivity(c) => put_sequenced(
            &mut buf,
            c.seq,
            &c.fields,
        ),
        WorkflowCommandVariant::Other { message, .. } => put_bytes(&mut buf, message),
    }
    assert(buf@ =~= command_body(*v));
    buf
}

/// Encodes the command envelope holding `v`
pub fn encode_workflow_command(v: &WorkflowCommandVariant) -> (bytes: Vec<u8>)
    requires
        encodable_command(*v),
    ensures
        bytes@ == workflow_command_bytes(*v),
{
    let body = encode_command_body(v);
    let field: u32 = match v {
        WorkflowCommandVariant::StartTimer(_) => 1,
        WorkflowCommandVariant::ScheduleActivity(_) => 2,
        WorkflowCommandVariant::CancelTimer(_) => 5,
        WorkflowCommandVariant::SetPatchMarker(_) => 10,
        WorkflowCommandVariant::StartChildWorkflowExecution(_) => 11,
        WorkflowCommandVariant::RequestCancelExternalWorkflowExecution(_) => 13,
        WorkflowCommandVariant::SignalExternalWorkflowExecution(_) => 14,
        WorkflowCommandVariant::ScheduleLocalActivity(_) => 16,
        WorkflowCommandVariant::Other { field, .. } => *field,
    };
    let mut buf: Vec<u8> = Vec::new();
    put_len_delimited(&mut buf, field, body);
    assert(buf@ =~= workflow_command_bytes(*v));
    buf
}

/// Reads a varint from the front of `b`: its value and the number of bytes
/// it takes; nothing when `b` ends before the varint does
pub open spec fn read_varint(b: Seq<u8>) -> Option<(int, nat)>
    decreases b.len(),
{
    if b.len() == 0 {
        None
    } else if b[0] < 0x80 {
        Some((b[0] as int, 1nat))
    } else {
        match read_varint(b.drop_first()) {
            Some((v, n)) => Some(((b[0] - 0x80) + 0x80 * v, n + 1)),
            None => None,
        }
    }
}

/// A varint reads back as the value it encodes, whatever follows it.
pub proof fn lemma_varint_reads_back(v: u64, rest: Seq<u8>)
    ensures
        read_varint(varint(v) + rest) == Some((v as int, varint(v).len())),
    decreases v,
{
    let b = varint(v) + rest;
    if v < 0x80 {
        assert(b[0] == v as u8);
    } else {
        lemma_varint_reads_back(v / 0x80, rest);
        assert(b.drop_first() =~= varint(v / 0x80) + rest);
        assert(b[0] == ((v % 0x80) + 0x80) as u8);
        vstd::arithmetic::div_mod::lemma_fundamental_div_mod(v as int, 0x80);
    }
}

/// The host reads a command back from its encoding: the first varint is the
/// key of the command's field with the length-delimited type, the second is
/// the length of the command's body, and the body follows. (A body's length
/// fits in 64 bits, as every body held in memory does.)
pub proof fn lemma_command_reads_back(v: WorkflowCommandVariant, rest: Seq<u8>)
    requires
        command_body(v).len() <= u64::MAX,
    ensures
        ({
            let b = workflow_command_bytes(v) + rest;
            let body = command_body(v);
            let kn = key(command_field(v), WireType::LengthDelimited).len();
            let ln = varint(body.len() as u64).len();
            &&& read_varint(b) == Some(((command_field(v) * 8 + 2) as int, kn))
            &&& read_varint(b.skip(kn as int)) == Some((body.len() as int, ln))
            &&& b.subrange((kn + ln) as int, (kn + ln + body.len()) as int) == body
        }),
{
    let b = workflow_command_bytes(v) + rest;
    let body = command_body(v);
    let kb = key(command_field(v), WireType::LengthDelimited);
    let lb = varint(body.len() as u64);
    assert(b =~= kb + (lb + body + rest));
    lemma_varint_reads_back(((command_field(v) * 8 + 2) as u64), lb + body + rest);
    assert(b.skip(kb.len() as int) =~= lb + (body + rest));
    lemma_varint_reads_back(body.len() as u64, body + rest);
    assert(b.subrange((kb.len() + lb.len()) as int, (kb.len() + lb.len() + body.len()) as int) =~= body);
}

/// A field below 16 has a one-byte key
proof fn lemma_small_key(f: u32, wt: WireType)
    requires
        1 <= f < 16,
    ensures
        key(f, wt) == seq![(f * 8 + wire_number(wt)) as u8],
{
}

/// A varint field is told apart from what follows it, when what follows
/// does not open with the same key
proof fn lemma_uint_field_split(f: u32, x: u64, r1: Seq<u8>, y: u64, r2: Seq<u8>)
    requires
        1 <= f < 16,
        uint_field(f, x) + r1 == uint_field(f, y) + r2,
        r1.len() == 0 || r1[0] != (f * 8) as u8,
        r2.len() == 0 || r2[0] != (f * 8) as u8,
    ensures
        x == y,
        r1 == r2,
{
    lemma_small_key(f, WireType::Varint);
    let s1 = uint_field(f, x) + r1;
    let s2 = uint_field(f, y) + r2;
    if x != 0 && y != 0 {
        assert(s1.drop_first() =~= varint(x) + r1);
        assert(s2.drop_first() =~= varint(y) + r2);
        lemma_varint_reads_back(x, r1);
        lemma_varint_reads_back(y, r2);
        assert(r1 =~= (varint(x) + r1).skip(varint(x).len() as int));
        assert(r2 =~= (varint(y) + r2).skip(varint(y).len() as int));
    } else if x != 0 {
        assert(s1[0] == (f * 8) as u8);
        assert(s2 =~= r2);
    } else if y != 0 {
        assert(s2[0] == (f * 8) as u8);
        assert(s1 =~= r1);
    } else {
        assert(s1 =~= r1);
        assert(s2 =~= r2);
    }
}

/// Two equal length-delimited fields with one field number hold equal bodies
proof fn lemma_len_delimited_body(f: u32, b1: Seq<u8>, b2: Seq<u8>)
    requires
        len_delimited(f, b1) == len_delimited(f, b2),
    ensures
        b1 == b2,
{
    let k = key(f, WireType::LengthDelimited);
    let s = len_delimited(f, b1);
    assert(s =~= k + (varint(b1.len() as u64) + b1));
    assert(len_delimited(f, b2) =~= k + (varint(b2.len() as u64) + b2));
    let after = s.skip(k.len() as int);
    assert(after =~= varint(b1.len() as u64) + b1);
    assert(after =~= varint(b2.len() as u64) + b2);
    lemma_varint_reads_back(b1.len() as u64, b1);
    lemma_varint_reads_back(b2.len() as u64, b2);
    assert(b1 =~= after.skip(varint(b1.len() as u64).len() as int));
    assert(b2 =~= after.skip(varint(b2.len() as u64).len() as int));
}

/// Equal envelopes hold commands with equal field numbers and equal bodies
proof fn lemma_envelope_split(a: WorkflowCommandVariant, b: WorkflowCommandVariant)
    requires
        workflow_command_bytes(a) == workflow_command_bytes(b),
    ensures
        command_field(a) == command_field(b),
        command_body(a) == command_body(b),
{
    let ba = command_body(a);
    let bb = command_body(b);
    let ra = varint(ba.len() as u64) + ba;
    let rb = varint(bb.len() as u64) + bb;
    assert(workflow_command_bytes(a) =~= key(command_field(a), WireType::LengthDelimited) + ra);
    assert(workflow_command_bytes(b) =~= key(command_field(b), WireType::LengthDelimited) + rb);
    lemma_varint_reads_back((command_field(a) * 8 + 2) as u64, ra);
    lemma_varint_reads_back((command_field(b) * 8 + 2) as u64, rb);
    assert(command_field(a) == command_field(b));
    lemma_len_delimited_body(command_field(a), ba, bb);
}

/// A duration is determined by its encoding
proof fn lemma_duration_injective(d1: Duration, d2: Duration)
    requires
        duration_bytes(d1) == duration_bytes(d2),
    ensures
        d1 == d2,
{
    lemma_small_key(2, WireType::Varint);
    let n1 = uint_field(2, d1.nanos as u64);
    let n2 = uint_field(2, d2.nanos as u64);
    lemma_uint_field_split(1, d1.seconds as u64, n1, d2.seconds as u64, n2);
    assert(n1 =~= uint_field(2, d1.nanos as u64) + Seq::<u8>::empty());
    assert(n2 =~= uint_field(2, d2.nanos as u64) + Seq::<u8>::empty());
    lemma_uint_field_split(2, d1.nanos as u64, Seq::empty(), d2.nanos as u64, Seq::empty());
    let (s1, s2) = (d1.seconds, d2.seconds);
    let (m1, m2) = (d1.nanos, d2.nanos);
    assert(s1 as u64 == s2 as u64 ==> s1 == s2) by (bit_vector);
    assert(m1 as u64 == m2 as u64 ==> m1 == m2) by (bit_vector);
}

/// The message of a timer's timeout field is determined by its encoding
proof fn lemma_timeout_injective(t1: Option<Duration>, t2: Option<Duration>)
    requires
        message_field(
            2,
            match t1 {
                Some(d) => Some(duration_bytes(d)),
                None => None,
            },
        ) == message_field(
            2,
            match t2 {
                Some(d) => Some(duration_bytes(d)),
                None => None,
            },
        ),
    ensures
        t1 == t2,
{
    lemma_small_key(2, WireType::LengthDelimited);
    match (t1, t2) {
        (Some(d1), Some(d2)) => {
            lemma_len_delimited_body(2, duration_bytes(d1), duration_bytes(d2));
            lemma_duration_injective(d1, d2);
        },
        (Some(d1), None) => {
            assert(message_field(2, Some(duration_bytes(d1))).len() > 0);
        },
        (None, Some(d2)) => {
            assert(message_field(2, Some(duration_bytes(d2))).len() > 0);
        },
        (None, None) => {},
    }
}

/// A patch marker is determined by its encoding (its identifier's encoding
/// fitting in 64 bits)
proof fn lemma_patch_injective(p1: Seq<char>, d1: bool, p2: Seq<char>, d2: bool)
    requires
        bytes_field(1, vstd::utf8::encode_utf8(p1)) + bool_field(2, d1) == bytes_field(
            1,
            vstd::utf8::encode_utf8(p2),
        ) + bool_field(2, d2),
        vstd::utf8::encode_utf8(p1).len() <= u64::MAX,
        vstd::utf8::encode_utf8(p2).len() <= u64::MAX,
    ensures
        p1 == p2,
        d1 == d2,
{
    let u1 = vstd::utf8::encode_utf8(p1);
    let u2 = vstd::utf8::encode_utf8(p2);
    let g1 = bool_field(2, d1);
    let g2 = bool_field(2, d2);
    let s1 = bytes_field(1, u1) + g1;
    let s2 = bytes_field(1, u2) + g2;
    lemma_small_key(1, WireType::LengthDelimited);
    lemma_small_key(2, WireType::Varint);
    if u1.len() != 0 && u2.len() != 0 {
        assert(s1.drop_first() =~= varint(u1.len() as u64) + (u1 + g1));
        assert(s2.drop_first() =~= varint(u2.len() as u64) + (u2 + g2));
        lemma_varint_reads_back(u1.len() as u64, u1 + g1);
        lemma_varint_reads_back(u2.len() as u64, u2 + g2);
        let n = varint(u1.len() as u64).len() as int;
        let rest = s1.drop_first().skip(n);
        assert(rest =~= u1 + g1);
        assert(rest =~= u2 + g2);
        assert(u1 =~= rest.take(u1.len() as int));
        assert(u2 =~= rest.take(u2.len() as int));
        assert(g1 =~= rest.skip(u1.len() as int));
        assert(g2 =~= rest.skip(u2.len() as int));
    } else if u1.len() != 0 {
        assert(s1[0] == 0x0A);
        assert(s2 =~= g2);
    } else if u2.len() != 0 {
        assert(s2[0] == 0x0A);
        assert(s1 =~= g1);
    } else {
        assert(s1 =~= g1);
        assert(s2 =~= g2);
    }
    assert(d1 == d2);
    vstd::utf8::encode_utf8_decode_utf8(p1);
    vstd::utf8::encode_utf8_decode_utf8(p2);
}

/// Reads a varint field whose one-byte key is `key` from the front of `b`:
/// its value and what follows; a field left out reads as zero
pub open spec fn read_uint_field(key: u8, b: Seq<u8>) -> Option<(int, Seq<u8>)> {
    if b.len() > 0 && b[0] == key {
        match read_varint(b.drop_first()) {
            Some((v, n)) => Some((v, b.drop_first().skip(n as int))),
            None => None,
        }
    } else {
        Some((0, b))
    }
}

/// Reads a length-delimited field whose one-byte key is `key` from the
/// front of `b`: its bytes and what follows; a field left out reads as empty
pub open spec fn read_bytes_field(key: u8, b: Seq<u8>) -> Option<(Seq<u8>, Seq<u8>)> {
    if b.len() > 0 && b[0] == key {
        let t = b.drop_first();
        match read_varint(t) {
            Some((len, n)) => if n + len <= t.len() {
                Some((t.subrange(n as int, n + len), t.skip(n + len)))
            } else {
                None
            },
            None => None,
        }
    } else {
        Some((Seq::empty(), b))
    }
}

/// Reads a duration message
pub open spec fn decode_duration(b: Seq<u8>) -> Option<Duration> {
    match read_uint_field(0x08, b) {
        Some((s, r)) => match read_uint_field(0x10, r) {
            Some((n, rest)) => if rest.len() == 0 {
                Some(Duration { seconds: (s as u64) as i64, nanos: (n as u64) as i32 })
            } else {
                None
            },
            None => None,
        },
        None => None,
    }
}

/// Reads a timer command's message
pub open spec fn decode_start_timer(b: Seq<u8>) -> Option<CommandView> {
    match read_uint_field(0x08, b) {
        Some((seq, r)) => if seq > u32::MAX {
            None
        } else if r.len() == 0 {
            Some(CommandView::StartTimer { seq: seq as u32, start_to_fire_timeout: None })
        } else {
            match read_bytes_field(0x12, r) {
                Some((db, rest)) => if r[0] == 0x12 && rest.len() == 0 {
                    match decode_duration(db) {
                        Some(d) => Some(
                            CommandView::StartTimer { seq: seq as u32, start_to_fire_timeout: Some(d) },
                        ),
                        None => None,
                    }
                } else {
                    None
                },
                None => None,
            }
        },
        None => None,
    }
}

/// Reads a patch marker's message
pub open spec fn decode_patch_marker(b: Seq<u8>) -> Option<CommandView> {
    match read_bytes_field(0x0A, b) {
        Some((u, r)) => if r.len() == 0 {
            Some(CommandView::SetPatchMarker { patch_id: vstd::utf8::decode_utf8(u), deprecated: false })
        } else if r == seq![0x10u8, 1u8] {
            Some(CommandView::SetPatchMarker { patch_id: vstd::utf8::decode_utf8(u), deprecated: true })
        } else {
            None
        },
        None => None,
    }
}

/// Reads the message of a command that opens with its sequence number: the
/// number and the fields that follow it
pub open spec fn decode_sequenced(b: Seq<u8>) -> Option<(u32, Seq<u8>)> {
    match read_uint_field(0x08, b) {
        Some((seq, r)) => if seq <= u32::MAX {
            Some((seq as u32, r))
        } else {
            None
        },
        None => None,
    }
}

/// Reads the message of the command held in field `f` of the envelope
pub open spec fn decode_command_body(f: u32, b: Seq<u8>) -> Option<CommandView> {
    if f == 1 {
        decode_start_timer(b)
    } else if f == 10 {
        decode_patch_marker(b)
    } else if f == 5 {
        match decode_sequenced(b) {
            Some((seq, r)) => if r.len() == 0 {
                Some(CommandView::CancelTimer { seq })
            } else {
                None
            },
            None => None,
        }
    } else if is_named_command_field(f) {
        match decode_sequenced(b) {
            Some((seq, fields)) => Some(
                if f == 2 {
                    CommandView::ScheduleActivity { seq, fields }
                } else if f == 11 {
                    CommandView::StartChildWorkflowExecution { seq, fields }
                } else if f == 13 {
                    CommandView::RequestCancelExternalWorkflowExecution { seq, fields }
                } else if f == 14 {
                    CommandView::SignalExternalWorkflowExecution { seq, fields }
                } else {
                    CommandView::ScheduleLocalActivity { seq, fields }
                },
            ),
            None => None,
        }
    } else {
        Some(CommandView::Other { field: f, message: b })
    }
}

/// Reads a command envelope: the key of a length-delimited field, the
/// length, then exactly that many bytes of the command's message
pub open spec fn decode_workflow_command(b: Seq<u8>) -> Option<CommandView> {
    match read_varint(b) {
        Some((k, n)) => {
            let t = b.skip(n as int);
            match read_varint(t) {
                Some((len, m)) => if k % 8 == 2 && k / 8 <= u32::MAX && t.len() == m + len {
                    decode_command_body((k / 8) as u32, t.skip(m as int))
                } else {
                    None
                },
                None => None,
            }
        },
        None => None,
    }
}

/// A varint field reads back as its value, when what follows does not open
/// with the same key
proof fn lemma_uint_field_reads_back(f: u32, x: u64, r: Seq<u8>)
    requires
        1 <= f < 16,
        r.len() == 0 || r[0] != (f * 8) as u8,
    ensures
        read_uint_field((f * 8) as u8, uint_field(f, x) + r) == Some((x as int, r)),
{
    lemma_small_key(f, WireType::Varint);
    let b = uint_field(f, x) + r;
    if x != 0 {
        assert(b.drop_first() =~= varint(x) + r);
        lemma_varint_reads_back(x, r);
        assert(b.drop_first().skip(varint(x).len() as int) =~= r);
    } else {
        assert(b =~= r);
    }
}

/// A length-delimited field with a one-byte key reads back as its bytes
proof fn lemma_len_delimited_reads_back(f: u32, body: Seq<u8>, r: Seq<u8>)
    requires
        1 <= f < 16,
        body.len() <= u64::MAX,
    ensures
        read_bytes_field((f * 8 + 2) as u8, len_delimited(f, body) + r) == Some((body, r)),
{
    lemma_small_key(f, WireType::LengthDelimited);
    let b = len_delimited(f, body) + r;
    let t = b.drop_first();
    assert(t =~= varint(body.len() as u64) + (body + r));
    lemma_varint_reads_back(body.len() as u64, body + r);
    let n = varint(body.len() as u64).len();
    assert(t.subrange(n as int, (n + body.len()) as int) =~= body);
    assert(t.skip((n + body.len()) as int) =~= r);
}

/// A duration reads back from its encoding
proof fn lemma_duration_decodes(d: Duration)
    ensures
        decode_duration(duration_bytes(d)) == Some(d),
{
    lemma_small_key(2, WireType::Varint);
    let n = uint_field(2, d.nanos as u64);
    lemma_uint_field_reads_back(1, d.seconds as u64, n);
    assert(n =~= uint_field(2, d.nanos as u64) + Seq::<u8>::empty());
    lemma_uint_field_reads_back(2, d.nanos as u64, Seq::empty());
    let (s, m) = (d.seconds, d.nanos);
    assert((s as u64) as i64 == s) by (bit_vector);
    assert((m as u64) as i32 == m) by (bit_vector);
}

/// A command's message reads back from its encoding
proof fn lemma_body_decodes(v: WorkflowCommandVariant)
    requires
        well_formed_command(v),
        command_body(v).len() <= u64::MAX,
    ensures
        decode_command_body(command_field(v), command_body(v)) == Some(v@),
{
    lemma_small_key(2, WireType::LengthDelimited);
    lemma_small_key(2, WireType::Varint);
    match v {
        WorkflowCommandVariant::StartTimer(c) => {
            match c.start_to_fire_timeout {
                Some(d) => {
                    let m = len_delimited(2, duration_bytes(d));
                    lemma_uint_field_reads_back(1, c.seq as u64, m);
                    assert(m =~= len_delimited(2, duration_bytes(d)) + Seq::<u8>::empty());
                    lemma_len_delimited_reads_back(2, duration_bytes(d), Seq::empty());
                    lemma_duration_decodes(d);
                },
                None => {
                    assert(command_body(v) =~= uint_field(1, c.seq as u64) + Seq::<u8>::empty());
                    lemma_uint_field_reads_back(1, c.seq as u64, Seq::empty());
                },
            }
        },
        WorkflowCommandVariant::CancelTimer(c) => {
            assert(command_body(v) =~= uint_field(1, c.seq as u64) + Seq::<u8>::empty());
            lemma_uint_field_reads_back(1, c.seq as u64, Seq::empty());
        },
        WorkflowCommandVariant::SetPatchMarker(c) => {
            let u = vstd::utf8::encode_utf8(c.patch_id@);
            let g = bool_field(2, c.deprecated);
            lemma_small_key(1, WireType::LengthDelimited);
            if u.len() != 0 {
                lemma_len_delimited_reads_back(1, u, g);
            } else {
                assert(command_body(v) =~= g);
            }
            vstd::utf8::encode_utf8_decode_utf8(c.patch_id@);
            if c.deprecated {
                assert(g =~= seq![0x10u8, 1u8]);
            }
        },
        WorkflowCommandVariant::ScheduleActivity(c) => {
            lemma_uint_field_reads_back(1, c.seq as u64, c.fields@);
        },
        WorkflowCommandVariant::StartChildWorkflowExecution(c) => {
            lemma_uint_field_reads_back(1, c.seq as u64, c.fields@);
        },
        WorkflowCommandVariant::RequestCancelExternalWorkflowExecution(c) => {
            lemma_uint_field_reads_back(1, c.seq as u64, c.fields@);
        },
        WorkflowCommandVariant::SignalExternalWorkflowExecution(c) => {
            lemma_uint_field_reads_back(1, c.seq as u64, c.fields@);
        },
        WorkflowCommandVariant::ScheduleLocalActivity(c) => {
            lemma_uint_field_reads_back(1, c.seq as u64, c.fields@);
        },
        WorkflowCommandVariant::Other { .. } => {},
    }
}

/// The host decodes a command's encoding back to the command: every
/// well-formed command reads back whole (its body fitting in 64 bits, as
/// every body held in memory does).
pub proof fn lemma_command_decodes(v: WorkflowCommandVariant)
    requires
        well_formed_command(v),
        command_body(v).len() <= u64::MAX,
    ensures
        decode_workflow_command(workflow_command_bytes(v)) == Some(v@),
{
    let body = command_body(v);
    let f = command_field(v);
    let k = key(f, WireType::LengthDelimited);
    let lb = varint(body.len() as u64);
    let b = workflow_command_bytes(v);
    assert(b =~= k + (lb + body));
    lemma_varint_reads_back((f * 8 + 2) as u64, lb + body);
    assert(b.skip(k.len() as int) =~= lb + body);
    lemma_varint_reads_back(body.len() as u64, body);
    assert((lb + body).skip(lb.len() as int) =~= body);
    lemma_body_decodes(v);
}

/// The host reads back the whole command: two well-formed commands with the
/// same encoding are the same command (a command's body fitting in 64 bits,
/// as every body held in memory does).
pub proof fn lemma_command_encoding_injective(a: WorkflowCommandVariant, b: WorkflowCommandVariant)
    requires
        well_formed_command(a),
        well_formed_command(b),
        command_body(a).len() <= u64::MAX,
        command_body(b).len() <= u64::MAX,
        workflow_command_bytes(a) == workflow_command_bytes(b),
    ensures
        a@ == b@,
{
    lemma_envelope_split(a, b);
    lemma_small_key(2, WireType::LengthDelimited);
    match a {
        WorkflowCommandVariant::StartTimer(c1) => {
            let c2 = b->StartTimer_0;
            let m1 = message_field(
                2,
                match c1.start_to_fire_timeout {
                    Some(d) => Some(duration_bytes(d)),
                    None => None,
                },
            );
            let m2 = message_field(
                2,
                match c2.start_to_fire_timeout {
                    Some(d) => Some(duration_bytes(d)),
                    None => None,
                },
            );
            lemma_uint_field_split(1, c1.seq as u64, m1, c2.seq as u64, m2);
            lemma_timeout_injective(c1.start_to_fire_timeout, c2.start_to_fire_timeout);
        },
        WorkflowCommandVariant::CancelTimer(c1) => {
            let c2 = b->CancelTimer_0;
            assert(command_body(a) =~= uint_field(1, c1.seq as u64) + Seq::<u8>::empty());
            assert(command_body(b) =~= uint_field(1, c2.seq as u64) + Seq::<u8>::empty());
            lemma_uint_field_split(1, c1.seq as u64, Seq::empty(), c2.seq as u64, Seq::empty());
        },
        WorkflowCommandVariant::SetPatchMarker(c1) => {
            let c2 = b->SetPatchMarker_0;
            lemma_patch_injective(c1.patch_id@, c1.deprecated, c2.patch_id@, c2.deprecated);
        },
        WorkflowCommandVariant::ScheduleActivity(c1) => {
            let c2 = b->ScheduleActivity_0;
            lemma_uint_field_split(1, c1.seq as u64, c1.fields@, c2.seq as u64, c2.fields@);
        },
        WorkflowCommandVariant::StartChildWorkflowExecution(c1) => {
            let c2 = b->StartChildWorkflowExecution_0;
            lemma_uint_field_split(1, c1.seq as u64, c1.fields@, c2.seq as u64, c2.fields@);
        },
        WorkflowCommandVariant::RequestCancelExternalWorkflowExecution(c1) => {
            let c2 = b->RequestCancelExternalWorkflowExecution_0;
            lemma_uint_field_split(1, c1.seq as u64, c1.fields@, c2.seq as u64, c2.fields@);
        },
        WorkflowCommandVariant::SignalExternalWorkflowExecution(c1) => {
            let c2 = b->SignalExternalWorkflowExecution_0;
            lemma_uint_field_split(1, c1.seq as u64, c1.fields@, c2.seq as u64, c2.fields@);
        },
        WorkflowCommandVariant::ScheduleLocalActivity(c1) => {
            let c2 = b->ScheduleLocalActivity_0;
            lemma_uint_field_split(1, c1.seq as u64, c1.fields@, c2.seq as u64, c2.fields@);
        },
        WorkflowCommandVariant::Other { .. } => {},
    }
}

} // verus!
