//! The header that frames every message exchanged with a remote-storage
//! server: 26 bytes, every integer little-endian, in the order magic and
//! version (2 bytes), sequence number (4), message type (4), byte offset (8),
//! size (4) and length of the payload that follows (4).
use vstd::prelude::*;
use byteorder::ByteOrder;
use byteorder::LittleEndian;

verus! {

/// The magic and version that every header starts with.
pub const MAGIC_VERSION: u16 = 0x1b01;

/// The header of a message.
#[derive(Clone, Copy, Debug, PartialEq, Eq, Structural)]
pub struct MessageHeader {
    pub MagicVersion: u16,
    pub Seq: u32,
    pub Type: u32,
    pub Offset: u64,
    pub Size: u32,
    pub DataLength: u32,
}

/// The kinds of message. On the wire a kind is its position in this list,
/// counted from zero.
#[derive(Clone, Copy, Debug, PartialEq, Eq, Structural)]
pub enum MessageType {
    TypeRead,
    TypeWrite,
    TypeResponse,
    TypeError,
    TypeEOF,
    TypeClose,
    TypePing,
    TypeUnmap,
}

/// Why a header was not accepted.
#[derive(Clone, Copy, Debug, PartialEq, Eq, Structural)]
pub enum HeaderError {
    /// The header does not start with `MAGIC_VERSION`.
    WrongMagicVersion,
}

/// The two bytes of `x`, least significant first.
pub open spec fn spec_u16_to_le(x: u16) -> Seq<u8> {
    seq![(x % 256) as u8, (x / 256) as u8]
}

/// The four bytes of `x`, least significant first.
pub open spec fn spec_u32_to_le(x: u32) -> Seq<u8> {
    seq![
        (x % 256) as u8,
        (x / 0x100 % 256) as u8,
        (x / 0x1_0000 % 256) as u8,
        (x / 0x100_0000) as u8,
    ]
}

/// The eight bytes of `x`, least significant first.
pub open spec fn spec_u64_to_le(x: u64) -> Seq<u8> {
    seq![
        (x % 256) as u8,
        (x / 0x100 % 256) as u8,
        (x / 0x1_0000 % 256) as u8,
        (x / 0x100_0000 % 256) as u8,
        (x / 0x1_0000_0000 % 256) as u8,
        (x / 0x100_0000_0000 % 256) as u8,
        (x / 0x1_0000_0000_0000 % 256) as u8,
        (x / 0x100_0000_0000_0000) as u8,
    ]
}

/// The number whose bytes, least significant first, are the two bytes of `s` from `at` on.
pub open spec fn spec_u16_from_le(s: Seq<u8>, at: int) -> u16 {
    (s[at] + s[at + 1] * 0x100) as u16
}

/// The number whose bytes, least significant first, are the four bytes of `s` from `at` on.
pub open spec fn spec_u32_from_le(s: Seq<u8>, at: int) -> u32 {
    (s[at] + s[at + 1] * 0x100 + s[at + 2] * 0x1_0000 + s[at + 3] * 0x100_0000) as u32
}

/// The number whose bytes, least significant first, are the eight bytes of `s` from `at` on.
pub open spec fn spec_u64_from_le(s: Seq<u8>, at: int) -> u64 {
    (s[at] + s[at + 1] * 0x100 + s[at + 2] * 0x1_0000 + s[at + 3] * 0x100_0000 + s[at + 4]
        * 0x1_0000_0000 + s[at + 5] * 0x100_0000_0000 + s[at + 6] * 0x1_0000_0000_0000 + s[at + 7]
        * 0x100_0000_0000_0000) as u64
}

/// The bytes `s` with `bytes` in place of what `s` holds from `offset` on.
pub open spec fn spec_put_bytes(s: Seq<u8>, offset: int, bytes: Seq<u8>) -> Seq<u8> {
    s.subrange(0, offset) + bytes + s.subrange(offset + bytes.len(), s.len() as int)
}

/// Length in bytes of an encoded header.
pub open spec fn spec_header_len() -> nat {
    26
}

/// The bytes of a header on the wire.
pub open spec fn spec_encode_header(msg: MessageHeader) -> Seq<u8> {
    spec_u16_to_le(msg.MagicVersion) + spec_u32_to_le(msg.Seq) + spec_u32_to_le(msg.Type)
        + spec_u64_to_le(msg.Offset) + spec_u32_to_le(msg.Size) + spec_u32_to_le(msg.DataLength)
}

/// The header that the first 26 bytes of `bytes` hold.
pub open spec fn spec_decode_header(bytes: Seq<u8>) -> MessageHeader {
    MessageHeader {
        MagicVersion: spec_u16_from_le(bytes, 0),
        Seq: spec_u32_from_le(bytes, 2),
        Type: spec_u32_from_le(bytes, 6),
        Offset: spec_u64_from_le(bytes, 10),
        Size: spec_u32_from_le(bytes, 18),
        DataLength: spec_u32_from_le(bytes, 22),
    }
}

impl MessageType {
    /// The number that stands for the kind on the wire.
    pub open spec fn spec_code(self) -> u32 {
        match self {
            MessageType::TypeRead => 0,
            MessageType::TypeWrite => 1,
            MessageType::TypeResponse => 2,
            MessageType::TypeError => 3,
            MessageType::TypeEOF => 4,
            MessageType::TypeClose => 5,
            MessageType::TypePing => 6,
            MessageType::TypeUnmap => 7,
        }
    }

    /// The number that stands for the kind on the wire.
    pub fn code(self) -> (c: u32)
        ensures
            c == self.spec_code(),
    {
        match self {
            MessageType::TypeRead => 0,
            MessageType::TypeWrite => 1,
            MessageType::TypeResponse => 2,
            MessageType::TypeError => 3,
            MessageType::TypeEOF => 4,
            MessageType::TypeClose => 5,
            MessageType::TypePing => 6,
            MessageType::TypeUnmap => 7,
        }
    }

    /// The kind that `c` stands for, if it stands for one.
    pub fn from_code(c: u32) -> (t: Option<MessageType>)
        ensures
            match t {
                Some(kind) => kind.spec_code() == c,
                None => c > 7,
            },
    {
        match c {
            0 => Some(MessageType::TypeRead),
            1 => Some(MessageType::TypeWrite),
            2 => Some(MessageType::TypeResponse),
            3 => Some(MessageType::TypeError),
            4 => Some(MessageType::TypeEOF),
            5 => Some(MessageType::TypeClose),
            6 => Some(MessageType::TypePing),
            7 => Some(MessageType::TypeUnmap),
            _ => None,
        }
    }
}

impl Default for MessageHeader {
    fn default() -> (msg: MessageHeader)
        ensures
            msg == (MessageHeader {
                MagicVersion: 0,
                Seq: 0,
                Type: 0,
                Offset: 0,
                Size: 0,
                DataLength: 0,
            }),
    {
        MessageHeader { MagicVersion: 0, Seq: 0, Type: 0, Offset: 0, Size: 0, DataLength: 0 }
    }
}

/// Length in bytes of an encoded header.
pub fn get_message_header_size() -> (total_size: usize)
    ensures
        total_size == spec_header_len(),
{
    2 + 4 + 4 + 8 + 4 + 4
}

/// `LittleEndian::write_u16` of byteorder: it puts the two bytes of `n`,
/// least significant first, at the start of `buf` and leaves the rest of
/// `buf` as it was. It panics on a `buf` of less than two bytes.
#[verifier::external_body]
fn le_write_u16(buf: &mut [u8], n: u16)
    requires
        old(buf)@.len() >= 2,
    ensures
        final(buf)@ == spec_put_bytes(old(buf)@, 0, spec_u16_to_le(n)),
{
    LittleEndian::write_u16(buf, n)
}

/// `LittleEndian::write_u32` of byteorder: it puts the four bytes of `n`,
/// least significant first, at the start of `buf` and leaves the rest of
/// `buf` as it was. It panics on a `buf` of less than four bytes.
#[verifier::external_body]
fn le_write_u32(buf: &mut [u8], n: u32)
    requires
        old(buf)@.len() >= 4,
    ensures
        final(buf)@ == spec_put_bytes(old(buf)@, 0, spec_u32_to_le(n)),
{
    LittleEndian::write_u32(buf, n)
}

/// `LittleEndian::write_u64` of byteorder: it puts the eight bytes of `n`,
/// least significant first, at the start of `buf` and leaves the rest of
/// `buf` as it was. It panics on a `buf` of less than eight bytes.
#[verifier::external_body]
fn le_write_u64(buf: &mut [u8], n: u64)
    requires
        old(buf)@.len() >= 8,
    ensures
        final(buf)@ == spec_put_bytes(old(buf)@, 0, spec_u64_to_le(n)),
{
    LittleEndian::write_u64(buf, n)
}

/// `LittleEndian::read_u16` of byteorder: the number whose bytes, least
/// significant first, are the first two bytes of `buf`. It panics on a `buf`
/// of less than two bytes.
#[verifier::external_body]
fn le_read_u16(buf: &[u8]) -> (n: u16)
    requires
        buf@.len() >= 2,
    ensures
        n == spec_u16_from_le(buf@, 0),
{
    LittleEndian::read_u16(buf)
}

/// `LittleEndian::read_u32` of byteorder: the number whose bytes, least
/// significant first, are the first four bytes of `buf`. It panics on a
/// `buf` of less than four bytes.
#[verifier::external_body]
fn le_read_u32(buf: &[u8]) -> (n: u32)
    requires
        buf@.len() >= 4,
    ensures
        n == spec_u32_from_le(buf@, 0),
{
    LittleEndian::read_u32(buf)
}

/// `LittleEndian::read_u64` of byteorder: the number whose bytes, least
/// significant first, are the first eight bytes of `buf`. It panics on a
/// `buf` of less than eight bytes.
#[verifier::external_body]
fn le_read_u64(buf: &[u8]) -> (n: u64)
    requires
        buf@.len() >= 8,
    ensures
        n == spec_u64_from_le(buf@, 0),
{
    LittleEndian::read_u64(buf)
}

/// Puts the two bytes of `v`, least significant first, at `offset` in `header`.
fn put_u16_le(header: &mut [u8], offset: usize, v: u16)
    requires
        offset + 2 <= old(header)@.len(),
    ensures
        final(header)@ == spec_put_bytes(old(header)@, offset as int, spec_u16_to_le(v)),
{
    header[offset] = (v % 256) as u8;
    header[offset + 1] = (v / 256) as u8;
    assert(header@ =~= spec_put_bytes(old(header)@, offset as int, spec_u16_to_le(v)));
}

/// Puts the four bytes of `v`, least significant first, at `offset` in `header`.
fn put_u32_le(header: &mut [u8], offset: usize, v: u32)
    requires
        offset + 4 <= old(header)@.len(),
    ensures
        final(header)@ == spec_put_bytes(old(header)@, offset as int, spec_u32_to_le(v)),
{
    header[offset] = (v % 256) as u8;
    header[offset + 1] = (v / 0x100 % 256) as u8;
    header[offset + 2] = (v / 0x1_0000 % 256) as u8;
    header[offset + 3] = (v / 0x100_0000) as u8;
    assert(header@ =~= spec_put_bytes(old(header)@, offset as int, spec_u32_to_le(v)));
}

/// Puts the eight bytes of `v`, least significant first, at `offset` in `header`.
fn put_u64_le(header: &mut [u8], offset: usize, v: u64)
    requires
        offset + 8 <= old(header)@.len(),
    ensures
        final(header)@ == spec_put_bytes(old(header)@, offset as int, spec_u64_to_le(v)),
{
    header[offset] = (v % 256) as u8;
    header[offset + 1] = (v / 0x100 % 256) as u8;
    header[offset + 2] = (v / 0x1_0000 % 256) as u8;
    header[offset + 3] = (v / 0x100_0000 % 256) as u8;
    header[offset + 4] = (v / 0x1_0000_0000 % 256) as u8;
    header[offset + 5] = (v / 0x100_0000_0000 % 256) as u8;
    header[offset + 6] = (v / 0x1_0000_0000_0000 % 256) as u8;
    header[offset + 7] = (v / 0x100_0000_0000_0000) as u8;
    assert(header@ =~= spec_put_bytes(old(header)@, offset as int, spec_u64_to_le(v)));
}

/// Encodes `msg` into the first 26 bytes of `header`, byte by byte, and
/// returns the count of bytes that make up the header. The rest of `header`
/// stays as it was.
pub fn write_header_old(msg: &MessageHeader, header: &mut [u8]) -> (offset: usize)
    requires
        old(header)@.len() >= spec_header_len(),
    ensures
        offset == spec_header_len(),
        final(header)@ == spec_put_bytes(old(header)@, 0, spec_encode_header(*msg)),
{
    let mut offset: usize = 0;
    put_u16_le(header, offset, msg.MagicVersion);
    offset += 2;
    put_u32_le(header, offset, msg.Seq);
    offset += 4;
    put_u32_le(header, offset, msg.Type);
    offset += 4;
    put_u64_le(header, offset, msg.Offset);
    offset += 8;
    put_u32_le(header, offset, msg.Size);
    offset += 4;
    put_u32_le(header, offset, msg.DataLength);
    offset += 4;
    assert(header@ =~= spec_put_bytes(old(header)@, 0, spec_encode_header(*msg)));
    offset
}

/// Encodes `msg` into the first 26 bytes of `header` and returns the count of
/// bytes that make up the header. The rest of `header` stays as it was.
pub fn write_header(msg: &MessageHeader, header: &mut [u8]) -> (offset: usize)
    requires
        old(header)@.len() >= spec_header_len(),
    ensures
        offset == spec_header_len(),
        final(header)@ == spec_put_bytes(old(header)@, 0, spec_encode_header(*msg)),
{
    let mut offset: usize = 0;
    let (_, rest) = header.split_at_mut(offset);
    le_write_u16(rest, msg.MagicVersion);
    offset += 2;
    let (_, rest) = header.split_at_mut(offset);
    le_write_u32(rest, msg.Seq);
    offset += 4;
    let (_, rest) = header.split_at_mut(offset);
    le_write_u32(rest, msg.Type);
    offset += 4;
    let (_, rest) = header.split_at_mut(offset);
    le_write_u64(rest, msg.Offset);
    offset += 8;
    let (_, rest) = header.split_at_mut(offset);
    le_write_u32(rest, msg.Size);
    offset += 4;
    let (_, rest) = header.split_at_mut(offset);
    le_write_u32(rest, msg.DataLength);
    offset += 4;
    assert(header@ =~= spec_put_bytes(old(header)@, 0, spec_encode_header(*msg)));
    offset
}

/// Whether `header` can be decoded: it holds the two bytes of the magic and
/// version, and where these are `MAGIC_VERSION` it holds a whole header.
pub open spec fn spec_can_read_header(header: Seq<u8>) -> bool {
    &&& header.len() >= 2
    &&& spec_u16_from_le(header, 0) == MAGIC_VERSION ==> header.len() >= spec_header_len()
}

/// Whether `header` can be decoded: what `read_header` asks of it.
pub fn can_read_header(header: &[u8]) -> (b: bool)
    ensures
        b == spec_can_read_header(header@),
{
    let n = header.len();
    if n < 2 {
        return false;
    }
    let magic = le_read_u16(&header[0..n]);
    magic != MAGIC_VERSION || n >= 26
}

/// Decodes the header that `header` holds into `msg` and returns the count of
/// bytes that make up the header. A header that does not start with
/// `MAGIC_VERSION` is refused: `msg` then has the magic and version that were
/// found, and its other fields are as they were.
pub fn read_header(msg: &mut MessageHeader, header: &[u8], header_size: usize) -> (r: Result<
    usize,
    HeaderError,
>)
    requires
        spec_can_read_header(header@),
    ensures
        r is Ok <==> spec_u16_from_le(header@, 0) == MAGIC_VERSION,
        match r {
            Ok(offset) => offset == spec_header_len() && *final(msg) == spec_decode_header(
                header@,
            ),
            Err(e) => e == HeaderError::WrongMagicVersion && *final(msg) == (MessageHeader {
                MagicVersion: spec_u16_from_le(header@, 0),
                ..*old(msg)
            }),
        },
{
    let mut offset: usize = 0;
    let n = header.len();
    msg.MagicVersion = le_read_u16(&header[offset..n]);
    offset += 2;
    if msg.MagicVersion != MAGIC_VERSION {
        return Err(HeaderError::WrongMagicVersion);
    }
    msg.Seq = le_read_u32(&header[offset..n]);
    offset += 4;
    msg.Type = le_read_u32(&header[offset..n]);
    offset += 4;
    let offset_val = le_read_u64(&header[offset..n]);
    msg.Offset = offset_val;
    offset += 8;
    msg.Size = le_read_u32(&header[offset..n]);
    offset += 4;
    msg.DataLength = le_read_u32(&header[offset..n]);
    offset += 4;
    Ok(offset)
}

/// The two bytes of a number give the number back.
proof fn lemma_u16_le(x: u16)
    ensures
        spec_u16_to_le(x).len() == 2,
        spec_u16_from_le(spec_u16_to_le(x), 0) == x,
{
}

/// The four bytes of a number give the number back.
proof fn lemma_u32_le(x: u32)
    ensures
        spec_u32_to_le(x).len() == 4,
        spec_u32_from_le(spec_u32_to_le(x), 0) == x,
{
}

/// The eight bytes of a number give the number back.
proof fn lemma_u64_le(x: u64)
    ensures
        spec_u64_to_le(x).len() == 8,
        spec_u64_from_le(spec_u64_to_le(x), 0) == x,
{
    assert(x % 256 + (x / 0x100 % 256) * 0x100 + (x / 0x1_0000 % 256) * 0x1_0000 + (x / 0x100_0000
        % 256) * 0x100_0000 + (x / 0x1_0000_0000 % 256) * 0x1_0000_0000 + (x / 0x100_0000_0000
        % 256) * 0x100_0000_0000 + (x / 0x1_0000_0000_0000 % 256) * 0x1_0000_0000_0000 + (x
        / 0x100_0000_0000_0000) * 0x100_0000_0000_0000 == x) by (bit_vector);
}

/// Reading a number at `at` in `s` is reading it at the start of what `s`
/// holds from `at` on.
proof fn lemma_from_le_at(s: Seq<u8>, at: int, part: Seq<u8>)
    requires
        0 <= at,
        at + part.len() <= s.len(),
        s.subrange(at, at + part.len()) == part,
    ensures
        part.len() >= 2 ==> spec_u16_from_le(s, at) == spec_u16_from_le(part, 0),
        part.len() >= 4 ==> spec_u32_from_le(s, at) == spec_u32_from_le(part, 0),
        part.len() >= 8 ==> spec_u64_from_le(s, at) == spec_u64_from_le(part, 0),
{
    assert forall|i: int| 0 <= i < part.len() implies s[at + i] == #[trigger] part[i] by {
        assert(s.subrange(at, at + part.len())[i] == s[at + i]);
    }
}

/// A header that is encoded and decoded again is the header that was
/// encoded, whatever its fields; and the encoding is 26 bytes long.
pub proof fn lemma_header_round_trip(msg: MessageHeader)
    ensures
        spec_encode_header(msg).len() == spec_header_len(),
        spec_decode_header(spec_encode_header(msg)) == msg,
{
    let b = spec_encode_header(msg);
    lemma_u16_le(msg.MagicVersion);
    lemma_u32_le(msg.Seq);
    lemma_u32_le(msg.Type);
    lemma_u64_le(msg.Offset);
    lemma_u32_le(msg.Size);
    lemma_u32_le(msg.DataLength);
    assert(b.len() == 26);
    assert(b.subrange(0, 2) =~= spec_u16_to_le(msg.MagicVersion));
    assert(b.subrange(2, 6) =~= spec_u32_to_le(msg.Seq));
    assert(b.subrange(6, 10) =~= spec_u32_to_le(msg.Type));
    assert(b.subrange(10, 18) =~= spec_u64_to_le(msg.Offset));
    assert(b.subrange(18, 22) =~= spec_u32_to_le(msg.Size));
    assert(b.subrange(22, 26) =~= spec_u32_to_le(msg.DataLength));
    lemma_from_le_at(b, 0, spec_u16_to_le(msg.MagicVersion));
    lemma_from_le_at(b, 2, spec_u32_to_le(msg.Seq));
    lemma_from_le_at(b, 6, spec_u32_to_le(msg.Type));
    lemma_from_le_at(b, 10, spec_u64_to_le(msg.Offset));
    lemma_from_le_at(b, 18, spec_u32_to_le(msg.Size));
    lemma_from_le_at(b, 22, spec_u32_to_le(msg.DataLength));
}

/// Decoding looks at the first 26 bytes alone: what follows a header in a
/// buffer has no part in it.
pub proof fn lemma_decode_ignores_rest(msg: MessageHeader, rest: Seq<u8>)
    ensures
        spec_decode_header(spec_encode_header(msg) + rest) == msg,
{
    lemma_header_round_trip(msg);
    let b = spec_encode_header(msg);
    let all = b + rest;
    lemma_same_prefix_same_header(all, b);
}

/// Two buffers that agree on their first 26 bytes hold the same header.
pub proof fn lemma_same_prefix_same_header(a: Seq<u8>, b: Seq<u8>)
    requires
        a.len() >= spec_header_len(),
        b.len() >= spec_header_len(),
        forall|i: int| 0 <= i < spec_header_len() ==> a[i] == b[i],
    ensures
        spec_decode_header(a) == spec_decode_header(b),
{
    assert(a[0] == b[0] && a[1] == b[1] && a[2] == b[2] && a[3] == b[3] && a[4] == b[4] && a[5]
        == b[5] && a[6] == b[6] && a[7] == b[7] && a[8] == b[8] && a[9] == b[9] && a[10] == b[10]
        && a[11] == b[11] && a[12] == b[12] && a[13] == b[13] && a[14] == b[14] && a[15] == b[15]
        && a[16] == b[16] && a[17] == b[17] && a[18] == b[18] && a[19] == b[19] && a[20] == b[20]
        && a[21] == b[21] && a[22] == b[22] && a[23] == b[23] && a[24] == b[24] && a[25] == b[25]);
}

} // verus!
