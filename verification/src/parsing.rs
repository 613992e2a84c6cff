//! Byte-level building blocks shared by the packet parsers and serializers.
use vstd::prelude::*;

verus! {

/// Why a byte sequence could not be decoded.
#[derive(Clone, Copy, Debug, PartialEq, Eq, Hash, Structural)]
pub enum ParseError {
    /// The input ended before a field could be read.
    UnexpectedEndOfInput,
    /// A packet frame did not start with the prefix of inbound packets.
    PrefixMismatch,
    /// The length field of a packet frame is shorter than the frame's fixed part.
    InvalidLength,
    /// The checksum byte of a packet frame is not the sum of the bytes before it.
    ChecksumMismatch,
    /// A firmware version field was not of the form `DD.DD` (ASCII digits).
    InvalidFirmwareVersion,
    /// Bytes were left over after the last field of a packet body.
    TrailingBytes,
}

/// A protocol boolean: only the byte `1` means `true`.
pub open spec fn spec_take_bool(b: u8) -> bool {
    b == 1
}

/// The byte that encodes a boolean.
pub open spec fn spec_bool_byte(b: bool) -> u8 {
    if b {
        1
    } else {
        0
    }
}

/// Decodes a protocol boolean.
pub fn take_bool(b: u8) -> (r: bool)
    ensures
        r == spec_take_bool(b),
{
    b == 1
}

/// Encodes a boolean as one byte.
pub fn bool_byte(b: bool) -> (r: u8)
    ensures
        r == spec_bool_byte(b),
{
    if b {
        1
    } else {
        0
    }
}

/// Every boolean survives being written as a byte and read back.
pub proof fn lemma_bool_roundtrip(b: bool)
    ensures
        spec_take_bool(spec_bool_byte(b)) == b,
{
}

/// The wrapping (modulo 256) sum of a byte sequence, the protocol's checksum.
pub open spec fn spec_checksum(s: Seq<u8>) -> u8
    decreases s.len(),
{
    if s.len() == 0 {
        0
    } else {
        ((spec_checksum(s.drop_last()) as int + s.last() as int) % 256) as u8
    }
}

/// Computes the checksum of the first `end` bytes of `bytes`.
pub fn checksum(bytes: &[u8], end: usize) -> (r: u8)
    requires
        end <= bytes@.len(),
    ensures
        r == spec_checksum(bytes@.subrange(0, end as int)),
{
    let mut acc: u8 = 0;
    let mut i: usize = 0;
    while i < end
        invariant
            i <= end,
            end <= bytes@.len(),
            acc == spec_checksum(bytes@.subrange(0, i as int)),
        decreases end - i,
    {
        assert(bytes@.subrange(0, i + 1).drop_last() =~= bytes@.subrange(0, i as int));
        let b = bytes[i];
        acc = ((acc as u16 + b as u16) % 256) as u8;
        i = i + 1;
    }
    acc
}

/// Appends `bytes` to `out`.
pub fn push_all(out: &mut Vec<u8>, bytes: &[u8])
    ensures
        final(out)@ == old(out)@ + bytes@,
{
    let mut i: usize = 0;
    while i < bytes.len()
        invariant
            i <= bytes@.len(),
            out@ == old(out)@ + bytes@.subrange(0, i as int),
        decreases bytes@.len() - i,
    {
        assert(bytes@.subrange(0, i + 1) =~= bytes@.subrange(0, i as int).push(bytes@[i as int]));
        out.push(bytes[i]);
        i = i + 1;
    }
    assert(bytes@.subrange(0, bytes@.len() as int) =~= bytes@);
}

/// Reads one byte at `pos`.
pub fn take_u8(input: &[u8], pos: usize) -> (r: Result<(usize, u8), ParseError>)
    ensures
        r is Ok <==> pos < input@.len(),
        r matches Ok((end, v)) ==> end == pos + 1 && v == input@[pos as int],
        r matches Err(e) ==> e == ParseError::UnexpectedEndOfInput,
{
    if pos < input.len() {
        Ok((pos + 1, input[pos]))
    } else {
        Err(ParseError::UnexpectedEndOfInput)
    }
}

} // verus!
