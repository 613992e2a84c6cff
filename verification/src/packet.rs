//! Packet framing: a direction prefix, a two-byte command, the total length
//! (little endian), the body and a checksum byte that is the wrapping sum of
//! every byte before it.
use vstd::prelude::*;
use crate::parsing::{ParseError, spec_checksum, checksum, push_all};

verus! {

/// The two bytes that say what a packet is about.
#[derive(Clone, Copy, Debug, PartialEq, Eq, Hash, Structural)]
pub struct Command(pub u8, pub u8);

impl Command {
    /// The command as one number, first byte high.
    pub open spec fn spec_key(self) -> u16 {
        (self.0 as int * 256 + self.1 as int) as u16
    }

    pub fn key(&self) -> (r: u16)
        ensures
            r == self.spec_key(),
    {
        self.0 as u16 * 256 + self.1 as u16
    }

    /// Different commands have different keys.
    pub proof fn lemma_key_injective(self, other: Self)
        ensures
            self.spec_key() == other.spec_key() ==> self == other,
    {
    }
}

/// The command of the state update packet that devices send.
pub open spec fn spec_state_command() -> Command {
    Command(0x01, 0x01)
}

/// The command of the state update packet that devices send.
pub fn state_command() -> (r: Command)
    ensures
        r == spec_state_command(),
{
    Command(0x01, 0x01)
}

/// Whether a packet goes to the device or comes from it.
#[derive(Clone, Copy, Debug, PartialEq, Eq, Hash, Structural)]
pub enum Direction {
    /// From the device to the host.
    Inbound,
    /// From the host to the device.
    Outbound,
}

impl Direction {
    /// The five bytes a frame starts with.
    pub open spec fn spec_prefix(self) -> Seq<u8> {
        match self {
            Direction::Inbound => seq![0x09u8, 0xffu8, 0x00u8, 0x00u8, 0x01u8],
            Direction::Outbound => seq![0x08u8, 0xeeu8, 0x00u8, 0x00u8, 0x00u8],
        }
    }

    pub fn prefix(&self) -> (r: [u8; 5])
        ensures
            r@ == self.spec_prefix(),
    {
        let r = match self {
            Direction::Inbound => [0x09u8, 0xffu8, 0x00u8, 0x00u8, 0x01u8],
            Direction::Outbound => [0x08u8, 0xeeu8, 0x00u8, 0x00u8, 0x00u8],
        };
        assert(r@ =~= self.spec_prefix());
        r
    }
}

/// Prefix, command and the 16-bit total length; the body and the checksum follow.
pub open spec fn spec_header(direction: Direction, command: Command, body_len: nat) -> Seq<u8> {
    let total = body_len + 10;
    direction.spec_prefix() + seq![command.0, command.1, (total % 256) as u8, (total / 256) as u8]
}

/// The complete frame of a packet.
pub open spec fn spec_frame(direction: Direction, command: Command, body: Seq<u8>) -> Seq<u8> {
    let unsummed = spec_header(direction, command, body.len()) + body;
    unsummed.push(spec_checksum(unsummed))
}

/// The largest body a frame's 16-bit length field can describe.
pub open spec fn max_body_len() -> nat {
    0xfff5
}

/// A packet: its direction, its command and its body.
#[derive(Clone, Debug, PartialEq, Eq)]
pub struct Packet {
    pub direction: Direction,
    pub command: Command,
    pub body: Vec<u8>,
}

impl Packet {
    /// The frame of the packet.
    pub fn bytes(&self) -> (r: Vec<u8>)
        requires
            self.body@.len() <= max_body_len(),
        ensures
            r@ == spec_frame(self.direction, self.command, self.body@),
    {
        let total: u16 = (self.body.len() + 10) as u16;
        let mut out: Vec<u8> = Vec::new();
        let prefix = self.direction.prefix();
        push_all(&mut out, prefix.as_slice());
        out.push(self.command.0);
        out.push(self.command.1);
        out.push((total % 256) as u8);
        out.push((total / 256) as u8);
        assert(out@ =~= spec_header(self.direction, self.command, self.body@.len()));
        push_all(&mut out, self.body.as_slice());
        let sum = checksum(out.as_slice(), out.len());
        assert(out@.subrange(0, out@.len() as int) =~= out@);
        out.push(sum);
        out
    }
}

/// A packet received from a device.
#[derive(Clone, Debug, PartialEq, Eq)]
pub struct Inbound {
    pub command: Command,
    pub body: Vec<u8>,
}

/// The total length that the frame at the start of `s` claims.
pub open spec fn spec_frame_len(s: Seq<u8>) -> int {
    s[7] + 256 * s[8]
}

/// Reads the inbound frame at the start of `s`: the number of bytes it takes,
/// its command and its body, or why it cannot be read.
pub open spec fn spec_take_inbound(s: Seq<u8>) -> Result<(int, Command, Seq<u8>), ParseError> {
    if s.len() < 5 || s.subrange(0, 5) != Direction::Inbound.spec_prefix() {
        Err(ParseError::PrefixMismatch)
    } else if s.len() < 9 {
        Err(ParseError::UnexpectedEndOfInput)
    } else if spec_frame_len(s) < 10 {
        Err(ParseError::InvalidLength)
    } else if s.len() < spec_frame_len(s) {
        Err(ParseError::UnexpectedEndOfInput)
    } else if s[spec_frame_len(s) - 1] != spec_checksum(s.subrange(0, spec_frame_len(s) - 1)) {
        Err(ParseError::ChecksumMismatch)
    } else {
        Ok(
            (
                spec_frame_len(s),
                Command(s[5], s[6]),
                s.subrange(9, spec_frame_len(s) - 1),
            ),
        )
    }
}

impl Inbound {
    /// Reads the inbound frame at the start of `input`; returns how many bytes it
    /// took and the packet.
    pub fn take(input: &[u8]) -> (r: Result<(usize, Inbound), ParseError>)
        ensures
            match r {
                Ok((n, p)) => spec_take_inbound(input@) == Ok::<(int, Command, Seq<u8>), ParseError>(
                    (n as int, p.command, p.body@),
                ),
                Err(e) => spec_take_inbound(input@) == Err::<(int, Command, Seq<u8>), ParseError>(e),
            },
    {
        let len = input.len();
        if len < 5 || input[0] != 0x09 || input[1] != 0xff || input[2] != 0x00 || input[3] != 0x00
            || input[4] != 0x01 {
            proof {
                if len >= 5 {
                    assert(input@.subrange(0, 5)[0] == input@[0]);
                    assert(input@.subrange(0, 5)[1] == input@[1]);
                    assert(input@.subrange(0, 5)[2] == input@[2]);
                    assert(input@.subrange(0, 5)[3] == input@[3]);
                    assert(input@.subrange(0, 5)[4] == input@[4]);
                }
            }
            return Err(ParseError::PrefixMismatch);
        }
        assert(input@.subrange(0, 5) =~= Direction::Inbound.spec_prefix());
        if len < 9 {
            return Err(ParseError::UnexpectedEndOfInput);
        }
        let command = Command(input[5], input[6]);
        let total: usize = input[7] as usize + 256 * (input[8] as usize);
        if total < 10 {
            return Err(ParseError::InvalidLength);
        }
        if len < total {
            return Err(ParseError::UnexpectedEndOfInput);
        }
        let sum = checksum(input, total - 1);
        if input[total - 1] != sum {
            return Err(ParseError::ChecksumMismatch);
        }
        let mut body: Vec<u8> = Vec::new();
        let mut i: usize = 9;
        while i < total - 1
            invariant
                9 <= i <= total - 1,
                total <= input@.len(),
                body@ == input@.subrange(9, i as int),
            decreases total - 1 - i,
        {
            assert(input@.subrange(9, i + 1) =~= input@.subrange(9, i as int).push(input@[i as int]));
            body.push(input[i]);
            i = i + 1;
        }
        Ok((total, Inbound { command, body }))
    }
}

/// A frame that a device sends reads back as the command and body it was made of,
/// whatever follows it.
pub proof fn lemma_inbound_frame_roundtrip(command: Command, body: Seq<u8>, rest: Seq<u8>)
    requires
        body.len() <= max_body_len(),
    ensures
        spec_take_inbound(spec_frame(Direction::Inbound, command, body) + rest) == Ok::<
            (int, Command, Seq<u8>),
            ParseError,
        >((body.len() + 10int, command, body)),
{
    let header = spec_header(Direction::Inbound, command, body.len());
    let unsummed = header + body;
    let frame = spec_frame(Direction::Inbound, command, body);
    let s = frame + rest;
    let total = body.len() + 10;
    assert(header.len() == 9);
    assert(frame.len() == total);
    assert(s[7] == (total % 256) as u8);
    assert(s[8] == (total / 256) as u8);
    assert(spec_frame_len(s) == total);
    assert(s.subrange(0, 5) =~= Direction::Inbound.spec_prefix());
    assert(s.subrange(0, total - 1) =~= unsummed);
    assert(s.subrange(9, total - 1) =~= body);
    assert(s[5] == command.0 && s[6] == command.1);
}

/// Every frame ends in the checksum of what comes before it, and its length
/// field is its total length.
pub proof fn lemma_frame_shape(direction: Direction, command: Command, body: Seq<u8>)
    requires
        body.len() <= max_body_len(),
    ensures
        ({
            let frame = spec_frame(direction, command, body);
            &&& frame.len() == body.len() + 10
            &&& frame.subrange(0, 5) == direction.spec_prefix()
            &&& spec_frame_len(frame) == frame.len()
            &&& frame.last() == spec_checksum(frame.drop_last())
            &&& frame.subrange(9, frame.len() - 1) == body
        }),
{
    let frame = spec_frame(direction, command, body);
    assert(frame.subrange(0, 5) =~= direction.spec_prefix());
    assert(frame.subrange(9, frame.len() - 1) =~= body);
    assert(frame.drop_last() =~= spec_header(direction, command, body.len()) + body);
}

} // verus!
