//! Device structures shared by Soundcore devices, each with its wire encoding:
//! a `spec_bytes` that says what it is written as, a decoder that says what a
//! run of bytes reads as, and a proof that writing then reading gives the
//! value back.
use vstd::prelude::*;
use crate::parsing::{ParseError, spec_take_bool, spec_bool_byte, take_bool, bool_byte, push_all, take_u8};

verus! {

/// Fills `buf` with the `N` bytes of `input` that start at `pos`.
pub fn copy_bytes<const N: usize>(buf: &mut [u8; N], input: &[u8], pos: usize)
    requires
        pos + N <= input@.len(),
    ensures
        final(buf)@ == input@.subrange(pos as int, pos + N),
{
    let len = input.len();
    let mut i: usize = 0;
    while i < N
        invariant
            i <= N,
            len == input@.len(),
            pos + N <= input@.len(),
            buf@.len() == N,
            forall|j: int| 0 <= j < i ==> buf@[j] == input@[pos + j],
        decreases N - i,
    {
        buf[i] = input[pos + i];
        i = i + 1;
    }
    assert(buf@ =~= input@.subrange(pos as int, pos + N));
}

/// Whether `N` bytes can be read at `pos`.
pub open spec fn has_room(input: Seq<u8>, pos: usize, n: nat) -> bool {
    pos + n <= input.len()
}

/// Checks, without overflow, that `n` bytes can be read at `pos`.
pub fn room(input: &[u8], pos: usize, n: usize) -> (r: bool)
    ensures
        r == has_room(input@, pos, n as nat),
        input@.len() <= usize::MAX,
{
    pos <= input.len() && n <= input.len() - pos
}

// ---------------------------------------------------------------------------
// Enumerations sent as one byte
// ---------------------------------------------------------------------------

/// Which ambient sound processing is active.
#[derive(Clone, Copy, Debug, PartialEq, Eq, Hash, Structural)]
pub enum AmbientSoundMode {
    NoiseCanceling,
    Transparency,
    Normal,
}

impl AmbientSoundMode {
    pub open spec fn spec_id(self) -> u8 {
        match self {
            AmbientSoundMode::NoiseCanceling => 0,
            AmbientSoundMode::Transparency => 1,
            AmbientSoundMode::Normal => 2,
        }
    }

    /// The mode whose id is `b`, if any.
    pub open spec fn spec_from_repr(b: u8) -> Option<Self> {
        if b == 0 {
            Some(AmbientSoundMode::NoiseCanceling)
        } else if b == 1 {
            Some(AmbientSoundMode::Transparency)
        } else if b == 2 {
            Some(AmbientSoundMode::Normal)
        } else {
            None
        }
    }

    /// A byte read from the device: an unknown id falls back to the default mode.
    pub open spec fn spec_from_byte(b: u8) -> Self {
        match Self::spec_from_repr(b) {
            Some(m) => m,
            None => AmbientSoundMode::NoiseCanceling,
        }
    }

    pub fn id(&self) -> (r: u8)
        ensures
            r == self.spec_id(),
    {
        match self {
            AmbientSoundMode::NoiseCanceling => 0,
            AmbientSoundMode::Transparency => 1,
            AmbientSoundMode::Normal => 2,
        }
    }

    pub fn from_repr(b: u8) -> (r: Option<Self>)
        ensures
            r == Self::spec_from_repr(b),
    {
        if b == 0 {
            Some(AmbientSoundMode::NoiseCanceling)
        } else if b == 1 {
            Some(AmbientSoundMode::Transparency)
        } else if b == 2 {
            Some(AmbientSoundMode::Normal)
        } else {
            None
        }
    }

    /// Reads the mode at `pos`.
    pub fn take(input: &[u8], pos: usize) -> (r: Result<(usize, Self), ParseError>)
        ensures
            r is Ok <==> pos < input@.len(),
            r matches Ok((end, v)) ==> end == pos + 1 && v == Self::spec_from_byte(
                input@[pos as int],
            ),
            r matches Err(e) ==> e == ParseError::UnexpectedEndOfInput,
    {
        let (end, b) = take_u8(input, pos)?;
        match Self::from_repr(b) {
            Some(m) => Ok((end, m)),
            None => Ok((end, AmbientSoundMode::NoiseCanceling)),
        }
    }

    /// Reading the id of a mode gives the mode back.
    pub proof fn lemma_roundtrip(self)
        ensures
            Self::spec_from_byte(self.spec_id()) == self,
            Self::spec_from_repr(self.spec_id()) == Some(self),
    {
    }
}

impl Default for AmbientSoundMode {
    fn default() -> (r: Self)
        ensures
            r == AmbientSoundMode::NoiseCanceling,
    {
        AmbientSoundMode::NoiseCanceling
    }
}

/// How transparency mode treats outside sound.
#[derive(Clone, Copy, Debug, PartialEq, Eq, Hash, Structural)]
pub enum TransparencyMode {
    FullyTransparent,
    VocalMode,
}

impl TransparencyMode {
    pub open spec fn spec_id(self) -> u8 {
        match self {
            TransparencyMode::FullyTransparent => 0,
            TransparencyMode::VocalMode => 1,
        }
    }

    pub open spec fn spec_from_repr(b: u8) -> Option<Self> {
        if b == 0 {
            Some(TransparencyMode::FullyTransparent)
        } else if b == 1 {
            Some(TransparencyMode::VocalMode)
        } else {
            None
        }
    }

    /// A byte read from the device: an unknown id falls back to the default mode.
    pub open spec fn spec_from_byte(b: u8) -> Self {
        match Self::spec_from_repr(b) {
            Some(m) => m,
            None => TransparencyMode::FullyTransparent,
        }
    }

    pub fn id(&self) -> (r: u8)
        ensures
            r == self.spec_id(),
    {
        match self {
            TransparencyMode::FullyTransparent => 0,
            TransparencyMode::VocalMode => 1,
        }
    }

    pub fn from_repr(b: u8) -> (r: Option<Self>)
        ensures
            r == Self::spec_from_repr(b),
    {
        if b == 0 {
            Some(TransparencyMode::FullyTransparent)
        } else if b == 1 {
            Some(TransparencyMode::VocalMode)
        } else {
            None
        }
    }

    /// Reads the mode at `pos`.
    pub fn take(input: &[u8], pos: usize) -> (r: Result<(usize, Self), ParseError>)
        ensures
            r is Ok <==> pos < input@.len(),
            r matches Ok((end, v)) ==> end == pos + 1 && v == Self::spec_from_byte(
                input@[pos as int],
            ),
            r matches Err(e) ==> e == ParseError::UnexpectedEndOfInput,
    {
        let (end, b) = take_u8(input, pos)?;
        match Self::from_repr(b) {
            Some(m) => Ok((end, m)),
            None => Ok((end, TransparencyMode::FullyTransparent)),
        }
    }

    /// Reading the id of a mode gives the mode back.
    pub proof fn lemma_roundtrip(self)
        ensures
            Self::spec_from_byte(self.spec_id()) == self,
            Self::spec_from_repr(self.spec_id()) == Some(self),
    {
    }
}

impl Default for TransparencyMode {
    fn default() -> (r: Self)
        ensures
            r == TransparencyMode::FullyTransparent,
    {
        TransparencyMode::FullyTransparent
    }
}

/// One of the two earbuds.
#[derive(Clone, Copy, Debug, PartialEq, Eq, Hash, Structural)]
pub enum DeviceSide {
    Left,
    Right,
}

impl DeviceSide {
    pub open spec fn spec_id(self) -> u8 {
        match self {
            DeviceSide::Left => 0,
            DeviceSide::Right => 1,
        }
    }

    /// A byte read from the device: `1` is the right earbud, anything else the left.
    pub open spec fn spec_from_byte(b: u8) -> Self {
        if b == 1 {
            DeviceSide::Right
        } else {
            DeviceSide::Left
        }
    }

    pub fn id(&self) -> (r: u8)
        ensures
            r == self.spec_id(),
    {
        match self {
            DeviceSide::Left => 0,
            DeviceSide::Right => 1,
        }
    }

    pub fn from_byte(b: u8) -> (r: Self)
        ensures
            r == Self::spec_from_byte(b),
    {
        if b == 1 {
            DeviceSide::Right
        } else {
            DeviceSide::Left
        }
    }
}

/// Whether the device plays a tone on touch.
#[derive(Clone, Copy, Debug, PartialEq, Eq, Hash, Structural)]
pub enum TouchTone {
    Disabled,
    Enabled,
}

impl TouchTone {
    pub open spec fn spec_id(self) -> u8 {
        match self {
            TouchTone::Disabled => 0,
            TouchTone::Enabled => 1,
        }
    }

    /// A byte read from the device: `1` is enabled, anything else disabled.
    pub open spec fn spec_from_byte(b: u8) -> Self {
        if b == 1 {
            TouchTone::Enabled
        } else {
            TouchTone::Disabled
        }
    }

    /// Reading the id of a setting gives the setting back.
    pub proof fn lemma_roundtrip(self)
        ensures
            Self::spec_from_byte(self.spec_id()) == self,
    {
    }

    pub fn id(&self) -> (r: u8)
        ensures
            r == self.spec_id(),
    {
        match self {
            TouchTone::Disabled => 0,
            TouchTone::Enabled => 1,
        }
    }

    pub fn from_byte(b: u8) -> (r: Self)
        ensures
            r == Self::spec_from_byte(b),
    {
        if b == 1 {
            TouchTone::Enabled
        } else {
            TouchTone::Disabled
        }
    }
}

// ---------------------------------------------------------------------------
// Structures of fixed width
// ---------------------------------------------------------------------------

/// Whether the two earbuds are connected to each other, and which one talks to the host.
#[derive(Clone, Copy, Debug, PartialEq, Eq, Hash, Structural)]
pub struct TwsStatus {
    pub is_connected: bool,
    pub host_device: DeviceSide,
}

impl TwsStatus {
    pub open spec fn spec_bytes(self) -> Seq<u8> {
        seq![spec_bool_byte(self.is_connected), self.host_device.spec_id()]
    }

    /// What the two bytes `s` read as.
    pub open spec fn spec_decode(s: Seq<u8>) -> Self {
        TwsStatus {
            is_connected: spec_take_bool(s[0]),
            host_device: DeviceSide::spec_from_byte(s[1]),
        }
    }

    pub fn take(input: &[u8], pos: usize) -> (r: Result<(usize, Self), ParseError>)
        ensures
            r is Ok <==> has_room(input@, pos, 2),
            r matches Ok((end, v)) ==> end == pos + 2 && v == Self::spec_decode(
                input@.subrange(pos as int, pos + 2),
            ),
            r matches Err(e) ==> e == ParseError::UnexpectedEndOfInput,
    {
        if !room(input, pos, 2) {
            return Err(ParseError::UnexpectedEndOfInput);
        }
        let v = TwsStatus {
            is_connected: take_bool(input[pos]),
            host_device: DeviceSide::from_byte(input[pos + 1]),
        };
        Ok((pos + 2, v))
    }

    pub fn write(&self, out: &mut Vec<u8>)
        ensures
            final(out)@ == old(out)@ + self.spec_bytes(),
    {
        out.push(bool_byte(self.is_connected));
        out.push(self.host_device.id());
        assert(out@ =~= old(out)@ + self.spec_bytes());
    }

    pub proof fn lemma_roundtrip(self)
        ensures
            self.spec_bytes().len() == 2,
            Self::spec_decode(self.spec_bytes()) == self,
    {
    }
}

impl Default for TwsStatus {
    fn default() -> (r: Self)
        ensures
            r == (TwsStatus { is_connected: false, host_device: DeviceSide::Left }),
    {
        TwsStatus { is_connected: false, host_device: DeviceSide::Left }
    }
}

/// A battery charge level as the device reports it.
#[derive(Clone, Copy, Debug, PartialEq, Eq, Hash, Default, Structural)]
pub struct BatteryLevel(pub u8);

/// The battery of one earbud.
#[derive(Clone, Copy, Debug, PartialEq, Eq, Hash, Structural)]
pub struct SingleBattery {
    pub is_charging: bool,
    pub level: BatteryLevel,
}

/// The batteries of both earbuds.
#[derive(Clone, Copy, Debug, PartialEq, Eq, Hash, Structural)]
pub struct DualBattery {
    pub left: SingleBattery,
    pub right: SingleBattery,
}

impl DualBattery {
    /// Levels first (left, right), then charging flags (left, right).
    pub open spec fn spec_bytes(self) -> Seq<u8> {
        seq![
            self.left.level.0,
            self.right.level.0,
            spec_bool_byte(self.left.is_charging),
            spec_bool_byte(self.right.is_charging),
        ]
    }

    pub open spec fn spec_decode(s: Seq<u8>) -> Self {
        DualBattery {
            left: SingleBattery { is_charging: spec_take_bool(s[2]), level: BatteryLevel(s[0]) },
            right: SingleBattery { is_charging: spec_take_bool(s[3]), level: BatteryLevel(s[1]) },
        }
    }

    pub fn take(input: &[u8], pos: usize) -> (r: Result<(usize, Self), ParseError>)
        ensures
            r is Ok <==> has_room(input@, pos, 4),
            r matches Ok((end, v)) ==> end == pos + 4 && v == Self::spec_decode(
                input@.subrange(pos as int, pos + 4),
            ),
            r matches Err(e) ==> e == ParseError::UnexpectedEndOfInput,
    {
        if !room(input, pos, 4) {
            return Err(ParseError::UnexpectedEndOfInput);
        }
        let v = DualBattery {
            left: SingleBattery {
                is_charging: take_bool(input[pos + 2]),
                level: BatteryLevel(input[pos]),
            },
            right: SingleBattery {
                is_charging: take_bool(input[pos + 3]),
                level: BatteryLevel(input[pos + 1]),
            },
        };
        Ok((pos + 4, v))
    }

    pub fn write(&self, out: &mut Vec<u8>)
        ensures
            final(out)@ == old(out)@ + self.spec_bytes(),
    {
        out.push(self.left.level.0);
        out.push(self.right.level.0);
        out.push(bool_byte(self.left.is_charging));
        out.push(bool_byte(self.right.is_charging));
        assert(out@ =~= old(out)@ + self.spec_bytes());
    }

    pub proof fn lemma_roundtrip(self)
        ensures
            self.spec_bytes().len() == 4,
            Self::spec_decode(self.spec_bytes()) == self,
    {
    }
}

impl Default for DualBattery {
    fn default() -> (r: Self)
        ensures
            r == (DualBattery {
                left: SingleBattery { is_charging: false, level: BatteryLevel(0) },
                right: SingleBattery { is_charging: false, level: BatteryLevel(0) },
            }),
    {
        DualBattery {
            left: SingleBattery { is_charging: false, level: BatteryLevel(0) },
            right: SingleBattery { is_charging: false, level: BatteryLevel(0) },
        }
    }
}

/// Whether `b` is an ASCII decimal digit.
pub open spec fn is_ascii_digit(b: u8) -> bool {
    0x30 <= b <= 0x39
}

/// The ASCII digit of a value below ten.
pub open spec fn ascii_digit(v: u8) -> u8 {
    (0x30 + v) as u8
}

/// A firmware version `major.minor`, written on the wire as five ASCII bytes `MM.mm`.
#[derive(Clone, Copy, Debug, PartialEq, Eq, Hash, Structural)]
pub struct FirmwareVersion {
    major: u8,
    minor: u8,
}

impl FirmwareVersion {
    /// Both parts have two decimal digits.
    #[verifier::type_invariant]
    pub closed spec fn inv(self) -> bool {
        self.major < 100 && self.minor < 100
    }

    pub closed spec fn spec_major(self) -> u8 {
        self.major
    }

    pub closed spec fn spec_minor(self) -> u8 {
        self.minor
    }

    /// The version with the given parts, if each fits in two decimal digits.
    pub fn new(major: u8, minor: u8) -> (r: Option<Self>)
        ensures
            r is Some <==> major < 100 && minor < 100,
            r matches Some(v) ==> v.spec_major() == major && v.spec_minor() == minor,
    {
        if major < 100 && minor < 100 {
            Some(FirmwareVersion { major, minor })
        } else {
            None
        }
    }

    pub fn major(&self) -> (r: u8)
        ensures
            r == self.spec_major(),
            r < 100,
    {
        proof {
            use_type_invariant(self);
        }
        self.major
    }

    pub fn minor(&self) -> (r: u8)
        ensures
            r == self.spec_minor(),
            r < 100,
    {
        proof {
            use_type_invariant(self);
        }
        self.minor
    }

    /// Both parts below one hundred.
    pub open spec fn wf(self) -> bool {
        self.spec_major() < 100 && self.spec_minor() < 100
    }

    pub open spec fn spec_bytes(self) -> Seq<u8> {
        seq![
            ascii_digit(self.spec_major() / 10),
            ascii_digit(self.spec_major() % 10),
            0x2e,
            ascii_digit(self.spec_minor() / 10),
            ascii_digit(self.spec_minor() % 10),
        ]
    }

    /// Whether the five bytes `s` are a version: two digits, a dot, two digits.
    pub open spec fn spec_valid(s: Seq<u8>) -> bool {
        &&& is_ascii_digit(s[0])
        &&& is_ascii_digit(s[1])
        &&& s[2] == 0x2e
        &&& is_ascii_digit(s[3])
        &&& is_ascii_digit(s[4])
    }

    /// Whether `self` is the version that the five valid bytes `s` spell.
    pub open spec fn decodes(self, s: Seq<u8>) -> bool {
        &&& self.spec_major() == (s[0] - 0x30) * 10 + (s[1] - 0x30)
        &&& self.spec_minor() == (s[3] - 0x30) * 10 + (s[4] - 0x30)
    }

    pub fn take(input: &[u8], pos: usize) -> (r: Result<(usize, Self), ParseError>)
        ensures
            r is Ok <==> has_room(input@, pos, 5) && Self::spec_valid(
                input@.subrange(pos as int, pos + 5),
            ),
            r matches Ok((end, v)) ==> end == pos + 5 && v.decodes(
                input@.subrange(pos as int, pos + 5),
            ),
            r matches Err(e) ==> (if has_room(input@, pos, 5) {
                e == ParseError::InvalidFirmwareVersion
            } else {
                e == ParseError::UnexpectedEndOfInput
            }),
    {
        if !room(input, pos, 5) {
            return Err(ParseError::UnexpectedEndOfInput);
        }
        let b0 = input[pos];
        let b1 = input[pos + 1];
        let b2 = input[pos + 2];
        let b3 = input[pos + 3];
        let b4 = input[pos + 4];
        if !(0x30 <= b0 && b0 <= 0x39 && 0x30 <= b1 && b1 <= 0x39 && b2 == 0x2e && 0x30 <= b3
            && b3 <= 0x39 && 0x30 <= b4 && b4 <= 0x39) {
            return Err(ParseError::InvalidFirmwareVersion);
        }
        let v = FirmwareVersion { major: (b0 - 0x30) * 10 + (b1 - 0x30), minor: (b3 - 0x30) * 10 + (b4 - 0x30) };
        Ok((pos + 5, v))
    }

    pub fn write(&self, out: &mut Vec<u8>)
        ensures
            final(out)@ == old(out)@ + self.spec_bytes(),
    {
        proof {
            use_type_invariant(self);
        }
        out.push(0x30 + self.major / 10);
        out.push(0x30 + self.major % 10);
        out.push(0x2e);
        out.push(0x30 + self.minor / 10);
        out.push(0x30 + self.minor % 10);
        assert(out@ =~= old(out)@ + self.spec_bytes());
    }

    /// A version is written as five bytes.
    pub proof fn lemma_bytes_len(self)
        ensures
            self.spec_bytes().len() == 5,
    {
    }

    /// The bytes of a version are valid and read back as that version.
    pub proof fn lemma_roundtrip(self)
        requires
            self.wf(),
        ensures
            self.spec_bytes().len() == 5,
            Self::spec_valid(self.spec_bytes()),
            self.decodes(self.spec_bytes()),
    {
    }

    /// Valid bytes spell one version only.
    pub proof fn lemma_decode_unique(self, other: Self, s: Seq<u8>)
        requires
            self.decodes(s),
            other.decodes(s),
        ensures
            self == other,
    {
    }
}

impl Default for FirmwareVersion {
    fn default() -> (r: Self)
        ensures
            r.spec_major() == 0 && r.spec_minor() == 0,
    {
        FirmwareVersion { major: 0, minor: 0 }
    }
}

/// The firmware versions of both earbuds.
#[derive(Clone, Copy, Debug, PartialEq, Eq, Hash, Structural)]
pub struct DualFirmwareVersion {
    pub left: FirmwareVersion,
    pub right: FirmwareVersion,
}

impl DualFirmwareVersion {
    pub open spec fn wf(self) -> bool {
        self.left.wf() && self.right.wf()
    }

    pub open spec fn spec_bytes(self) -> Seq<u8> {
        self.left.spec_bytes() + self.right.spec_bytes()
    }

    pub open spec fn decodes(self, s: Seq<u8>) -> bool {
        self.left.decodes(s.subrange(0, 5)) && self.right.decodes(s.subrange(5, 10))
    }

    /// Reads the left version, then the right one.
    pub fn take(input: &[u8], pos: usize) -> (r: Result<(usize, Self), ParseError>)
        ensures
            r is Ok <==> has_room(input@, pos, 10) && FirmwareVersion::spec_valid(
                input@.subrange(pos as int, pos + 5),
            ) && FirmwareVersion::spec_valid(input@.subrange(pos + 5, pos + 10)),
            r matches Ok((end, v)) ==> end == pos + 10 && v.decodes(
                input@.subrange(pos as int, pos + 10),
            ),
            r matches Err(e) ==> (if !has_room(input@, pos, 5) {
                e == ParseError::UnexpectedEndOfInput
            } else if !FirmwareVersion::spec_valid(input@.subrange(pos as int, pos + 5)) {
                e == ParseError::InvalidFirmwareVersion
            } else if !has_room(input@, pos, 10) {
                e == ParseError::UnexpectedEndOfInput
            } else {
                e == ParseError::InvalidFirmwareVersion
            }),
    {
        let (mid, left) = FirmwareVersion::take(input, pos)?;
        let (end, right) = FirmwareVersion::take(input, mid)?;
        proof {
            let s = input@.subrange(pos as int, pos + 10);
            assert(s.subrange(0, 5) =~= input@.subrange(pos as int, pos + 5));
            assert(s.subrange(5, 10) =~= input@.subrange(pos + 5, pos + 10));
        }
        Ok((end, DualFirmwareVersion { left, right }))
    }

    pub fn write(&self, out: &mut Vec<u8>)
        ensures
            final(out)@ == old(out)@ + self.spec_bytes(),
    {
        self.left.write(out);
        self.right.write(out);
        assert(out@ =~= old(out)@ + self.spec_bytes());
    }

    pub proof fn lemma_roundtrip(self)
        requires
            self.wf(),
        ensures
            self.spec_bytes().len() == 10,
            FirmwareVersion::spec_valid(self.spec_bytes().subrange(0, 5)),
            FirmwareVersion::spec_valid(self.spec_bytes().subrange(5, 10)),
            self.decodes(self.spec_bytes()),
    {
        self.left.lemma_roundtrip();
        self.right.lemma_roundtrip();
        assert(self.spec_bytes().subrange(0, 5) =~= self.left.spec_bytes());
        assert(self.spec_bytes().subrange(5, 10) =~= self.right.spec_bytes());
    }

    pub proof fn lemma_decode_unique(self, other: Self, s: Seq<u8>)
        requires
            self.decodes(s),
            other.decodes(s),
        ensures
            self == other,
    {
        self.left.lemma_decode_unique(other.left, s.subrange(0, 5));
        self.right.lemma_decode_unique(other.right, s.subrange(5, 10));
    }
}

impl Default for DualFirmwareVersion {
    fn default() -> (r: Self)
        ensures
            r.left.spec_major() == 0 && r.left.spec_minor() == 0,
            r.right.spec_major() == 0 && r.right.spec_minor() == 0,
    {
        DualFirmwareVersion { left: FirmwareVersion::default(), right: FirmwareVersion::default() }
    }
}

/// The sixteen bytes of a device's serial number.
#[derive(Clone, Copy, Debug, PartialEq, Eq, Hash)]
pub struct SerialNumber(pub [u8; 16]);

impl SerialNumber {
    pub open spec fn spec_bytes(self) -> Seq<u8> {
        self.0@
    }

    pub fn take(input: &[u8], pos: usize) -> (r: Result<(usize, Self), ParseError>)
        ensures
            r is Ok <==> has_room(input@, pos, 16),
            r matches Ok((end, v)) ==> end == pos + 16 && v.spec_bytes() == input@.subrange(
                pos as int,
                pos + 16,
            ),
            r matches Err(e) ==> e == ParseError::UnexpectedEndOfInput,
    {
        if !room(input, pos, 16) {
            return Err(ParseError::UnexpectedEndOfInput);
        }
        let mut buf = [0u8; 16];
        copy_bytes(&mut buf, input, pos);
        Ok((pos + 16, SerialNumber(buf)))
    }

    pub fn write(&self, out: &mut Vec<u8>)
        ensures
            final(out)@ == old(out)@ + self.spec_bytes(),
    {
        push_all(out, self.0.as_slice());
    }
}

/// The ten band levels of one channel's equalizer, as the device encodes them
/// (`0x78` is the neutral level).
#[derive(Clone, Copy, Debug, PartialEq, Eq, Hash)]
pub struct VolumeAdjustments(pub [u8; 10]);

impl VolumeAdjustments {
    pub open spec fn spec_bytes(self) -> Seq<u8> {
        self.0@
    }

    /// Every band at the neutral level.
    pub fn flat() -> (r: Self)
        ensures
            r.spec_bytes() == Seq::new(10, |i: int| 0x78u8),
    {
        let r = VolumeAdjustments([0x78u8; 10]);
        assert(r.spec_bytes() =~= Seq::new(10, |i: int| 0x78u8));
        r
    }

    pub fn take(input: &[u8], pos: usize) -> (r: Result<(usize, Self), ParseError>)
        ensures
            r is Ok <==> has_room(input@, pos, 10),
            r matches Ok((end, v)) ==> end == pos + 10 && v.spec_bytes() == input@.subrange(
                pos as int,
                pos + 10,
            ),
            r matches Err(e) ==> e == ParseError::UnexpectedEndOfInput,
    {
        if !room(input, pos, 10) {
            return Err(ParseError::UnexpectedEndOfInput);
        }
        let mut buf = [0u8; 10];
        copy_bytes(&mut buf, input, pos);
        Ok((pos + 10, VolumeAdjustments(buf)))
    }

    pub fn write(&self, out: &mut Vec<u8>)
        ensures
            final(out)@ == old(out)@ + self.spec_bytes(),
    {
        push_all(out, self.0.as_slice());
    }
}

/// Equalizer levels for the left and the right channel.
#[derive(Clone, Copy, Debug, PartialEq, Eq, Hash)]
pub struct StereoVolumeAdjustments {
    pub left: VolumeAdjustments,
    pub right: VolumeAdjustments,
}

impl StereoVolumeAdjustments {
    pub open spec fn spec_bytes(self) -> Seq<u8> {
        self.left.spec_bytes() + self.right.spec_bytes()
    }

    pub open spec fn decodes(self, s: Seq<u8>) -> bool {
        self.left.spec_bytes() == s.subrange(0, 10) && self.right.spec_bytes() == s.subrange(
            10,
            20,
        )
    }

    pub fn flat() -> (r: Self)
        ensures
            r.left.spec_bytes() == Seq::new(10, |i: int| 0x78u8),
            r.right.spec_bytes() == Seq::new(10, |i: int| 0x78u8),
    {
        StereoVolumeAdjustments { left: VolumeAdjustments::flat(), right: VolumeAdjustments::flat() }
    }

    pub fn take(input: &[u8], pos: usize) -> (r: Result<(usize, Self), ParseError>)
        ensures
            r is Ok <==> has_room(input@, pos, 20),
            r matches Ok((end, v)) ==> end == pos + 20 && v.decodes(
                input@.subrange(pos as int, pos + 20),
            ),
            r matches Err(e) ==> e == ParseError::UnexpectedEndOfInput,
    {
        if !room(input, pos, 20) {
            return Err(ParseError::UnexpectedEndOfInput);
        }
        let (mid, left) = VolumeAdjustments::take(input, pos)?;
        let (end, right) = VolumeAdjustments::take(input, mid)?;
        proof {
            let s = input@.subrange(pos as int, pos + 20);
            assert(s.subrange(0, 10) =~= input@.subrange(pos as int, pos + 10));
            assert(s.subrange(10, 20) =~= input@.subrange(pos + 10, pos + 20));
        }
        Ok((end, StereoVolumeAdjustments { left, right }))
    }

    pub fn write(&self, out: &mut Vec<u8>)
        ensures
            final(out)@ == old(out)@ + self.spec_bytes(),
    {
        self.left.write(out);
        self.right.write(out);
        assert(out@ =~= old(out)@ + self.spec_bytes());
    }

    pub proof fn lemma_roundtrip(self)
        ensures
            self.spec_bytes().len() == 20,
            self.decodes(self.spec_bytes()),
    {
        assert(self.spec_bytes().subrange(0, 10) =~= self.left.spec_bytes());
        assert(self.spec_bytes().subrange(10, 20) =~= self.right.spec_bytes());
    }

    pub proof fn lemma_decode_unique(self, other: Self, s: Seq<u8>)
        requires
            self.decodes(s),
            other.decodes(s),
        ensures
            self == other,
    {
        assert(self.left.0 =~= other.left.0);
        assert(self.right.0 =~= other.right.0);
    }
}

/// The preset id that marks a custom equalizer profile.
pub const CUSTOM_EQUALIZER_PRESET_ID: u16 = 0xfefe;

/// An equalizer preset and the levels of both channels.
#[derive(Clone, Copy, Debug, PartialEq, Eq, Hash)]
pub struct EqualizerConfiguration {
    pub preset_id: u16,
    pub volume_adjustments: StereoVolumeAdjustments,
}

impl EqualizerConfiguration {
    /// Preset id (little endian), then both channels.
    pub open spec fn spec_bytes(self) -> Seq<u8> {
        seq![(self.preset_id % 256) as u8, (self.preset_id / 256) as u8]
            + self.volume_adjustments.spec_bytes()
    }

    pub open spec fn decodes(self, s: Seq<u8>) -> bool {
        &&& self.preset_id == s[0] + 256 * s[1]
        &&& self.volume_adjustments.decodes(s.subrange(2, 22))
    }

    /// A custom profile with the given levels.
    pub fn new_custom_profile(volume_adjustments: StereoVolumeAdjustments) -> (r: Self)
        ensures
            r.preset_id == CUSTOM_EQUALIZER_PRESET_ID,
            r.volume_adjustments == volume_adjustments,
    {
        EqualizerConfiguration { preset_id: CUSTOM_EQUALIZER_PRESET_ID, volume_adjustments }
    }

    pub fn take(input: &[u8], pos: usize) -> (r: Result<(usize, Self), ParseError>)
        ensures
            r is Ok <==> has_room(input@, pos, 22),
            r matches Ok((end, v)) ==> end == pos + 22 && v.decodes(
                input@.subrange(pos as int, pos + 22),
            ),
            r matches Err(e) ==> e == ParseError::UnexpectedEndOfInput,
    {
        if !room(input, pos, 22) {
            return Err(ParseError::UnexpectedEndOfInput);
        }
        let preset_id = input[pos] as u16 + 256 * (input[pos + 1] as u16);
        let (end, volume_adjustments) = StereoVolumeAdjustments::take(input, pos + 2)?;
        proof {
            let s = input@.subrange(pos as int, pos + 22);
            assert(s.subrange(2, 22) =~= input@.subrange(pos + 2, pos + 22));
        }
        Ok((end, EqualizerConfiguration { preset_id, volume_adjustments }))
    }

    pub fn write(&self, out: &mut Vec<u8>)
        ensures
            final(out)@ == old(out)@ + self.spec_bytes(),
    {
        out.push((self.preset_id % 256) as u8);
        out.push((self.preset_id / 256) as u8);
        self.volume_adjustments.write(out);
        assert(out@ =~= old(out)@ + self.spec_bytes());
    }

    pub proof fn lemma_roundtrip(self)
        ensures
            self.spec_bytes().len() == 22,
            self.decodes(self.spec_bytes()),
    {
        self.volume_adjustments.lemma_roundtrip();
        assert(self.spec_bytes().subrange(2, 22) =~= self.volume_adjustments.spec_bytes());
    }

    pub proof fn lemma_decode_unique(self, other: Self, s: Seq<u8>)
        requires
            self.decodes(s),
            other.decodes(s),
        ensures
            self == other,
    {
        self.volume_adjustments.lemma_decode_unique(other.volume_adjustments, s.subrange(2, 22));
    }
}

/// The age range the user gave for hearing tests.
#[derive(Clone, Copy, Debug, PartialEq, Eq, Hash, Default, Structural)]
pub struct AgeRange(pub u8);

/// The kind of a HearID profile.
#[derive(Clone, Copy, Debug, PartialEq, Eq, Hash, Default, Structural)]
pub struct HearIdType(pub u8);

/// A HearID hearing profile as this device sends it: the two music-type bytes
/// that follow it are skipped when reading and written as zero.
#[derive(Clone, Copy, Debug, PartialEq, Eq, Hash)]
pub struct CustomHearId {
    pub is_enabled: bool,
    pub volume_adjustments: StereoVolumeAdjustments,
    pub time: u32,
    pub hear_id_type: HearIdType,
    pub custom_volume_adjustments: StereoVolumeAdjustments,
}

/// The four little-endian bytes of `v`.
pub open spec fn spec_u32_le_bytes(v: u32) -> Seq<u8> {
    seq![(v % 0x100) as u8, ((v / 0x100) % 0x100) as u8, ((v / 0x10000) % 0x100) as u8, (v / 0x1000000) as u8]
}

/// The value of four little-endian bytes.
pub open spec fn spec_u32_from_le(s: Seq<u8>) -> int {
    s[0] + 0x100 * s[1] + 0x10000 * s[2] + 0x1000000 * s[3]
}

impl CustomHearId {
    /// Enabled flag, levels, time (little endian), profile kind, custom levels, two zero bytes.
    pub open spec fn spec_bytes(self) -> Seq<u8> {
        seq![spec_bool_byte(self.is_enabled)] + self.volume_adjustments.spec_bytes()
            + spec_u32_le_bytes(self.time) + seq![self.hear_id_type.0]
            + self.custom_volume_adjustments.spec_bytes() + seq![0u8, 0u8]
    }

    pub open spec fn decodes(self, s: Seq<u8>) -> bool {
        &&& self.is_enabled == spec_take_bool(s[0])
        &&& self.volume_adjustments.decodes(s.subrange(1, 21))
        &&& self.time == spec_u32_from_le(s.subrange(21, 25))
        &&& self.hear_id_type == HearIdType(s[25])
        &&& self.custom_volume_adjustments.decodes(s.subrange(26, 46))
    }

    /// Reads the profile and skips the two music-type bytes after it.
    pub fn take_without_music_type(input: &[u8], pos: usize) -> (r: Result<
        (usize, Self),
        ParseError,
    >)
        ensures
            r is Ok <==> has_room(input@, pos, 48),
            r matches Ok((end, v)) ==> end == pos + 48 && v.decodes(
                input@.subrange(pos as int, pos + 48),
            ),
            r matches Err(e) ==> e == ParseError::UnexpectedEndOfInput,
    {
        if !room(input, pos, 48) {
            return Err(ParseError::UnexpectedEndOfInput);
        }
        let is_enabled = take_bool(input[pos]);
        let (p, volume_adjustments) = StereoVolumeAdjustments::take(input, pos + 1)?;
        let time = input[p] as u32 + 0x100 * (input[p + 1] as u32) + 0x10000 * (input[p + 2] as u32)
            + 0x1000000 * (input[p + 3] as u32);
        let hear_id_type = HearIdType(input[p + 4]);
        let (_q, custom_volume_adjustments) = StereoVolumeAdjustments::take(input, p + 5)?;
        proof {
            let s = input@.subrange(pos as int, pos + 48);
            assert(s.subrange(1, 21) =~= input@.subrange(pos + 1, pos + 21));
            assert(s.subrange(21, 25) =~= input@.subrange(pos + 21, pos + 25));
            assert(s.subrange(26, 46) =~= input@.subrange(pos + 26, pos + 46));
        }
        Ok(
            (
                pos + 48,
                CustomHearId {
                    is_enabled,
                    volume_adjustments,
                    time,
                    hear_id_type,
                    custom_volume_adjustments,
                },
            ),
        )
    }

    pub fn write(&self, out: &mut Vec<u8>)
        ensures
            final(out)@ == old(out)@ + self.spec_bytes(),
    {
        out.push(bool_byte(self.is_enabled));
        self.volume_adjustments.write(out);
        out.push((self.time % 0x100) as u8);
        out.push(((self.time / 0x100) % 0x100) as u8);
        out.push(((self.time / 0x10000) % 0x100) as u8);
        out.push((self.time / 0x1000000) as u8);
        out.push(self.hear_id_type.0);
        self.custom_volume_adjustments.write(out);
        out.push(0);
        out.push(0);
        assert(out@ =~= old(out)@ + self.spec_bytes());
    }

    pub proof fn lemma_roundtrip(self)
        ensures
            self.spec_bytes().len() == 48,
            self.decodes(self.spec_bytes()),
    {
        let b = self.spec_bytes();
        self.volume_adjustments.lemma_roundtrip();
        self.custom_volume_adjustments.lemma_roundtrip();
        assert(b.subrange(1, 21) =~= self.volume_adjustments.spec_bytes());
        assert(b.subrange(21, 25) =~= spec_u32_le_bytes(self.time));
        assert(b.subrange(26, 46) =~= self.custom_volume_adjustments.spec_bytes());
    }

    pub proof fn lemma_decode_unique(self, other: Self, s: Seq<u8>)
        requires
            self.decodes(s),
            other.decodes(s),
        ensures
            self == other,
    {
        self.volume_adjustments.lemma_decode_unique(other.volume_adjustments, s.subrange(1, 21));
        self.custom_volume_adjustments.lemma_decode_unique(
            other.custom_volume_adjustments,
            s.subrange(26, 46),
        );
    }
}

/// The configuration of the six touch controls, as the device encodes it (two bytes per control).
#[derive(Clone, Copy, Debug, PartialEq, Eq, Hash)]
pub struct ButtonStatusCollection(pub [u8; 12]);

impl ButtonStatusCollection {
    pub open spec fn spec_bytes(self) -> Seq<u8> {
        self.0@
    }

    pub proof fn lemma_bytes_len(self)
        ensures
            self.spec_bytes().len() == 12,
    {
    }

    pub fn take(input: &[u8], pos: usize) -> (r: Result<(usize, Self), ParseError>)
        ensures
            r is Ok <==> has_room(input@, pos, 12),
            r matches Ok((end, v)) ==> end == pos + 12 && v.spec_bytes() == input@.subrange(
                pos as int,
                pos + 12,
            ),
            r matches Err(e) ==> e == ParseError::UnexpectedEndOfInput,
    {
        if !room(input, pos, 12) {
            return Err(ParseError::UnexpectedEndOfInput);
        }
        let mut buf = [0u8; 12];
        copy_bytes(&mut buf, input, pos);
        Ok((pos + 12, ButtonStatusCollection(buf)))
    }

    pub fn write(&self, out: &mut Vec<u8>)
        ensures
            final(out)@ == old(out)@ + self.spec_bytes(),
    {
        push_all(out, self.0.as_slice());
    }
}

/// Whether the device turns itself off when idle, and after which of its durations.
#[derive(Clone, Copy, Debug, PartialEq, Eq, Hash, Default, Structural)]
pub struct AutoPowerOff {
    pub is_enabled: bool,
    pub duration: u8,
}

impl AutoPowerOff {
    pub open spec fn spec_bytes(self) -> Seq<u8> {
        seq![spec_bool_byte(self.is_enabled), self.duration]
    }

    pub open spec fn spec_decode(s: Seq<u8>) -> Self {
        AutoPowerOff { is_enabled: spec_take_bool(s[0]), duration: s[1] }
    }

    pub fn take(input: &[u8], pos: usize) -> (r: Result<(usize, Self), ParseError>)
        ensures
            r is Ok <==> has_room(input@, pos, 2),
            r matches Ok((end, v)) ==> end == pos + 2 && v == Self::spec_decode(
                input@.subrange(pos as int, pos + 2),
            ),
            r matches Err(e) ==> e == ParseError::UnexpectedEndOfInput,
    {
        if !room(input, pos, 2) {
            return Err(ParseError::UnexpectedEndOfInput);
        }
        Ok((pos + 2, AutoPowerOff { is_enabled: take_bool(input[pos]), duration: input[pos + 1] }))
    }

    pub fn write(&self, out: &mut Vec<u8>)
        ensures
            final(out)@ == old(out)@ + self.spec_bytes(),
    {
        out.push(bool_byte(self.is_enabled));
        out.push(self.duration);
        assert(out@ =~= old(out)@ + self.spec_bytes());
    }

    pub proof fn lemma_roundtrip(self)
        ensures
            self.spec_bytes().len() == 2,
            Self::spec_decode(self.spec_bytes()) == self,
    {
    }
}

} // verus!
