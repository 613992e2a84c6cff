//! The sound modes of the A3947: ambient sound, noise canceling, wind noise
//! and transport noise canceling, and their seven-byte wire encoding.
use vstd::prelude::*;
use crate::parsing::{ParseError, spec_take_bool, spec_bool_byte, take_bool, bool_byte, take_u8};
use crate::structures::{AmbientSoundMode, TransparencyMode, has_room, room};

verus! {

/// The vehicle that transport noise canceling is tuned for.
#[derive(Clone, Copy, Debug, PartialEq, Eq, Hash, Structural)]
pub enum TransportNoiseCanceling {
    Plane,
    Train,
    Bus,
    Car,
}

impl TransportNoiseCanceling {
    /// The byte that stands for the vehicle on the wire.
    pub open spec fn spec_id(self) -> u8 {
        match self {
            TransportNoiseCanceling::Plane => 0,
            TransportNoiseCanceling::Train => 1,
            TransportNoiseCanceling::Bus => 2,
            TransportNoiseCanceling::Car => 3,
        }
    }

    /// The vehicle whose id is `b`, if any.
    pub open spec fn spec_from_repr(b: u8) -> Option<Self> {
        if b == 0 {
            Some(TransportNoiseCanceling::Plane)
        } else if b == 1 {
            Some(TransportNoiseCanceling::Train)
        } else if b == 2 {
            Some(TransportNoiseCanceling::Bus)
        } else if b == 3 {
            Some(TransportNoiseCanceling::Car)
        } else {
            None
        }
    }

    /// A byte read from the device: an unknown id falls back to the default, `Plane`.
    pub open spec fn spec_from_byte(b: u8) -> Self {
        match Self::spec_from_repr(b) {
            Some(m) => m,
            None => TransportNoiseCanceling::Plane,
        }
    }

    pub fn id(&self) -> (r: u8)
        ensures
            r == self.spec_id(),
    {
        match self {
            TransportNoiseCanceling::Plane => 0,
            TransportNoiseCanceling::Train => 1,
            TransportNoiseCanceling::Bus => 2,
            TransportNoiseCanceling::Car => 3,
        }
    }

    pub fn from_repr(b: u8) -> (r: Option<Self>)
        ensures
            r == Self::spec_from_repr(b),
    {
        if b == 0 {
            Some(TransportNoiseCanceling::Plane)
        } else if b == 1 {
            Some(TransportNoiseCanceling::Train)
        } else if b == 2 {
            Some(TransportNoiseCanceling::Bus)
        } else if b == 3 {
            Some(TransportNoiseCanceling::Car)
        } else {
            None
        }
    }

    /// Reads the vehicle at `pos`.
    pub fn take(input: &[u8], pos: usize) -> (r: Result<(usize, Self), ParseError>)
        ensures
            r is Ok <==> pos < input@.len(),
            r matches Ok((end, v)) ==> end == pos + 1 && v == Self::spec_from_byte(
                input@[pos as int],
            ),
            r matches Err(e) ==> e == ParseError::UnexpectedEndOfInput,
    {
        let (end, b) = take_u8(input, pos)?;
        match Self::from_repr(b) {
            Some(m) => Ok((end, m)),
            None => Ok((end, TransportNoiseCanceling::Plane)),
        }
    }

    /// Reading the id of a vehicle gives the vehicle back, and ids are the first four bytes.
    pub proof fn lemma_roundtrip(self)
        ensures
            self.spec_id() < 4,
            Self::spec_from_repr(self.spec_id()) == Some(self),
            Self::spec_from_byte(self.spec_id()) == self,
    {
    }

    /// The variant's name, as shown to users.
    pub open spec fn spec_name(self) -> Seq<char> {
        match self {
            TransportNoiseCanceling::Plane => "Plane"@,
            TransportNoiseCanceling::Train => "Train"@,
            TransportNoiseCanceling::Bus => "Bus"@,
            TransportNoiseCanceling::Car => "Car"@,
        }
    }

    /// The variant's name, as shown to users.
    pub fn as_str(&self) -> (r: &'static str)
        ensures
            r@ == self.spec_name(),
    {
        match self {
            TransportNoiseCanceling::Plane => "Plane",
            TransportNoiseCanceling::Train => "Train",
            TransportNoiseCanceling::Bus => "Bus",
            TransportNoiseCanceling::Car => "Car",
        }
    }

    /// The variant whose name is `name`, if any.
    pub open spec fn spec_from_name(name: Seq<char>) -> Option<Self> {
        if name == "Plane"@ {
            Some(TransportNoiseCanceling::Plane)
        } else if name == "Train"@ {
            Some(TransportNoiseCanceling::Train)
        } else if name == "Bus"@ {
            Some(TransportNoiseCanceling::Bus)
        } else if name == "Car"@ {
            Some(TransportNoiseCanceling::Car)
        } else {
            None
        }
    }

    /// The variant whose name is `name`, if any.
    pub fn from_name(name: &str) -> (r: Option<Self>)
        ensures
            r == Self::spec_from_name(name@),
    {
        let name = name.to_owned();
        if name == "Plane".to_owned() {
            Some(TransportNoiseCanceling::Plane)
        } else if name == "Train".to_owned() {
            Some(TransportNoiseCanceling::Train)
        } else if name == "Bus".to_owned() {
            Some(TransportNoiseCanceling::Bus)
        } else if name == "Car".to_owned() {
            Some(TransportNoiseCanceling::Car)
        } else {
            None
        }
    }

    /// Every variant, in declaration order.
    pub fn all() -> (r: Vec<Self>)
        ensures
            r@ == seq![TransportNoiseCanceling::Plane, TransportNoiseCanceling::Train, TransportNoiseCanceling::Bus, TransportNoiseCanceling::Car],
    {
        let mut v: Vec<Self> = Vec::new();
        v.push(TransportNoiseCanceling::Plane);
        v.push(TransportNoiseCanceling::Train);
        v.push(TransportNoiseCanceling::Bus);
        v.push(TransportNoiseCanceling::Car);
        assert(v@ =~= seq![TransportNoiseCanceling::Plane, TransportNoiseCanceling::Train, TransportNoiseCanceling::Bus, TransportNoiseCanceling::Car]);
        v
    }

    /// Reading the name of a variant gives the variant back.
    pub proof fn lemma_name_roundtrip(self)
        ensures
            Self::spec_from_name(self.spec_name()) == Some(self),
    {
        reveal_strlit("Plane");
        reveal_strlit("Train");
        reveal_strlit("Bus");
        reveal_strlit("Car");
        // The names differ in their first letter.
        assert("Plane"@[0] != "Train"@[0]);
        assert("Plane"@[0] != "Bus"@[0]);
        assert("Plane"@[0] != "Car"@[0]);
        assert("Train"@[0] != "Bus"@[0]);
        assert("Train"@[0] != "Car"@[0]);
        assert("Bus"@[0] != "Car"@[0]);
    }
}

impl Default for TransportNoiseCanceling {
    fn default() -> (r: Self)
        ensures
            r == TransportNoiseCanceling::Plane,
    {
        TransportNoiseCanceling::Plane
    }
}

/// How the A3947 picks its noise canceling strength.
#[derive(Clone, Copy, Debug, PartialEq, Eq, Hash, Structural)]
pub enum A3947NoiseCancelingMode {
    Manual,
    Adaptive,
    Transport,
}

impl A3947NoiseCancelingMode {
    /// The byte that stands for the mode on the wire.
    pub open spec fn spec_id(self) -> u8 {
        match self {
            A3947NoiseCancelingMode::Manual => 0,
            A3947NoiseCancelingMode::Adaptive => 1,
            A3947NoiseCancelingMode::Transport => 2,
        }
    }

    /// The mode whose id is `b`, if any.
    pub open spec fn spec_from_repr(b: u8) -> Option<Self> {
        if b == 0 {
            Some(A3947NoiseCancelingMode::Manual)
        } else if b == 1 {
            Some(A3947NoiseCancelingMode::Adaptive)
        } else if b == 2 {
            Some(A3947NoiseCancelingMode::Transport)
        } else {
            None
        }
    }

    /// A byte read from the device: an unknown id falls back to the default, `Manual`.
    pub open spec fn spec_from_byte(b: u8) -> Self {
        match Self::spec_from_repr(b) {
            Some(m) => m,
            None => A3947NoiseCancelingMode::Manual,
        }
    }

    pub fn id(&self) -> (r: u8)
        ensures
            r == self.spec_id(),
    {
        match self {
            A3947NoiseCancelingMode::Manual => 0,
            A3947NoiseCancelingMode::Adaptive => 1,
            A3947NoiseCancelingMode::Transport => 2,
        }
    }

    pub fn from_repr(b: u8) -> (r: Option<Self>)
        ensures
            r == Self::spec_from_repr(b),
    {
        if b == 0 {
            Some(A3947NoiseCancelingMode::Manual)
        } else if b == 1 {
            Some(A3947NoiseCancelingMode::Adaptive)
        } else if b == 2 {
            Some(A3947NoiseCancelingMode::Transport)
        } else {
            None
        }
    }

    /// Reads the mode at `pos`.
    pub fn take(input: &[u8], pos: usize) -> (r: Result<(usize, Self), ParseError>)
        ensures
            r is Ok <==> pos < input@.len(),
            r matches Ok((end, v)) ==> end == pos + 1 && v == Self::spec_from_byte(
                input@[pos as int],
            ),
            r matches Err(e) ==> e == ParseError::UnexpectedEndOfInput,
    {
        let (end, b) = take_u8(input, pos)?;
        match Self::from_repr(b) {
            Some(m) => Ok((end, m)),
            None => Ok((end, A3947NoiseCancelingMode::Manual)),
        }
    }

    /// Reading the id of a mode gives the mode back, and ids are the first three bytes.
    pub proof fn lemma_roundtrip(self)
        ensures
            self.spec_id() < 3,
            Self::spec_from_repr(self.spec_id()) == Some(self),
            Self::spec_from_byte(self.spec_id()) == self,
    {
    }

    /// The variant's name, as shown to users.
    pub open spec fn spec_name(self) -> Seq<char> {
        match self {
            A3947NoiseCancelingMode::Manual => "Manual"@,
            A3947NoiseCancelingMode::Adaptive => "Adaptive"@,
            A3947NoiseCancelingMode::Transport => "Transport"@,
        }
    }

    /// The variant's name, as shown to users.
    pub fn as_str(&self) -> (r: &'static str)
        ensures
            r@ == self.spec_name(),
    {
        match self {
            A3947NoiseCancelingMode::Manual => "Manual",
            A3947NoiseCancelingMode::Adaptive => "Adaptive",
            A3947NoiseCancelingMode::Transport => "Transport",
        }
    }

    /// The variant whose name is `name`, if any.
    pub open spec fn spec_from_name(name: Seq<char>) -> Option<Self> {
        if name == "Manual"@ {
            Some(A3947NoiseCancelingMode::Manual)
        } else if name == "Adaptive"@ {
            Some(A3947NoiseCancelingMode::Adaptive)
        } else if name == "Transport"@ {
            Some(A3947NoiseCancelingMode::Transport)
        } else {
            None
        }
    }

    /// The variant whose name is `name`, if any.
    pub fn from_name(name: &str) -> (r: Option<Self>)
        ensures
            r == Self::spec_from_name(name@),
    {
        let name = name.to_owned();
        if name == "Manual".to_owned() {
            Some(A3947NoiseCancelingMode::Manual)
        } else if name == "Adaptive".to_owned() {
            Some(A3947NoiseCancelingMode::Adaptive)
        } else if name == "Transport".to_owned() {
            Some(A3947NoiseCancelingMode::Transport)
        } else {
            None
        }
    }

    /// Every variant, in declaration order.
    pub fn all() -> (r: Vec<Self>)
        ensures
            r@ == seq![A3947NoiseCancelingMode::Manual, A3947NoiseCancelingMode::Adaptive, A3947NoiseCancelingMode::Transport],
    {
        let mut v: Vec<Self> = Vec::new();
        v.push(A3947NoiseCancelingMode::Manual);
        v.push(A3947NoiseCancelingMode::Adaptive);
        v.push(A3947NoiseCancelingMode::Transport);
        assert(v@ =~= seq![A3947NoiseCancelingMode::Manual, A3947NoiseCancelingMode::Adaptive, A3947NoiseCancelingMode::Transport]);
        v
    }

    /// Reading the name of a variant gives the variant back.
    pub proof fn lemma_name_roundtrip(self)
        ensures
            Self::spec_from_name(self.spec_name()) == Some(self),
    {
        reveal_strlit("Manual");
        reveal_strlit("Adaptive");
        reveal_strlit("Transport");
        // The names differ in their first letter.
        assert("Manual"@[0] != "Adaptive"@[0]);
        assert("Manual"@[0] != "Transport"@[0]);
        assert("Adaptive"@[0] != "Transport"@[0]);
    }
}

impl Default for A3947NoiseCancelingMode {
    fn default() -> (r: Self)
        ensures
            r == A3947NoiseCancelingMode::Manual,
    {
        A3947NoiseCancelingMode::Manual
    }
}

/// Wind noise suppression, and whether the device currently detects wind.
#[derive(Clone, Copy, Debug, PartialEq, Eq, Hash, Structural)]
pub struct WindNoise {
    pub is_suppression_enabled: bool,
    pub is_detected: bool,
}

impl WindNoise {
    /// Bit 0 is suppression, bit 1 detection.
    pub open spec fn spec_byte(self) -> u8 {
        (spec_bool_byte(self.is_suppression_enabled) + 2 * spec_bool_byte(self.is_detected)) as u8
    }

    /// What a byte reads as: bit 0 is suppression, bit 1 detection; other bits are ignored.
    pub open spec fn spec_from_byte(b: u8) -> Self {
        WindNoise { is_suppression_enabled: b & 1 != 0, is_detected: b & 2 != 0 }
    }

    pub fn byte(&self) -> (r: u8)
        ensures
            r == self.spec_byte(),
    {
        let s = bool_byte(self.is_suppression_enabled);
        let d = bool_byte(self.is_detected);
        assert(s <= 1 && d <= 1 ==> s | (d << 1u8) == s + 2 * d) by (bit_vector);
        s | (d << 1u8)
    }

    pub fn from_byte(b: u8) -> (r: Self)
        ensures
            r == Self::spec_from_byte(b),
    {
        WindNoise { is_suppression_enabled: b & 1 != 0, is_detected: b & 2 != 0 }
    }

    /// Reads the wind noise byte at `pos`.
    pub fn take(input: &[u8], pos: usize) -> (r: Result<(usize, Self), ParseError>)
        ensures
            r is Ok <==> pos < input@.len(),
            r matches Ok((end, v)) ==> end == pos + 1 && v == Self::spec_from_byte(
                input@[pos as int],
            ),
            r matches Err(e) ==> e == ParseError::UnexpectedEndOfInput,
    {
        let (end, b) = take_u8(input, pos)?;
        Ok((end, Self::from_byte(b)))
    }

    /// Reading the byte of a setting gives the setting back; the byte uses only the two low bits.
    pub proof fn lemma_roundtrip(self)
        ensures
            self.spec_byte() < 4,
            Self::spec_from_byte(self.spec_byte()) == self,
    {
        let b = self.spec_byte();
        assert(b == 0 ==> (b & 1 == 0 && b & 2 == 0)) by (bit_vector);
        assert(b == 1 ==> (b & 1 != 0 && b & 2 == 0)) by (bit_vector);
        assert(b == 2 ==> (b & 1 == 0 && b & 2 != 0)) by (bit_vector);
        assert(b == 3 ==> (b & 1 != 0 && b & 2 != 0)) by (bit_vector);
    }
}

impl Default for WindNoise {
    fn default() -> (r: Self)
        ensures
            r == (WindNoise { is_suppression_enabled: false, is_detected: false }),
    {
        WindNoise { is_suppression_enabled: false, is_detected: false }
    }
}

/// All sound mode settings of the A3947.
#[derive(Clone, Copy, Debug, PartialEq, Eq, Hash, Structural)]
pub struct A3947SoundModes {
    pub ambient_sound_mode: AmbientSoundMode,
    pub transparency_mode: TransparencyMode,
    pub manual_noise_canceling: u8,
    pub noise_canceling_mode: A3947NoiseCancelingMode,
    pub wind_noise: WindNoise,
    pub adaptive_env_detection: bool,
    pub transport_noise_canceling: TransportNoiseCanceling,
}

impl A3947SoundModes {
    /// The seven bytes on the wire: ambient sound mode, manual noise canceling
    /// level, transparency mode, noise canceling mode, wind noise, adaptive
    /// environment detection, transport noise canceling.
    pub open spec fn spec_bytes(self) -> Seq<u8> {
        seq![
            self.ambient_sound_mode.spec_id(),
            self.manual_noise_canceling,
            self.transparency_mode.spec_id(),
            self.noise_canceling_mode.spec_id(),
            self.wind_noise.spec_byte(),
            spec_bool_byte(self.adaptive_env_detection),
            self.transport_noise_canceling.spec_id(),
        ]
    }

    /// What seven bytes read as, in the order of `spec_bytes`.
    pub open spec fn spec_decode(s: Seq<u8>) -> Self {
        A3947SoundModes {
            ambient_sound_mode: AmbientSoundMode::spec_from_byte(s[0]),
            manual_noise_canceling: s[1],
            transparency_mode: TransparencyMode::spec_from_byte(s[2]),
            noise_canceling_mode: A3947NoiseCancelingMode::spec_from_byte(s[3]),
            wind_noise: WindNoise::spec_from_byte(s[4]),
            adaptive_env_detection: spec_take_bool(s[5]),
            transport_noise_canceling: TransportNoiseCanceling::spec_from_byte(s[6]),
        }
    }

    /// All defaults: noise canceling, fully transparent, level 0, manual mode,
    /// no wind noise, no environment detection, plane.
    pub open spec fn spec_default() -> Self {
        A3947SoundModes {
            ambient_sound_mode: AmbientSoundMode::NoiseCanceling,
            transparency_mode: TransparencyMode::FullyTransparent,
            manual_noise_canceling: 0,
            noise_canceling_mode: A3947NoiseCancelingMode::Manual,
            wind_noise: WindNoise { is_suppression_enabled: false, is_detected: false },
            adaptive_env_detection: false,
            transport_noise_canceling: TransportNoiseCanceling::Plane,
        }
    }

    /// Reads the seven sound mode bytes that start at `pos`.
    pub fn take(input: &[u8], pos: usize) -> (r: Result<(usize, Self), ParseError>)
        ensures
            r is Ok <==> has_room(input@, pos, 7),
            r matches Ok((end, v)) ==> end == pos + 7 && v == Self::spec_decode(
                input@.subrange(pos as int, pos + 7),
            ),
            r matches Err(e) ==> e == ParseError::UnexpectedEndOfInput,
    {
        if !room(input, pos, 7) {
            return Err(ParseError::UnexpectedEndOfInput);
        }
        let (p, ambient_sound_mode) = AmbientSoundMode::take(input, pos)?;
        let (p, manual_noise_canceling) = take_u8(input, p)?;
        let (p, transparency_mode) = TransparencyMode::take(input, p)?;
        let (p, noise_canceling_mode) = A3947NoiseCancelingMode::take(input, p)?;
        let (p, wind_noise) = WindNoise::take(input, p)?;
        let (p, env) = take_u8(input, p)?;
        let adaptive_env_detection = take_bool(env);
        let (p, transport_noise_canceling) = TransportNoiseCanceling::take(input, p)?;
        Ok(
            (
                p,
                A3947SoundModes {
                    ambient_sound_mode,
                    manual_noise_canceling,
                    transparency_mode,
                    noise_canceling_mode,
                    wind_noise,
                    adaptive_env_detection,
                    transport_noise_canceling,
                },
            ),
        )
    }

    /// The seven bytes that encode the settings.
    pub fn bytes(&self) -> (r: [u8; 7])
        ensures
            r@ == self.spec_bytes(),
    {
        let r = [
            self.ambient_sound_mode.id(),
            self.manual_noise_canceling,
            self.transparency_mode.id(),
            self.noise_canceling_mode.id(),
            self.wind_noise.byte(),
            bool_byte(self.adaptive_env_detection),
            self.transport_noise_canceling.id(),
        ];
        assert(r@ =~= self.spec_bytes());
        r
    }

    /// Appends the seven bytes that encode the settings.
    pub fn write(&self, out: &mut Vec<u8>)
        ensures
            final(out)@ == old(out)@ + self.spec_bytes(),
    {
        out.push(self.ambient_sound_mode.id());
        out.push(self.manual_noise_canceling);
        out.push(self.transparency_mode.id());
        out.push(self.noise_canceling_mode.id());
        out.push(self.wind_noise.byte());
        out.push(bool_byte(self.adaptive_env_detection));
        out.push(self.transport_noise_canceling.id());
        assert(out@ =~= old(out)@ + self.spec_bytes());
    }

    /// Writing settings and reading them back gives the same settings.
    pub proof fn lemma_roundtrip(self)
        ensures
            self.spec_bytes().len() == 7,
            Self::spec_decode(self.spec_bytes()) == self,
    {
        self.ambient_sound_mode.lemma_roundtrip();
        self.transparency_mode.lemma_roundtrip();
        self.noise_canceling_mode.lemma_roundtrip();
        self.wind_noise.lemma_roundtrip();
        self.transport_noise_canceling.lemma_roundtrip();
    }
}

impl Default for A3947SoundModes {
    fn default() -> (r: Self)
        ensures
            r == Self::spec_default(),
    {
        A3947SoundModes {
            ambient_sound_mode: AmbientSoundMode::NoiseCanceling,
            transparency_mode: TransparencyMode::FullyTransparent,
            manual_noise_canceling: 0,
            noise_canceling_mode: A3947NoiseCancelingMode::Manual,
            wind_noise: WindNoise { is_suppression_enabled: false, is_detected: false },
            adaptive_env_detection: false,
            transport_noise_canceling: TransportNoiseCanceling::Plane,
        }
    }
}

} // verus!
