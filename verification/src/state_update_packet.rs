//! The state update packet of the A3947: every setting and status the earbuds
//! report, its body layout, the handler that applies it and its registration.
use vstd::prelude::*;
use crate::module_collection::{ModuleCollection, PacketHandler};
use crate::parsing::{ParseError, spec_take_bool, spec_bool_byte, take_bool, bool_byte, take_u8};
use crate::packet::{
    Command, Direction, Packet, Inbound, spec_state_command, state_command, spec_frame,
    spec_take_inbound, lemma_inbound_frame_roundtrip,
};
use crate::sound_modes::A3947SoundModes;
use crate::structures::{
    AgeRange, AutoPowerOff, BatteryLevel, ButtonStatusCollection, CustomHearId, DeviceSide,
    DualBattery, DualFirmwareVersion, EqualizerConfiguration, FirmwareVersion, HearIdType,
    SerialNumber, SingleBattery, StereoVolumeAdjustments, TouchTone, TwsStatus,
};

verus! {

/// Everything the A3947 reports in one state update.
#[derive(Clone, Copy, Debug, PartialEq, Eq)]
pub struct A3947StateUpdatePacket {
    pub tws_status: TwsStatus,
    pub battery: DualBattery,
    pub dual_firmware_version: DualFirmwareVersion,
    pub serial_number: SerialNumber,
    pub equalizer_configuration: EqualizerConfiguration,
    pub age_range: AgeRange,
    pub custom_hear_id: CustomHearId,
    pub button_configuration: ButtonStatusCollection,
    pub sound_modes: A3947SoundModes,
    pub case_battery: BatteryLevel,
    pub sound_leak_detection: bool,
    pub game_mode_switch: bool,
    pub touch_tone: TouchTone,
    pub ldac: bool,
    pub dual_connection: bool,
    pub limit_volume: bool,
    pub db_limit: u8,
    pub db_refresh_rate: u8,
    pub auto_play_pause: bool,
    pub wearing_tone: bool,
    pub auto_power_off: AutoPowerOff,
    pub touch_lock: bool,
    pub low_battery_tone: bool,
}

/// How many bytes the button configuration of the A3947 takes.
pub open spec fn button_configuration_size() -> nat {
    12
}

/// How many bytes lie between the button configuration and the byte before
/// the sound modes, given the offset byte that precedes the button
/// configuration. The offset counts the button configuration and two more
/// bytes; an offset smaller than that skips nothing.
pub open spec fn spec_skip_len(offset: u8) -> nat {
    if offset >= button_configuration_size() + 2 {
        (offset - (button_configuration_size() + 2)) as nat
    } else {
        0
    }
}

/// The length of a body whose skip offset byte is `offset`.
pub open spec fn spec_body_len(offset: u8) -> nat {
    155 + spec_skip_len(offset)
}

/// The five bytes written where the body holds a firmware version that is not kept: `00.00`.
pub open spec fn spec_unknown_firmware_bytes() -> Seq<u8> {
    seq![0x30u8, 0x30u8, 0x2eu8, 0x30u8, 0x30u8]
}

/// Why the body `s` cannot be read, if it cannot: fields are read in order, so
/// the first field that is missing or malformed decides.
pub open spec fn spec_take_error(s: Seq<u8>) -> Option<ParseError> {
    if s.len() < 11 {
        Some(ParseError::UnexpectedEndOfInput)
    } else if !FirmwareVersion::spec_valid(s.subrange(6, 11)) {
        Some(ParseError::InvalidFirmwareVersion)
    } else if s.len() < 16 {
        Some(ParseError::UnexpectedEndOfInput)
    } else if !FirmwareVersion::spec_valid(s.subrange(11, 16)) {
        Some(ParseError::InvalidFirmwareVersion)
    } else if s.len() < 37 {
        Some(ParseError::UnexpectedEndOfInput)
    } else if !FirmwareVersion::spec_valid(s.subrange(32, 37)) {
        Some(ParseError::InvalidFirmwareVersion)
    } else if s.len() < spec_body_len(s[108]) {
        Some(ParseError::UnexpectedEndOfInput)
    } else if s.len() > spec_body_len(s[108]) {
        Some(ParseError::TrailingBytes)
    } else {
        None
    }
}

impl A3947StateUpdatePacket {
    /// The firmware versions have two-digit parts (always so for values built in code).
    pub open spec fn wf(self) -> bool {
        self.dual_firmware_version.wf()
    }

    /// Whether `self` is what the body `s` reads as. Offsets are those of the
    /// body layout: a fixed head of 108 bytes (status, batteries, firmware,
    /// serial number, an unused firmware version, equalizer, age range,
    /// HearID), the skip offset, the button configuration, the skipped bytes,
    /// then a fixed tail that starts at `t`.
    pub open spec fn decodes_from(self, s: Seq<u8>) -> bool {
        let t: int = 121 + spec_skip_len(s[108]) as int;
        &&& self.tws_status == TwsStatus::spec_decode(s.subrange(0, 2))
        &&& self.battery == DualBattery::spec_decode(s.subrange(2, 6))
        &&& self.dual_firmware_version.decodes(s.subrange(6, 16))
        &&& self.serial_number.spec_bytes() == s.subrange(16, 32)
        &&& self.equalizer_configuration.decodes(s.subrange(37, 59))
        &&& self.age_range == AgeRange(s[59])
        &&& self.custom_hear_id.decodes(s.subrange(60, 108))
        &&& self.button_configuration.spec_bytes() == s.subrange(109, 121)
        &&& self.sound_modes == A3947SoundModes::spec_decode(s.subrange(t + 1, t + 8))
        &&& self.case_battery == BatteryLevel(s[t + 14])
        &&& self.sound_leak_detection == spec_take_bool(s[t + 16])
        &&& self.game_mode_switch == spec_take_bool(s[t + 18])
        &&& self.touch_tone == TouchTone::spec_from_byte(s[t + 19])
        &&& self.ldac == spec_take_bool(s[t + 21])
        &&& self.dual_connection == spec_take_bool(s[t + 22])
        &&& self.limit_volume == spec_take_bool(s[t + 24])
        &&& self.db_limit == s[t + 25]
        &&& self.db_refresh_rate == s[t + 26]
        &&& self.auto_play_pause == spec_take_bool(s[t + 27])
        &&& self.wearing_tone == spec_take_bool(s[t + 28])
        &&& self.auto_power_off == AutoPowerOff::spec_decode(s.subrange(t + 29, t + 31))
        &&& self.touch_lock == spec_take_bool(s[t + 31])
        &&& self.low_battery_tone == spec_take_bool(s[t + 32])
    }

    /// The first 108 bytes of the body.
    pub open spec fn spec_head_bytes(self) -> Seq<u8> {
        self.tws_status.spec_bytes() + self.battery.spec_bytes()
            + self.dual_firmware_version.spec_bytes() + self.serial_number.spec_bytes()
            + spec_unknown_firmware_bytes() + self.equalizer_configuration.spec_bytes() + seq![
            self.age_range.0,
        ] + self.custom_hear_id.spec_bytes()
    }

    /// The last 34 bytes of the body: an unknown byte, the sound modes, six
    /// unknown bytes, then the remaining settings with unknown bytes written as zero.
    pub open spec fn spec_tail_bytes(self) -> Seq<u8> {
        seq![0u8] + self.sound_modes.spec_bytes() + seq![0u8, 0u8, 0u8, 0u8, 0u8, 0u8]
            + self.spec_settings_bytes() + self.auto_power_off.spec_bytes() + seq![
            spec_bool_byte(self.touch_lock),
            spec_bool_byte(self.low_battery_tone),
            0u8,
        ]
    }

    /// The body: head, a zero skip offset, the button configuration, tail.
    pub open spec fn spec_body(self) -> Seq<u8> {
        self.spec_head_bytes() + seq![0u8] + self.button_configuration.spec_bytes()
            + self.spec_tail_bytes()
    }

    /// Reads a state update body; all of `input` must be used.
    pub fn take(input: &[u8]) -> (r: Result<(usize, Self), ParseError>)
        ensures
            match r {
                Ok((n, p)) => {
                    &&& spec_take_error(input@) is None
                    &&& n == input@.len()
                    &&& p.decodes_from(input@)
                },
                Err(e) => spec_take_error(input@) == Some(e),
            },
    {
        let len = input.len();
        // The firmware versions are the only fields that can be malformed; the
        // fields before them are plain bytes.
        let (_, _dual_firmware_version) = DualFirmwareVersion::take(input, 6)?;
        let (_, _unknown_firmware_version) = FirmwareVersion::take(input, 32)?;
        if len < 109 {
            return Err(ParseError::UnexpectedEndOfInput);
        }
        let expected_len = 155 + skip_len(input[108]);
        if len < expected_len {
            return Err(ParseError::UnexpectedEndOfInput);
        }
        if len > expected_len {
            return Err(ParseError::TrailingBytes);
        }
        Ok((len, Self::decode_valid(input)))
    }

    /// Reads the fields of a body that `take` has checked, in wire order.
    fn decode_valid(input: &[u8]) -> (r: Self)
        requires
            spec_take_error(input@) is None,
        ensures
            r.decodes_from(input@),
    {
        let (p, tws_status) = TwsStatus::take(input, 0).unwrap();
        let (p, battery) = DualBattery::take(input, p).unwrap();
        let (p, dual_firmware_version) = DualFirmwareVersion::take(input, p).unwrap();
        let (p, serial_number) = SerialNumber::take(input, p).unwrap();
        let (p, _unknown_firmware_version) = FirmwareVersion::take(input, p).unwrap();
        let (p, equalizer_configuration) = EqualizerConfiguration::take(input, p).unwrap();
        let (p, age_range) = take_u8(input, p).unwrap();
        let (p, custom_hear_id) = CustomHearId::take_without_music_type(input, p).unwrap();
        // The offset that precedes the button configuration counts the bytes up
        // to the one before the sound modes, the button configuration included.
        let (p, skip_offset) = take_u8(input, p).unwrap();
        let (p, button_configuration) = ButtonStatusCollection::take(input, p).unwrap();
        let p = p + skip_len(skip_offset);
        let (p, _) = take_u8(input, p).unwrap();  // unknown
        let (p, sound_modes) = A3947SoundModes::take(input, p).unwrap();
        let p = p + 6;  // unknown
        let (p, case_battery) = take_u8(input, p).unwrap();
        let (p, _) = take_u8(input, p).unwrap();  // unknown
        let (p, sound_leak_detection) = take_u8(input, p).unwrap();
        let (p, _) = take_u8(input, p).unwrap();  // unknown
        let (p, game_mode_switch) = take_u8(input, p).unwrap();
        let (p, touch_tone) = take_u8(input, p).unwrap();
        let (p, _) = take_u8(input, p).unwrap();  // unknown
        let (p, ldac) = take_u8(input, p).unwrap();
        let (p, dual_connection) = take_u8(input, p).unwrap();
        let (p, _) = take_u8(input, p).unwrap();  // unknown
        let (p, limit_volume) = take_u8(input, p).unwrap();
        let (p, db_limit) = take_u8(input, p).unwrap();
        let (p, db_refresh_rate) = take_u8(input, p).unwrap();
        let (p, auto_play_pause) = take_u8(input, p).unwrap();
        let (p, wearing_tone) = take_u8(input, p).unwrap();
        let (p, auto_power_off) = AutoPowerOff::take(input, p).unwrap();
        let (p, touch_lock) = take_u8(input, p).unwrap();
        let (_, low_battery_tone) = take_u8(input, p).unwrap();
        A3947StateUpdatePacket {
            tws_status,
            battery,
            dual_firmware_version,
            serial_number,
            equalizer_configuration,
            age_range: AgeRange(age_range),
            custom_hear_id,
            button_configuration,
            sound_modes,
            case_battery: BatteryLevel(case_battery),
            sound_leak_detection: take_bool(sound_leak_detection),
            game_mode_switch: take_bool(game_mode_switch),
            touch_tone: TouchTone::from_byte(touch_tone),
            ldac: take_bool(ldac),
            dual_connection: take_bool(dual_connection),
            limit_volume: take_bool(limit_volume),
            db_limit,
            db_refresh_rate,
            auto_play_pause: take_bool(auto_play_pause),
            wearing_tone: take_bool(wearing_tone),
            auto_power_off,
            touch_lock: take_bool(touch_lock),
            low_battery_tone: take_bool(low_battery_tone),
        }
    }
}

impl A3947StateUpdatePacket {
    /// Whether `self` holds the values of a fresh state: nothing connected, no
    /// charge, firmware `00.00`, serial number of ASCII zeros, a flat custom
    /// equalizer profile, a disabled HearID profile with flat levels, zeroed
    /// button configuration, default sound modes, every flag off and every level zero.
    pub open spec fn is_default(self) -> bool {
        &&& self.tws_status == TwsStatus { is_connected: false, host_device: DeviceSide::Left }
        &&& self.battery == DualBattery {
            left: SingleBattery { is_charging: false, level: BatteryLevel(0) },
            right: SingleBattery { is_charging: false, level: BatteryLevel(0) },
        }
        &&& self.dual_firmware_version.left.spec_major() == 0
        &&& self.dual_firmware_version.left.spec_minor() == 0
        &&& self.dual_firmware_version.right.spec_major() == 0
        &&& self.dual_firmware_version.right.spec_minor() == 0
        &&& self.serial_number.spec_bytes() == Seq::new(16, |i: int| 0x30u8)
        &&& self.equalizer_configuration.preset_id == crate::structures::CUSTOM_EQUALIZER_PRESET_ID
        &&& is_flat(self.equalizer_configuration.volume_adjustments)
        &&& self.age_range == AgeRange(0)
        &&& !self.custom_hear_id.is_enabled
        &&& is_flat(self.custom_hear_id.volume_adjustments)
        &&& self.custom_hear_id.time == 0
        &&& self.custom_hear_id.hear_id_type == HearIdType(0)
        &&& is_flat(self.custom_hear_id.custom_volume_adjustments)
        &&& self.button_configuration.spec_bytes() == Seq::new(12, |i: int| 0u8)
        &&& self.sound_modes == A3947SoundModes::spec_default()
        &&& self.case_battery == BatteryLevel(0)
        &&& !self.sound_leak_detection
        &&& !self.game_mode_switch
        &&& self.touch_tone == TouchTone::Disabled
        &&& !self.ldac
        &&& !self.dual_connection
        &&& !self.limit_volume
        &&& self.db_limit == 0
        &&& self.db_refresh_rate == 0
        &&& !self.auto_play_pause
        &&& !self.wearing_tone
        &&& self.auto_power_off == AutoPowerOff { is_enabled: false, duration: 0 }
        &&& !self.touch_lock
        &&& !self.low_battery_tone
    }

    fn head_bytes(&self) -> (r: Vec<u8>)
        ensures
            r@ == self.spec_head_bytes(),
    {
        let mut h: Vec<u8> = Vec::new();
        self.tws_status.write(&mut h);
        assert(h@ =~= self.tws_status.spec_bytes());
        self.battery.write(&mut h);
        self.dual_firmware_version.write(&mut h);
        self.serial_number.write(&mut h);
        let unknown_firmware_version = FirmwareVersion::default();
        assert(unknown_firmware_version.spec_bytes() =~= spec_unknown_firmware_bytes());
        unknown_firmware_version.write(&mut h);
        self.equalizer_configuration.write(&mut h);
        let age = [self.age_range.0];
        assert(age@ =~= seq![self.age_range.0]);
        crate::parsing::push_all(&mut h, age.as_slice());
        self.custom_hear_id.write(&mut h);
        h
    }

    /// The fifteen-byte run of tail settings between the case battery and the
    /// wearing tone, unknown bytes zero.
    pub open spec fn spec_settings_bytes(self) -> Seq<u8> {
        seq![
            self.case_battery.0,
            0u8,
            spec_bool_byte(self.sound_leak_detection),
            0u8,
            spec_bool_byte(self.game_mode_switch),
            self.touch_tone.spec_id(),
            0u8,
            spec_bool_byte(self.ldac),
            spec_bool_byte(self.dual_connection),
            0u8,
            spec_bool_byte(self.limit_volume),
            self.db_limit,
            self.db_refresh_rate,
            spec_bool_byte(self.auto_play_pause),
            spec_bool_byte(self.wearing_tone),
        ]
    }

    fn tail_bytes(&self) -> (r: Vec<u8>)
        ensures
            r@ == self.spec_tail_bytes(),
    {
        let mut t: Vec<u8> = Vec::new();
        t.push(0);
        assert(t@ =~= seq![0u8]);
        self.sound_modes.write(&mut t);
        let zeros = [0u8; 6];
        assert(zeros@ =~= seq![0u8, 0u8, 0u8, 0u8, 0u8, 0u8]);
        crate::parsing::push_all(&mut t, zeros.as_slice());
        let settings = [
            self.case_battery.0,
            0u8,
            bool_byte(self.sound_leak_detection),
            0u8,
            bool_byte(self.game_mode_switch),
            self.touch_tone.id(),
            0u8,
            bool_byte(self.ldac),
            bool_byte(self.dual_connection),
            0u8,
            bool_byte(self.limit_volume),
            self.db_limit,
            self.db_refresh_rate,
            bool_byte(self.auto_play_pause),
            bool_byte(self.wearing_tone),
        ];
        assert(settings@ =~= self.spec_settings_bytes());
        crate::parsing::push_all(&mut t, settings.as_slice());
        self.auto_power_off.write(&mut t);
        let last = [bool_byte(self.touch_lock), bool_byte(self.low_battery_tone), 0u8];
        assert(last@ =~= seq![
            spec_bool_byte(self.touch_lock),
            spec_bool_byte(self.low_battery_tone),
            0u8,
        ]);
        crate::parsing::push_all(&mut t, last.as_slice());
        t
    }

    /// The body of the packet, in the layout that `take` reads: the skip offset
    /// is written as zero, so nothing is skipped, and the bytes whose meaning is
    /// unknown are written as zero (the unused firmware version as `00.00`).
    pub fn body(&self) -> (r: Vec<u8>)
        ensures
            r@ == self.spec_body(),
    {
        let mut out = self.head_bytes();
        let skip_offset = [0u8];
        assert(skip_offset@ =~= seq![0u8]);
        crate::parsing::push_all(&mut out, skip_offset.as_slice());
        self.button_configuration.write(&mut out);
        let tail = self.tail_bytes();
        crate::parsing::push_all(&mut out, tail.as_slice());
        out
    }

    pub fn command(&self) -> (r: Command)
        ensures
            r == spec_state_command(),
    {
        state_command()
    }

    /// The inbound packet that carries this state, as a device sends it.
    pub fn to_packet(&self) -> (r: Packet)
        ensures
            r.direction == Direction::Inbound,
            r.command == spec_state_command(),
            r.body@ == self.spec_body(),
    {
        Packet { direction: Direction::Inbound, command: self.command(), body: self.body() }
    }
}

/// Whether both channels are at the neutral level in every band.
pub open spec fn is_flat(v: StereoVolumeAdjustments) -> bool {
    &&& v.left.spec_bytes() == Seq::new(10, |i: int| 0x78u8)
    &&& v.right.spec_bytes() == Seq::new(10, |i: int| 0x78u8)
}

impl Default for A3947StateUpdatePacket {
    fn default() -> (r: Self)
        ensures
            r.is_default(),
    {
        let serial_number = SerialNumber([0x30u8; 16]);
        let button_configuration = ButtonStatusCollection([0u8; 12]);
        assert(serial_number.spec_bytes() =~= Seq::new(16, |i: int| 0x30u8));
        assert(button_configuration.spec_bytes() =~= Seq::new(12, |i: int| 0u8));
        A3947StateUpdatePacket {
            tws_status: TwsStatus::default(),
            battery: DualBattery::default(),
            dual_firmware_version: DualFirmwareVersion::default(),
            serial_number,
            equalizer_configuration: EqualizerConfiguration::new_custom_profile(
                StereoVolumeAdjustments::flat(),
            ),
            age_range: AgeRange(0),
            custom_hear_id: CustomHearId {
                is_enabled: false,
                volume_adjustments: StereoVolumeAdjustments::flat(),
                time: 0,
                hear_id_type: HearIdType(0),
                custom_volume_adjustments: StereoVolumeAdjustments::flat(),
            },
            button_configuration,
            sound_modes: A3947SoundModes::default(),
            case_battery: BatteryLevel(0),
            sound_leak_detection: false,
            game_mode_switch: false,
            touch_tone: TouchTone::Disabled,
            ldac: false,
            dual_connection: false,
            limit_volume: false,
            db_limit: 0,
            db_refresh_rate: 0,
            auto_play_pause: false,
            wearing_tone: false,
            auto_power_off: AutoPowerOff { is_enabled: false, duration: 0 },
            touch_lock: false,
            low_battery_tone: false,
        }
    }
}

impl Inbound {
    /// Reads the body of this packet as a state update.
    pub fn try_to_packet(&self) -> (r: Result<A3947StateUpdatePacket, ParseError>)
        ensures
            match r {
                Ok(p) => spec_take_error(self.body@) is None && p.decodes_from(self.body@),
                Err(e) => spec_take_error(self.body@) == Some(e),
            },
    {
        let (_, packet) = A3947StateUpdatePacket::take(self.body.as_slice())?;
        Ok(packet)
    }
}

/// Replaces the known state with the one a state update packet reports.
#[derive(Clone, Copy, Debug, PartialEq, Eq, Structural)]
pub struct StateUpdatePacketHandler;

impl StateUpdatePacketHandler {
    /// What handling a packet with `body` does: a readable body replaces the
    /// state with what it decodes to; otherwise the state stays and the reason is returned.
    pub open spec fn spec_handled(
        self,
        before: A3947StateUpdatePacket,
        after: A3947StateUpdatePacket,
        body: Seq<u8>,
        r: Result<(), ParseError>,
    ) -> bool {
        match spec_take_error(body) {
            None => r is Ok && after.decodes_from(body),
            Some(e) => r == Err::<(), ParseError>(e) && after == before,
        }
    }

    pub fn handle_packet(&self, state: &mut A3947StateUpdatePacket, packet: &Inbound) -> (r: Result<
        (),
        ParseError,
    >)
        ensures
            self.spec_handled(*old(state), *final(state), packet.body@, r),
    {
        let update = packet.try_to_packet()?;
        *state = update;
        Ok(())
    }
}

impl ModuleCollection {
    /// Registers the handler of state update packets.
    pub fn add_state_update(&mut self)
        ensures
            final(self).packet_handlers@ == old(self).packet_handlers@.insert(
                spec_state_command().spec_key(),
                PacketHandler::StateUpdate(StateUpdatePacketHandler),
            ),
    {
        self.packet_handlers.set_handler(
            state_command(),
            PacketHandler::StateUpdate(StateUpdatePacketHandler),
        );
    }
}

/// Where each field of the head lies, and that each reads back.
pub(crate) proof fn lemma_head_layout(p: A3947StateUpdatePacket)
    ensures
        ({
            let h = p.spec_head_bytes();
            &&& h.len() == 108
            &&& h.subrange(0, 2) == p.tws_status.spec_bytes()
            &&& h.subrange(2, 6) == p.battery.spec_bytes()
            &&& h.subrange(6, 16) == p.dual_firmware_version.spec_bytes()
            &&& h.subrange(16, 32) == p.serial_number.spec_bytes()
            &&& h.subrange(32, 37) == spec_unknown_firmware_bytes()
            &&& h.subrange(37, 59) == p.equalizer_configuration.spec_bytes()
            &&& h[59] == p.age_range.0
            &&& h.subrange(60, 108) == p.custom_hear_id.spec_bytes()
            &&& TwsStatus::spec_decode(p.tws_status.spec_bytes()) == p.tws_status
            &&& DualBattery::spec_decode(p.battery.spec_bytes()) == p.battery
            &&& p.equalizer_configuration.decodes(p.equalizer_configuration.spec_bytes())
            &&& p.custom_hear_id.decodes(p.custom_hear_id.spec_bytes())
        }),
{
    p.tws_status.lemma_roundtrip();
    p.battery.lemma_roundtrip();
    p.equalizer_configuration.lemma_roundtrip();
    p.custom_hear_id.lemma_roundtrip();
    p.dual_firmware_version.left.lemma_bytes_len();
    p.dual_firmware_version.right.lemma_bytes_len();
    let h = p.spec_head_bytes();
    assert(h.subrange(0, 2) =~= p.tws_status.spec_bytes());
    assert(h.subrange(2, 6) =~= p.battery.spec_bytes());
    assert(h.subrange(6, 16) =~= p.dual_firmware_version.spec_bytes());
    assert(h.subrange(16, 32) =~= p.serial_number.spec_bytes());
    assert(h.subrange(32, 37) =~= spec_unknown_firmware_bytes());
    assert(h.subrange(37, 59) =~= p.equalizer_configuration.spec_bytes());
    assert(h.subrange(60, 108) =~= p.custom_hear_id.spec_bytes());
}

/// Where each field of the tail lies, and that each reads back.
pub(crate) proof fn lemma_tail_layout(p: A3947StateUpdatePacket)
    ensures
        ({
            let t = p.spec_tail_bytes();
            &&& t.len() == 34
            &&& t.subrange(1, 8) == p.sound_modes.spec_bytes()
            &&& t.subrange(14, 29) == p.spec_settings_bytes()
            &&& t.subrange(29, 31) == p.auto_power_off.spec_bytes()
            &&& t[31] == spec_bool_byte(p.touch_lock)
            &&& t[32] == spec_bool_byte(p.low_battery_tone)
            &&& A3947SoundModes::spec_decode(p.sound_modes.spec_bytes()) == p.sound_modes
            &&& AutoPowerOff::spec_decode(p.auto_power_off.spec_bytes()) == p.auto_power_off
        }),
{
    p.sound_modes.lemma_roundtrip();
    p.auto_power_off.lemma_roundtrip();
    let t = p.spec_tail_bytes();
    assert(t.subrange(1, 8) =~= p.sound_modes.spec_bytes());
    assert(t.subrange(14, 29) =~= p.spec_settings_bytes());
    assert(t.subrange(29, 31) =~= p.auto_power_off.spec_bytes());
}

/// The body of a state update reads back as that state: it is accepted, and
/// `p` is what it decodes to.
pub proof fn lemma_body_roundtrip(p: A3947StateUpdatePacket)
    requires
        p.wf(),
    ensures
        spec_take_error(p.spec_body()) is None,
        p.decodes_from(p.spec_body()),
{
    lemma_head_layout(p);
    lemma_tail_layout(p);
    p.button_configuration.lemma_bytes_len();
    let h = p.spec_head_bytes();
    let t = p.spec_tail_bytes();
    let b = p.spec_body();
    assert(b.len() == 155);
    assert(b[108] == 0u8);
    assert(spec_skip_len(b[108]) == 0);
    assert forall|i: int, j: int| 0 <= i <= j <= 108 implies #[trigger] b.subrange(i, j)
        == h.subrange(i, j) by {
        assert(b.subrange(i, j) =~= h.subrange(i, j));
    }
    assert forall|i: int, j: int| 0 <= i <= j <= 34 implies #[trigger] b.subrange(121 + i, 121 + j)
        == t.subrange(i, j) by {
        assert(b.subrange(121 + i, 121 + j) =~= t.subrange(i, j));
    }
    assert(b.subrange(109, 121) =~= p.button_configuration.spec_bytes());

    // The head.
    p.dual_firmware_version.lemma_roundtrip();
    assert(b.subrange(0, 2) == h.subrange(0, 2));
    assert(b.subrange(2, 6) == h.subrange(2, 6));
    assert(b.subrange(6, 16) == h.subrange(6, 16));
    assert(b.subrange(16, 32) == h.subrange(16, 32));
    assert(b.subrange(32, 37) == h.subrange(32, 37));
    assert(b.subrange(37, 59) == h.subrange(37, 59));
    assert(b.subrange(60, 108) == h.subrange(60, 108));
    assert(b.subrange(6, 11) =~= p.dual_firmware_version.spec_bytes().subrange(0, 5));
    assert(b.subrange(11, 16) =~= p.dual_firmware_version.spec_bytes().subrange(5, 10));
    assert(b[59] == h.subrange(59, 60)[0]);
    assert(b.subrange(59, 60) == h.subrange(59, 60));

    // The tail.
    assert(b.subrange(122, 129) == t.subrange(1, 8));
    assert(b.subrange(150, 152) == t.subrange(29, 31));
    assert(b.subrange(135, 150) == t.subrange(14, 29));
    assert(b.subrange(152, 154) == t.subrange(31, 33));
    let st = p.spec_settings_bytes();
    assert(b[135] == st[0]);
    assert(b[137] == st[2]);
    assert(b[139] == st[4]);
    assert(b[140] == st[5]);
    assert(b[142] == st[7]);
    assert(b[143] == st[8]);
    assert(b[145] == st[10]);
    assert(b[146] == st[11]);
    assert(b[147] == st[12]);
    assert(b[148] == st[13]);
    assert(b[149] == st[14]);
    assert(b[152] == t[31]);
    assert(b[153] == t[32]);
    p.touch_tone.lemma_roundtrip();
}

/// A body decodes to one state only.
pub proof fn lemma_decode_unique(p: A3947StateUpdatePacket, q: A3947StateUpdatePacket, s: Seq<u8>)
    requires
        p.decodes_from(s),
        q.decodes_from(s),
    ensures
        p == q,
{
    p.dual_firmware_version.lemma_decode_unique(q.dual_firmware_version, s.subrange(6, 16));
    p.equalizer_configuration.lemma_decode_unique(q.equalizer_configuration, s.subrange(37, 59));
    p.custom_hear_id.lemma_decode_unique(q.custom_hear_id, s.subrange(60, 108));
    assert(p.serial_number.0 =~= q.serial_number.0);
    assert(p.button_configuration.0 =~= q.button_configuration.0);
}

/// Whatever reads back from the body of a state update is that state.
pub proof fn lemma_state_update_roundtrip(p: A3947StateUpdatePacket, q: A3947StateUpdatePacket)
    requires
        p.wf(),
        q.decodes_from(p.spec_body()),
    ensures
        q == p,
{
    lemma_body_roundtrip(p);
    lemma_decode_unique(p, q, p.spec_body());
}

/// The frame of a state update, read back as an inbound packet whose body is
/// then read as a state update, gives the state back.
pub proof fn lemma_state_update_frame_roundtrip(
    p: A3947StateUpdatePacket,
    n: int,
    command: Command,
    body: Seq<u8>,
    q: A3947StateUpdatePacket,
)
    requires
        p.wf(),
        spec_take_inbound(spec_frame(Direction::Inbound, spec_state_command(), p.spec_body()))
            == Ok::<(int, Command, Seq<u8>), ParseError>((n, command, body)),
        q.decodes_from(body),
    ensures
        n == p.spec_body().len() + 10,
        command == spec_state_command(),
        body == p.spec_body(),
        spec_take_error(body) is None,
        q == p,
{
    lemma_body_roundtrip(p);
    let frame = spec_frame(Direction::Inbound, spec_state_command(), p.spec_body());
    assert(frame + Seq::<u8>::empty() =~= frame);
    lemma_inbound_frame_roundtrip(spec_state_command(), p.spec_body(), Seq::<u8>::empty());
    lemma_state_update_roundtrip(p, q);
}

/// Handling a state update packet replaces the known state with the state the
/// packet carries, whatever the state was before.
pub proof fn lemma_handling_applies_update(
    handler: StateUpdatePacketHandler,
    p: A3947StateUpdatePacket,
    before: A3947StateUpdatePacket,
    after: A3947StateUpdatePacket,
    r: Result<(), ParseError>,
)
    requires
        p.wf(),
        handler.spec_handled(before, after, p.spec_body(), r),
    ensures
        r is Ok,
        after == p,
{
    lemma_body_roundtrip(p);
    lemma_decode_unique(p, after, p.spec_body());
}

/// Registering the state update handler routes state update packets to it and
/// leaves the handlers of every other command as they were.
pub proof fn lemma_add_state_update_routes(
    before: Map<u16, PacketHandler>,
    after: Map<u16, PacketHandler>,
    other: Command,
)
    requires
        after == before.insert(
            spec_state_command().spec_key(),
            PacketHandler::StateUpdate(StateUpdatePacketHandler),
        ),
        other != spec_state_command(),
    ensures
        after.contains_key(spec_state_command().spec_key()),
        after[spec_state_command().spec_key()] == PacketHandler::StateUpdate(StateUpdatePacketHandler),
        after.contains_key(other.spec_key()) == before.contains_key(other.spec_key()),
        before.contains_key(other.spec_key()) ==> after[other.spec_key()] == before[other.spec_key()],
{
    other.lemma_key_injective(spec_state_command());
}

/// The number of bytes skipped after the button configuration, given the offset byte.
pub fn skip_len(offset: u8) -> (r: usize)
    ensures
        r == spec_skip_len(offset),
{
    let button_configuration_size: usize = 12;
    match (offset as usize).checked_sub(button_configuration_size + 2) {
        Some(n) => n,
        None => 0,
    }
}

} // verus!
