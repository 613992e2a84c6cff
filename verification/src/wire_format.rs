//! The wire format stated byte by byte: which number stands for which variant,
//! and at which position of a byte run each field sits. These laws speak in
//! literal ids and positions, so they pin the encoders and decoders down
//! independently of how those are written.
use vstd::prelude::*;
use crate::parsing::{ParseError, spec_take_bool, spec_bool_byte, spec_checksum};
use crate::packet::{
    Command, Direction, spec_frame, spec_state_command, spec_take_inbound, max_body_len,
};
use crate::set_sound_modes::{A3947SetSoundModesPacket, spec_set_sound_modes_command};
use crate::state_modifier::{SoundModesTransition, spec_plan};
use crate::structures::{
    AmbientSoundMode, AutoPowerOff, DeviceSide, DualBattery, TouchTone, TransparencyMode,
    TwsStatus,
};
use crate::state_update_packet::{
    A3947StateUpdatePacket, spec_take_error, lemma_head_layout, lemma_tail_layout,
};
use crate::sound_modes::{
    A3947NoiseCancelingMode, A3947SoundModes, TransportNoiseCanceling, WindNoise,
};

verus! {

/// Only the byte 1 reads as true; true is written as 1 and false as 0.
pub proof fn lemma_bool_bytes(b: u8, v: bool)
    ensures
        spec_take_bool(b) <==> b == 1,
        spec_bool_byte(v) == (if v { 1u8 } else { 0u8 }),
{
}

/// Ambient sound modes are numbered noise canceling 0, transparency 1,
/// normal 2; any other byte reads as noise canceling.
pub proof fn lemma_ambient_sound_mode_ids(m: AmbientSoundMode, b: u8)
    ensures
        m.spec_id() == 0 <==> m == AmbientSoundMode::NoiseCanceling,
        m.spec_id() == 1 <==> m == AmbientSoundMode::Transparency,
        m.spec_id() == 2 <==> m == AmbientSoundMode::Normal,
        AmbientSoundMode::spec_from_byte(b) == AmbientSoundMode::Transparency <==> b == 1,
        AmbientSoundMode::spec_from_byte(b) == AmbientSoundMode::Normal <==> b == 2,
        AmbientSoundMode::spec_from_byte(b) == AmbientSoundMode::NoiseCanceling <==> (b != 1
            && b != 2),
        AmbientSoundMode::spec_from_repr(b) is Some <==> b <= 2,
{
}

/// Transparency modes are numbered fully transparent 0, vocal 1; any other
/// byte reads as fully transparent.
pub proof fn lemma_transparency_mode_ids(m: TransparencyMode, b: u8)
    ensures
        m.spec_id() == 0 <==> m == TransparencyMode::FullyTransparent,
        m.spec_id() == 1 <==> m == TransparencyMode::VocalMode,
        TransparencyMode::spec_from_byte(b) == TransparencyMode::VocalMode <==> b == 1,
        TransparencyMode::spec_from_repr(b) is Some <==> b <= 1,
{
}

/// The left earbud is 0 and the right one 1; only the byte 1 reads as right.
pub proof fn lemma_device_side_ids(m: DeviceSide, b: u8)
    ensures
        m.spec_id() == 0 <==> m == DeviceSide::Left,
        m.spec_id() == 1 <==> m == DeviceSide::Right,
        DeviceSide::spec_from_byte(b) == DeviceSide::Right <==> b == 1,
{
}

/// Touch tone off is 0 and on is 1; only the byte 1 reads as on.
pub proof fn lemma_touch_tone_ids(m: TouchTone, b: u8)
    ensures
        m.spec_id() == 0 <==> m == TouchTone::Disabled,
        m.spec_id() == 1 <==> m == TouchTone::Enabled,
        TouchTone::spec_from_byte(b) == TouchTone::Enabled <==> b == 1,
{
}

/// Transport vehicles are numbered plane 0, train 1, bus 2, car 3; any other
/// byte reads as plane.
pub proof fn lemma_transport_noise_canceling_ids(m: TransportNoiseCanceling, b: u8)
    ensures
        m.spec_id() == 0 <==> m == TransportNoiseCanceling::Plane,
        m.spec_id() == 1 <==> m == TransportNoiseCanceling::Train,
        m.spec_id() == 2 <==> m == TransportNoiseCanceling::Bus,
        m.spec_id() == 3 <==> m == TransportNoiseCanceling::Car,
        TransportNoiseCanceling::spec_from_byte(b) == TransportNoiseCanceling::Train <==> b == 1,
        TransportNoiseCanceling::spec_from_byte(b) == TransportNoiseCanceling::Bus <==> b == 2,
        TransportNoiseCanceling::spec_from_byte(b) == TransportNoiseCanceling::Car <==> b == 3,
        TransportNoiseCanceling::spec_from_byte(b) == TransportNoiseCanceling::Plane <==> (b == 0
            || b > 3),
        TransportNoiseCanceling::spec_from_repr(b) is Some <==> b <= 3,
{
}

/// Noise canceling modes are numbered manual 0, adaptive 1, transport 2; any
/// other byte reads as manual.
pub proof fn lemma_noise_canceling_mode_ids(m: A3947NoiseCancelingMode, b: u8)
    ensures
        m.spec_id() == 0 <==> m == A3947NoiseCancelingMode::Manual,
        m.spec_id() == 1 <==> m == A3947NoiseCancelingMode::Adaptive,
        m.spec_id() == 2 <==> m == A3947NoiseCancelingMode::Transport,
        A3947NoiseCancelingMode::spec_from_byte(b) == A3947NoiseCancelingMode::Adaptive <==> b
            == 1,
        A3947NoiseCancelingMode::spec_from_byte(b) == A3947NoiseCancelingMode::Transport <==> b
            == 2,
        A3947NoiseCancelingMode::spec_from_byte(b) == A3947NoiseCancelingMode::Manual <==> (b == 0
            || b > 2),
        A3947NoiseCancelingMode::spec_from_repr(b) is Some <==> b <= 2,
{
}

/// Wind noise suppression is bit 0 and detection bit 1, read and written.
pub proof fn lemma_wind_noise_bits(w: WindNoise, b: u8)
    ensures
        w.spec_byte() == (if w.is_suppression_enabled { 1int } else { 0int }) + (if w.is_detected {
            2int
        } else {
            0int
        }),
        WindNoise::spec_from_byte(b).is_suppression_enabled <==> b % 2 == 1,
        WindNoise::spec_from_byte(b).is_detected <==> (b / 2) % 2 == 1,
{
    assert(b & 1 != 0 <==> b % 2 == 1) by (bit_vector);
    assert(b & 2 != 0 <==> (b / 2) % 2 == 1) by (bit_vector);
}

/// The TWS status is two bytes: the connected flag, then the host side (1 is right).
pub proof fn lemma_tws_status_layout(t: TwsStatus, s: Seq<u8>)
    requires
        s.len() == 2,
    ensures
        t.spec_bytes() == seq![
            if t.is_connected { 1u8 } else { 0u8 },
            if t.host_device == DeviceSide::Right { 1u8 } else { 0u8 },
        ],
        TwsStatus::spec_decode(s).is_connected <==> s[0] == 1,
        TwsStatus::spec_decode(s).host_device == DeviceSide::Right <==> s[1] == 1,
{
    assert(t.spec_bytes() =~= seq![
        if t.is_connected { 1u8 } else { 0u8 },
        if t.host_device == DeviceSide::Right { 1u8 } else { 0u8 },
    ]);
}

/// The batteries are four bytes: left level, right level, left charging, right charging.
pub proof fn lemma_dual_battery_layout(d: DualBattery, s: Seq<u8>)
    requires
        s.len() == 4,
    ensures
        d.spec_bytes() == seq![
            d.left.level.0,
            d.right.level.0,
            if d.left.is_charging { 1u8 } else { 0u8 },
            if d.right.is_charging { 1u8 } else { 0u8 },
        ],
        DualBattery::spec_decode(s).left.level.0 == s[0],
        DualBattery::spec_decode(s).right.level.0 == s[1],
        DualBattery::spec_decode(s).left.is_charging <==> s[2] == 1,
        DualBattery::spec_decode(s).right.is_charging <==> s[3] == 1,
{
    assert(d.spec_bytes() =~= seq![
        d.left.level.0,
        d.right.level.0,
        if d.left.is_charging { 1u8 } else { 0u8 },
        if d.right.is_charging { 1u8 } else { 0u8 },
    ]);
}

/// Auto power off is two bytes: the enabled flag, then the duration.
pub proof fn lemma_auto_power_off_layout(a: AutoPowerOff, s: Seq<u8>)
    requires
        s.len() == 2,
    ensures
        a.spec_bytes() == seq![if a.is_enabled { 1u8 } else { 0u8 }, a.duration],
        AutoPowerOff::spec_decode(s).is_enabled <==> s[0] == 1,
        AutoPowerOff::spec_decode(s).duration == s[1],
{
    assert(a.spec_bytes() =~= seq![if a.is_enabled { 1u8 } else { 0u8 }, a.duration]);
}

/// The sound modes are seven bytes: ambient mode, manual noise canceling
/// level, transparency mode, noise canceling mode, wind noise, environment
/// detection, transport vehicle.
pub proof fn lemma_sound_modes_layout(m: A3947SoundModes, s: Seq<u8>)
    requires
        s.len() == 7,
    ensures
        m.spec_bytes().len() == 7,
        m.spec_bytes()[0] == m.ambient_sound_mode.spec_id(),
        m.spec_bytes()[1] == m.manual_noise_canceling,
        m.spec_bytes()[2] == m.transparency_mode.spec_id(),
        m.spec_bytes()[3] == m.noise_canceling_mode.spec_id(),
        m.spec_bytes()[4] == m.wind_noise.spec_byte(),
        m.spec_bytes()[5] == (if m.adaptive_env_detection { 1u8 } else { 0u8 }),
        m.spec_bytes()[6] == m.transport_noise_canceling.spec_id(),
        A3947SoundModes::spec_decode(s).ambient_sound_mode == AmbientSoundMode::spec_from_byte(
            s[0],
        ),
        A3947SoundModes::spec_decode(s).manual_noise_canceling == s[1],
        A3947SoundModes::spec_decode(s).transparency_mode == TransparencyMode::spec_from_byte(s[2]),
        A3947SoundModes::spec_decode(s).noise_canceling_mode
            == A3947NoiseCancelingMode::spec_from_byte(s[3]),
        A3947SoundModes::spec_decode(s).wind_noise == WindNoise::spec_from_byte(s[4]),
        A3947SoundModes::spec_decode(s).adaptive_env_detection <==> s[5] == 1,
        A3947SoundModes::spec_decode(s).transport_noise_canceling
            == TransportNoiseCanceling::spec_from_byte(s[6]),
{
}

/// Whether the five bytes of `s` at `i` are two ASCII digits, a dot and two ASCII digits.
pub open spec fn is_version_text(s: Seq<u8>, i: int) -> bool {
    &&& 0x30 <= s[i] <= 0x39
    &&& 0x30 <= s[i + 1] <= 0x39
    &&& s[i + 2] == 0x2e
    &&& 0x30 <= s[i + 3] <= 0x39
    &&& 0x30 <= s[i + 4] <= 0x39
}

/// The number of bytes skipped after the button configuration: the offset
/// byte at position 108 minus 14, or none when the offset is smaller.
pub open spec fn skipped_after_buttons(s: Seq<u8>) -> int {
    if s[108] >= 14 {
        s[108] - 14
    } else {
        0
    }
}

/// A state update body is accepted exactly when its three firmware versions
/// (at 6, 11 and 32) are `DD.DD` text and it is 155 bytes long plus the bytes
/// its offset byte skips.
pub proof fn lemma_state_update_acceptance(s: Seq<u8>)
    ensures
        spec_take_error(s) is None <==> {
            &&& s.len() >= 109
            &&& s.len() == 155 + skipped_after_buttons(s)
            &&& is_version_text(s, 6)
            &&& is_version_text(s, 11)
            &&& is_version_text(s, 32)
        },
{
    if s.len() >= 37 {
        assert(s.subrange(6, 11)[0] == s[6] && s.subrange(6, 11)[2] == s[8]);
        assert(s.subrange(11, 16)[0] == s[11] && s.subrange(11, 16)[2] == s[13]);
        assert(s.subrange(32, 37)[0] == s[32] && s.subrange(32, 37)[2] == s[34]);
    }
}

/// Where each field of an accepted state update body sits: with `t` = 121 plus
/// the skipped bytes, the head is at fixed positions and the tail at `t` onwards.
pub proof fn lemma_state_update_body_layout(p: A3947StateUpdatePacket, s: Seq<u8>)
    requires
        spec_take_error(s) is None,
        p.decodes_from(s),
    ensures
        ({
            let t = 121 + skipped_after_buttons(s);
            &&& s.len() == t + 34
            // head: TWS status, batteries, firmware, serial number
            &&& p.tws_status.is_connected <==> s[0] == 1
            &&& p.tws_status.host_device == DeviceSide::Right <==> s[1] == 1
            &&& p.battery.left.level.0 == s[2]
            &&& p.battery.right.level.0 == s[3]
            &&& p.battery.left.is_charging <==> s[4] == 1
            &&& p.battery.right.is_charging <==> s[5] == 1
            &&& p.dual_firmware_version.left.spec_major() == (s[6] - 0x30) * 10 + (s[7] - 0x30)
            &&& p.dual_firmware_version.left.spec_minor() == (s[9] - 0x30) * 10 + (s[10] - 0x30)
            &&& p.dual_firmware_version.right.spec_major() == (s[11] - 0x30) * 10 + (s[12] - 0x30)
            &&& p.dual_firmware_version.right.spec_minor() == (s[14] - 0x30) * 10 + (s[15] - 0x30)
            &&& p.serial_number.0@ == s.subrange(16, 32)
            // equalizer, age range, HearID, buttons
            &&& p.equalizer_configuration.preset_id == s[37] + 256 * s[38]
            &&& p.equalizer_configuration.volume_adjustments.left.0@ == s.subrange(39, 49)
            &&& p.equalizer_configuration.volume_adjustments.right.0@ == s.subrange(49, 59)
            &&& p.age_range.0 == s[59]
            &&& p.custom_hear_id.is_enabled <==> s[60] == 1
            &&& p.custom_hear_id.volume_adjustments.left.0@ == s.subrange(61, 71)
            &&& p.custom_hear_id.volume_adjustments.right.0@ == s.subrange(71, 81)
            &&& p.custom_hear_id.time == s[81] + 0x100 * s[82] + 0x10000 * s[83] + 0x1000000 * s[84]
            &&& p.custom_hear_id.hear_id_type.0 == s[85]
            &&& p.custom_hear_id.custom_volume_adjustments.left.0@ == s.subrange(86, 96)
            &&& p.custom_hear_id.custom_volume_adjustments.right.0@ == s.subrange(96, 106)
            &&& p.button_configuration.0@ == s.subrange(109, 121)
            // tail: sound modes
            &&& p.sound_modes.ambient_sound_mode == AmbientSoundMode::spec_from_byte(s[t + 1])
            &&& p.sound_modes.manual_noise_canceling == s[t + 2]
            &&& p.sound_modes.transparency_mode == TransparencyMode::spec_from_byte(s[t + 3])
            &&& p.sound_modes.noise_canceling_mode == A3947NoiseCancelingMode::spec_from_byte(
                s[t + 4],
            )
            &&& p.sound_modes.wind_noise == WindNoise::spec_from_byte(s[t + 5])
            &&& p.sound_modes.adaptive_env_detection <==> s[t + 6] == 1
            &&& p.sound_modes.transport_noise_canceling == TransportNoiseCanceling::spec_from_byte(
                s[t + 7],
            )
            // tail: settings
            &&& p.case_battery.0 == s[t + 14]
            &&& p.sound_leak_detection <==> s[t + 16] == 1
            &&& p.game_mode_switch <==> s[t + 18] == 1
            &&& p.touch_tone == TouchTone::Enabled <==> s[t + 19] == 1
            &&& p.ldac <==> s[t + 21] == 1
            &&& p.dual_connection <==> s[t + 22] == 1
            &&& p.limit_volume <==> s[t + 24] == 1
            &&& p.db_limit == s[t + 25]
            &&& p.db_refresh_rate == s[t + 26]
            &&& p.auto_play_pause <==> s[t + 27] == 1
            &&& p.wearing_tone <==> s[t + 28] == 1
            &&& p.auto_power_off.is_enabled <==> s[t + 29] == 1
            &&& p.auto_power_off.duration == s[t + 30]
            &&& p.touch_lock <==> s[t + 31] == 1
            &&& p.low_battery_tone <==> s[t + 32] == 1
        }),
{
    lemma_state_update_acceptance(s);
    let t = 121 + skipped_after_buttons(s);
    assert(s.subrange(37, 59).subrange(2, 22).subrange(0, 10) =~= s.subrange(39, 49));
    assert(s.subrange(37, 59).subrange(2, 22).subrange(10, 20) =~= s.subrange(49, 59));
    assert(s.subrange(60, 108).subrange(1, 21).subrange(0, 10) =~= s.subrange(61, 71));
    assert(s.subrange(60, 108).subrange(1, 21).subrange(10, 20) =~= s.subrange(71, 81));
    assert(s.subrange(60, 108).subrange(26, 46).subrange(0, 10) =~= s.subrange(86, 96));
    assert(s.subrange(60, 108).subrange(26, 46).subrange(10, 20) =~= s.subrange(96, 106));
    assert(s.subrange(6, 16).subrange(0, 5)[1] == s[7]);
    assert(s.subrange(6, 16).subrange(5, 10)[1] == s[12]);
}

/// The byte that writes a flag: 1 when set, 0 otherwise.
pub open spec fn flag(v: bool) -> u8 {
    if v {
        1
    } else {
        0
    }
}

/// What the body of a state update holds, byte by byte: 155 bytes, a zero skip
/// offset, `00.00` for the unused firmware version, zero for every unknown byte.
pub proof fn lemma_state_update_body_bytes(p: A3947StateUpdatePacket)
    requires
        p.wf(),
    ensures
        ({
            let b = p.spec_body();
            let fw = p.dual_firmware_version;
            let eq = p.equalizer_configuration;
            let hear = p.custom_hear_id;
            &&& b.len() == 155
            &&& b[0] == flag(p.tws_status.is_connected)
            &&& b[1] == flag(p.tws_status.host_device == DeviceSide::Right)
            &&& b[2] == p.battery.left.level.0
            &&& b[3] == p.battery.right.level.0
            &&& b[4] == flag(p.battery.left.is_charging)
            &&& b[5] == flag(p.battery.right.is_charging)
            &&& b[6] == 0x30 + fw.left.spec_major() / 10 && b[7] == 0x30 + fw.left.spec_major() % 10
            &&& b[8] == 0x2e
            &&& b[9] == 0x30 + fw.left.spec_minor() / 10 && b[10] == 0x30 + fw.left.spec_minor() % 10
            &&& b[11] == 0x30 + fw.right.spec_major() / 10 && b[12] == 0x30 + fw.right.spec_major()
                % 10
            &&& b[13] == 0x2e
            &&& b[14] == 0x30 + fw.right.spec_minor() / 10 && b[15] == 0x30 + fw.right.spec_minor()
                % 10
            &&& b.subrange(16, 32) == p.serial_number.0@
            &&& b.subrange(32, 37) == seq![0x30u8, 0x30u8, 0x2eu8, 0x30u8, 0x30u8]
            &&& b[37] == eq.preset_id % 256 && b[38] == eq.preset_id / 256
            &&& b.subrange(39, 49) == eq.volume_adjustments.left.0@
            &&& b.subrange(49, 59) == eq.volume_adjustments.right.0@
            &&& b[59] == p.age_range.0
            &&& b[60] == flag(hear.is_enabled)
            &&& b.subrange(61, 71) == hear.volume_adjustments.left.0@
            &&& b.subrange(71, 81) == hear.volume_adjustments.right.0@
            &&& b[81] + 0x100 * b[82] + 0x10000 * b[83] + 0x1000000 * b[84] == hear.time
            &&& b[85] == hear.hear_id_type.0
            &&& b.subrange(86, 96) == hear.custom_volume_adjustments.left.0@
            &&& b.subrange(96, 106) == hear.custom_volume_adjustments.right.0@
            &&& b[106] == 0 && b[107] == 0
            &&& b[108] == 0
            &&& b.subrange(109, 121) == p.button_configuration.0@
            &&& b[121] == 0
            &&& b.subrange(122, 129) == p.sound_modes.spec_bytes()
            &&& b[129] == 0 && b[130] == 0 && b[131] == 0 && b[132] == 0 && b[133] == 0 && b[134]
                == 0
            &&& b[135] == p.case_battery.0
            &&& b[136] == 0
            &&& b[137] == flag(p.sound_leak_detection)
            &&& b[138] == 0
            &&& b[139] == flag(p.game_mode_switch)
            &&& b[140] == flag(p.touch_tone == TouchTone::Enabled)
            &&& b[141] == 0
            &&& b[142] == flag(p.ldac)
            &&& b[143] == flag(p.dual_connection)
            &&& b[144] == 0
            &&& b[145] == flag(p.limit_volume)
            &&& b[146] == p.db_limit
            &&& b[147] == p.db_refresh_rate
            &&& b[148] == flag(p.auto_play_pause)
            &&& b[149] == flag(p.wearing_tone)
            &&& b[150] == flag(p.auto_power_off.is_enabled)
            &&& b[151] == p.auto_power_off.duration
            &&& b[152] == flag(p.touch_lock)
            &&& b[153] == flag(p.low_battery_tone)
            &&& b[154] == 0
        }),
{
    lemma_head_layout(p);
    lemma_tail_layout(p);
    lemma_head_bytes(p);
    lemma_tail_bytes(p);
    p.button_configuration.lemma_bytes_len();
    let h = p.spec_head_bytes();
    let t = p.spec_tail_bytes();
    let b = p.spec_body();
    assert(b.len() == 155);
    assert(forall|i: int| 0 <= i < 108 ==> #[trigger] b[i] == h[i]);
    assert(forall|i: int| 0 <= i < 34 ==> #[trigger] b[121 + i] == t[i]);
    assert(forall|i: int| 0 <= i < 12 ==> #[trigger] b[109 + i] == p.button_configuration.0@[i]);
    assert(b.subrange(109, 121) =~= p.button_configuration.0@);
    assert(b.subrange(16, 32) =~= h.subrange(16, 32));
    assert(b.subrange(32, 37) =~= h.subrange(32, 37));
    assert(b.subrange(39, 49) =~= h.subrange(39, 49));
    assert(b.subrange(49, 59) =~= h.subrange(49, 59));
    assert(b.subrange(61, 71) =~= h.subrange(61, 71));
    assert(b.subrange(71, 81) =~= h.subrange(71, 81));
    assert(b.subrange(86, 96) =~= h.subrange(86, 96));
    assert(b.subrange(96, 106) =~= h.subrange(96, 106));
    assert(b.subrange(122, 129) =~= t.subrange(1, 8));
    assert(b[81] == h[81] && b[82] == h[82] && b[83] == h[83] && b[84] == h[84]);
    assert(b[135] == t[14] && b[137] == t[16] && b[139] == t[18] && b[140] == t[19]);
    assert(b[142] == t[21] && b[143] == t[22] && b[145] == t[24] && b[146] == t[25]);
    assert(b[147] == t[26] && b[148] == t[27] && b[149] == t[28] && b[150] == t[29]);
    assert(b[151] == t[30] && b[152] == t[31] && b[153] == t[32] && b[154] == t[33]);
    assert(b[121] == t[0] && b[136] == t[15] && b[138] == t[17] && b[141] == t[20]);
    assert(b[144] == t[23] && b[129] == t[8] && b[130] == t[9] && b[131] == t[10]);
    assert(b[132] == t[11] && b[133] == t[12] && b[134] == t[13]);
}

/// The four little-endian bytes of a `u32` add back up to it.
proof fn lemma_u32_le_sum(v: u32)
    ensures
        v % 0x100 + 0x100 * ((v / 0x100) % 0x100) + 0x10000 * ((v / 0x10000) % 0x100) + 0x1000000
            * (v / 0x1000000) == v,
{
    assert(v % 0x100 + 0x100 * ((v / 0x100) % 0x100) + 0x10000 * ((v / 0x10000) % 0x100)
        + 0x1000000 * (v / 0x1000000) == v) by (bit_vector);
}

/// The head of the body, byte by byte.
proof fn lemma_head_bytes(p: A3947StateUpdatePacket)
    requires
        p.wf(),
    ensures
        ({
            let h = p.spec_head_bytes();
            let fw = p.dual_firmware_version;
            let eq = p.equalizer_configuration;
            let hear = p.custom_hear_id;
            &&& h.len() == 108
            &&& h[0] == flag(p.tws_status.is_connected)
            &&& h[1] == flag(p.tws_status.host_device == DeviceSide::Right)
            &&& h[2] == p.battery.left.level.0
            &&& h[3] == p.battery.right.level.0
            &&& h[4] == flag(p.battery.left.is_charging)
            &&& h[5] == flag(p.battery.right.is_charging)
            &&& h[6] == 0x30 + fw.left.spec_major() / 10 && h[7] == 0x30 + fw.left.spec_major() % 10
            &&& h[8] == 0x2e
            &&& h[9] == 0x30 + fw.left.spec_minor() / 10 && h[10] == 0x30 + fw.left.spec_minor() % 10
            &&& h[11] == 0x30 + fw.right.spec_major() / 10 && h[12] == 0x30 + fw.right.spec_major()
                % 10
            &&& h[13] == 0x2e
            &&& h[14] == 0x30 + fw.right.spec_minor() / 10 && h[15] == 0x30 + fw.right.spec_minor()
                % 10
            &&& h.subrange(16, 32) == p.serial_number.0@
            &&& h.subrange(32, 37) == seq![0x30u8, 0x30u8, 0x2eu8, 0x30u8, 0x30u8]
            &&& h[37] == eq.preset_id % 256 && h[38] == eq.preset_id / 256
            &&& h.subrange(39, 49) == eq.volume_adjustments.left.0@
            &&& h.subrange(49, 59) == eq.volume_adjustments.right.0@
            &&& h[59] == p.age_range.0
            &&& h[60] == flag(hear.is_enabled)
            &&& h.subrange(61, 71) == hear.volume_adjustments.left.0@
            &&& h.subrange(71, 81) == hear.volume_adjustments.right.0@
            &&& h[81] + 0x100 * h[82] + 0x10000 * h[83] + 0x1000000 * h[84] == hear.time
            &&& h[85] == hear.hear_id_type.0
            &&& h.subrange(86, 96) == hear.custom_volume_adjustments.left.0@
            &&& h.subrange(96, 106) == hear.custom_volume_adjustments.right.0@
            &&& h[106] == 0 && h[107] == 0
        }),
{
    lemma_head_layout(p);
    let h = p.spec_head_bytes();
    let hear = p.custom_hear_id;
    let hb = h.subrange(60, 108);
    assert(h.subrange(61, 71) =~= hb.subrange(1, 11));
    assert(h.subrange(71, 81) =~= hb.subrange(11, 21));
    assert(h.subrange(86, 96) =~= hb.subrange(26, 36));
    assert(h.subrange(96, 106) =~= hb.subrange(36, 46));
    assert(hb.subrange(1, 11) =~= hear.volume_adjustments.left.0@);
    assert(hb.subrange(11, 21) =~= hear.volume_adjustments.right.0@);
    assert(hb.subrange(26, 36) =~= hear.custom_volume_adjustments.left.0@);
    assert(hb.subrange(36, 46) =~= hear.custom_volume_adjustments.right.0@);
    let eb = h.subrange(37, 59);
    assert(h.subrange(39, 49) =~= eb.subrange(2, 12));
    assert(h.subrange(49, 59) =~= eb.subrange(12, 22));
    assert(eb.subrange(2, 12) =~= p.equalizer_configuration.volume_adjustments.left.0@);
    assert(eb.subrange(12, 22) =~= p.equalizer_configuration.volume_adjustments.right.0@);
    let fw = h.subrange(6, 16);
    assert(fw[0] == h[6] && fw[1] == h[7] && fw[3] == h[9] && fw[4] == h[10]);
    assert(fw[5] == h[11] && fw[6] == h[12] && fw[8] == h[14] && fw[9] == h[15]);
    assert(fw[2] == h[8] && fw[7] == h[13]);
    assert(hb[21] == h[81] && hb[22] == h[82] && hb[23] == h[83] && hb[24] == h[84]);
    assert(hb[0] == h[60] && hb[25] == h[85] && hb[46] == h[106] && hb[47] == h[107]);
    assert(h.subrange(0, 2)[0] == h[0] && h.subrange(0, 2)[1] == h[1]);
    assert(h.subrange(2, 6)[0] == h[2] && h.subrange(2, 6)[3] == h[5]);
    assert(h.subrange(2, 6)[1] == h[3] && h.subrange(2, 6)[2] == h[4]);
    assert(eb[0] == h[37] && eb[1] == h[38]);
    lemma_u32_le_sum(hear.time);
}

/// The tail of the body, byte by byte.
proof fn lemma_tail_bytes(p: A3947StateUpdatePacket)
    ensures
        ({
            let t = p.spec_tail_bytes();
            &&& t.len() == 34
            &&& t[0] == 0
            &&& t.subrange(1, 8) == p.sound_modes.spec_bytes()
            &&& t[8] == 0 && t[9] == 0 && t[10] == 0 && t[11] == 0 && t[12] == 0 && t[13] == 0
            &&& t[14] == p.case_battery.0
            &&& t[15] == 0
            &&& t[16] == flag(p.sound_leak_detection)
            &&& t[17] == 0
            &&& t[18] == flag(p.game_mode_switch)
            &&& t[19] == flag(p.touch_tone == TouchTone::Enabled)
            &&& t[20] == 0
            &&& t[21] == flag(p.ldac)
            &&& t[22] == flag(p.dual_connection)
            &&& t[23] == 0
            &&& t[24] == flag(p.limit_volume)
            &&& t[25] == p.db_limit
            &&& t[26] == p.db_refresh_rate
            &&& t[27] == flag(p.auto_play_pause)
            &&& t[28] == flag(p.wearing_tone)
            &&& t[29] == flag(p.auto_power_off.is_enabled)
            &&& t[30] == p.auto_power_off.duration
            &&& t[31] == flag(p.touch_lock)
            &&& t[32] == flag(p.low_battery_tone)
            &&& t[33] == 0
        }),
{
    lemma_tail_layout(p);
    let t = p.spec_tail_bytes();
    let st = p.spec_settings_bytes();
    assert(forall|i: int| 0 <= i < 15 ==> #[trigger] t[14 + i] == st[i]);
    assert(t.subrange(29, 31)[0] == t[29] && t.subrange(29, 31)[1] == t[30]);
}

/// The checksum of nothing is 0, and each byte adds to it modulo 256.
pub proof fn lemma_checksum_steps(s: Seq<u8>, b: u8)
    ensures
        spec_checksum(Seq::<u8>::empty()) == 0,
        spec_checksum(s.push(b)) == (spec_checksum(s) + b) % 256,
{
    assert(s.push(b).drop_last() =~= s);
}

/// The two commands: state update is `01 01`, set sound modes is `06 81`;
/// inbound frames start `09 ff 00 00 01`, outbound ones `08 ee 00 00 00`.
pub proof fn lemma_commands_and_prefixes()
    ensures
        spec_state_command() == Command(0x01, 0x01),
        spec_set_sound_modes_command() == Command(0x06, 0x81),
        Direction::Inbound.spec_prefix() == seq![0x09u8, 0xffu8, 0x00u8, 0x00u8, 0x01u8],
        Direction::Outbound.spec_prefix() == seq![0x08u8, 0xeeu8, 0x00u8, 0x00u8, 0x00u8],
{
}

/// A frame, byte by byte: prefix, the two command bytes, the total length
/// (body plus 10) low byte first, the body, and the checksum of all that precedes it.
pub proof fn lemma_frame_bytes(direction: Direction, command: Command, body: Seq<u8>)
    requires
        body.len() <= max_body_len(),
    ensures
        ({
            let f = spec_frame(direction, command, body);
            let n = body.len() + 10;
            &&& f.len() == n
            &&& f.subrange(0, 5) == direction.spec_prefix()
            &&& f[5] == command.0 && f[6] == command.1
            &&& f[7] == n % 256 && f[8] == n / 256
            &&& f.subrange(9, n - 1) == body
            &&& f[n - 1] == spec_checksum(f.subrange(0, n - 1))
        }),
{
    let f = spec_frame(direction, command, body);
    let n = body.len() + 10;
    assert(f.subrange(0, 5) =~= direction.spec_prefix());
    assert(f.subrange(9, n - 1) =~= body);
    let unsummed = crate::packet::spec_header(direction, command, body.len()) + body;
    assert(f.subrange(0, n - 1) =~= unsummed);
    assert(f[n - 1] == spec_checksum(unsummed));
    assert(f[7] == f.subrange(0, n - 1)[7] && f[8] == f.subrange(0, n - 1)[8]);
    assert(f[5] == unsummed[5] && f[6] == unsummed[6]);
}

/// An inbound frame is accepted exactly when it starts with the inbound prefix,
/// its length field `L` (bytes 7 and 8, low first) is at least 10, at least `L`
/// bytes are there, and byte `L - 1` is the checksum of the bytes before it;
/// then its command is bytes 5 and 6 and its body bytes 9 to `L - 1`.
pub proof fn lemma_inbound_acceptance(s: Seq<u8>)
    ensures
        spec_take_inbound(s) is Ok <==> {
            &&& s.len() >= 9
            &&& s[0] == 0x09 && s[1] == 0xff && s[2] == 0x00 && s[3] == 0x00 && s[4] == 0x01
            &&& s[7] + 256 * s[8] >= 10
            &&& s.len() >= s[7] + 256 * s[8]
            &&& s[s[7] + 256 * s[8] - 1] == spec_checksum(s.subrange(0, s[7] + 256 * s[8] - 1))
        },
        spec_take_inbound(s) matches Ok((n, c, body)) ==> {
            &&& n == s[7] + 256 * s[8]
            &&& c == Command(s[5], s[6])
            &&& body == s.subrange(9, n - 1)
        },
{
    if s.len() >= 5 {
        let p = s.subrange(0, 5);
        assert(p[0] == s[0] && p[1] == s[1] && p[2] == s[2] && p[3] == s[3] && p[4] == s[4]);
        if s[0] == 0x09 && s[1] == 0xff && s[2] == 0x00 && s[3] == 0x00 && s[4] == 0x01 {
            assert(p =~= Direction::Inbound.spec_prefix());
        }
    }
}

/// The set sound modes packet's body is the seven sound mode bytes, and the
/// body of a state update is what the packet is framed with.
pub proof fn lemma_set_sound_modes_frame(packet: A3947SetSoundModesPacket)
    ensures
        ({
            let f = spec_frame(
                Direction::Outbound,
                spec_set_sound_modes_command(),
                packet.sound_modes.spec_bytes(),
            );
            &&& f.len() == 17
            &&& f.subrange(0, 9) == seq![0x08u8, 0xeeu8, 0x00u8, 0x00u8, 0x00u8, 0x06u8, 0x81u8, 17u8, 0u8]
            &&& f.subrange(9, 16) == packet.sound_modes.spec_bytes()
            &&& f[16] == spec_checksum(f.subrange(0, 16))
        }),
{
    packet.sound_modes.lemma_roundtrip();
    lemma_frame_bytes(Direction::Outbound, spec_set_sound_modes_command(), packet.sound_modes.spec_bytes());
    let f = spec_frame(Direction::Outbound, spec_set_sound_modes_command(), packet.sound_modes.spec_bytes());
    assert(f.subrange(0, 9) =~= seq![0x08u8, 0xeeu8, 0x00u8, 0x00u8, 0x00u8, 0x06u8, 0x81u8, 17u8, 0u8]);
}

/// Moving between different settings sends a packet with the settings the
/// device had before, then adopts the target; moving to the same settings sends nothing.
pub proof fn lemma_plan_contents(current: A3947SoundModes, target: A3947SoundModes)
    ensures
        current == target ==> spec_plan(current, target) == SoundModesTransition::Unchanged,
        current != target ==> (spec_plan(current, target) matches SoundModesTransition::Send {
            packet,
            target: t,
        } && packet.sound_modes == current && t == target),
{
}

/// The default sound modes: noise canceling, fully transparent, level 0,
/// manual mode, no wind noise, no environment detection, plane.
pub proof fn lemma_default_sound_modes()
    ensures
        ({
            let d = A3947SoundModes::spec_default();
            &&& d.ambient_sound_mode == AmbientSoundMode::NoiseCanceling
            &&& d.transparency_mode == TransparencyMode::FullyTransparent
            &&& d.manual_noise_canceling == 0
            &&& d.noise_canceling_mode == A3947NoiseCancelingMode::Manual
            &&& !d.wind_noise.is_suppression_enabled && !d.wind_noise.is_detected
            &&& !d.adaptive_env_detection
            &&& d.transport_noise_canceling == TransportNoiseCanceling::Plane
        }),
{
}

/// A fresh state: nothing connected or charging, firmware 0.0, serial number
/// `0000000000000000`, a custom equalizer profile (preset `fe fe`) with every
/// band at the neutral `0x78`, HearID off with neutral bands, default sound
/// modes, and every other setting off or zero.
pub proof fn lemma_default_state(p: A3947StateUpdatePacket)
    requires
        p.is_default(),
    ensures
        !p.tws_status.is_connected && p.tws_status.host_device == DeviceSide::Left,
        p.battery.left.level.0 == 0 && p.battery.right.level.0 == 0,
        !p.battery.left.is_charging && !p.battery.right.is_charging,
        p.dual_firmware_version.left.spec_major() == 0 && p.dual_firmware_version.left.spec_minor() == 0,
        p.dual_firmware_version.right.spec_major() == 0 && p.dual_firmware_version.right.spec_minor() == 0,
        forall|i: int| 0 <= i < 16 ==> #[trigger] p.serial_number.0@[i] == 0x30,
        p.equalizer_configuration.preset_id == 0xfefe,
        forall|i: int| 0 <= i < 10 ==> #[trigger] p.equalizer_configuration.volume_adjustments.left.0@[i] == 0x78
            && p.equalizer_configuration.volume_adjustments.right.0@[i] == 0x78,
        p.age_range.0 == 0,
        !p.custom_hear_id.is_enabled && p.custom_hear_id.time == 0 && p.custom_hear_id.hear_id_type.0 == 0,
        forall|i: int| 0 <= i < 10 ==> #[trigger] p.custom_hear_id.volume_adjustments.left.0@[i] == 0x78
            && p.custom_hear_id.volume_adjustments.right.0@[i] == 0x78
            && p.custom_hear_id.custom_volume_adjustments.left.0@[i] == 0x78
            && p.custom_hear_id.custom_volume_adjustments.right.0@[i] == 0x78,
        forall|i: int| 0 <= i < 12 ==> #[trigger] p.button_configuration.0@[i] == 0,
        p.sound_modes.ambient_sound_mode == AmbientSoundMode::NoiseCanceling,
        p.sound_modes.transparency_mode == TransparencyMode::FullyTransparent,
        p.sound_modes.manual_noise_canceling == 0,
        p.sound_modes.noise_canceling_mode == A3947NoiseCancelingMode::Manual,
        !p.sound_modes.wind_noise.is_suppression_enabled && !p.sound_modes.wind_noise.is_detected,
        !p.sound_modes.adaptive_env_detection,
        p.sound_modes.transport_noise_canceling == TransportNoiseCanceling::Plane,
        p.case_battery.0 == 0,
        !p.sound_leak_detection && !p.game_mode_switch && p.touch_tone == TouchTone::Disabled,
        !p.ldac && !p.dual_connection && !p.limit_volume,
        p.db_limit == 0 && p.db_refresh_rate == 0,
        !p.auto_play_pause && !p.wearing_tone,
        !p.auto_power_off.is_enabled && p.auto_power_off.duration == 0,
        !p.touch_lock && !p.low_battery_tone,
{
}

} // verus!
