use openscq30_lib::module_collection::{ModuleCollection, PacketHandler};
use openscq30_lib::packet::{state_command, Command, Direction, Inbound, Packet};
use openscq30_lib::parsing::ParseError;
use openscq30_lib::set_sound_modes::A3947SetSoundModesPacket;
use openscq30_lib::sound_modes::{
    A3947NoiseCancelingMode, A3947SoundModes, TransportNoiseCanceling, WindNoise,
};
use openscq30_lib::state_modifier::{SoundModesStateModifier, SoundModesTransition};
use openscq30_lib::state_update_packet::{A3947StateUpdatePacket, StateUpdatePacketHandler};
use openscq30_lib::structures::{
    AmbientSoundMode, AutoPowerOff, BatteryLevel, DeviceSide, TouchTone, TransparencyMode,
    CUSTOM_EQUALIZER_PRESET_ID,
};
use std::sync::Arc;

fn known_good_packet() -> Vec<u8> {
    vec![
        0x09, 0xFF, 0x00, 0x00, 0x01, 0x01, 0x01, //command
        0xA9, 0x00, //length
        0x01, 0x01, //tws: connected, host
        0x05, 0x05, 0x00, 0x00, //batteryLeft, batteryRight, chargingLeft, chargingRight
        0x30, 0x36, 0x2E, 0x38, 0x38, 0x30, 0x36, 0x2E, 0x38, 0x38, //leftFirmware, rightFirmware
        0x33, 0x39, 0x34, 0x37, 0x37, 0x41, 0x38, 0x44, 0x30, 0x41, 0x38, 0x41, 0x39, 0x44, 0x46, 0x34, //serial
        0x30, 0x30, 0x2E, 0x30, 0x30, //unknown firmware?
        0x15, 0x00, //EQ Preset
        0x78, 0x78, 0x78, 0x78, 0x74, 0x6F, 0x6C, 0x65, 0x78, 0x78, 0xFF, 0xFF, 0xFF, 0xFF, 0xFF, 0xFF, 0xFF, 0xFF, 0xFF, 0xFF, //EQ
        0x02, //age range?
        0x01, //hearId enabled
        0x90, 0x93, 0x89, 0x89, 0x79, 0x6E, 0x67, 0x64, 0x3C, 0x3C, 0x90, 0x93, 0x89, 0x89, 0x79, 0x6E, 0x67, 0x64, 0x3C, 0x3C, //volumeAdj
        0x67, 0x57, 0x4F, 0x7B, //time
        0x00, // hearId type
        0x79, 0x78, 0x78, 0x79, 0x79, 0x6E, 0x67, 0x64, 0x3C, 0x3C, 0x79, 0x78, 0x78, 0x79, 0x79, 0x6E, 0x67, 0x64, 0x3C, 0x3C, //customVolumeAdj
        0x15, 0x00, // hearId music type?
        0x12, //button len
        0x11, 0x66, 0x11, 0x66, 0x11, 0x32, 0x11, 0x33, 0x11, 0x44, 0x11, 0x44, 0x00, 0xFF, 0x00, 0xFF, //buttons
        0x33,
        0x02, // ambient mode: 00 noise canceling, 01 transparent, 02 normal
        0x50, // NC manual mode level 10-50
        0x00, // transparency mode: 00 fully transparent, 01 vocal mode
        0x01, // NC mode: 00 manual mode, 01 adaptive, 02 transportation
        0x00, // wind noise reduction
        0x01, // ANC env detection
        0x00, // NC transportation type 00 plane, 01 train, 02 bus, 03 car
        0x00, 0x00, 0x00, 0x00, 0xFF, 0x01,
        0x03, //case battery
        0x64,
        0x00, //sound leak
        0x00,
        0x00, //game mode
        0x01, //prompt touch tone
        0x00,
        0x00, //ldac
        0x01, //dual connection
        0x00,
        0x00, // limit high volume
        0x5A, // db limit 75 - 100
        0x00, // decibel reader refresh rate: 00 real time, 01 ten seconds, 02 one min
        0x01, // auto play/pause
        0x01, // prompt wearing
        0x01, // auto power enable
        0x02, // auto power duration
        0x01, // controls touch lock
        0x01, // prompt low battery
        0xFF,
        0xE6, //checksum
    ]
}

#[test]
fn serialize_and_deserialize() {
    let bytes = A3947StateUpdatePacket::default().to_packet().bytes();
    let (_, packet) = Inbound::take(&bytes).unwrap();
    let _: A3947StateUpdatePacket = packet.try_to_packet().unwrap();
}

#[test]
pub fn it_parses_a_known_good_packet() {
    let input = &known_good_packet();
    let (_, packet) = Inbound::take(input).unwrap();
    A3947StateUpdatePacket::take(&packet.body)
        .expect("it should parse successfully as a A3947 state update packet");
}

#[test]
fn known_good_packet_fields() {
    let input = known_good_packet();
    let (consumed, packet) = Inbound::take(&input).unwrap();
    assert_eq!(consumed, 169);
    assert_eq!(packet.command, state_command());
    assert_eq!(packet.body.len(), 159);
    let (n, state) = A3947StateUpdatePacket::take(&packet.body).unwrap();
    assert_eq!(n, 159);
    assert!(state.tws_status.is_connected);
    assert_eq!(state.tws_status.host_device, DeviceSide::Right);
    assert_eq!(state.battery.left.level, BatteryLevel(5));
    assert_eq!(state.battery.right.level, BatteryLevel(5));
    assert!(!state.battery.left.is_charging);
    assert_eq!(state.dual_firmware_version.left.major(), 6);
    assert_eq!(state.dual_firmware_version.left.minor(), 88);
    assert_eq!(state.dual_firmware_version.right.major(), 6);
    assert_eq!(&state.serial_number.0, b"39477A8D0A8A9DF4");
    assert_eq!(state.equalizer_configuration.preset_id, 0x0015);
    assert_eq!(state.equalizer_configuration.volume_adjustments.left.0[4], 0x74);
    assert_eq!(state.equalizer_configuration.volume_adjustments.right.0, [0xff; 10]);
    assert_eq!(state.age_range.0, 2);
    assert!(state.custom_hear_id.is_enabled);
    assert_eq!(state.custom_hear_id.time, 0x7b4f5767);
    assert_eq!(state.custom_hear_id.hear_id_type.0, 0);
    assert_eq!(state.custom_hear_id.custom_volume_adjustments.left.0[0], 0x79);
    assert_eq!(
        state.button_configuration.0,
        [0x11, 0x66, 0x11, 0x66, 0x11, 0x32, 0x11, 0x33, 0x11, 0x44, 0x11, 0x44]
    );
    assert_eq!(
        state.sound_modes,
        A3947SoundModes {
            ambient_sound_mode: AmbientSoundMode::Normal,
            transparency_mode: TransparencyMode::FullyTransparent,
            manual_noise_canceling: 0x50,
            noise_canceling_mode: A3947NoiseCancelingMode::Adaptive,
            wind_noise: WindNoise { is_suppression_enabled: false, is_detected: false },
            adaptive_env_detection: true,
            transport_noise_canceling: TransportNoiseCanceling::Plane,
        }
    );
    assert_eq!(state.case_battery, BatteryLevel(3));
    assert!(!state.sound_leak_detection);
    assert!(!state.game_mode_switch);
    assert_eq!(state.touch_tone, TouchTone::Enabled);
    assert!(!state.ldac);
    assert!(state.dual_connection);
    assert!(!state.limit_volume);
    assert_eq!(state.db_limit, 0x5a);
    assert_eq!(state.db_refresh_rate, 0);
    assert!(state.auto_play_pause);
    assert!(state.wearing_tone);
    assert_eq!(state.auto_power_off, AutoPowerOff { is_enabled: true, duration: 2 });
    assert!(state.touch_lock);
    assert!(state.low_battery_tone);
}

#[test]
fn known_good_state_survives_body_roundtrip() {
    let input = known_good_packet();
    let (_, packet) = Inbound::take(&input).unwrap();
    let state = packet.try_to_packet().unwrap();
    let body = state.body();
    assert_eq!(body.len(), 155);
    let (_, again) = A3947StateUpdatePacket::take(&body).unwrap();
    assert_eq!(again, state);
}

#[test]
fn default_state_survives_frame_roundtrip() {
    let state = A3947StateUpdatePacket::default();
    let frame = state.to_packet().bytes();
    assert_eq!(frame.len(), 165);
    assert_eq!(&frame[..5], &[0x09, 0xff, 0x00, 0x00, 0x01]);
    let (n, packet) = Inbound::take(&frame).unwrap();
    assert_eq!(n, 165);
    assert_eq!(packet.command, Command(0x01, 0x01));
    assert_eq!(packet.try_to_packet().unwrap(), state);
}

#[test]
fn default_state_values() {
    let state = A3947StateUpdatePacket::default();
    assert_eq!(state.equalizer_configuration.preset_id, CUSTOM_EQUALIZER_PRESET_ID);
    assert_eq!(state.equalizer_configuration.volume_adjustments.left.0, [0x78; 10]);
    assert_eq!(&state.serial_number.0, b"0000000000000000");
    assert_eq!(state.sound_modes, A3947SoundModes::default());
    assert_eq!(state.dual_firmware_version.left.major(), 0);
    let body = state.body();
    assert_eq!(&body[32..37], b"00.00");
    assert_eq!(body[108], 0);
}

#[test]
fn skip_offset_skips_bytes_after_buttons() {
    let input = known_good_packet();
    let body = &input[9..input.len() - 1];
    assert_eq!(body[108], 0x12);
    // An offset of 0x12 skips four bytes; with offset 0x0e nothing is skipped.
    let mut shorter: Vec<u8> = body[..121].to_vec();
    shorter.extend_from_slice(&body[125..]);
    shorter[108] = 0x0e;
    let (_, a) = A3947StateUpdatePacket::take(body).unwrap();
    let (_, b) = A3947StateUpdatePacket::take(&shorter).unwrap();
    assert_eq!(a, b);
    // Offsets below 14 skip nothing either.
    shorter[108] = 0x03;
    let (_, c) = A3947StateUpdatePacket::take(&shorter).unwrap();
    assert_eq!(c.sound_modes, a.sound_modes);
}

#[test]
fn state_update_errors() {
    let input = known_good_packet();
    let body = input[9..input.len() - 1].to_vec();
    assert_eq!(
        A3947StateUpdatePacket::take(&body[..100]),
        Err(ParseError::UnexpectedEndOfInput)
    );
    assert_eq!(A3947StateUpdatePacket::take(&body[..5]), Err(ParseError::UnexpectedEndOfInput));
    let mut longer = body.clone();
    longer.push(0);
    assert_eq!(A3947StateUpdatePacket::take(&longer), Err(ParseError::TrailingBytes));
    let mut bad_firmware = body.clone();
    bad_firmware[8] = b'x';
    assert_eq!(
        A3947StateUpdatePacket::take(&bad_firmware),
        Err(ParseError::InvalidFirmwareVersion)
    );
    let mut bad_unused_firmware = body.clone();
    bad_unused_firmware[34] = b'0';
    assert_eq!(
        A3947StateUpdatePacket::take(&bad_unused_firmware),
        Err(ParseError::InvalidFirmwareVersion)
    );
}

#[test]
fn inbound_frame_errors() {
    let input = known_good_packet();
    let mut wrong_sum = input.clone();
    let last = wrong_sum.len() - 1;
    wrong_sum[last] ^= 1;
    assert_eq!(Inbound::take(&wrong_sum), Err(ParseError::ChecksumMismatch));
    let mut wrong_prefix = input.clone();
    wrong_prefix[0] = 0x08;
    assert_eq!(Inbound::take(&wrong_prefix), Err(ParseError::PrefixMismatch));
    assert_eq!(Inbound::take(&input[..3]), Err(ParseError::PrefixMismatch));
    assert_eq!(Inbound::take(&input[..8]), Err(ParseError::UnexpectedEndOfInput));
    assert_eq!(Inbound::take(&input[..100]), Err(ParseError::UnexpectedEndOfInput));
    let mut short_length = input.clone();
    short_length[7] = 9;
    short_length[8] = 0;
    assert_eq!(Inbound::take(&short_length), Err(ParseError::InvalidLength));
    // Bytes after a frame are left alone.
    let mut followed = input.clone();
    followed.extend_from_slice(&[1, 2, 3]);
    let (n, packet) = Inbound::take(&followed).unwrap();
    assert_eq!(n, 169);
    assert_eq!(packet.body.len(), 159);
}

fn example_sound_modes() -> A3947SoundModes {
    A3947SoundModes {
        ambient_sound_mode: AmbientSoundMode::Normal,
        transparency_mode: TransparencyMode::FullyTransparent,
        manual_noise_canceling: 0x12,
        noise_canceling_mode: A3947NoiseCancelingMode::Manual,
        wind_noise: WindNoise { is_suppression_enabled: true, is_detected: false },
        adaptive_env_detection: true,
        transport_noise_canceling: TransportNoiseCanceling::Bus,
    }
}

#[test]
fn set_sound_modes_packet_matches_example() {
    let packet = A3947SetSoundModesPacket { sound_modes: example_sound_modes() };
    assert_eq!(packet.command(), Command(0x06, 0x81));
    assert_eq!(packet.body(), vec![0x02, 0x12, 0x00, 0x00, 0x01, 0x01, 0x02]);
    let expected: &[u8] = &[
        0x08, 0xee, 0x00, 0x00, 0x00, 0x06, 0x81, 0x11, 0x00, 0x02, 0x12, 0x00, 0x00, 0x01, 0x01,
        0x02, 0xa6,
    ];
    assert_eq!(packet.to_packet().bytes(), expected);
}

#[test]
fn sound_modes_roundtrip() {
    let modes = example_sound_modes();
    let bytes = modes.bytes();
    let (n, read) = A3947SoundModes::take(&bytes, 0).unwrap();
    assert_eq!(n, 7);
    assert_eq!(read, modes);
    assert_eq!(A3947SoundModes::take(&bytes[..6], 0), Err(ParseError::UnexpectedEndOfInput));
}

#[test]
fn unknown_ids_fall_back_to_defaults() {
    let bytes = [0x07, 0x20, 0x05, 0x09, 0xfc, 0x02, 0x04];
    let (_, modes) = A3947SoundModes::take(&bytes, 0).unwrap();
    assert_eq!(modes.ambient_sound_mode, AmbientSoundMode::NoiseCanceling);
    assert_eq!(modes.transparency_mode, TransparencyMode::FullyTransparent);
    assert_eq!(modes.noise_canceling_mode, A3947NoiseCancelingMode::Manual);
    assert_eq!(modes.transport_noise_canceling, TransportNoiseCanceling::Plane);
    assert_eq!(modes.wind_noise, WindNoise { is_suppression_enabled: false, is_detected: false });
    // Only the byte 1 is true.
    assert!(!modes.adaptive_env_detection);
    assert_eq!(modes.manual_noise_canceling, 0x20);
}

#[test]
fn enum_ids() {
    assert_eq!(TransportNoiseCanceling::Plane.id(), 0);
    assert_eq!(TransportNoiseCanceling::Train.id(), 1);
    assert_eq!(TransportNoiseCanceling::Bus.id(), 2);
    assert_eq!(TransportNoiseCanceling::Car.id(), 3);
    assert_eq!(A3947NoiseCancelingMode::Manual.id(), 0);
    assert_eq!(A3947NoiseCancelingMode::Adaptive.id(), 1);
    assert_eq!(A3947NoiseCancelingMode::Transport.id(), 2);
    assert_eq!(TransportNoiseCanceling::from_repr(3), Some(TransportNoiseCanceling::Car));
    assert_eq!(TransportNoiseCanceling::from_repr(4), None);
    assert_eq!(A3947NoiseCancelingMode::from_repr(2), Some(A3947NoiseCancelingMode::Transport));
    assert_eq!(A3947NoiseCancelingMode::from_repr(3), None);
}

#[test]
fn wind_noise_bits() {
    let both = WindNoise { is_suppression_enabled: true, is_detected: true };
    let detected = WindNoise { is_suppression_enabled: false, is_detected: true };
    let suppressed = WindNoise { is_suppression_enabled: true, is_detected: false };
    assert_eq!(both.byte(), 3);
    assert_eq!(detected.byte(), 2);
    assert_eq!(suppressed.byte(), 1);
    assert_eq!(WindNoise::default().byte(), 0);
    assert_eq!(WindNoise::from_byte(0xff), both);
    assert_eq!(WindNoise::from_byte(0x02), detected);
    for w in [both, detected, suppressed, WindNoise::default()] {
        assert_eq!(WindNoise::from_byte(w.byte()), w);
    }
}

#[test]
fn state_update_handler_is_registered_and_applies() {
    let mut modules = ModuleCollection::new();
    assert_eq!(modules.packet_handlers.get(state_command()), None);
    modules.add_state_update();
    assert_eq!(
        modules.packet_handlers.get(state_command()),
        Some(PacketHandler::StateUpdate(StateUpdatePacketHandler))
    );
    assert_eq!(modules.packet_handlers.get(Command(0x06, 0x81)), None);

    let input = known_good_packet();
    let (_, packet) = Inbound::take(&input).unwrap();
    let mut state = A3947StateUpdatePacket::default();
    modules.packet_handlers.handle(&mut state, &packet).unwrap();
    assert_eq!(state, packet.try_to_packet().unwrap());

    // A packet whose body cannot be read leaves the state as it was.
    let before = state;
    let broken = Inbound { command: state_command(), body: vec![1, 2, 3] };
    assert_eq!(
        modules.packet_handlers.handle(&mut state, &broken),
        Err(ParseError::UnexpectedEndOfInput)
    );
    assert_eq!(state, before);

    // A packet without a handler is ignored.
    let other = Inbound { command: Command(0x02, 0x02), body: vec![] };
    assert_eq!(modules.packet_handlers.handle(&mut state, &other), Ok(()));
    assert_eq!(state, before);
}

#[test]
fn move_to_state_plans() {
    let modifier = SoundModesStateModifier::new(Arc::new(()));
    let current = A3947SoundModes::default();
    assert_eq!(modifier.move_to_state(&current, &current), SoundModesTransition::Unchanged);
    let target = example_sound_modes();
    assert_eq!(
        modifier.move_to_state(&current, &target),
        SoundModesTransition::Send {
            packet: A3947SetSoundModesPacket { sound_modes: current },
            target,
        }
    );
}

#[test]
fn outbound_frame_shape() {
    let packet = Packet { direction: Direction::Outbound, command: Command(0x01, 0x02), body: vec![] };
    assert_eq!(packet.bytes(), vec![0x08, 0xee, 0x00, 0x00, 0x00, 0x01, 0x02, 0x0a, 0x00, 0x03]);
}

#[test]
fn ids_read_back() {
    for m in [
        TransportNoiseCanceling::Plane,
        TransportNoiseCanceling::Train,
        TransportNoiseCanceling::Bus,
        TransportNoiseCanceling::Car,
    ] {
        assert_eq!(TransportNoiseCanceling::from_repr(m.id()), Some(m));
    }
    for m in [
        A3947NoiseCancelingMode::Manual,
        A3947NoiseCancelingMode::Adaptive,
        A3947NoiseCancelingMode::Transport,
    ] {
        assert_eq!(A3947NoiseCancelingMode::from_repr(m.id()), Some(m));
    }
}

#[test]
fn state_after_outcomes() {
    let modifier = SoundModesStateModifier::new(Arc::new(()));
    let current = A3947SoundModes::default();
    let target = example_sound_modes();
    let send = modifier.move_to_state(&current, &target);
    assert_eq!(send.state_after(&current, true), target);
    assert_eq!(send.state_after(&current, false), current);
    let unchanged = modifier.move_to_state(&current, &current);
    assert_eq!(unchanged.state_after(&current, true), current);
    assert_eq!(unchanged.state_after(&current, false), current);
}

#[test]
fn variant_names() {
    assert_eq!(TransportNoiseCanceling::Bus.as_str(), "Bus");
    assert_eq!(A3947NoiseCancelingMode::Adaptive.as_str(), "Adaptive");
    assert_eq!(TransportNoiseCanceling::from_name("Car"), Some(TransportNoiseCanceling::Car));
    assert_eq!(TransportNoiseCanceling::from_name("car"), None);
    assert_eq!(A3947NoiseCancelingMode::from_name("Transport"), Some(A3947NoiseCancelingMode::Transport));
    assert_eq!(A3947NoiseCancelingMode::from_name(""), None);
    let all = TransportNoiseCanceling::all();
    assert_eq!(all.len(), 4);
    for m in all {
        assert_eq!(TransportNoiseCanceling::from_name(m.as_str()), Some(m));
    }
    assert_eq!(
        A3947NoiseCancelingMode::all(),
        vec![
            A3947NoiseCancelingMode::Manual,
            A3947NoiseCancelingMode::Adaptive,
            A3947NoiseCancelingMode::Transport,
        ]
    );
}
