//! The packet that asks the A3947 to change its sound modes.
use vstd::prelude::*;
use crate::packet::{Command, Direction, Packet};
use crate::sound_modes::A3947SoundModes;

verus! {

/// Sets all sound modes of the A3947 at once.
#[derive(Clone, Copy, Debug, PartialEq, Eq, Hash, Structural)]
pub struct A3947SetSoundModesPacket {
    pub sound_modes: A3947SoundModes,
}

/// The command of the set sound modes packet.
pub open spec fn spec_set_sound_modes_command() -> Command {
    Command(0x06, 0x81)
}

impl A3947SetSoundModesPacket {
    pub fn command(&self) -> (r: Command)
        ensures
            r == spec_set_sound_modes_command(),
    {
        Command(0x06, 0x81)
    }

    /// The body is the seven sound mode bytes.
    pub fn body(&self) -> (r: Vec<u8>)
        ensures
            r@ == self.sound_modes.spec_bytes(),
    {
        let mut out: Vec<u8> = Vec::new();
        self.sound_modes.write(&mut out);
        assert(out@ =~= self.sound_modes.spec_bytes());
        out
    }

    /// The outbound packet that carries the settings.
    pub fn to_packet(&self) -> (r: Packet)
        ensures
            r.direction == Direction::Outbound,
            r.command == spec_set_sound_modes_command(),
            r.body@ == self.sound_modes.spec_bytes(),
    {
        Packet { direction: Direction::Outbound, command: self.command(), body: self.body() }
    }
}

} // verus!
