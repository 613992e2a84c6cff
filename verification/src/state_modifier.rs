//! Moving the A3947 to new sound modes: what to send, and what the state is
//! once the device has answered.
use vstd::prelude::*;
use std::sync::Arc;
use crate::set_sound_modes::A3947SetSoundModesPacket;
use crate::sound_modes::A3947SoundModes;

verus! {

/// Changes the sound modes of a device through its packet connection `P`.
pub struct SoundModesStateModifier<P> {
    packet_io: Arc<P>,
}

/// What moving from one sound mode setting to another takes.
#[derive(Clone, Copy, Debug, PartialEq, Eq)]
pub enum SoundModesTransition {
    /// The device already has the target settings: nothing is sent.
    Unchanged,
    /// Send `packet` and wait for the device's response; see `state_after` for
    /// the known settings once the exchange has ended.
    Send { packet: A3947SetSoundModesPacket, target: A3947SoundModes },
}

/// The transition from `current` to `target`. The packet that is sent carries
/// `current`, the settings the device had before the move; the known settings
/// become `target` once the device has answered.
pub open spec fn spec_plan(current: A3947SoundModes, target: A3947SoundModes) -> SoundModesTransition {
    if current == target {
        SoundModesTransition::Unchanged
    } else {
        SoundModesTransition::Send {
            packet: A3947SetSoundModesPacket { sound_modes: current },
            target,
        }
    }
}

impl SoundModesTransition {
    /// The known settings after the transition has been carried out without error.
    pub open spec fn spec_state_after(self, current: A3947SoundModes) -> A3947SoundModes {
        match self {
            SoundModesTransition::Unchanged => current,
            SoundModesTransition::Send { target, .. } => target,
        }
    }

    /// The known settings once the transition has ended: `sent_ok` says
    /// whether the device answered the packet (it is ignored when nothing is
    /// sent). A failed send leaves the known settings as they were.
    pub open spec fn spec_state_after_outcome(
        self,
        current: A3947SoundModes,
        sent_ok: bool,
    ) -> A3947SoundModes {
        if sent_ok {
            self.spec_state_after(current)
        } else {
            current
        }
    }

    /// The known settings once the transition has ended, as `spec_state_after_outcome` says.
    pub fn state_after(&self, current: &A3947SoundModes, sent_ok: bool) -> (r: A3947SoundModes)
        ensures
            r == self.spec_state_after_outcome(*current, sent_ok),
            !sent_ok ==> r == *current,
            sent_ok ==> r == self.spec_state_after(*current),
    {
        if !sent_ok {
            return *current;
        }
        match self {
            SoundModesTransition::Unchanged => *current,
            SoundModesTransition::Send { target, .. } => *target,
        }
    }
}

impl<P> SoundModesStateModifier<P> {
    /// The packet connection.
    pub closed spec fn spec_packet_io(&self) -> Arc<P> {
        self.packet_io
    }

    pub fn new(packet_io: Arc<P>) -> (r: Self)
        ensures
            r.spec_packet_io() == packet_io,
    {
        SoundModesStateModifier { packet_io }
    }

    /// The packet connection the settings go through.
    pub fn packet_io(&self) -> (r: &Arc<P>)
        ensures
            *r == self.spec_packet_io(),
    {
        &self.packet_io
    }

    /// Decides how to move the device from `current` to `target` settings.
    pub fn move_to_state(&self, current: &A3947SoundModes, target: &A3947SoundModes) -> (r:
        SoundModesTransition)
        ensures
            r == spec_plan(*current, *target),
    {
        if *current == *target {
            return SoundModesTransition::Unchanged;
        }
        SoundModesTransition::Send {
            packet: A3947SetSoundModesPacket { sound_modes: *current },
            target: *target,
        }
    }
}

/// A move that succeeds leaves the device at the target settings, and moving to
/// the settings the device already has sends nothing.
pub proof fn lemma_move_reaches_target(current: A3947SoundModes, target: A3947SoundModes)
    ensures
        spec_plan(current, target).spec_state_after(current) == target,
        spec_plan(current, target).spec_state_after_outcome(current, true) == target,
        spec_plan(current, current) == SoundModesTransition::Unchanged,
{
}

/// A move whose packet the device does not answer leaves the known settings as
/// they were, whatever the target.
pub proof fn lemma_failed_move_keeps_state(current: A3947SoundModes, target: A3947SoundModes)
    ensures
        spec_plan(current, target).spec_state_after_outcome(current, false) == current,
{
}

} // verus!
