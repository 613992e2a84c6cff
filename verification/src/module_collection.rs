//! The registry of packet handlers that a device's modules fill: one handler
//! per command.
use vstd::prelude::*;
use std::collections::HashMap;
use crate::packet::{Command, Inbound};
use crate::parsing::ParseError;
use crate::state_update_packet::{A3947StateUpdatePacket, StateUpdatePacketHandler};

verus! {

broadcast use vstd::std_specs::hash::group_hash_axioms;

/// The packet handlers this library provides.
#[derive(Clone, Copy, Debug, PartialEq, Eq, Structural)]
pub enum PacketHandler {
    StateUpdate(StateUpdatePacketHandler),
}

/// Handlers keyed by the command (as `Command::spec_key`) of the packets they handle.
pub struct PacketHandlerCollection {
    handlers: HashMap<u16, PacketHandler>,
}

impl View for PacketHandlerCollection {
    type V = Map<u16, PacketHandler>;

    closed spec fn view(&self) -> Map<u16, PacketHandler> {
        self.handlers@
    }
}

impl PacketHandlerCollection {
    /// No handlers.
    pub fn new() -> (r: Self)
        ensures
            r@ == Map::<u16, PacketHandler>::empty(),
    {
        PacketHandlerCollection { handlers: HashMap::new() }
    }

    /// Makes `handler` the handler of `command`, replacing any earlier one.
    pub fn set_handler(&mut self, command: Command, handler: PacketHandler)
        ensures
            final(self)@ == old(self)@.insert(command.spec_key(), handler),
    {
        let key = command.key();
        self.handlers.insert(key, handler);
    }

    /// The handler of `command`, if there is one.
    pub fn get(&self, command: Command) -> (r: Option<PacketHandler>)
        ensures
            r == (if self@.contains_key(command.spec_key()) {
                Some(self@[command.spec_key()])
            } else {
                None::<PacketHandler>
            }),
    {
        let key = command.key();
        match self.handlers.get(&key) {
            Some(h) => Some(*h),
            None => None,
        }
    }

    /// Passes `packet` to the handler of its command; a packet that no handler
    /// takes leaves the state as it is.
    pub fn handle(&self, state: &mut A3947StateUpdatePacket, packet: &Inbound) -> (r: Result<
        (),
        ParseError,
    >)
        ensures
            match self.spec_handler_of(packet.command) {
                Some(PacketHandler::StateUpdate(h)) => h.spec_handled(
                    *old(state),
                    *final(state),
                    packet.body@,
                    r,
                ),
                None => r is Ok && *final(state) == *old(state),
            },
    {
        match self.get(packet.command) {
            Some(PacketHandler::StateUpdate(h)) => h.handle_packet(state, packet),
            None => Ok(()),
        }
    }

    /// The handler of `command`, if there is one.
    pub open spec fn spec_handler_of(&self, command: Command) -> Option<PacketHandler> {
        if self@.contains_key(command.spec_key()) {
            Some(self@[command.spec_key()])
        } else {
            None
        }
    }
}

/// What the modules of a device contribute; here, its packet handlers.
pub struct ModuleCollection {
    pub packet_handlers: PacketHandlerCollection,
}

impl ModuleCollection {
    /// A collection without modules.
    pub fn new() -> (r: Self)
        ensures
            r.packet_handlers@ == Map::<u16, PacketHandler>::empty(),
    {
        ModuleCollection { packet_handlers: PacketHandlerCollection::new() }
    }
}

} // verus!
