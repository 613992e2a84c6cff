//! Packet structures of the Soundcore A3947 earbuds: the sound modes, the
//! packet that sets them, the state update packet the device sends, and the
//! framing those packets travel in.
pub mod parsing;
pub mod structures;
pub mod sound_modes;
pub mod packet;
pub mod set_sound_modes;
pub mod state_update_packet;
pub mod module_collection;
pub mod state_modifier;
pub mod wire_format;
