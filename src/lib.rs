//! Bridges a MIDI controller to a lamp-control service: notes and controller
//! changes are translated, against a small bank/program state machine, into
//! JSON commands for a websocket link.

pub mod text;
pub mod note_name;
pub mod lamps;
pub mod midi_state;
pub mod link;



