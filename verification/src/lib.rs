//! Core logic of a composite USB auto-typing keyboard device: the
//! configuration-descriptor builder, the character-to-keystroke encoder and
//! injection planner, the installed-device registry, and the storage
//! arbitration state machine.

pub mod usb;
