//! The status-bar modules: what they decide and the text they show, from the
//! readings that the program takes of the machine.

pub mod battery;
pub mod cpu;
