//! A logging bridge between a host process and the modules it loads at run
//! time: the boundary-safe form of a log event, the conversions to and from
//! it, the calls that each side's logger makes, and the one-time
//! initialisation gate.

pub mod level;
pub mod event;
pub mod wire;
pub mod gate;
pub mod facade;
