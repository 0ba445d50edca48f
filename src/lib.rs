//! Inspection and patching of live process memory: byte-pattern scanning,
//! module lookup, a reversible patch ledger and thread quiescence.
pub mod dinput8;
pub mod launching;
pub mod patching;
pub mod pattern;
pub mod pausing;
pub mod pointer;
pub mod process;
pub mod system;
pub mod text;
pub mod virtual_keys;
