//! Input devices that DirectInput can create.
use vstd::prelude::*;

verus! {

/// A DirectInput device kind.
#[derive(Debug, Clone, Copy, PartialEq, Eq, Structural)]
pub enum DeviceType {
    Keyboard,
    Mouse,
}

} // verus!
