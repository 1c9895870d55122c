//! virtio-input keyboard / pointer device.
use vstd::prelude::*;

use crate::devices::VirtioDeviceType;

verus! {

/// Kind of input device.
#[derive(Debug, Clone, Copy, PartialEq, Eq, Structural)]
pub enum InputKind {
    /// Keyboard.
    Keyboard,
    /// Mouse.
    Mouse,
    /// Touchpad.
    Touchpad,
}

/// A virtio-input device.
pub struct VirtioInput {
    /// Kind of device.
    pub kind: InputKind,
}

impl VirtioInput {
    /// A device of the given kind.
    pub fn new(kind: InputKind) -> (d: Self)
        ensures
            d.kind == kind,
    {
        VirtioInput { kind }
    }

    /// Always `Input`.
    pub fn device_type(&self) -> (t: VirtioDeviceType)
        ensures
            t == VirtioDeviceType::Input,
    {
        VirtioDeviceType::Input
    }
}

} // verus!
