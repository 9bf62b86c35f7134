use vstd::prelude::*;
use crate::error::Result;

verus! {

/// The `Device` trait represents devices that are capable of
/// performing basic device commands.
///
/// A device model says with [`Device::switched`] what its switching
/// guarantees; the two commands are held to it. A model that says nothing
/// guarantees nothing.
pub trait Device {
    /// What holds of the device `self` and of the `answer` after the device
    /// `before` was asked to switch on, or off.
    open spec fn switched(&self, before: &Self, on: bool, answer: Result<()>) -> bool {
        true
    }

    /// Turns on the device.
    fn turn_on(&mut self) -> (answer: Result<()>)
        ensures
            final(self).switched(old(self), true, answer),
    ;

    /// Turns off the device.
    fn turn_off(&mut self) -> (answer: Result<()>)
        ensures
            final(self).switched(old(self), false, answer),
    ;
}

} // verus!
