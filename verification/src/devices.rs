//! Ownership of devices, and how it is made permanent.

use vstd::prelude::*;

verus! {

/// A value that stands for the ownership of a device.
pub trait Device {

}

/// A device whose state can be locked in for good.
pub trait StaticDevice: Device + Sized + 'static {
    /// Locks in the state of the device: its owner gives it up and gets a shared reference without
    /// end in return. Nothing can take the device out of that reference again, so it is never
    /// reconfigured and never released, and the reference can be copied to whoever needs it.
    fn finalize(self) -> (device: &'static Self)
        ensures
            *device == self,
    ;
}

/// `Box::leak` of the standard library: gives up the box and hands back a reference to what it
/// holds, which is never freed. Believed of it: the reference is to the value that was in the
/// box.
#[verifier::external_body]
fn leak<T: 'static>(boxed: Box<T>) -> (value: &'static T)
    ensures
        *value == *boxed,
{
    Box::leak(boxed)
}

/// Turns an owned value into a shared reference without end to the same value.
pub(crate) fn make_static<T: Sized + 'static>(val: T) -> (reference: &'static T)
    ensures
        *reference == val,
{
    leak(Box::new(val))
}

} // verus!
