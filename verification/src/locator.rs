//! Picking the headset out of a HID device enumeration.
//!
//! The caller enumerates the HID endpoints the OS exposes, in whatever order
//! the OS returns them, and hands the (vendor id, product id) pairs here.
//! [`locate`] returns the position of the first pair drawn from the two
//! accepted id lists, and the caller opens that endpoint.

use vstd::prelude::*;

use crate::DeviceError;

verus! {

/// The identifying pair of a HID endpoint as the OS reports it.
#[derive(Debug, Clone, Copy, PartialEq, Eq, Structural)]
pub struct DeviceIdentity {
    pub vendor_id: u16,
    pub product_id: u16,
}

/// The accepted vendor ids: HyperX (0x0951) and HP (0x03F0).
pub open spec fn accepted_vendor(v: u16) -> bool {
    v == 0x0951 || v == 0x03F0
}

/// The accepted product ids of the headset's two variants.
pub open spec fn accepted_product(p: u16) -> bool {
    p == 0x1718 || p == 0x018B
}

/// A device is accepted when its vendor id and its product id each lie in
/// their own list; any cross pairing of the two lists counts.
pub open spec fn whitelisted(d: DeviceIdentity) -> bool {
    accepted_vendor(d.vendor_id) && accepted_product(d.product_id)
}

/// Whether this identity belongs to a compatible headset.
pub fn is_whitelisted(d: &DeviceIdentity) -> (b: bool)
    ensures
        b == whitelisted(*d),
{
    (d.vendor_id == 0x0951 || d.vendor_id == 0x03F0)
        && (d.product_id == 0x1718 || d.product_id == 0x018B)
}

/// Finds the headset among the enumerated devices.
///
/// Returns the index of the first whitelisted entry in enumeration order,
/// and `NoDeviceFound` exactly when no entry is whitelisted.
pub fn locate(devices: &Vec<DeviceIdentity>) -> (r: Result<usize, DeviceError>)
    ensures
        match r {
            Ok(i) => {
                &&& i < devices@.len()
                &&& whitelisted(devices@[i as int])
                &&& forall|j: int| 0 <= j < i ==> !whitelisted(devices@[j])
            },
            Err(e) => {
                &&& e == DeviceError::NoDeviceFound()
                &&& forall|j: int| 0 <= j < devices@.len() ==> !whitelisted(devices@[j])
            },
        },
{
    let mut i: usize = 0;
    while i < devices.len()
        invariant
            i <= devices@.len(),
            forall|j: int| 0 <= j < i ==> !whitelisted(devices@[j]),
        decreases devices@.len() - i,
    {
        if is_whitelisted(&devices[i]) {
            return Ok(i);
        }
        i = i + 1;
    }
    Err(DeviceError::NoDeviceFound())
}

} // verus!
