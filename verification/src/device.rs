//! Devices as the registry knows them.

use vstd::prelude::*;
use std::collections::HashMap;
use matrix_sdk_crypto::Device as InnerDevice;
use crate::identifiers::user_id_valid;

verus! {

#[verifier::external_type_specification]
#[verifier::external_body]
pub struct ExInnerDevice(InnerDevice);

/// A snapshot of a device that can take part in encrypted rooms.
pub struct Device {
    /// The owner of the device.
    pub user_id: String,
    /// The id of the device, unique among those of its owner.
    pub device_id: String,
    /// The public identity keys that the device published: from the key id,
    /// such as `curve25519:DEVICEID`, to the key in base64.
    pub keys: HashMap<String, String>,
    /// The encryption algorithms that the device supports.
    pub algorithms: Vec<String>,
    /// The name that the owner gave the device.
    pub display_name: Option<String>,
    /// Whether the device is blocked: a blocked device gets no room keys
    /// from us.
    pub is_blocked: bool,
    /// Whether we marked the device as trusted on this device.
    pub locally_trusted: bool,
    /// Whether our identity is trusted and the owner's identity signed the
    /// device.
    pub cross_signing_trusted: bool,
}

/// Reads a `matrix_sdk_crypto::Device` through its getters, one per field.
/// Trusted: the owner is the text of a `UserId`.
#[verifier::external_body]
pub(crate) fn device_fields(d: &InnerDevice) -> (r: Device)
    ensures
        user_id_valid(r.user_id@),
{
    Device {
        user_id: d.user_id().to_string(),
        device_id: d.device_id().to_string(),
        keys: d.keys().iter().map(|(k, v)| (k.to_string(), v.to_base64())).collect(),
        algorithms: d.algorithms().iter().map(|a| a.to_string()).collect(),
        display_name: d.display_name().map(|d| d.to_owned()),
        is_blocked: d.is_blacklisted(),
        locally_trusted: d.is_locally_trusted(),
        cross_signing_trusted: d.is_cross_signing_trusted(),
    }
}

impl Device {
    /// A snapshot of the device as the registry holds it now.
    pub(crate) fn from_inner(d: &InnerDevice) -> (r: Device)
        ensures
            user_id_valid(r.user_id@),
    {
        device_fields(d)
    }

    /// The snapshots of a list of devices, in the order of the list.
    pub(crate) fn from_list(devices: &Vec<InnerDevice>) -> (r: Vec<Device>)
        ensures
            r@.len() == devices@.len(),
            forall|k: int| 0 <= k < r@.len() ==> user_id_valid((#[trigger] r@[k]).user_id@),
    {
        let mut out: Vec<Device> = Vec::new();
        let mut i: usize = 0;
        while i < devices.len()
            invariant
                0 <= i <= devices.len(),
                out@.len() == i,
                forall|k: int| 0 <= k < out@.len() ==> user_id_valid((#[trigger] out@[k]).user_id@),
            decreases devices.len() - i,
        {
            out.push(Device::from_inner(&devices[i]));
            i += 1;
        }
        out
    }
}

} // verus!
