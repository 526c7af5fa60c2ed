//! What of a device its pre-keys have to do with.

use vstd::prelude::*;

verus! {

/// The keys of a device, and where it stands with its pre-keys.
pub struct DeviceKeys {
    pub registration_id: u32,
    /// The public identity key.
    pub identity_key: Vec<u8>,
    pub signed_pre_key_id: u32,
    /// The public signed pre-key.
    pub signed_pre_key: Vec<u8>,
    pub signed_pre_key_signature: Vec<u8>,
    /// The id of the next pre-key to make, or zero where none was ever recorded. It only grows.
    pub next_pre_key_id: u32,
}

/// [`DeviceKeys`] in contracts.
pub struct DeviceKeysView {
    pub registration_id: u32,
    pub identity_key: Seq<u8>,
    pub signed_pre_key_id: u32,
    pub signed_pre_key: Seq<u8>,
    pub signed_pre_key_signature: Seq<u8>,
    pub next_pre_key_id: u32,
}

impl View for DeviceKeys {
    type V = DeviceKeysView;

    open spec fn view(&self) -> DeviceKeysView {
        DeviceKeysView {
            registration_id: self.registration_id,
            identity_key: self.identity_key@,
            signed_pre_key_id: self.signed_pre_key_id,
            signed_pre_key: self.signed_pre_key@,
            signed_pre_key_signature: self.signed_pre_key_signature@,
            next_pre_key_id: self.next_pre_key_id,
        }
    }
}

} // verus!
