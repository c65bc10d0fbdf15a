//! The device rehydration collaborator's decision layer: whether a
//! dehydrated-device operation can be issued at all, and as what request.
//!
//! The cryptographic work itself (creating and pickling a device record,
//! rehydrating one, fetching its queued events) is the external crypto
//! service's; this type only decides.  Creating and rehydrating need an
//! active cryptographic session, and a missing one is a typed, recoverable
//! error — device management is unavailable — never a crash; fetching queued
//! events is a plain server call built from the device identifier alone.

use vstd::prelude::*;

verus! {

/// Why a device-management operation could not be issued.
#[derive(Clone, Copy, PartialEq, Eq, Structural, Debug)]
pub enum DeviceError {
    /// Creating or rehydrating a device needs an active cryptographic
    /// session, and none is.
    ManagementUnavailable,
}

/// A request for the external device-management service to perform.
#[derive(PartialEq, Eq, Debug)]
pub enum DeviceRequest {
    /// Create a fresh dehydrated device record, pickle it under the key, and
    /// upload it.
    CreateAndUpload { pickle_key: [u8; 32] },
    /// Recover a usable device from the pickled key material and the
    /// server-provided record for this device identifier; the record travels
    /// as its raw JSON text.
    Rehydrate { pickle_key: [u8; 32], device_id: String, device_data: String },
    /// Fetch the encrypted events queued for the rehydrated device.
    FetchEvents { device_id: String },
}

/// The dehydrated-devices manager: decides, from whether a cryptographic
/// session is active, which device-management requests may be issued.
pub struct DehydratedDevices {
    /// Whether a cryptographic session is currently active.
    pub session_active: bool,
}

impl DehydratedDevices {
    /// A manager over a session that is active or not.
    pub fn new(session_active: bool) -> (r: DehydratedDevices)
        ensures
            r.session_active == session_active,
    {
        DehydratedDevices { session_active }
    }

    /// The request that creates and uploads a new dehydrated device, or the
    /// typed error when no session is active.
    pub fn create(&self, pickle_key: [u8; 32]) -> (r: Result<DeviceRequest, DeviceError>)
        ensures
            self.session_active ==> r == Ok::<DeviceRequest, DeviceError>(
                DeviceRequest::CreateAndUpload { pickle_key },
            ),
            !self.session_active ==> r == Err::<DeviceRequest, DeviceError>(
                DeviceError::ManagementUnavailable,
            ),
    {
        if self.session_active {
            Ok(DeviceRequest::CreateAndUpload { pickle_key })
        } else {
            Err(DeviceError::ManagementUnavailable)
        }
    }

    /// The request that rehydrates the device `device_id` from its pickled
    /// key material and the server-provided record, or the typed error when
    /// no session is active.
    pub fn rehydrate(&self, pickle_key: [u8; 32], device_id: String, device_data: String) -> (r:
        Result<DeviceRequest, DeviceError>)
        ensures
            self.session_active ==> r == Ok::<DeviceRequest, DeviceError>(
                DeviceRequest::Rehydrate { pickle_key, device_id, device_data },
            ),
            !self.session_active ==> r == Err::<DeviceRequest, DeviceError>(
                DeviceError::ManagementUnavailable,
            ),
    {
        if self.session_active {
            Ok(DeviceRequest::Rehydrate { pickle_key, device_id, device_data })
        } else {
            Err(DeviceError::ManagementUnavailable)
        }
    }

    /// The request that fetches the events queued for the rehydrated device.
    /// It is built from the device identifier alone and goes straight to the
    /// server, so it needs no active session.
    pub fn get_events_for_rehyrdated_device(&self, device_id: String) -> (r: Result<
        DeviceRequest,
        DeviceError,
    >)
        ensures
            r == Ok::<DeviceRequest, DeviceError>(DeviceRequest::FetchEvents { device_id }),
    {
        Ok(DeviceRequest::FetchEvents { device_id })
    }
}

} // verus!
