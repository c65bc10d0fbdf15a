use multiverse::device::{DehydratedDevices, DeviceError, DeviceRequest};

#[test]
fn create_requires_active_session() {
    let key = [7u8; 32];
    let inactive = DehydratedDevices::new(false);
    assert_eq!(inactive.create(key), Err(DeviceError::ManagementUnavailable));
    let active = DehydratedDevices::new(true);
    assert_eq!(active.create(key), Ok(DeviceRequest::CreateAndUpload { pickle_key: key }));
}

#[test]
fn rehydrate_requires_active_session() {
    let key = [1u8; 32];
    let inactive = DehydratedDevices::new(false);
    assert_eq!(
        inactive.rehydrate(key, "DEVICE".to_owned(), "{}".to_owned()),
        Err(DeviceError::ManagementUnavailable)
    );
    let active = DehydratedDevices::new(true);
    assert_eq!(
        active.rehydrate(key, "DEVICE".to_owned(), "{\"device_keys\":{}}".to_owned()),
        Ok(DeviceRequest::Rehydrate {
            pickle_key: key,
            device_id: "DEVICE".to_owned(),
            device_data: "{\"device_keys\":{}}".to_owned(),
        })
    );
}

#[test]
fn fetch_events_needs_no_session() {
    let inactive = DehydratedDevices::new(false);
    assert_eq!(
        inactive.get_events_for_rehyrdated_device("DEVICE".to_owned()),
        Ok(DeviceRequest::FetchEvents { device_id: "DEVICE".to_owned() })
    );
    let active = DehydratedDevices::new(true);
    assert_eq!(
        active.get_events_for_rehyrdated_device("DEVICE".to_owned()),
        Ok(DeviceRequest::FetchEvents { device_id: "DEVICE".to_owned() })
    );
}
