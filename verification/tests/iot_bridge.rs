use nodara::frame::{DispatchError, Origin};
use nodara::pallets::iot_bridge::{verify_data, Config, Error, Event, Pallet, FIXED_TIMESTAMP};

fn module() -> Pallet {
    Pallet::new(Config { max_payload_length: 512, base_timeout: 300 })
}

#[test]
fn submit_iot_data_should_work() {
    let mut m = module();
    let id = 1;
    let payload = b"Test IoT data".to_vec();
    assert_eq!(
        m.submit_iot_data(Origin::Signed(1), id, payload.clone(), b"Device123".to_vec(), b"ValidSignature".to_vec()),
        Ok(())
    );
    let record = m.iot_data.get(&id).expect("IoT record should be stored");
    assert_eq!(record.payload, payload);
}

#[test]
fn submit_iot_data_should_fail_if_payload_too_long() {
    let mut m = module();
    let payload = vec![0u8; (512 + 1) as usize];
    assert_eq!(
        m.submit_iot_data(Origin::Signed(1), 2, payload, b"Device123".to_vec(), b"Signature".to_vec()),
        Err(DispatchError::Module(Error::PayloadTooLong))
    );
}

#[test]
fn submit_iot_data_should_fail_if_device_id_empty() {
    let mut m = module();
    assert_eq!(
        m.submit_iot_data(Origin::Signed(1), 3, b"Valid payload".to_vec(), Vec::new(), b"Signature".to_vec()),
        Err(DispatchError::Module(Error::InvalidDeviceId))
    );
}

#[test]
fn update_config_should_work() {
    let mut m = module();
    let new_config = b"New IoT Config".to_vec();
    let details = b"Config update details".to_vec();
    assert_eq!(m.update_config(Origin::Signed(1), new_config, details), Ok(()));
    let config_updates: Vec<_> = m
        .iot_history
        .iter()
        .filter(|(_, id, op, _)| *id == 0 && *op == b"ConfigUpdate".to_vec())
        .collect();
    assert!(!config_updates.is_empty());
}

#[test]
fn test_submit_iot_data() {
    let mut m = Pallet::new(Config { max_payload_length: 256, base_timeout: 30 });
    let payload = b"Sample IoT Data".to_vec();
    let device_id = b"Device123".to_vec();
    assert_eq!(
        m.submit_iot_data(Origin::Signed(1), 1, payload.clone(), device_id.clone(), b"ValidSignature".to_vec()),
        Ok(())
    );
    let record = m.iot_data.get(&1).unwrap();
    assert_eq!(record.payload, payload);
    assert_eq!(record.device_id, device_id);
}

#[test]
fn iot_tests_test_update_config() {
    let mut m = Pallet::new(Config { max_payload_length: 256, base_timeout: 30 });
    assert_eq!(
        m.update_config(Origin::Signed(1), b"NewConfigParams".to_vec(), b"Update for better performance".to_vec()),
        Ok(())
    );
}

#[test]
fn unverifiable_data_is_refused() {
    let mut m = module();
    assert!(!verify_data(&vec![], &vec![1]));
    assert!(!verify_data(&vec![1], &vec![]));
    assert!(verify_data(&vec![1], &vec![1]));
    assert_eq!(
        m.submit_iot_data(Origin::Signed(1), 5, vec![], b"D".to_vec(), b"S".to_vec()),
        Err(DispatchError::Module(Error::DataVerificationFailed))
    );
    assert_eq!(
        m.submit_iot_data(Origin::Signed(1), 5, vec![1], b"D".to_vec(), vec![]),
        Err(DispatchError::Module(Error::DataVerificationFailed))
    );
    assert_eq!(m.submit_iot_data(Origin::Root, 5, vec![1], b"D".to_vec(), vec![1]), Err(DispatchError::BadOrigin));
    assert!(m.iot_data.is_empty());
    assert!(m.iot_history.is_empty());
}

#[test]
fn submission_is_logged() {
    let mut m = module();
    assert_eq!(m.submit_iot_data(Origin::Signed(1), 8, b"p".to_vec(), b"D".to_vec(), b"S".to_vec()), Ok(()));
    let e = m.iot_history.last().unwrap();
    assert_eq!((e.0, e.1, e.2.clone(), e.3.clone()), (FIXED_TIMESTAMP, 8, b"Submit".to_vec(), b"p".to_vec()));
    assert_eq!(m.events, vec![Event::IotDataSubmitted(8, b"p".to_vec())]);
    assert_eq!(m.iot_data.get(&8).unwrap().timestamp, FIXED_TIMESTAMP);
}
