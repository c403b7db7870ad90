use nodara::frame::{DispatchError, Origin};
use nodara::pallets::interop::{verify_signature, Config, Error, GenesisConfig, InteropConfig, Pallet};

fn module() -> Pallet {
    Pallet::new(Config { base_timeout: 300, max_payload_length: 1024 })
}

#[test]
fn send_message_should_work() {
    let mut m = module();
    let id = 1;
    let payload = b"Test payload".to_vec();
    let signature = sp_io::hashing::blake2_128(&payload).to_vec();
    assert_eq!(m.send_message(Origin::Signed(1), id, payload.clone(), signature), Ok(()));
    let msg = m.outgoing_messages.get(&id).expect("Message must be stored");
    assert_eq!(msg.payload, payload);
}

#[test]
fn send_message_should_fail_if_payload_too_long() {
    let mut m = module();
    let payload = vec![0u8; (1024 + 1) as usize];
    let signature = sp_io::hashing::blake2_128(&payload).to_vec();
    assert_eq!(m.send_message(Origin::Signed(1), 2, payload, signature), Err(DispatchError::Module(Error::PayloadTooLong)));
}

#[test]
fn receive_message_should_work() {
    let mut m = module();
    let id = 3;
    let payload = b"Test payload receive".to_vec();
    let signature = sp_io::hashing::blake2_128(&payload).to_vec();
    assert_eq!(m.receive_message(Origin::Signed(1), id, payload.clone(), signature), Ok(()));
    let msg = m.incoming_messages.get(&id).expect("Message must be stored");
    assert_eq!(msg.payload, payload);
}

#[test]
fn receive_message_should_fail_if_verification_fails() {
    let mut m = module();
    assert_eq!(
        m.receive_message(Origin::Signed(1), 4, b"".to_vec(), b"".to_vec()),
        Err(DispatchError::Module(Error::VerificationFailed))
    );
}

#[test]
fn lib_update_config_should_work() {
    let mut m = module();
    let new_config = b"NewConfig".to_vec();
    let details = b"Update details".to_vec();
    assert_eq!(m.update_config(Origin::Signed(1), new_config, details), Ok(()));
    let config_updates: Vec<_> = m
        .interop_history
        .iter()
        .filter(|(_, id, op, _)| *id == 0 && *op == b"ConfigUpdate".to_vec())
        .collect();
    assert!(!config_updates.is_empty());
}

#[test]
fn update_config_params_should_work() {
    let mut m = module();
    let old_config = m.interop_config;
    let new_timeout = old_config.base_timeout + 100;
    let new_max_payload = old_config.max_payload_length + 100;
    assert_eq!(m.update_config_params(Origin::Root, new_timeout, new_max_payload), Ok(()));
    assert_eq!(m.interop_config.base_timeout, new_timeout);
    assert_eq!(m.interop_config.max_payload_length, new_max_payload);
}

#[test]
fn interop_lib_prune_history_should_work() {
    let mut m = module();
    assert_eq!(
        m.send_message(Origin::Signed(1), 10, b"Payload1".to_vec(), sp_io::hashing::blake2_128(b"Payload1").to_vec()),
        Ok(())
    );
    assert_eq!(
        m.send_message(Origin::Signed(1), 11, b"Payload2".to_vec(), sp_io::hashing::blake2_128(b"Payload2").to_vec()),
        Ok(())
    );
    let len_before = m.interop_history.len();
    assert_eq!(m.prune_history(Origin::Root, 1), Ok(()));
    assert_eq!(m.interop_history.len(), 1);
    assert!(len_before > 1);
}

#[test]
fn test_send_message() {
    let mut m = Pallet::new(Config { base_timeout: 300, max_payload_length: 256 });
    let payload = b"Test Interop Message".to_vec();
    let signature = b"ValidSignature".to_vec();
    assert_eq!(m.send_message(Origin::Signed(1), 1, payload.clone(), signature), Ok(()));
    assert_eq!(m.outgoing_messages.get(&1).unwrap().payload, payload);
}

#[test]
fn tests_test_update_config() {
    let mut m = Pallet::new(Config { base_timeout: 300, max_payload_length: 256 });
    assert_eq!(m.update_config(Origin::Signed(1), b"New Interop Config".to_vec(), b"Config details".to_vec()), Ok(()));
}

#[test]
fn signature_must_be_the_payload_digest() {
    let payload = b"0123456789abcdef".to_vec();
    let digest = sp_io::hashing::blake2_128(&payload).to_vec();
    assert!(verify_signature(&payload, &digest));
    assert!(!verify_signature(&payload, &payload));
    let mut m = module();
    assert_eq!(
        m.receive_message(Origin::Signed(1), 1, payload.clone(), payload.clone()),
        Err(DispatchError::Module(Error::VerificationFailed))
    );
    assert!(m.incoming_messages.is_empty());
}

#[test]
fn interop_errors_and_origins() {
    let mut m = Pallet::new(Config { base_timeout: 1, max_payload_length: 2 });
    let long = b"abc".to_vec();
    let sig = sp_io::hashing::blake2_128(&long).to_vec();
    assert_eq!(m.receive_message(Origin::Signed(1), 1, long, sig), Err(DispatchError::Module(Error::PayloadTooLong)));
    assert_eq!(m.update_config(Origin::Signed(1), vec![], vec![]), Err(DispatchError::Module(Error::MessageProcessingError)));
    assert_eq!(m.update_config_params(Origin::Signed(1), 1, 1), Err(DispatchError::BadOrigin));
    assert_eq!(m.prune_history(Origin::Signed(1), 1), Err(DispatchError::BadOrigin));
    assert_eq!(m.send_message(Origin::Unsigned, 1, vec![], vec![]), Err(DispatchError::BadOrigin));
    let g = GenesisConfig { initial_config: Some(InteropConfig { base_timeout: 9, max_payload_length: 3 }) };
    let p = g.build(Config { base_timeout: 1, max_payload_length: 2 });
    assert_eq!(p.interop_config.max_payload_length, 3);
}
