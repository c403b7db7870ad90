use nodara::frame::{DispatchError, Origin};
use nodara::pallets::identity::{Config, Error, Event, Pallet, FIXED_TIMESTAMP};

fn module() -> Pallet {
    Pallet::new(Config { default_verification: true, max_kyc_length: 256 })
}

#[test]
fn register_identity_should_work() {
    let mut m = module();
    let kyc_details = b"Encrypted KYC Data".to_vec();
    assert_eq!(m.register_identity(Origin::Signed(1), kyc_details.clone()), Ok(()));
    let identity = m.identities.get(&1).expect("identity registered");
    assert_eq!(identity.kyc_details, kyc_details);
    assert_eq!(identity.verified, true);
    assert!(!m.identity_history.is_empty());
}

#[test]
fn register_identity_should_fail_if_already_exists() {
    let mut m = module();
    let kyc_details = b"KYC Data".to_vec();
    assert_eq!(m.register_identity(Origin::Signed(1), kyc_details.clone()), Ok(()));
    assert_eq!(
        m.register_identity(Origin::Signed(1), kyc_details),
        Err(DispatchError::Module(Error::IdentityAlreadyExists))
    );
}

#[test]
fn update_identity_should_work() {
    let mut m = module();
    assert_eq!(m.register_identity(Origin::Signed(1), b"Initial KYC Data".to_vec()), Ok(()));
    let new_details = b"Updated KYC Data".to_vec();
    assert_eq!(m.update_identity(Origin::Signed(1), new_details.clone(), false), Ok(()));
    let identity = m.identities.get(&1).expect("identity exists");
    assert_eq!(identity.kyc_details, new_details);
    assert_eq!(identity.verified, false);
}

#[test]
fn update_identity_should_fail_if_not_found() {
    let mut m = module();
    assert_eq!(
        m.update_identity(Origin::Signed(99), b"Test".to_vec(), false),
        Err(DispatchError::Module(Error::IdentityNotFound))
    );
}

#[test]
fn lib_prune_history_should_work() {
    let mut m = module();
    assert_eq!(m.register_identity(Origin::Signed(1), b"Data".to_vec()), Ok(()));
    for i in 0..10 {
        let details = format!("Update {}", i).into_bytes();
        assert_eq!(m.update_identity(Origin::Signed(1), details, false), Ok(()));
    }
    let len_before = m.identity_history.len() as u32;
    assert_eq!(m.prune_identity_history(Origin::Root, 5), Ok(()));
    assert_eq!(m.identity_history.len() as u32, 5);
    assert!(len_before > 5);
}

#[test]
fn test_register_identity() {
    let mut m = module();
    let kyc = b"Sample KYC Data".to_vec();
    assert_eq!(m.register_identity(Origin::Signed(1), kyc.clone()), Ok(()));
    let identity = m.identities.get(&1).unwrap();
    assert_eq!(identity.kyc_details, kyc);
    assert_eq!(identity.verified, true);
}

#[test]
fn test_update_identity() {
    let mut m = module();
    let initial_kyc = b"Initial KYC Data".to_vec();
    let updated_kyc = b"Updated KYC Data".to_vec();
    assert_eq!(m.register_identity(Origin::Signed(1), initial_kyc), Ok(()));
    assert_eq!(m.update_identity(Origin::Signed(1), updated_kyc.clone(), false), Ok(()));
    let identity = m.identities.get(&1).unwrap();
    assert_eq!(identity.kyc_details, updated_kyc);
    assert_eq!(identity.verified, false);
}

#[test]
fn kyc_details_are_checked() {
    let mut m = Pallet::new(Config { default_verification: false, max_kyc_length: 3 });
    assert_eq!(m.register_identity(Origin::Signed(1), vec![]), Err(DispatchError::Module(Error::InvalidKycDetails)));
    assert_eq!(m.register_identity(Origin::Signed(1), vec![1, 2, 3, 4]), Err(DispatchError::Module(Error::KycTooLong)));
    assert_eq!(m.register_identity(Origin::Root, vec![1]), Err(DispatchError::BadOrigin));
    assert_eq!(m.register_identity(Origin::Signed(1), vec![1, 2, 3]), Ok(()));
    assert_eq!(m.update_identity(Origin::Signed(1), vec![], true), Err(DispatchError::Module(Error::InvalidKycDetails)));
    assert_eq!(m.update_identity(Origin::Signed(1), vec![9], true), Ok(()));
    assert_eq!(m.identity_history.len(), 2);
    let last = m.identity_history.last().unwrap();
    assert_eq!((last.0, last.1, last.2, last.3, last.4.clone()), (FIXED_TIMESTAMP, 1, false, true, vec![9]));
    assert_eq!(m.events.last(), Some(&Event::IdentityUpdated(1, vec![9], false, true)));
}

#[test]
fn pruning_keeps_newest_entries() {
    let mut m = module();
    for who in 1..=4u64 {
        assert_eq!(m.register_identity(Origin::Signed(who), vec![who as u8]), Ok(()));
    }
    assert_eq!(m.prune_identity_history(Origin::Signed(1), 1), Err(DispatchError::BadOrigin));
    assert_eq!(m.prune_identity_history(Origin::Root, 10), Ok(()));
    assert_eq!(m.identity_history.len(), 4);
    assert_eq!(m.prune_identity_history(Origin::Root, 2), Ok(()));
    let who: Vec<u64> = m.identity_history.iter().map(|e| e.1).collect();
    assert_eq!(who, vec![3, 4]);
}
