use nodara::frame::{DispatchError, Origin};
use nodara::pallets::legal_and_compliance::{Config, Error, Event, Pallet};

fn module() -> Pallet {
    Pallet::new(Config { min_compliance_level: 10 })
}

#[test]
fn compliance_update_success() {
    let mut legal = module();
    let account_id = 1;
    let new_status = 20;
    assert_eq!(legal.update_compliance_status(Origin::Signed(account_id), new_status), Ok(()));
    assert_eq!(legal.compliance_status(account_id), new_status);
    assert_eq!(legal.compliance_history.len(), 1);
    assert_eq!(legal.compliance_history[0], (account_id, new_status, 1_640_000_000));
    assert_eq!(legal.events.last(), Some(&Event::ComplianceUpdated(account_id, new_status)));
}

#[test]
fn compliance_update_rejected_below_min_level() {
    let mut legal = module();
    let account_id = 42;
    assert_eq!(
        legal.update_compliance_status(Origin::Signed(account_id), 5),
        Err(DispatchError::Module(Error::ComplianceLevelTooLow))
    );
    assert_eq!(legal.compliance_status(account_id), 0);
    assert!(legal.compliance_history.is_empty());
}

#[test]
fn multiple_updates_logged_correctly() {
    let mut legal = module();
    let account_id = 7;
    assert_eq!(legal.update_compliance_status(Origin::Signed(account_id), 15), Ok(()));
    assert_eq!(legal.update_compliance_status(Origin::Signed(account_id), 25), Ok(()));
    assert_eq!(legal.compliance_status(account_id), 25);
    assert_eq!(legal.compliance_history.len(), 2);
    assert_eq!(legal.compliance_history[0], (account_id, 15, 1_640_000_000));
    assert_eq!(legal.compliance_history[1], (account_id, 25, 1_640_000_000));
}

#[test]
fn edge_case_zero_status_rejected() {
    let mut legal = module();
    assert_eq!(
        legal.update_compliance_status(Origin::Signed(99), 0),
        Err(DispatchError::Module(Error::ComplianceLevelTooLow))
    );
}

#[test]
fn root_changes_the_minimal_level() {
    let mut legal = module();
    assert_eq!(legal.update_min_compliance_level(Origin::Signed(1), 3), Err(DispatchError::BadOrigin));
    assert_eq!(legal.update_min_compliance_level(Origin::Root, 3), Ok(()));
    assert_eq!(legal.events.last(), Some(&Event::MinComplianceLevelUpdated(10, 3)));
    assert_eq!(legal.update_compliance_status(Origin::Signed(5), 3), Ok(()));
    assert_eq!(legal.update_compliance_status(Origin::Root, 30), Err(DispatchError::BadOrigin));
    assert_eq!(legal.compliance_status(5), 3);
}

#[test]
fn updates_are_stamped_with_the_provider_time() {
    let mut legal = module();
    legal.set_time(1_700_000_000);
    assert_eq!(legal.update_compliance_status(Origin::Signed(4), 12), Ok(()));
    assert_eq!(legal.compliance_history, vec![(4, 12, 1_700_000_000)]);
}
