use subflow_sol::error::SubflowError;
use subflow_sol::ledger::Ledger;

const ADMIN: u64 = 1;
const AUTHORITY: u64 = 2;
const MINT: u64 = 9;

fn setup_service() -> (Ledger, usize, usize) {
    let mut l = Ledger::new();
    let subflow = l.initialize(ADMIN).unwrap();
    let service = l
        .create_service(subflow, AUTHORITY, "svc".to_string(), "http://img".to_string(), MINT)
        .unwrap();
    (l, subflow, service)
}

#[test]
fn initialize_sets_policy_defaults() {
    let mut l = Ledger::new();
    let h = l.initialize(ADMIN).unwrap();
    assert_eq!(h, 0);
    assert_eq!(l.subflows[0].admin, ADMIN);
    assert_eq!(l.subflows[0].active_services, 0);
    assert_eq!(l.subflows[0].max_pause_duration_days, 30);
}

#[test]
fn initialize_same_admin_twice_fails() {
    let mut l = Ledger::new();
    l.initialize(ADMIN).unwrap();
    assert_eq!(l.initialize(ADMIN), Err(SubflowError::DuplicateEntity));
    assert_eq!(l.subflows.len(), 1);
    let other = l.initialize(42).unwrap();
    assert_eq!(other, 1);
}

#[test]
fn create_service_valid_lengths_succeeds() {
    let mut l = Ledger::new();
    let subflow = l.initialize(ADMIN).unwrap();
    let name: String = "a".repeat(16);
    let uri: String = "u".repeat(50);
    let service = l.create_service(subflow, AUTHORITY, name.clone(), uri.clone(), MINT).unwrap();
    let s = &l.services[service];
    assert_eq!(s.name, name);
    assert_eq!(s.image_uri, uri);
    assert_eq!(s.authority, AUTHORITY);
    assert_eq!(s.active_plans, 0);
    assert!(!s.paused);
    assert_eq!(s.active_pause_start_time, 0);
    assert_eq!(s.active_pause_duration, 0);
    assert_eq!(s.mint, MINT);
    assert_eq!(l.subflows[subflow].active_services, 1);
    // the vault was created empty, for the service's mint, under the authority
    let vault = &l.accounts[s.vault];
    assert_eq!(vault.amount, 0);
    assert_eq!(vault.mint, MINT);
    assert_eq!(vault.owner, AUTHORITY);
}

#[test]
fn create_service_name_of_17_chars_fails() {
    let mut l = Ledger::new();
    let subflow = l.initialize(ADMIN).unwrap();
    let name: String = "a".repeat(17);
    assert_eq!(
        l.create_service(subflow, AUTHORITY, name, "uri".to_string(), MINT),
        Err(SubflowError::MaxServiceNameExceeded)
    );
    assert_eq!(l.services.len(), 0);
    assert_eq!(l.accounts.len(), 0);
    assert_eq!(l.subflows[subflow].active_services, 0);
}

#[test]
fn create_service_uri_of_51_chars_fails() {
    let mut l = Ledger::new();
    let subflow = l.initialize(ADMIN).unwrap();
    let uri: String = "u".repeat(51);
    assert_eq!(
        l.create_service(subflow, AUTHORITY, "svc".to_string(), uri, MINT),
        Err(SubflowError::MaxURILengthExceeded)
    );
    assert_eq!(l.services.len(), 0);
}

#[test]
fn create_service_duplicate_key_fails() {
    let (mut l, subflow, _service) = setup_service();
    assert_eq!(
        l.create_service(subflow, AUTHORITY, "svc".to_string(), "other".to_string(), MINT),
        Err(SubflowError::DuplicateEntity)
    );
    assert_eq!(l.services.len(), 1);
    // the same name under another authority derives another address
    let other = l
        .create_service(subflow, 77, "svc".to_string(), "other".to_string(), MINT)
        .unwrap();
    assert_eq!(other, 1);
}

#[test]
fn create_service_counter_overflow_fails() {
    let mut l = Ledger::new();
    let subflow = l.initialize(ADMIN).unwrap();
    l.subflows[subflow].active_services = u64::MAX;
    assert_eq!(
        l.create_service(subflow, AUTHORITY, "svc".to_string(), "uri".to_string(), MINT),
        Err(SubflowError::Overflow)
    );
    assert_eq!(l.services.len(), 0);
}

#[test]
fn pause_respects_tenant_ceiling() {
    let (mut l, _subflow, service) = setup_service();
    assert_eq!(l.pause(service, AUTHORITY, 31, 500), Err(SubflowError::ExceededMaxPauseTime));
    assert!(!l.services[service].paused);
    assert_eq!(l.pause(service, AUTHORITY, 30, 500), Ok(()));
    assert!(l.services[service].paused);
    assert_eq!(l.services[service].active_pause_start_time, 500);
    assert_eq!(l.services[service].active_pause_duration, 30);
}

#[test]
fn pause_wrong_authority_fails() {
    let (mut l, _subflow, service) = setup_service();
    assert_eq!(l.pause(service, 99, 5, 500), Err(SubflowError::Unauthorized));
    assert!(!l.services[service].paused);
}

#[test]
fn unpause_boundary_instant_still_fails() {
    let (mut l, _subflow, service) = setup_service();
    let t: i64 = 1_000;
    l.pause(service, AUTHORITY, 5, t).unwrap();
    assert_eq!(l.unpause(service, AUTHORITY, t + 5 * 86400), Err(SubflowError::CantUnpauseYet));
    assert!(l.services[service].paused);
    assert_eq!(l.unpause(service, AUTHORITY, t + 5 * 86400 + 1), Ok(()));
    assert!(!l.services[service].paused);
    assert_eq!(l.services[service].active_pause_start_time, 0);
    assert_eq!(l.services[service].active_pause_duration, 0);
}

#[test]
fn unpause_wrong_authority_fails() {
    let (mut l, _subflow, service) = setup_service();
    l.pause(service, AUTHORITY, 1, 0).unwrap();
    assert_eq!(l.unpause(service, 99, i64::MAX), Err(SubflowError::Unauthorized));
}

#[test]
fn unpause_window_end_overflow_fails() {
    let (mut l, _subflow, service) = setup_service();
    l.pause(service, AUTHORITY, 30, i64::MAX - 10).unwrap();
    assert_eq!(l.unpause(service, AUTHORITY, i64::MAX), Err(SubflowError::Overflow));
}

#[test]
fn add_plan_records_price_and_interval() {
    let (mut l, _subflow, service) = setup_service();
    let plan = l.add_plan(service, AUTHORITY, 30, 100).unwrap();
    assert_eq!(l.plans[plan].cost_per_interval, 100);
    assert_eq!(l.plans[plan].interval_in_days, 30);
    assert_eq!(l.plans[plan].service, service);
    assert_eq!(l.services[service].active_plans, 1);
}

#[test]
fn add_plan_same_interval_twice_fails() {
    let (mut l, _subflow, service) = setup_service();
    let first = l.add_plan(service, AUTHORITY, 30, 100).unwrap();
    assert_eq!(l.add_plan(service, AUTHORITY, 30, 200), Err(SubflowError::DuplicateEntity));
    assert_eq!(l.plans.len(), 1);
    assert_eq!(l.plans[first].cost_per_interval, 100);
    assert_eq!(l.services[service].active_plans, 1);
    // another interval derives another address
    assert!(l.add_plan(service, AUTHORITY, 7, 30).is_ok());
}

#[test]
fn add_plan_wrong_authority_fails() {
    let (mut l, _subflow, service) = setup_service();
    assert_eq!(l.add_plan(service, 99, 30, 100), Err(SubflowError::Unauthorized));
    assert_eq!(l.plans.len(), 0);
}

#[test]
fn add_plan_while_paused_fails() {
    let (mut l, _subflow, service) = setup_service();
    l.pause(service, AUTHORITY, 5, 0).unwrap();
    assert_eq!(l.add_plan(service, AUTHORITY, 30, 100), Err(SubflowError::ServicePaused));
    assert_eq!(l.plans.len(), 0);
}

#[test]
fn add_plan_counter_overflow_fails() {
    let (mut l, _subflow, service) = setup_service();
    l.services[service].active_plans = u8::MAX;
    assert_eq!(l.add_plan(service, AUTHORITY, 30, 100), Err(SubflowError::Overflow));
}

#[test]
fn error_messages_name_the_cause() {
    assert!(SubflowError::MaxServiceNameExceeded.message().contains("name"));
    assert!(SubflowError::WrongMint.message().contains("mint"));
    assert!(SubflowError::CantUnpauseYet.message().contains("unpause"));
}
