use greeter_app::errors::SchemaError;
use greeter_app::schema::SchemaState;
use greeter_app::schema::make_migration;

#[test]
fn bootstrap_creates_and_migrates_an_absent_store() {
    let mut state = SchemaState::absent();
    let plan: Vec<u64> = vec![1, 2, 3];
    let r = make_migration(&mut state, &plan, true);
    assert!(r.is_ok());
}

#[test]
fn bootstrap_twice_is_idempotent() {
    let mut state = SchemaState::absent();
    let plan: Vec<u64> = vec![1, 2];
    let first = make_migration(&mut state, &plan, true);
    assert!(first.is_ok());
    let second = make_migration(&mut state, &plan, true);
    assert!(second.is_ok());
}

#[test]
fn bootstrap_applies_only_missing_steps() {
    let mut state = SchemaState::absent();
    let old_plan: Vec<u64> = vec![1];
    assert!(make_migration(&mut state, &old_plan, true).is_ok());
    let new_plan: Vec<u64> = vec![1, 2];
    assert!(make_migration(&mut state, &new_plan, true).is_ok());
}

#[test]
fn bootstrap_fails_when_store_unreachable() {
    let mut state = SchemaState::absent();
    let plan: Vec<u64> = vec![1];
    let r = make_migration(&mut state, &plan, false);
    assert_eq!(r, Err(SchemaError::StoreUnreachable));
}

#[test]
fn bootstrap_aborts_on_conflicting_recorded_step() {
    let mut state = SchemaState::absent();
    let old_plan: Vec<u64> = vec![1, 2];
    assert!(make_migration(&mut state, &old_plan, true).is_ok());
    let conflicting: Vec<u64> = vec![1, 3];
    let r = make_migration(&mut state, &conflicting, true);
    assert_eq!(r, Err(SchemaError::MigrationStepFailed));
    // The record is untouched: the original plan still bootstraps cleanly.
    assert!(make_migration(&mut state, &old_plan, true).is_ok());
}
