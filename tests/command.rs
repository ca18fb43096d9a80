use std::collections::HashMap;

use awsconnect::command::{
    finish_generate, finish_remove, finish_store, plan, Command, CommandError, Report, Step, StoreError,
    StoreRequest,
};
use awsconnect::config::TotpConfig;
use awsconnect::engine::ValidationError;

const SECRET: &str = "GEZDGNBVGY3TQOJQGEZDGNBVGY3TQOJQ";

/// Runs a command against an in-memory stand-in for the credential store.
fn run(store: &mut HashMap<String, String>, command: Command, now: u64) -> Result<Report, CommandError> {
    let config = TotpConfig::standard();
    match plan(command) {
        Step::Done(outcome) => outcome,
        Step::Call(StoreRequest::Write { name, secret }) => {
            store.insert(name.clone(), secret);
            finish_store(name, Ok(()))
        }
        Step::Call(StoreRequest::Read { name }) => {
            let fetched = store.get(&name).cloned().ok_or(StoreError::NotFound);
            finish_generate(&config, fetched, now)
        }
        Step::Call(StoreRequest::Delete { name }) => {
            let deleted = store.remove(&name).map(|_| ()).ok_or(StoreError::NotFound);
            finish_remove(name, deleted)
        }
    }
}

fn store_cmd(name: &str, secret: &str) -> Command {
    Command::Store { name: name.to_string(), secret: secret.to_string() }
}

fn generate_cmd(name: &str) -> Command {
    Command::Generate { name: name.to_string() }
}

fn remove_cmd(name: &str) -> Command {
    Command::Remove { name: name.to_string() }
}

#[test]
fn store_asks_to_write_a_valid_secret() {
    match plan(store_cmd("aws", SECRET)) {
        Step::Call(StoreRequest::Write { name, secret }) => {
            assert_eq!(name, "aws");
            assert_eq!(secret, SECRET);
        }
        other => panic!("unexpected step {:?}", other),
    }
}

#[test]
fn generate_and_remove_ask_for_the_named_entry() {
    assert!(matches!(plan(generate_cmd("a")), Step::Call(StoreRequest::Read { name }) if name == "a"));
    assert!(matches!(plan(remove_cmd("b")), Step::Call(StoreRequest::Delete { name }) if name == "b"));
}

#[test]
fn generate_after_store_succeeds() {
    let mut store = HashMap::new();
    assert!(matches!(run(&mut store, store_cmd("aws", SECRET), 0), Ok(Report::Stored { name }) if name == "aws"));
    let r = run(&mut store, generate_cmd("aws"), 59);
    assert!(matches!(r, Ok(Report::Code { code }) if code == "287082"));
}

#[test]
fn generate_after_remove_is_not_found() {
    let mut store = HashMap::new();
    run(&mut store, store_cmd("aws", SECRET), 0).unwrap();
    assert!(matches!(run(&mut store, remove_cmd("aws"), 0), Ok(Report::Removed { name }) if name == "aws"));
    assert!(matches!(
        run(&mut store, generate_cmd("aws"), 0),
        Err(CommandError::Store(StoreError::NotFound))
    ));
}

#[test]
fn invalid_secret_is_not_stored() {
    let mut store = HashMap::new();
    assert!(matches!(
        run(&mut store, store_cmd("aws", "not-valid-base32!!!"), 0),
        Err(CommandError::InvalidSecret(ValidationError::InvalidEncoding))
    ));
    assert!(store.is_empty());
    assert!(matches!(
        run(&mut store, generate_cmd("aws"), 0),
        Err(CommandError::Store(StoreError::NotFound))
    ));
}

#[test]
fn well_known_short_secret_is_stored_and_gives_its_code() {
    let mut store = HashMap::new();
    assert!(matches!(run(&mut store, store_cmd("aws", "JBSWY3DPEHPK3PXP"), 0), Ok(Report::Stored { .. })));
    assert!(matches!(run(&mut store, generate_cmd("aws"), 0), Ok(Report::Code { code }) if code == "282760"));
    assert!(matches!(run(&mut store, generate_cmd("aws"), 59), Ok(Report::Code { code }) if code == "996554"));
}

#[test]
fn empty_secret_is_refused_by_store() {
    assert!(matches!(
        plan(store_cmd("aws", "")),
        Step::Done(Err(CommandError::InvalidSecret(ValidationError::InvalidLength)))
    ));
}

#[test]
fn list_always_succeeds() {
    let mut store = HashMap::new();
    assert!(matches!(run(&mut store, Command::List, 0), Ok(Report::ListingUnsupported)));
    run(&mut store, store_cmd("aws", SECRET), 0).unwrap();
    assert!(matches!(run(&mut store, Command::List, 0), Ok(Report::ListingUnsupported)));
}

#[test]
fn remove_of_absent_entry_is_not_found() {
    let mut store = HashMap::new();
    assert!(matches!(run(&mut store, remove_cmd("none"), 0), Err(CommandError::Store(StoreError::NotFound))));
}

#[test]
fn store_failures_are_passed_on() {
    assert!(matches!(
        finish_store("a".to_string(), Err(StoreError::AccessDenied)),
        Err(CommandError::Store(StoreError::AccessDenied))
    ));
    assert!(matches!(
        finish_generate(&TotpConfig::standard(), Err(StoreError::Backend), 0),
        Err(CommandError::Store(StoreError::Backend))
    ));
    assert!(matches!(
        finish_remove("a".to_string(), Err(StoreError::AccessDenied)),
        Err(CommandError::Store(StoreError::AccessDenied))
    ));
}

#[test]
fn unusable_stored_secret_is_reported() {
    let c = TotpConfig::standard();
    assert!(matches!(
        finish_generate(&c, Ok("bad secret".to_string()), 0),
        Err(CommandError::InvalidStoredSecret(ValidationError::InvalidEncoding))
    ));
    assert!(matches!(
        finish_generate(&c, Ok(String::new()), 0),
        Err(CommandError::InvalidStoredSecret(ValidationError::InvalidLength))
    ));
}
