use liveforge_logger::is_authorized;
use liveforge_logger::keys_equal;
use liveforge_logger::ActionType;
use liveforge_logger::BuildStatus;
use liveforge_logger::ErrorCode;
use liveforge_logger::Ledger;

fn key(n: u8) -> [u8; 32] {
    [n; 32]
}

#[test]
fn build_id_length_bounds() {
    let a = key(1);
    let mut ledger = Ledger::new();

    let empty = ledger.initialize_build(String::new(), "p".to_string(), a, 0);
    assert_eq!(empty.unwrap_err(), ErrorCode::ValidationError);

    let long = ledger.initialize_build("x".repeat(51), "p".to_string(), a, 0);
    assert_eq!(long.unwrap_err(), ErrorCode::ValidationError);

    assert!(ledger
        .initialize_build("x".repeat(50), "p".to_string(), a, 0)
        .is_ok());
}

#[test]
fn project_name_length_bounds() {
    let a = key(2);
    let mut ledger = Ledger::new();

    let empty = ledger.initialize_build("b".to_string(), String::new(), a, 0);
    assert_eq!(empty.unwrap_err(), ErrorCode::ValidationError);

    let long = ledger.initialize_build("b".to_string(), "y".repeat(101), a, 0);
    assert_eq!(long.unwrap_err(), ErrorCode::ValidationError);

    assert!(ledger
        .initialize_build("b".to_string(), "y".repeat(100), a, 0)
        .is_ok());
}

#[test]
fn description_length_bounds() {
    let a = key(3);
    let mut ledger = Ledger::new();
    ledger
        .initialize_build("b".to_string(), "p".to_string(), a, 0)
        .unwrap();

    let long = ledger.log_action(
        &"b".to_string(),
        ActionType::Analyze,
        "d".repeat(201),
        key(0),
        1,
    );
    assert_eq!(long.unwrap_err(), ErrorCode::ValidationError);
    assert_eq!(ledger.get_build(&"b".to_string()).unwrap().step_count, 0);

    let fits = ledger.log_action(
        &"b".to_string(),
        ActionType::Analyze,
        "d".repeat(200),
        key(0),
        1,
    );
    assert_eq!(fits.unwrap().step_number, 1);

    let empty = ledger.log_action(
        &"b".to_string(),
        ActionType::Analyze,
        String::new(),
        key(0),
        2,
    );
    assert_eq!(empty.unwrap().step_number, 2);
}

#[test]
fn program_id_length_bounds() {
    let a = key(4);
    let mut ledger = Ledger::new();
    ledger
        .initialize_build("b".to_string(), "p".to_string(), a, 0)
        .unwrap();

    let long = ledger.complete_build(&"b".to_string(), true, Some("z".repeat(101)), a, 1);
    assert_eq!(long.unwrap_err(), ErrorCode::ValidationError);
    assert_eq!(
        ledger.get_build(&"b".to_string()).unwrap().status,
        BuildStatus::InProgress
    );

    let fits = ledger.complete_build(&"b".to_string(), true, Some("z".repeat(100)), a, 1);
    assert!(fits.is_ok());
}

#[test]
fn unknown_build_is_not_found() {
    let a = key(5);
    let mut ledger = Ledger::new();

    let append = ledger.log_action(
        &"ghost".to_string(),
        ActionType::Analyze,
        "d".to_string(),
        key(0),
        0,
    );
    assert_eq!(append.unwrap_err(), ErrorCode::NotFound);

    let complete = ledger.complete_build(&"ghost".to_string(), true, None, a, 0);
    assert_eq!(complete.unwrap_err(), ErrorCode::NotFound);

    assert!(ledger.get_build(&"ghost".to_string()).is_none());
    assert!(ledger.get_action(&"ghost".to_string(), 1).is_none());
}

#[test]
fn wrong_caller_is_unauthorized() {
    let owner = key(6);
    let intruder = key(7);
    let mut ledger = Ledger::new();
    ledger
        .initialize_build("b".to_string(), "p".to_string(), owner, 0)
        .unwrap();

    let refused = ledger.complete_build(&"b".to_string(), true, None, intruder, 1);
    assert_eq!(refused.unwrap_err(), ErrorCode::Unauthorized);
    assert_eq!(
        ledger.get_build(&"b".to_string()).unwrap().status,
        BuildStatus::InProgress
    );

    assert!(ledger
        .complete_build(&"b".to_string(), true, None, owner, 2)
        .is_ok());
}

#[test]
fn anyone_may_append_to_an_in_progress_build() {
    // The authority gate covers completion only: appending needs no
    // identity, mirroring the permissive original design.
    let owner = key(8);
    let mut ledger = Ledger::new();
    ledger
        .initialize_build("b".to_string(), "p".to_string(), owner, 0)
        .unwrap();
    let ev = ledger
        .log_action(
            &"b".to_string(),
            ActionType::GenerateCode,
            "anyone".to_string(),
            key(9),
            1,
        )
        .unwrap();
    assert_eq!(ev.step_number, 1);
}

#[test]
fn authority_guard_compares_keys() {
    let mut ledger = Ledger::new();
    ledger
        .initialize_build("b".to_string(), "p".to_string(), key(10), 0)
        .unwrap();
    let build = ledger.get_build(&"b".to_string()).unwrap();

    assert!(is_authorized(&key(10), build));
    assert!(!is_authorized(&key(11), build));

    let mut almost = key(10);
    almost[31] = 99;
    assert!(!is_authorized(&almost, build));

    assert!(keys_equal(&key(12), &key(12)));
    assert!(!keys_equal(&key(12), &key(13)));
}
