use runtime_ops::gate::{UnstableChecker, UNSTABLE_EXIT_CODE};
use runtime_ops::state::{check_unstable, check_unstable2, OpState};
use std::rc::Rc;

#[test]
fn gate_off_names_api_and_exit_code() {
    let checker = UnstableChecker::new(false);
    let v = checker.check_unstable("foo").unwrap_err();
    assert_eq!(v.api_name, "foo");
    assert_eq!(
        v.message(),
        "Unstable API 'foo'. The --unstable flag must be provided."
    );
    assert_eq!(v.exit_code(), 70);
    assert_eq!(UNSTABLE_EXIT_CODE, 70);
}

#[test]
fn gate_on_allows() {
    let checker = UnstableChecker { unstable: true };
    assert!(checker.check_unstable("foo").is_ok());
}

#[test]
fn gate_empty_name() {
    let checker = UnstableChecker::new(false);
    let v = checker.check_unstable("").unwrap_err();
    assert_eq!(v.message(), "Unstable API ''. The --unstable flag must be provided.");
}

#[test]
fn gate_through_sync_state() {
    let off = OpState::new(false);
    let on = OpState::new(true);
    assert_eq!(
        check_unstable(&off, "Deno.signal").unwrap_err().message(),
        "Unstable API 'Deno.signal'. The --unstable flag must be provided."
    );
    assert!(check_unstable(&on, "Deno.signal").is_ok());
}

#[test]
fn gate_through_shared_state() {
    let off = Rc::new(OpState::new(false));
    let on = Rc::new(OpState::new(true));
    let v = check_unstable2(&off, "Deno.umask").unwrap_err();
    assert_eq!(v.api_name, "Deno.umask");
    assert!(check_unstable2(&on, "Deno.umask").is_ok());
}
