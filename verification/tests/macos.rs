use screen_wake_lock::macos;
use screen_wake_lock::protocol::{Action, Event, Step};
use screen_wake_lock::{Error, LinuxOptions, Platform, ScreenWakeLock};

fn creation(reason: &str) -> Action {
    Action::CreateAssertion {
        kind: String::from("NoDisplaySleepAssertion"),
        level: 255,
        name: String::from(reason),
    }
}

#[test]
fn assertion_is_released_once_however_often_release_is_called() {
    let acquisition = match ScreenWakeLock::acquire(Platform::MacOs, "demo") {
        Step::Pending(acquisition, action) => {
            assert_eq!(action, creation("demo"));
            acquisition
        }
        other => panic!("unexpected step: {:?}", other),
    };
    assert_eq!(acquisition.platform(), Platform::MacOs);
    let mut guard = match acquisition.advance(Event::Status { code: 0, id: 1234 }) {
        Step::Held(guard) => guard,
        other => panic!("unexpected step: {:?}", other),
    };
    assert!(guard.is_active());
    assert_eq!(guard.platform(), Platform::MacOs);
    let mut released: Vec<Action> = Vec::new();
    released.extend(guard.release());
    released.extend(guard.release());
    assert_eq!(released, vec![Action::ReleaseAssertion { id: 1234 }]);
    assert!(!guard.is_active());
}

#[test]
fn assertion_options_are_not_read() {
    let options = LinuxOptions {
        application_id: Some(String::from("org.example.Player")),
        reason: Some(String::from("another reason")),
    };
    match ScreenWakeLock::acquire_with_linux_options(Platform::MacOs, "demo", options.clone()) {
        Step::Pending(_, action) => assert_eq!(action, creation("demo")),
        other => panic!("unexpected step: {:?}", other),
    }
    match macos::acquire("demo", options) {
        Step::Pending(_, action) => assert_eq!(action, creation("demo")),
        other => panic!("unexpected step: {:?}", other),
    }
}

#[test]
fn assertion_failure_names_the_status_code() {
    let pending = macos::Acquisition {};
    let step = pending.advance(Event::Status { code: -536870212, id: 0 });
    assert_eq!(
        step,
        Step::Failed(Error::Os(String::from(
            "IOPMAssertionCreateWithName failed (IOReturn=-536870212)"
        )))
    );
    let step = pending.advance(Event::Status { code: 5, id: 99 });
    assert_eq!(
        step,
        Step::Failed(Error::Os(String::from("IOPMAssertionCreateWithName failed (IOReturn=5)")))
    );
}

#[test]
fn assertion_needs_a_status() {
    let pending = macos::Acquisition {};
    let step = pending.advance(Event::Failed(String::from("no power service")));
    assert_eq!(step, Step::Failed(Error::Os(String::from("no power service"))));
    let step = pending.advance(Event::Cookie(3));
    assert_eq!(step, Step::Failed(Error::Os(String::from("unexpected reply"))));
}

#[test]
fn assertion_backend_is_always_supported() {
    assert!(macos::is_supported());
    assert!(ScreenWakeLock::is_supported(Platform::MacOs, false, false));
    assert_eq!(macos::ASSERTION_LEVEL_ON, 255);
    assert_eq!(macos::RETURN_SUCCESS, 0);
}

#[test]
fn assertion_inner_release_lowers_the_flag() {
    let pending = macos::Acquisition {};
    let mut inner = match pending.advance(Event::Status { code: 0, id: 8 }) {
        Step::Held(inner) => inner,
        other => panic!("unexpected step: {:?}", other),
    };
    assert_eq!(inner.id(), 8);
    assert!(inner.is_active());
    assert_eq!(macos::release(&mut inner), vec![Action::ReleaseAssertion { id: 8 }]);
    assert!(!inner.is_active());
    assert_eq!(inner.id(), 8);
    assert_eq!(macos::release(&mut inner), vec![]);
}
