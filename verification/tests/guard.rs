use screen_wake_lock::protocol::{Action, Bus, Event, Reply, Step};
use screen_wake_lock::{Acquisition, LinuxOptions, Platform, ScreenWakeLock};

/// What a driver would hold open, kept the way a careful driver keeps it:
/// every misuse is a panic.
struct Books {
    connections: Vec<Bus>,
    descriptor: bool,
    assertions: Vec<u32>,
    requests: Vec<isize>,
}

fn books() -> Books {
    Books { connections: Vec::new(), descriptor: false, assertions: Vec::new(), requests: Vec::new() }
}

fn nothing_open(books: &Books) -> bool {
    books.connections.is_empty()
        && !books.descriptor
        && books.assertions.is_empty()
        && books.requests.is_empty()
}

fn record(books: &mut Books, action: &Action, event: &Event) {
    match action {
        Action::Connect(bus) => {
            if matches!(event, Event::Connected) {
                assert!(!books.connections.contains(bus), "a bus connected twice");
                books.connections.push(*bus);
            }
        }
        Action::Call(call) => {
            assert!(books.connections.contains(&call.bus), "a call without a connection");
            if call.reply == Reply::Descriptor && matches!(event, Event::Descriptor) {
                assert!(!books.descriptor, "a second descriptor");
                books.descriptor = true;
            }
        }
        Action::CloseDescriptor => {
            assert!(books.descriptor, "no descriptor to close");
            books.descriptor = false;
        }
        Action::Disconnect(bus) => {
            assert!(books.connections.contains(bus), "no connection to close");
            books.connections.retain(|open| open != bus);
        }
        Action::CreateAssertion { .. } => {
            if let Event::Status { code: 0, id } = event {
                assert!(!books.assertions.contains(id), "an assertion created twice");
                books.assertions.push(*id);
            }
        }
        Action::ReleaseAssertion { id } => {
            assert!(books.assertions.contains(id), "no assertion to release");
            books.assertions.retain(|open| open != id);
        }
        Action::CreateRequest { .. } => {
            if let Event::Handle(handle) = event {
                assert!(!books.requests.contains(handle), "a request created twice");
                books.requests.push(*handle);
            }
        }
        Action::SetRequest { handle, .. } | Action::ClearRequest { handle, .. } => {
            assert!(books.requests.contains(handle), "a closed request in use");
        }
        Action::CloseHandle { handle } => {
            assert!(books.requests.contains(handle), "no request to close");
            books.requests.retain(|open| open != handle);
        }
    }
}

/// A small generator of numbers, the same on every run.
fn next(seed: &mut u64) -> u64 {
    *seed = seed.wrapping_mul(6364136223846793005).wrapping_add(1442695040888963407);
    *seed >> 33
}

fn some_event(seed: &mut u64) -> Event {
    match next(seed) % 12 {
        0 => Event::Done,
        1 | 2 => Event::Connected,
        3 => Event::Cookie(next(seed) as u32),
        4 => Event::ObjectPath(format!("/request/{}", next(seed) % 100)),
        5 => Event::Descriptor,
        6 => Event::Status { code: 0, id: next(seed) as u32 },
        7 => Event::Status { code: (next(seed) % 7) as i32 - 3, id: next(seed) as u32 },
        8 => Event::Handle(next(seed) as isize % 1000),
        9 => Event::Rejected(String::from("rejected")),
        _ => Event::Failed(String::from("failed")),
    }
}

/// Runs one conversation against a driver that reports whatever comes to
/// its mind, and checks the books at every step.
fn babble(platform: Platform, seed: &mut u64) -> usize {
    let mut books = books();
    let mut step: Step<Acquisition, ScreenWakeLock> =
        ScreenWakeLock::acquire_with_linux_options(platform, "why", LinuxOptions::default());
    let mut reports = 0;
    loop {
        match step {
            Step::Pending(acquisition, action) => {
                assert_eq!(acquisition.platform(), platform);
                assert!(reports < 9, "an acquisition that does not end");
                let event = some_event(seed);
                record(&mut books, &action, &event);
                reports += 1;
                step = acquisition.advance(event);
            }
            Step::Held(mut guard) => {
                assert!(guard.is_active());
                assert_eq!(guard.platform(), platform);
                assert!(!nothing_open(&books));
                for action in guard.release() {
                    let event = some_event(seed);
                    record(&mut books, &action, &event);
                }
                assert!(nothing_open(&books));
                assert!(!guard.is_active());
                assert!(guard.release().is_empty());
                return reports;
            }
            Step::Failed(_) => {
                assert!(nothing_open(&books));
                return reports;
            }
        }
    }
}

#[test]
fn whatever_the_driver_reports_the_books_balance() {
    let mut seed = 2024;
    let mut longest = 0;
    for _ in 0..20_000 {
        for platform in [Platform::Linux, Platform::MacOs, Platform::Windows] {
            longest = longest.max(babble(platform, &mut seed));
        }
    }
    assert!(longest <= 9);
}

#[test]
fn an_acquisition_without_any_success_ends_at_once() {
    for platform in [Platform::Linux, Platform::MacOs, Platform::Windows] {
        let mut step = ScreenWakeLock::acquire(platform, "why");
        let mut reports = 0;
        while let Step::Pending(acquisition, _) = step {
            step = acquisition.advance(Event::Done);
            reports += 1;
        }
        // Neither bus reports that it is connected; the other two
        // backends fail on their first call.
        let expected = match platform {
            Platform::Linux => 2,
            Platform::MacOs => 1,
            Platform::Windows => 1,
        };
        assert_eq!(reports, expected);
        assert!(matches!(step, Step::Failed(_)));
    }
}

#[test]
fn events_of_another_platform_are_failures() {
    let acquisition = match ScreenWakeLock::acquire(Platform::Windows, "why") {
        Step::Pending(acquisition, _) => acquisition,
        other => panic!("unexpected step: {:?}", other),
    };
    let step = acquisition.advance(Event::Status { code: 0, id: 1 });
    assert_eq!(
        step,
        Step::Failed(screen_wake_lock::Error::Os(String::from("unexpected reply")))
    );
}

#[test]
fn guard_is_not_supported_without_a_bus_on_linux_only() {
    for session in [false, true] {
        for system in [false, true] {
            assert_eq!(
                ScreenWakeLock::is_supported(Platform::Linux, session, system),
                session || system
            );
            assert!(ScreenWakeLock::is_supported(Platform::MacOs, session, system));
            assert!(ScreenWakeLock::is_supported(Platform::Windows, session, system));
        }
    }
}

#[test]
fn the_longest_acquisition_takes_nine_reports() {
    let refused = || Event::Failed(String::from("no"));
    let script = vec![
        Event::Connected,
        refused(),
        refused(),
        refused(),
        refused(),
        Event::Done,
        Event::Connected,
        refused(),
        Event::Done,
    ];
    let mut step = ScreenWakeLock::acquire(Platform::Linux, "why");
    let mut reports = 0;
    for event in script {
        match step {
            Step::Pending(acquisition, _) => {
                step = acquisition.advance(event);
                reports += 1;
            }
            other => panic!("ended after {} reports: {:?}", reports, other),
        }
    }
    assert_eq!(reports, 9);
    assert_eq!(
        step,
        Step::Failed(screen_wake_lock::Error::Unsupported(String::from(
            "no suitable Linux inhibition backend found"
        )))
    );
}
