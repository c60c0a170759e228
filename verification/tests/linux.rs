use screen_wake_lock::linux;
use screen_wake_lock::protocol::{Action, Argument, Bus, Event, MethodCall, Reply, Step};
use screen_wake_lock::{Acquisition, Error, LinuxOptions, Platform, ScreenWakeLock};

/// A desktop that answers like the real services would, and that notices
/// every misuse of a connection or descriptor.
struct Desktop {
    session: bool,
    system: bool,
    gnome: Option<u32>,
    screensaver: Option<u32>,
    power: Option<u32>,
    portal: Option<String>,
    logind: bool,
    open: Vec<Bus>,
    descriptor: bool,
    log: Vec<Action>,
}

fn desktop() -> Desktop {
    Desktop {
        session: true,
        system: true,
        gnome: None,
        screensaver: None,
        power: None,
        portal: None,
        logind: false,
        open: Vec::new(),
        descriptor: false,
        log: Vec::new(),
    }
}

fn answer(desktop: &mut Desktop, call: &MethodCall) -> Event {
    assert!(desktop.open.contains(&call.bus), "call on a closed connection");
    let refused = Event::Failed(format!("{} is not there", call.destination));
    match (call.interface.as_str(), call.method.as_str()) {
        ("org.gnome.SessionManager", "Inhibit") => desktop.gnome.map_or(refused, Event::Cookie),
        ("org.freedesktop.ScreenSaver", "Inhibit") => {
            desktop.screensaver.map_or(refused, Event::Cookie)
        }
        ("org.freedesktop.PowerManagement.Inhibit", "Inhibit") => {
            desktop.power.map_or(refused, Event::Cookie)
        }
        ("org.freedesktop.portal.Inhibit", "Inhibit") => {
            desktop.portal.clone().map_or(refused, Event::ObjectPath)
        }
        ("org.freedesktop.login1.Manager", "Inhibit") => {
            if desktop.logind {
                assert!(!desktop.descriptor, "a second descriptor");
                desktop.descriptor = true;
                Event::Descriptor
            } else {
                refused
            }
        }
        _ => Event::Done,
    }
}

fn perform(desktop: &mut Desktop, action: &Action) -> Event {
    desktop.log.push(action.clone());
    match action {
        Action::Connect(bus) => {
            let reachable = match bus {
                Bus::Session => desktop.session,
                Bus::System => desktop.system,
            };
            if reachable {
                assert!(!desktop.open.contains(bus), "a second connection to one bus");
                desktop.open.push(*bus);
                Event::Connected
            } else {
                Event::Failed(String::from("no such bus"))
            }
        }
        Action::Call(call) => answer(desktop, call),
        Action::CloseDescriptor => {
            assert!(desktop.descriptor, "no descriptor to close");
            desktop.descriptor = false;
            Event::Done
        }
        Action::Disconnect(bus) => {
            assert!(desktop.open.contains(bus), "no connection to close");
            desktop.open.retain(|open| open != bus);
            Event::Done
        }
        other => panic!("not an action of this backend: {:?}", other),
    }
}

fn converse(
    desktop: &mut Desktop,
    mut step: Step<Acquisition, ScreenWakeLock>,
) -> Result<ScreenWakeLock, Error> {
    loop {
        match step {
            Step::Pending(acquisition, action) => {
                let event = perform(desktop, &action);
                step = acquisition.advance(event);
            }
            Step::Held(guard) => return Ok(guard),
            Step::Failed(error) => return Err(error),
        }
    }
}

fn acquire(desktop: &mut Desktop, reason: &str) -> Result<ScreenWakeLock, Error> {
    converse(desktop, ScreenWakeLock::acquire(Platform::Linux, reason))
}

fn release(desktop: &mut Desktop, guard: &mut ScreenWakeLock) -> Vec<Action> {
    let actions = guard.release();
    for action in &actions {
        perform(desktop, action);
    }
    actions
}

fn text(value: &str) -> Argument {
    Argument::Text(String::from(value))
}

fn inhibit(
    bus: Bus,
    destination: &str,
    path: &str,
    interface: &str,
    arguments: Vec<Argument>,
    reply: Reply,
) -> Action {
    Action::Call(MethodCall {
        bus,
        destination: String::from(destination),
        path: String::from(path),
        interface: String::from(interface),
        method: String::from("Inhibit"),
        arguments,
        reply,
    })
}

fn undo(destination: &str, path: &str, interface: &str, method: &str, cookie: u32) -> Action {
    Action::Call(MethodCall {
        bus: Bus::Session,
        destination: String::from(destination),
        path: String::from(path),
        interface: String::from(interface),
        method: String::from(method),
        arguments: vec![Argument::Number(cookie)],
        reply: Reply::Nothing,
    })
}

fn gnome_inhibit(application_id: &str, reason: &str) -> Action {
    inhibit(
        Bus::Session,
        "org.gnome.SessionManager",
        "/org/gnome/SessionManager",
        "org.gnome.SessionManager",
        vec![text(application_id), Argument::Number(0), text(reason), Argument::Number(8)],
        Reply::Cookie,
    )
}

fn screensaver_inhibit(application_id: &str, reason: &str) -> Action {
    inhibit(
        Bus::Session,
        "org.freedesktop.ScreenSaver",
        "/org/freedesktop/ScreenSaver",
        "org.freedesktop.ScreenSaver",
        vec![text(application_id), text(reason)],
        Reply::Cookie,
    )
}

fn power_inhibit(application_id: &str, reason: &str) -> Action {
    inhibit(
        Bus::Session,
        "org.freedesktop.PowerManagement",
        "/org/freedesktop/PowerManagement/Inhibit",
        "org.freedesktop.PowerManagement.Inhibit",
        vec![text(application_id), text(reason)],
        Reply::Cookie,
    )
}

fn portal_inhibit(reason: &str) -> Action {
    inhibit(
        Bus::Session,
        "org.freedesktop.portal.Desktop",
        "/org/freedesktop/portal/desktop",
        "org.freedesktop.portal.Inhibit",
        vec![
            text(""),
            Argument::Number(8),
            Argument::Options(vec![(String::from("reason"), String::from(reason))]),
        ],
        Reply::ObjectPath,
    )
}

fn logind_inhibit(application_id: &str, reason: &str) -> Action {
    inhibit(
        Bus::System,
        "org.freedesktop.login1",
        "/org/freedesktop/login1",
        "org.freedesktop.login1.Manager",
        vec![text("idle"), text(application_id), text(reason), text("block")],
        Reply::Descriptor,
    )
}

const APP: &str = "screen_wake_lock";

#[test]
fn session_manager_grants_and_release_uninhibits_with_its_cookie() {
    let mut desktop = desktop();
    desktop.gnome = Some(42);
    desktop.screensaver = Some(1);
    desktop.power = Some(2);
    desktop.portal = Some(String::from("/request/1"));
    desktop.logind = true;
    let mut guard = acquire(&mut desktop, "demo").expect("the session manager grants");
    assert!(guard.is_active());
    assert_eq!(guard.platform(), Platform::Linux);
    assert_eq!(desktop.log, vec![Action::Connect(Bus::Session), gnome_inhibit(APP, "demo")]);
    assert_eq!(desktop.open, vec![Bus::Session]);

    desktop.log.clear();
    let actions = release(&mut desktop, &mut guard);
    assert_eq!(
        actions,
        vec![
            undo(
                "org.gnome.SessionManager",
                "/org/gnome/SessionManager",
                "org.gnome.SessionManager",
                "Uninhibit",
                42,
            ),
            Action::Disconnect(Bus::Session),
        ]
    );
    assert_eq!(desktop.log, actions);
    assert!(desktop.open.is_empty());
    assert!(!guard.is_active());
}

#[test]
fn without_a_session_bus_the_login_manager_inhibits_by_descriptor() {
    let mut desktop = desktop();
    desktop.session = false;
    desktop.logind = true;
    let mut guard = acquire(&mut desktop, "demo").expect("the login manager grants");
    assert_eq!(
        desktop.log,
        vec![
            Action::Connect(Bus::Session),
            Action::Connect(Bus::System),
            logind_inhibit(APP, "demo"),
        ]
    );
    assert_eq!(desktop.open, vec![Bus::System]);
    assert!(desktop.descriptor);

    desktop.log.clear();
    let actions = release(&mut desktop, &mut guard);
    assert_eq!(actions, vec![Action::CloseDescriptor, Action::Disconnect(Bus::System)]);
    assert!(actions.iter().all(|action| !matches!(action, Action::Call(_))));
    assert!(desktop.open.is_empty());
    assert!(!desktop.descriptor);
}

#[test]
fn screen_saver_is_second_in_line() {
    let mut desktop = desktop();
    desktop.screensaver = Some(7);
    desktop.power = Some(8);
    desktop.logind = true;
    let mut guard = acquire(&mut desktop, "film").expect("the screen saver grants");
    assert_eq!(
        desktop.log,
        vec![
            Action::Connect(Bus::Session),
            gnome_inhibit(APP, "film"),
            screensaver_inhibit(APP, "film"),
        ]
    );
    assert_eq!(
        release(&mut desktop, &mut guard),
        vec![
            undo(
                "org.freedesktop.ScreenSaver",
                "/org/freedesktop/ScreenSaver",
                "org.freedesktop.ScreenSaver",
                "UnInhibit",
                7,
            ),
            Action::Disconnect(Bus::Session),
        ]
    );
    assert!(desktop.open.is_empty());
}

#[test]
fn power_management_is_third_in_line() {
    let mut desktop = desktop();
    desktop.power = Some(4_000_000_000);
    desktop.portal = Some(String::from("/request/2"));
    let mut guard = acquire(&mut desktop, "film").expect("the power management grants");
    assert_eq!(
        desktop.log,
        vec![
            Action::Connect(Bus::Session),
            gnome_inhibit(APP, "film"),
            screensaver_inhibit(APP, "film"),
            power_inhibit(APP, "film"),
        ]
    );
    assert_eq!(
        release(&mut desktop, &mut guard),
        vec![
            undo(
                "org.freedesktop.PowerManagement",
                "/org/freedesktop/PowerManagement/Inhibit",
                "org.freedesktop.PowerManagement.Inhibit",
                "UnInhibit",
                4_000_000_000,
            ),
            Action::Disconnect(Bus::Session),
        ]
    );
    assert!(desktop.open.is_empty());
}

#[test]
fn portal_is_fourth_in_line_and_release_closes_its_request() {
    let mut desktop = desktop();
    desktop.portal = Some(String::from("/org/freedesktop/portal/desktop/request/1_42/t"));
    desktop.logind = true;
    let mut guard = acquire(&mut desktop, "film").expect("the portal grants");
    assert_eq!(
        desktop.log,
        vec![
            Action::Connect(Bus::Session),
            gnome_inhibit(APP, "film"),
            screensaver_inhibit(APP, "film"),
            power_inhibit(APP, "film"),
            portal_inhibit("film"),
        ]
    );
    assert_eq!(
        release(&mut desktop, &mut guard),
        vec![
            Action::Call(MethodCall {
                bus: Bus::Session,
                destination: String::from("org.freedesktop.portal.Desktop"),
                path: String::from("/org/freedesktop/portal/desktop/request/1_42/t"),
                interface: String::from("org.freedesktop.portal.Request"),
                method: String::from("Close"),
                arguments: vec![],
                reply: Reply::Nothing,
            }),
            Action::Disconnect(Bus::Session),
        ]
    );
    assert!(desktop.open.is_empty());
}

#[test]
fn login_manager_is_last_and_the_session_connection_is_closed_first() {
    let mut desktop = desktop();
    desktop.logind = true;
    let mut guard = acquire(&mut desktop, "film").expect("the login manager grants");
    assert_eq!(
        desktop.log,
        vec![
            Action::Connect(Bus::Session),
            gnome_inhibit(APP, "film"),
            screensaver_inhibit(APP, "film"),
            power_inhibit(APP, "film"),
            portal_inhibit("film"),
            Action::Disconnect(Bus::Session),
            Action::Connect(Bus::System),
            logind_inhibit(APP, "film"),
        ]
    );
    assert_eq!(desktop.open, vec![Bus::System]);
    assert_eq!(
        release(&mut desktop, &mut guard),
        vec![Action::CloseDescriptor, Action::Disconnect(Bus::System)]
    );
    assert!(desktop.open.is_empty());
    assert!(!desktop.descriptor);
}

#[test]
fn all_mechanisms_refuse_and_nothing_stays_open() {
    let mut desktop = desktop();
    let error = acquire(&mut desktop, "film").expect_err("nothing grants");
    assert_eq!(
        error,
        Error::Unsupported(String::from("no suitable Linux inhibition backend found"))
    );
    assert_eq!(
        desktop.log,
        vec![
            Action::Connect(Bus::Session),
            gnome_inhibit(APP, "film"),
            screensaver_inhibit(APP, "film"),
            power_inhibit(APP, "film"),
            portal_inhibit("film"),
            Action::Disconnect(Bus::Session),
            Action::Connect(Bus::System),
            logind_inhibit(APP, "film"),
            Action::Disconnect(Bus::System),
        ]
    );
    assert!(desktop.open.is_empty());
    assert!(!desktop.descriptor);
}

#[test]
fn no_bus_at_all_is_unsupported() {
    let mut desktop = desktop();
    desktop.session = false;
    desktop.system = false;
    desktop.gnome = Some(1);
    desktop.logind = true;
    let error = acquire(&mut desktop, "film").expect_err("no bus");
    assert_eq!(
        error,
        Error::Unsupported(String::from("no suitable Linux inhibition backend found"))
    );
    assert_eq!(desktop.log, vec![Action::Connect(Bus::Session), Action::Connect(Bus::System)]);
    assert!(desktop.open.is_empty());
}

#[test]
fn supported_and_yet_not_acquired() {
    let mut desktop = desktop();
    desktop.system = false;
    assert!(ScreenWakeLock::is_supported(Platform::Linux, desktop.session, desktop.system));
    assert!(acquire(&mut desktop, "film").is_err());
    assert!(desktop.open.is_empty());
}

#[test]
fn support_needs_one_bus() {
    assert!(linux::is_supported(true, true));
    assert!(linux::is_supported(true, false));
    assert!(linux::is_supported(false, true));
    assert!(!linux::is_supported(false, false));
    assert!(!ScreenWakeLock::is_supported(Platform::Linux, false, false));
    assert!(ScreenWakeLock::is_supported(Platform::Linux, false, true));
}

#[test]
fn options_replace_application_and_reason() {
    let mut desktop = desktop();
    desktop.gnome = Some(3);
    let options = LinuxOptions {
        application_id: Some(String::from("org.example.Player")),
        reason: Some(String::from("Playing video")),
    };
    let step = ScreenWakeLock::acquire_with_linux_options(Platform::Linux, "ignored", options);
    converse(&mut desktop, step).expect("the session manager grants");
    assert_eq!(
        desktop.log,
        vec![
            Action::Connect(Bus::Session),
            gnome_inhibit("org.example.Player", "Playing video"),
        ]
    );
}

#[test]
fn unset_options_fall_back_one_by_one() {
    let defaults = LinuxOptions::default();
    assert_eq!(defaults, LinuxOptions { application_id: None, reason: None });

    let mut desktop = desktop();
    desktop.session = false;
    desktop.logind = true;
    let options = LinuxOptions { application_id: Some(String::from("app")), reason: None };
    let step = ScreenWakeLock::acquire_with_linux_options(Platform::Linux, "mine", options);
    converse(&mut desktop, step).expect("the login manager grants");
    assert_eq!(desktop.log[2], logind_inhibit("app", "mine"));

    let mut desktop = self::desktop();
    desktop.session = false;
    desktop.logind = true;
    let options = LinuxOptions { application_id: None, reason: Some(String::from("theirs")) };
    let step = ScreenWakeLock::acquire_with_linux_options(Platform::Linux, "mine", options);
    converse(&mut desktop, step).expect("the login manager grants");
    assert_eq!(desktop.log[2], logind_inhibit(APP, "theirs"));
}

#[test]
fn a_reply_of_the_wrong_kind_is_a_refusal() {
    let (acquisition, _) = match linux::PlatformWakeLock::acquire("app", "why") {
        Step::Pending(acquisition, action) => (acquisition, action),
        other => panic!("unexpected step: {:?}", other),
    };
    let acquisition = match acquisition.advance(Event::Connected) {
        Step::Pending(acquisition, _) => acquisition,
        other => panic!("unexpected step: {:?}", other),
    };
    assert_eq!(acquisition.stage(), linux::Stage::Trying(linux::Mechanism::GnomeSession));
    let step = acquisition.advance(Event::ObjectPath(String::from("/not/a/cookie")));
    match step {
        Step::Pending(acquisition, action) => {
            assert_eq!(
                acquisition.stage(),
                linux::Stage::Trying(linux::Mechanism::FdoScreenSaver)
            );
            assert_eq!(action, screensaver_inhibit("app", "why"));
            assert_eq!(acquisition.application_id(), "app");
            assert_eq!(acquisition.reason(), "why");
        }
        other => panic!("unexpected step: {:?}", other),
    }
}

#[test]
fn backend_release_reports_only_a_call_that_could_not_be_addressed() {
    assert_eq!(linux::PlatformWakeLock::released(Event::Done), Ok(()));
    assert_eq!(
        linux::PlatformWakeLock::released(Event::Failed(String::from("service went away"))),
        Ok(())
    );
    assert_eq!(
        linux::PlatformWakeLock::released(Event::Rejected(String::from("invalid path"))),
        Err(Error::Dbus(String::from("invalid path")))
    );
}

#[test]
fn backend_lock_records_the_granting_mechanism() {
    let mut desktop = desktop();
    desktop.power = Some(11);
    let step = linux::acquire("why", LinuxOptions::default());
    let mut step = step;
    let mut inner = loop {
        match step {
            Step::Pending(acquisition, action) => {
                let event = perform(&mut desktop, &action);
                step = acquisition.advance(event);
            }
            Step::Held(inner) => break inner,
            Step::Failed(error) => panic!("unexpected failure: {:?}", error),
        }
    };
    assert!(inner.is_active());
    assert_eq!(
        inner.lock().map(|lock| lock.backend()),
        Some(&linux::Backend::FdoPowerManagement { cookie: 11 })
    );
    let actions = linux::release(&mut inner);
    assert_eq!(actions.len(), 2);
    assert!(!inner.is_active());
    assert!(inner.lock().is_none());
    assert_eq!(linux::release(&mut inner), vec![]);
    assert_eq!(linux::Mechanism::Logind.bus(), Bus::System);
    assert_eq!(linux::Mechanism::XdgPortal.bus(), Bus::Session);
}

#[test]
fn second_release_asks_for_nothing() {
    let mut desktop = desktop();
    desktop.gnome = Some(5);
    let mut guard = acquire(&mut desktop, "film").expect("the session manager grants");
    assert_eq!(release(&mut desktop, &mut guard).len(), 2);
    let released = format!("{:?}", guard);
    assert_eq!(release(&mut desktop, &mut guard), vec![]);
    assert_eq!(release(&mut desktop, &mut guard), vec![]);
    assert_eq!(format!("{:?}", guard), released);
    assert!(!guard.is_active());
    assert!(desktop.open.is_empty());
}
