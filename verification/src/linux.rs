//! The backend for desktops that speak D-Bus.
//!
//! Five mechanisms can keep the display awake. Four live on the session bus
//! and are tried in a fixed order of preference; the fifth lives on the
//! system bus and is the fallback, the only one there is without a desktop
//! session. The first mechanism that grants the inhibition is the one the
//! lock records, and the one that a release addresses.

use crate::ledger::Resource;
use crate::protocol::{
    actions_view, Action, ActionView, Argument, ArgumentView, Bus, Event, EventView, MethodCall,
    MethodCallView, Reply, Step, StepView,
};
use crate::{Error, ErrorView, LinuxOptions, LinuxOptionsView};
use vstd::prelude::*;

verus! {

/// The flag by which the session manager knows "inhibit idling".
pub const GNOME_INHIBIT_IDLE: u32 = 8;

/// The flag by which the desktop portal knows "inhibit idling".
pub const PORTAL_INHIBIT_IDLE: u32 = 8;

/// The ways to keep the display awake, in their order of preference.
#[derive(Clone, Copy, Debug, PartialEq, Eq, Structural)]
pub enum Mechanism {
    /// The session manager's own inhibit call.
    GnomeSession,
    /// The screen saver's inhibit call.
    FdoScreenSaver,
    /// The power management's inhibit call.
    FdoPowerManagement,
    /// The desktop portal's inhibit request.
    XdgPortal,
    /// The login manager's idle inhibitor, on the system bus.
    Logind,
}

impl Mechanism {
    /// The place of the mechanism in the order of preference, from 0.
    pub open spec fn rank(self) -> nat {
        match self {
            Mechanism::GnomeSession => 0,
            Mechanism::FdoScreenSaver => 1,
            Mechanism::FdoPowerManagement => 2,
            Mechanism::XdgPortal => 3,
            Mechanism::Logind => 4,
        }
    }

    /// The bus on which the mechanism is reached.
    pub open spec fn spec_bus(self) -> Bus {
        match self {
            Mechanism::Logind => Bus::System,
            _ => Bus::Session,
        }
    }

    /// The bus on which the mechanism is reached.
    #[verifier::when_used_as_spec(spec_bus)]
    pub fn bus(self) -> (bus: Bus)
        ensures
            bus == self.spec_bus(),
    {
        match self {
            Mechanism::Logind => Bus::System,
            _ => Bus::Session,
        }
    }

    /// The name of the service that offers the mechanism.
    pub open spec fn destination(self) -> Seq<char> {
        match self {
            Mechanism::GnomeSession => "org.gnome.SessionManager"@,
            Mechanism::FdoScreenSaver => "org.freedesktop.ScreenSaver"@,
            Mechanism::FdoPowerManagement => "org.freedesktop.PowerManagement"@,
            Mechanism::XdgPortal => "org.freedesktop.portal.Desktop"@,
            Mechanism::Logind => "org.freedesktop.login1"@,
        }
    }

    /// The object on which the inhibit call is made.
    pub open spec fn path(self) -> Seq<char> {
        match self {
            Mechanism::GnomeSession => "/org/gnome/SessionManager"@,
            Mechanism::FdoScreenSaver => "/org/freedesktop/ScreenSaver"@,
            Mechanism::FdoPowerManagement => "/org/freedesktop/PowerManagement/Inhibit"@,
            Mechanism::XdgPortal => "/org/freedesktop/portal/desktop"@,
            Mechanism::Logind => "/org/freedesktop/login1"@,
        }
    }

    /// The interface of the inhibit call.
    pub open spec fn interface(self) -> Seq<char> {
        match self {
            Mechanism::GnomeSession => "org.gnome.SessionManager"@,
            Mechanism::FdoScreenSaver => "org.freedesktop.ScreenSaver"@,
            Mechanism::FdoPowerManagement => "org.freedesktop.PowerManagement.Inhibit"@,
            Mechanism::XdgPortal => "org.freedesktop.portal.Inhibit"@,
            Mechanism::Logind => "org.freedesktop.login1.Manager"@,
        }
    }

    /// What the inhibit call carries, in order.
    pub open spec fn arguments(self, application_id: Seq<char>, reason: Seq<char>) -> Seq<
        ArgumentView,
    > {
        match self {
            Mechanism::GnomeSession => seq![
                ArgumentView::Text(application_id),
                ArgumentView::Number(0),
                ArgumentView::Text(reason),
                ArgumentView::Number(GNOME_INHIBIT_IDLE),
            ],
            Mechanism::FdoScreenSaver => seq![
                ArgumentView::Text(application_id),
                ArgumentView::Text(reason),
            ],
            Mechanism::FdoPowerManagement => seq![
                ArgumentView::Text(application_id),
                ArgumentView::Text(reason),
            ],
            Mechanism::XdgPortal => seq![
                ArgumentView::Text(""@),
                ArgumentView::Number(PORTAL_INHIBIT_IDLE),
                ArgumentView::Options(seq![("reason"@, reason)]),
            ],
            Mechanism::Logind => seq![
                ArgumentView::Text("idle"@),
                ArgumentView::Text(application_id),
                ArgumentView::Text(reason),
                ArgumentView::Text("block"@),
            ],
        }
    }

    /// What the inhibit call hands back when the mechanism grants the
    /// inhibition.
    pub open spec fn reply(self) -> Reply {
        match self {
            Mechanism::XdgPortal => Reply::ObjectPath,
            Mechanism::Logind => Reply::Descriptor,
            _ => Reply::Cookie,
        }
    }

    /// The call that asks the mechanism to keep the display awake.
    pub open spec fn inhibit_call(
        self,
        application_id: Seq<char>,
        reason: Seq<char>,
    ) -> MethodCallView {
        MethodCallView {
            bus: self.spec_bus(),
            destination: self.destination(),
            path: self.path(),
            interface: self.interface(),
            method: "Inhibit"@,
            arguments: self.arguments(application_id, reason),
            reply: self.reply(),
        }
    }

    /// The inhibition that an event grants when it answers the inhibit call
    /// of this mechanism. Any event of another kind is a refusal.
    pub open spec fn granted(self, event: EventView) -> Option<BackendView> {
        match (self, event) {
            (Mechanism::GnomeSession, EventView::Cookie(cookie)) => Some(
                BackendView::GnomeSession { cookie },
            ),
            (Mechanism::FdoScreenSaver, EventView::Cookie(cookie)) => Some(
                BackendView::FdoScreenSaver { cookie },
            ),
            (Mechanism::FdoPowerManagement, EventView::Cookie(cookie)) => Some(
                BackendView::FdoPowerManagement { cookie },
            ),
            (Mechanism::XdgPortal, EventView::ObjectPath(handle)) => Some(
                BackendView::XdgPortal { handle },
            ),
            (Mechanism::Logind, EventView::Descriptor) => Some(BackendView::Logind),
            _ => None,
        }
    }

    /// Where the acquisition goes when this mechanism refuses.
    pub open spec fn fallback(self) -> Stage {
        match self {
            Mechanism::GnomeSession => Stage::Trying(Mechanism::FdoScreenSaver),
            Mechanism::FdoScreenSaver => Stage::Trying(Mechanism::FdoPowerManagement),
            Mechanism::FdoPowerManagement => Stage::Trying(Mechanism::XdgPortal),
            Mechanism::XdgPortal => Stage::ClosingSession,
            Mechanism::Logind => Stage::ClosingSystem,
        }
    }
}

/// The call that asks the session manager to inhibit idling: application,
/// window (none), reason, flags.
fn try_gnome_session(application_id: &str, reason: &str) -> (call: MethodCall)
    ensures
        call@ == Mechanism::GnomeSession.inhibit_call(application_id@, reason@),
{
    let mut arguments: Vec<Argument> = Vec::new();
    arguments.push(Argument::Text(String::from_str(application_id)));
    arguments.push(Argument::Number(0));
    arguments.push(Argument::Text(String::from_str(reason)));
    arguments.push(Argument::Number(GNOME_INHIBIT_IDLE));
    let call = MethodCall {
        bus: Bus::Session,
        destination: String::from_str("org.gnome.SessionManager"),
        path: String::from_str("/org/gnome/SessionManager"),
        interface: String::from_str("org.gnome.SessionManager"),
        method: String::from_str("Inhibit"),
        arguments,
        reply: Reply::Cookie,
    };
    assert(call@.arguments =~= Mechanism::GnomeSession.arguments(application_id@, reason@));
    call
}

/// The call that asks the screen saver to stay away: application, reason.
fn try_fdo_screensaver(application_id: &str, reason: &str) -> (call: MethodCall)
    ensures
        call@ == Mechanism::FdoScreenSaver.inhibit_call(application_id@, reason@),
{
    let mut arguments: Vec<Argument> = Vec::new();
    arguments.push(Argument::Text(String::from_str(application_id)));
    arguments.push(Argument::Text(String::from_str(reason)));
    let call = MethodCall {
        bus: Bus::Session,
        destination: String::from_str("org.freedesktop.ScreenSaver"),
        path: String::from_str("/org/freedesktop/ScreenSaver"),
        interface: String::from_str("org.freedesktop.ScreenSaver"),
        method: String::from_str("Inhibit"),
        arguments,
        reply: Reply::Cookie,
    };
    assert(call@.arguments =~= Mechanism::FdoScreenSaver.arguments(application_id@, reason@));
    call
}

/// The call that asks the power management to inhibit: application, reason.
fn try_fdo_powermanagement(application_id: &str, reason: &str) -> (call: MethodCall)
    ensures
        call@ == Mechanism::FdoPowerManagement.inhibit_call(application_id@, reason@),
{
    let mut arguments: Vec<Argument> = Vec::new();
    arguments.push(Argument::Text(String::from_str(application_id)));
    arguments.push(Argument::Text(String::from_str(reason)));
    let call = MethodCall {
        bus: Bus::Session,
        destination: String::from_str("org.freedesktop.PowerManagement"),
        path: String::from_str("/org/freedesktop/PowerManagement/Inhibit"),
        interface: String::from_str("org.freedesktop.PowerManagement.Inhibit"),
        method: String::from_str("Inhibit"),
        arguments,
        reply: Reply::Cookie,
    };
    assert(call@.arguments =~= Mechanism::FdoPowerManagement.arguments(
        application_id@,
        reason@,
    ));
    call
}

/// The call that asks the desktop portal to inhibit idling: window (none),
/// flags, and the reason under its name in the options.
fn try_xdg_portal(reason: &str) -> (call: MethodCall)
    ensures
        forall|application_id: Seq<char>|
            call@ == #[trigger] Mechanism::XdgPortal.inhibit_call(application_id, reason@),
{
    let mut options: Vec<(String, String)> = Vec::new();
    options.push((String::from_str("reason"), String::from_str(reason)));
    assert(options.deep_view() =~= seq![("reason"@, reason@)]);
    let mut arguments: Vec<Argument> = Vec::new();
    arguments.push(Argument::Text(String::from_str("")));
    arguments.push(Argument::Number(PORTAL_INHIBIT_IDLE));
    arguments.push(Argument::Options(options));
    let call = MethodCall {
        bus: Bus::Session,
        destination: String::from_str("org.freedesktop.portal.Desktop"),
        path: String::from_str("/org/freedesktop/portal/desktop"),
        interface: String::from_str("org.freedesktop.portal.Inhibit"),
        method: String::from_str("Inhibit"),
        arguments,
        reply: Reply::ObjectPath,
    };
    assert forall|application_id: Seq<char>|
        call@ == #[trigger] Mechanism::XdgPortal.inhibit_call(application_id, reason@) by {
        assert(call@.arguments =~= Mechanism::XdgPortal.arguments(application_id, reason@));
    }
    call
}

/// The call that takes the login manager's idle inhibitor: what, who, why,
/// mode.
fn try_logind(application_id: &str, reason: &str) -> (call: MethodCall)
    ensures
        call@ == Mechanism::Logind.inhibit_call(application_id@, reason@),
{
    let mut arguments: Vec<Argument> = Vec::new();
    arguments.push(Argument::Text(String::from_str("idle")));
    arguments.push(Argument::Text(String::from_str(application_id)));
    arguments.push(Argument::Text(String::from_str(reason)));
    arguments.push(Argument::Text(String::from_str("block")));
    let call = MethodCall {
        bus: Bus::System,
        destination: String::from_str("org.freedesktop.login1"),
        path: String::from_str("/org/freedesktop/login1"),
        interface: String::from_str("org.freedesktop.login1.Manager"),
        method: String::from_str("Inhibit"),
        arguments,
        reply: Reply::Descriptor,
    };
    assert(call@.arguments =~= Mechanism::Logind.arguments(application_id@, reason@));
    call
}

/// The inhibition that is in force: the mechanism that granted it and the
/// token that undoes it.
#[derive(Clone, Debug, PartialEq, Eq)]
pub enum Backend {
    GnomeSession { cookie: u32 },
    FdoScreenSaver { cookie: u32 },
    FdoPowerManagement { cookie: u32 },
    XdgPortal { handle: String },
    Logind,
}

/// The mathematical value of a `Backend`.
pub enum BackendView {
    GnomeSession { cookie: u32 },
    FdoScreenSaver { cookie: u32 },
    FdoPowerManagement { cookie: u32 },
    XdgPortal { handle: Seq<char> },
    Logind,
}

impl View for Backend {
    type V = BackendView;

    open spec fn view(&self) -> BackendView {
        match self {
            Backend::GnomeSession { cookie } => BackendView::GnomeSession { cookie: *cookie },
            Backend::FdoScreenSaver { cookie } => BackendView::FdoScreenSaver { cookie: *cookie },
            Backend::FdoPowerManagement { cookie } => BackendView::FdoPowerManagement {
                cookie: *cookie,
            },
            Backend::XdgPortal { handle } => BackendView::XdgPortal { handle: handle@ },
            Backend::Logind => BackendView::Logind,
        }
    }
}

impl BackendView {
    /// The mechanism that granted the inhibition.
    pub open spec fn mechanism(self) -> Mechanism {
        match self {
            BackendView::GnomeSession { .. } => Mechanism::GnomeSession,
            BackendView::FdoScreenSaver { .. } => Mechanism::FdoScreenSaver,
            BackendView::FdoPowerManagement { .. } => Mechanism::FdoPowerManagement,
            BackendView::XdgPortal { .. } => Mechanism::XdgPortal,
            BackendView::Logind => Mechanism::Logind,
        }
    }

    /// The call that takes the inhibition back, for the mechanisms that
    /// have one: the mechanism's own call with the cookie, or `Close` on
    /// the portal's request. The descriptor has none.
    pub open spec fn undo_call(self) -> Option<MethodCallView> {
        match self {
            BackendView::GnomeSession { cookie } => Some(
                MethodCallView {
                    bus: Bus::Session,
                    destination: Mechanism::GnomeSession.destination(),
                    path: Mechanism::GnomeSession.path(),
                    interface: Mechanism::GnomeSession.interface(),
                    method: "Uninhibit"@,
                    arguments: seq![ArgumentView::Number(cookie)],
                    reply: Reply::Nothing,
                },
            ),
            BackendView::FdoScreenSaver { cookie } => Some(
                MethodCallView {
                    bus: Bus::Session,
                    destination: Mechanism::FdoScreenSaver.destination(),
                    path: Mechanism::FdoScreenSaver.path(),
                    interface: Mechanism::FdoScreenSaver.interface(),
                    method: "UnInhibit"@,
                    arguments: seq![ArgumentView::Number(cookie)],
                    reply: Reply::Nothing,
                },
            ),
            BackendView::FdoPowerManagement { cookie } => Some(
                MethodCallView {
                    bus: Bus::Session,
                    destination: Mechanism::FdoPowerManagement.destination(),
                    path: Mechanism::FdoPowerManagement.path(),
                    interface: Mechanism::FdoPowerManagement.interface(),
                    method: "UnInhibit"@,
                    arguments: seq![ArgumentView::Number(cookie)],
                    reply: Reply::Nothing,
                },
            ),
            BackendView::XdgPortal { handle } => Some(
                MethodCallView {
                    bus: Bus::Session,
                    destination: Mechanism::XdgPortal.destination(),
                    path: handle,
                    interface: "org.freedesktop.portal.Request"@,
                    method: "Close"@,
                    arguments: Seq::empty(),
                    reply: Reply::Nothing,
                },
            ),
            BackendView::Logind => None,
        }
    }

    /// What a release asks of the driver: the undo call and the end of the
    /// session connection, or the end of the descriptor and of the system
    /// connection.
    pub open spec fn undo(self) -> Seq<ActionView> {
        match self.undo_call() {
            Some(call) => seq![ActionView::Call(call), ActionView::Disconnect(Bus::Session)],
            None => seq![ActionView::CloseDescriptor, ActionView::Disconnect(Bus::System)],
        }
    }

    /// What stays open for as long as the inhibition is in force.
    pub open spec fn resources(self) -> Set<Resource> {
        match self {
            BackendView::Logind => set![Resource::Connection(Bus::System), Resource::Descriptor],
            _ => set![Resource::Connection(Bus::Session)],
        }
    }
}

/// One inhibition in force.
#[derive(Debug, PartialEq, Eq)]
pub struct PlatformWakeLock {
    backend: Backend,
}

/// The mathematical value of a `PlatformWakeLock`.
pub struct PlatformWakeLockView {
    pub backend: BackendView,
}

impl View for PlatformWakeLock {
    type V = PlatformWakeLockView;

    closed spec fn view(&self) -> PlatformWakeLockView {
        PlatformWakeLockView { backend: self.backend@ }
    }
}

/// Where an acquisition stands: what the driver was last asked to do.
#[derive(Clone, Copy, Debug, PartialEq, Eq, Structural)]
pub enum Stage {
    /// To connect to the session bus.
    OpeningSession,
    /// To make the inhibit call of a mechanism.
    Trying(Mechanism),
    /// To close the session connection, on which nothing was granted.
    ClosingSession,
    /// To connect to the system bus.
    OpeningSystem,
    /// To close the system connection, on which nothing was granted.
    ClosingSystem,
}

impl Stage {
    /// What the driver holds open while the acquisition waits at this
    /// stage: the connection on which it is working, if any.
    pub open spec fn in_work(self) -> Set<Resource> {
        match self {
            Stage::OpeningSession => Set::empty(),
            Stage::Trying(mechanism) => set![Resource::Connection(mechanism.spec_bus())],
            Stage::ClosingSession => set![Resource::Connection(Bus::Session)],
            Stage::OpeningSystem => Set::empty(),
            Stage::ClosingSystem => set![Resource::Connection(Bus::System)],
        }
    }
}

/// The mechanisms in their order of preference.
pub open spec fn order() -> Seq<Mechanism> {
    seq![
        Mechanism::GnomeSession,
        Mechanism::FdoScreenSaver,
        Mechanism::FdoPowerManagement,
        Mechanism::XdgPortal,
        Mechanism::Logind,
    ]
}

/// The inhibit calls of the first `count` mechanisms, in their order of
/// preference.
pub open spec fn inhibit_calls(count: nat, application_id: Seq<char>, reason: Seq<char>) -> Seq<
    ActionView,
> {
    Seq::new(count, |i: int| ActionView::Call(order()[i].inhibit_call(application_id, reason)))
}

/// Everything the driver has been asked to do by the time an acquisition
/// waits at `stage`, in order. `session` says whether the session bus
/// could be connected to; without it no session mechanism is ever called.
///
/// On the session bus the mechanisms are called in their order of
/// preference, each only after all before it have refused. The system bus
/// is turned to only after the session connection is closed again.
pub open spec fn agenda(
    session: bool,
    stage: Stage,
    application_id: Seq<char>,
    reason: Seq<char>,
) -> Seq<ActionView> {
    let on_session = seq![ActionView::Connect(Bus::Session)] + inhibit_calls(
        4,
        application_id,
        reason,
    ) + seq![ActionView::Disconnect(Bus::Session)];
    let before_system = if session {
        on_session
    } else {
        seq![ActionView::Connect(Bus::Session)]
    };
    let to_system = before_system + seq![ActionView::Connect(Bus::System)];
    let on_system = to_system + seq![
        ActionView::Call(Mechanism::Logind.inhibit_call(application_id, reason)),
    ];
    match stage {
        Stage::OpeningSession => seq![ActionView::Connect(Bus::Session)],
        Stage::Trying(mechanism) => if mechanism == Mechanism::Logind {
            on_system
        } else {
            seq![ActionView::Connect(Bus::Session)] + inhibit_calls(
                mechanism.rank() + 1,
                application_id,
                reason,
            )
        },
        Stage::ClosingSession => on_session,
        Stage::OpeningSystem => to_system,
        Stage::ClosingSystem => on_system + seq![ActionView::Disconnect(Bus::System)],
    }
}

/// An acquisition under way.
#[derive(Debug, PartialEq, Eq)]
pub struct Acquisition {
    application_id: String,
    reason: String,
    stage: Stage,
}

/// The mathematical value of an `Acquisition`.
pub struct AcquisitionView {
    pub application_id: Seq<char>,
    pub reason: Seq<char>,
    pub stage: Stage,
}

impl View for Acquisition {
    type V = AcquisitionView;

    closed spec fn view(&self) -> AcquisitionView {
        AcquisitionView {
            application_id: self.application_id@,
            reason: self.reason@,
            stage: self.stage,
        }
    }
}

/// The message of the error that ends an acquisition which no mechanism
/// granted.
pub open spec fn unsupported() -> ErrorView {
    ErrorView::Unsupported("no suitable Linux inhibition backend found"@)
}

impl AcquisitionView {
    /// The same acquisition at another stage.
    pub open spec fn at(self, stage: Stage) -> AcquisitionView {
        AcquisitionView { application_id: self.application_id, reason: self.reason, stage }
    }

    /// What the driver is asked to do at this stage.
    pub open spec fn pending(self) -> ActionView {
        match self.stage {
            Stage::OpeningSession => ActionView::Connect(Bus::Session),
            Stage::Trying(mechanism) => ActionView::Call(
                mechanism.inhibit_call(self.application_id, self.reason),
            ),
            Stage::ClosingSession => ActionView::Disconnect(Bus::Session),
            Stage::OpeningSystem => ActionView::Connect(Bus::System),
            Stage::ClosingSystem => ActionView::Disconnect(Bus::System),
        }
    }

    /// The step that waits at `stage`.
    pub open spec fn wait(self, stage: Stage) -> StepView<AcquisitionView, InnerView> {
        StepView::Pending(self.at(stage), self.at(stage).pending())
    }

    /// The step that follows when the driver reports `event` for the
    /// pending action.
    pub open spec fn advance(self, event: EventView) -> StepView<AcquisitionView, InnerView> {
        match self.stage {
            Stage::OpeningSession => if event is Connected {
                self.wait(Stage::Trying(Mechanism::GnomeSession))
            } else {
                self.wait(Stage::OpeningSystem)
            },
            Stage::Trying(mechanism) => match mechanism.granted(event) {
                Some(backend) => StepView::Held(InnerView::holding(backend)),
                None => self.wait(mechanism.fallback()),
            },
            Stage::ClosingSession => self.wait(Stage::OpeningSystem),
            Stage::OpeningSystem => if event is Connected {
                self.wait(Stage::Trying(Mechanism::Logind))
            } else {
                StepView::Failed(unsupported())
            },
            Stage::ClosingSystem => StepView::Failed(unsupported()),
        }
    }
}

/// The step with which every acquisition begins: to connect to the session
/// bus.
pub open spec fn begin(application_id: Seq<char>, reason: Seq<char>) -> StepView<
    AcquisitionView,
    InnerView,
> {
    AcquisitionView { application_id, reason, stage: Stage::OpeningSession }.wait(
        Stage::OpeningSession,
    )
}

impl Acquisition {
    /// The application identifier that the calls carry.
    pub fn application_id(&self) -> (id: &String)
        ensures
            id@ == self@.application_id,
    {
        &self.application_id
    }

    /// The reason that the calls carry.
    pub fn reason(&self) -> (reason: &String)
        ensures
            reason@ == self@.reason,
    {
        &self.reason
    }

    /// Where the acquisition stands.
    pub fn stage(&self) -> (stage: Stage)
        ensures
            stage == self@.stage,
    {
        self.stage
    }

    fn pending(&self) -> (action: Action)
        ensures
            action@ == self@.pending(),
    {
        match self.stage {
            Stage::OpeningSession => Action::Connect(Bus::Session),
            Stage::Trying(mechanism) => {
                let application_id = self.application_id.as_str();
                let reason = self.reason.as_str();
                let call = match mechanism {
                    Mechanism::GnomeSession => try_gnome_session(application_id, reason),
                    Mechanism::FdoScreenSaver => try_fdo_screensaver(application_id, reason),
                    Mechanism::FdoPowerManagement => try_fdo_powermanagement(
                        application_id,
                        reason,
                    ),
                    Mechanism::XdgPortal => try_xdg_portal(reason),
                    Mechanism::Logind => try_logind(application_id, reason),
                };
                Action::Call(call)
            },
            Stage::ClosingSession => Action::Disconnect(Bus::Session),
            Stage::OpeningSystem => Action::Connect(Bus::System),
            Stage::ClosingSystem => Action::Disconnect(Bus::System),
        }
    }

    fn wait(self, stage: Stage) -> (step: Step<Acquisition, Inner>)
        ensures
            step@ == self@.wait(stage),
    {
        let next = Acquisition {
            application_id: self.application_id,
            reason: self.reason,
            stage,
        };
        let action = next.pending();
        Step::Pending(next, action)
    }

    /// Takes the driver's report on the pending action and says how the
    /// acquisition goes on: with the next action, with the lock, or with
    /// the error that no mechanism granted the inhibition. An event of a
    /// kind that does not answer the pending action counts as its failure.
    pub fn advance(self, event: Event) -> (step: Step<Acquisition, Inner>)
        ensures
            step@ == self@.advance(event@),
    {
        match self.stage {
            Stage::OpeningSession => match event {
                Event::Connected => self.wait(Stage::Trying(Mechanism::GnomeSession)),
                _ => self.wait(Stage::OpeningSystem),
            },
            Stage::Trying(mechanism) => match grant(mechanism, event) {
                Some(backend) => Step::Held(
                    Inner { lock: Some(PlatformWakeLock { backend }), active: true },
                ),
                None => self.wait(after_refusal(mechanism)),
            },
            Stage::ClosingSession => self.wait(Stage::OpeningSystem),
            Stage::OpeningSystem => match event {
                Event::Connected => self.wait(Stage::Trying(Mechanism::Logind)),
                _ => Step::Failed(no_backend()),
            },
            Stage::ClosingSystem => Step::Failed(no_backend()),
        }
    }
}

fn after_refusal(mechanism: Mechanism) -> (stage: Stage)
    ensures
        stage == mechanism.fallback(),
{
    match mechanism {
        Mechanism::GnomeSession => Stage::Trying(Mechanism::FdoScreenSaver),
        Mechanism::FdoScreenSaver => Stage::Trying(Mechanism::FdoPowerManagement),
        Mechanism::FdoPowerManagement => Stage::Trying(Mechanism::XdgPortal),
        Mechanism::XdgPortal => Stage::ClosingSession,
        Mechanism::Logind => Stage::ClosingSystem,
    }
}

fn no_backend() -> (error: Error)
    ensures
        error@ == unsupported(),
{
    Error::Unsupported(String::from_str("no suitable Linux inhibition backend found"))
}

fn grant(mechanism: Mechanism, event: Event) -> (backend: Option<Backend>)
    ensures
        match backend {
            Some(backend) => mechanism.granted(event@) == Some(backend@),
            None => mechanism.granted(event@) is None,
        },
{
    match (mechanism, event) {
        (Mechanism::GnomeSession, Event::Cookie(cookie)) => Some(Backend::GnomeSession { cookie }),
        (Mechanism::FdoScreenSaver, Event::Cookie(cookie)) => Some(
            Backend::FdoScreenSaver { cookie },
        ),
        (Mechanism::FdoPowerManagement, Event::Cookie(cookie)) => Some(
            Backend::FdoPowerManagement { cookie },
        ),
        (Mechanism::XdgPortal, Event::ObjectPath(handle)) => Some(Backend::XdgPortal { handle }),
        (Mechanism::Logind, Event::Descriptor) => Some(Backend::Logind),
        _ => None,
    }
}

impl PlatformWakeLock {
    /// Begins an acquisition: the first thing to do is to connect to the
    /// session bus.
    pub fn acquire(application_id: &str, reason: &str) -> (step: Step<Acquisition, Inner>)
        ensures
            step@ == begin(application_id@, reason@),
    {
        let start = Acquisition {
            application_id: String::from_str(application_id),
            reason: String::from_str(reason),
            stage: Stage::OpeningSession,
        };
        start.wait(Stage::OpeningSession)
    }

    /// The inhibition that the lock stands for.
    pub fn backend(&self) -> (backend: &Backend)
        ensures
            backend@ == self@.backend,
    {
        &self.backend
    }

    /// The actions that give the inhibition back, in order. Their outcome
    /// changes nothing in what is to be done.
    pub fn release(self) -> (actions: Vec<Action>)
        ensures
            actions_view(actions@) == self@.backend.undo(),
    {
        let mut actions: Vec<Action> = Vec::new();
        match self.backend {
            Backend::GnomeSession { cookie } => {
                actions.push(
                    Action::Call(
                        undo_with_cookie(
                            "org.gnome.SessionManager",
                            "/org/gnome/SessionManager",
                            "org.gnome.SessionManager",
                            "Uninhibit",
                            cookie,
                        ),
                    ),
                );
                actions.push(Action::Disconnect(Bus::Session));
            },
            Backend::FdoScreenSaver { cookie } => {
                actions.push(
                    Action::Call(
                        undo_with_cookie(
                            "org.freedesktop.ScreenSaver",
                            "/org/freedesktop/ScreenSaver",
                            "org.freedesktop.ScreenSaver",
                            "UnInhibit",
                            cookie,
                        ),
                    ),
                );
                actions.push(Action::Disconnect(Bus::Session));
            },
            Backend::FdoPowerManagement { cookie } => {
                actions.push(
                    Action::Call(
                        undo_with_cookie(
                            "org.freedesktop.PowerManagement",
                            "/org/freedesktop/PowerManagement/Inhibit",
                            "org.freedesktop.PowerManagement.Inhibit",
                            "UnInhibit",
                            cookie,
                        ),
                    ),
                );
                actions.push(Action::Disconnect(Bus::Session));
            },
            Backend::XdgPortal { handle } => {
                let call = MethodCall {
                    bus: Bus::Session,
                    destination: String::from_str("org.freedesktop.portal.Desktop"),
                    path: handle,
                    interface: String::from_str("org.freedesktop.portal.Request"),
                    method: String::from_str("Close"),
                    arguments: Vec::new(),
                    reply: Reply::Nothing,
                };
                assert(call@.arguments =~= Seq::<ArgumentView>::empty());
                actions.push(Action::Call(call));
                actions.push(Action::Disconnect(Bus::Session));
            },
            Backend::Logind => {
                actions.push(Action::CloseDescriptor);
                actions.push(Action::Disconnect(Bus::System));
            },
        }
        actions
    }

    /// What a release comes to, given what the driver reports for its
    /// first action: an error only where the undo call could not even be
    /// addressed. A call that was sent and failed is no error.
    pub fn released(outcome: Event) -> (result: Result<(), Error>)
        ensures
            match result {
                Ok(_) => release_result(outcome@) is Ok,
                Err(error) => release_result(outcome@) == Err::<(), ErrorView>(error@),
            },
    {
        match outcome {
            Event::Rejected(message) => Err(Error::Dbus(message)),
            _ => Ok(()),
        }
    }
}

/// What a release comes to, given the report on its first action.
pub open spec fn release_result(outcome: EventView) -> Result<(), ErrorView> {
    match outcome {
        EventView::Rejected(message) => Err(ErrorView::Dbus(message)),
        _ => Ok(()),
    }
}

fn undo_with_cookie(
    destination: &str,
    path: &str,
    interface: &str,
    method: &str,
    cookie: u32,
) -> (call: MethodCall)
    ensures
        call@ == (MethodCallView {
            bus: Bus::Session,
            destination: destination@,
            path: path@,
            interface: interface@,
            method: method@,
            arguments: seq![ArgumentView::Number(cookie)],
            reply: Reply::Nothing,
        }),
{
    let mut arguments: Vec<Argument> = Vec::new();
    arguments.push(Argument::Number(cookie));
    let call = MethodCall {
        bus: Bus::Session,
        destination: String::from_str(destination),
        path: String::from_str(path),
        interface: String::from_str(interface),
        method: String::from_str(method),
        arguments,
        reply: Reply::Nothing,
    };
    assert(call@.arguments =~= seq![ArgumentView::Number(cookie)]);
    call
}

/// A lock and the flag that says whether it is still held.
#[derive(Debug, PartialEq, Eq)]
pub struct Inner {
    lock: Option<PlatformWakeLock>,
    active: bool,
}

/// The mathematical value of an `Inner`.
pub struct InnerView {
    pub lock: Option<PlatformWakeLockView>,
    pub active: bool,
}

impl View for Inner {
    type V = InnerView;

    closed spec fn view(&self) -> InnerView {
        InnerView {
            lock: match self.lock {
                Some(lock) => Some(lock@),
                None => None,
            },
            active: self.active,
        }
    }
}

impl InnerView {
    /// The value that holds a fresh inhibition.
    pub open spec fn holding(backend: BackendView) -> InnerView {
        InnerView { lock: Some(PlatformWakeLockView { backend }), active: true }
    }

    /// The flag is up exactly while there is a lock.
    pub open spec fn wf(self) -> bool {
        self.active <==> self.lock is Some
    }

    /// What a release asks of the driver: the undo of the lock while it is
    /// held, nothing afterwards.
    pub open spec fn release_plan(self) -> Seq<ActionView> {
        match self.lock {
            Some(lock) => if self.active {
                lock.backend.undo()
            } else {
                Seq::empty()
            },
            None => Seq::empty(),
        }
    }

    /// The value after a release.
    pub open spec fn released(self) -> InnerView {
        if self.active {
            InnerView { lock: None, active: false }
        } else {
            self
        }
    }

    /// What the driver holds open on behalf of this value.
    pub open spec fn resources(self) -> Set<Resource> {
        match self.lock {
            Some(lock) => if self.active {
                lock.backend.resources()
            } else {
                Set::empty()
            },
            None => Set::empty(),
        }
    }
}

impl Inner {
    #[verifier::type_invariant]
    spec fn flag_follows_lock(self) -> bool {
        self.active <==> self.lock is Some
    }

    /// Whether the lock is still held.
    pub fn is_active(&self) -> (active: bool)
        ensures
            active == self@.active,
            self@.wf(),
    {
        proof {
            use_type_invariant(self);
        }
        self.active
    }

    /// The lock, while it is held.
    pub fn lock(&self) -> (lock: Option<&PlatformWakeLock>)
        ensures
            match lock {
                Some(lock) => self@.lock == Some(lock@) && self@.active,
                None => self@.lock is None && !self@.active,
            },
    {
        proof {
            use_type_invariant(self);
        }
        self.lock.as_ref()
    }
}

/// Whether the backend can work here at all: it can as soon as one of the
/// two buses can be connected to. This promises no mechanism.
pub fn is_supported(session_bus: bool, system_bus: bool) -> (supported: bool)
    ensures
        supported == (session_bus || system_bus),
{
    session_bus || system_bus
}

/// The application identifier and the reason that the calls carry: those of
/// the options where they are set, else the crate's own name and the
/// caller's reason.
pub open spec fn begin_with(reason: Seq<char>, linux: LinuxOptionsView) -> StepView<
    AcquisitionView,
    InnerView,
> {
    begin(linux.application_id_or_default(), linux.reason_or(reason))
}

/// Begins an acquisition under the given options.
pub fn acquire(reason: &str, linux: LinuxOptions) -> (step: Step<Acquisition, Inner>)
    ensures
        step@ == begin_with(reason@, linux@),
{
    let application_id = match linux.application_id {
        Some(id) => id,
        None => String::from_str("screen_wake_lock"),
    };
    let effective_reason = match linux.reason {
        Some(reason) => reason,
        None => String::from_str(reason),
    };
    PlatformWakeLock::acquire(application_id.as_str(), effective_reason.as_str())
}

/// Gives the lock back: returns the actions that undo it and lowers the
/// flag. Without a held lock there is nothing to do and nothing changes.
pub fn release(inner: &mut Inner) -> (actions: Vec<Action>)
    ensures
        actions_view(actions@) == old(inner)@.release_plan(),
        final(inner)@ == old(inner)@.released(),
{
    if !inner.active {
        let actions: Vec<Action> = Vec::new();
        return actions;
    }
    let mut held = Inner { lock: None, active: false };
    core::mem::swap(inner, &mut held);
    let actions = match held.lock {
        Some(lock) => lock.release(),
        None => Vec::new(),
    };
    actions
}

} // verus!
