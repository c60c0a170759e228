//! Protocol core of a guard that keeps the display awake.
//!
//! The crate decides; it performs nothing. An acquisition is a short
//! conversation: the crate names the next `Action`, a driver performs it
//! against the operating system and reports an `Event`, and so on until the
//! lock is held or the acquisition has failed. Releasing a held lock yields
//! the actions that undo it.
//!
//! - `protocol` holds the vocabulary of actions, events and steps.
//! - `linux`, `macos` and `windows` hold one backend each.
//! - This module holds the guard, which wraps the backend of a platform.
//! - `ledger` keeps ghost books of what a driver holds open.
//! - `conversation` and `outcome` state and prove what holds of every
//!   acquisition: nothing leaks, the first willing mechanism wins, every
//!   acquisition ends.
//! - `text` writes status codes in decimal and reasons in UTF-16.

use crate::ledger::Resource;
use crate::protocol::{actions_view, Action, ActionView, Event, EventView, Step, StepView};
use vstd::prelude::*;

pub mod conversation;
pub mod ledger;
pub mod linux;
pub mod macos;
pub mod outcome;
pub mod protocol;
pub mod text;
pub mod windows;

verus! {

/// Why a wake lock could not be had or given back.
#[derive(Clone, Debug, PartialEq, Eq)]
pub enum Error {
    /// A call into the operating system failed.
    Os(String),
    /// A call could not be put on the message bus.
    Dbus(String),
    /// Nothing in this environment can keep the display awake.
    Unsupported(String),
}

/// The mathematical value of an `Error`.
pub enum ErrorView {
    Os(Seq<char>),
    Dbus(Seq<char>),
    Unsupported(Seq<char>),
}

impl View for Error {
    type V = ErrorView;

    open spec fn view(&self) -> ErrorView {
        match self {
            Error::Os(message) => ErrorView::Os(message@),
            Error::Dbus(message) => ErrorView::Dbus(message@),
            Error::Unsupported(message) => ErrorView::Unsupported(message@),
        }
    }
}

impl ErrorView {
    /// The error as one line of text.
    pub open spec fn text(self) -> Seq<char> {
        match self {
            ErrorView::Os(message) => "OS error: "@ + message,
            ErrorView::Dbus(message) => "D-Bus error: "@ + message,
            ErrorView::Unsupported(message) => "Unsupported: "@ + message,
        }
    }
}

impl Error {
    /// The error as one line of text: the name of its kind, a colon and the
    /// message.
    pub fn to_string(&self) -> (text: String)
        ensures
            text@ == self@.text(),
    {
        match self {
            Error::Os(message) => String::from_str("OS error: ").concat(message.as_str()),
            Error::Dbus(message) => String::from_str("D-Bus error: ").concat(message.as_str()),
            Error::Unsupported(message) => String::from_str("Unsupported: ").concat(
                message.as_str(),
            ),
        }
    }
}

/// Options that only the D-Bus backend reads.
#[derive(Clone, Debug, PartialEq, Eq)]
pub struct LinuxOptions {
    /// The application identifier that the inhibit calls carry, often in
    /// reverse-DNS form. Without one the crate's own name is used.
    pub application_id: Option<String>,
    /// The reason that the inhibit calls carry. Without one the reason of
    /// the acquisition is used.
    pub reason: Option<String>,
}

/// The mathematical value of a `LinuxOptions`.
pub struct LinuxOptionsView {
    pub application_id: Option<Seq<char>>,
    pub reason: Option<Seq<char>>,
}

impl View for LinuxOptions {
    type V = LinuxOptionsView;

    open spec fn view(&self) -> LinuxOptionsView {
        LinuxOptionsView {
            application_id: match self.application_id {
                Some(id) => Some(id@),
                None => None,
            },
            reason: match self.reason {
                Some(reason) => Some(reason@),
                None => None,
            },
        }
    }
}

impl LinuxOptionsView {
    /// The options that set nothing.
    pub open spec fn unset() -> LinuxOptionsView {
        LinuxOptionsView { application_id: None, reason: None }
    }

    /// The application identifier in force.
    pub open spec fn application_id_or_default(self) -> Seq<char> {
        match self.application_id {
            Some(id) => id,
            None => "screen_wake_lock"@,
        }
    }

    /// The reason in force when the acquisition's own reason is `reason`.
    pub open spec fn reason_or(self, reason: Seq<char>) -> Seq<char> {
        match self.reason {
            Some(set) => set,
            None => reason,
        }
    }
}

impl Default for LinuxOptions {
    /// The options that set nothing.
    fn default() -> (options: Self)
        ensures
            options@ == LinuxOptionsView::unset(),
    {
        Self { application_id: None, reason: None }
    }
}

/// The operating systems whose power management the crate knows.
#[derive(Clone, Copy, Debug, PartialEq, Eq, Structural)]
pub enum Platform {
    Linux,
    MacOs,
    Windows,
}

impl Platform {
    /// Whether the platform's backend can work, given which of the two
    /// message buses can be connected to. Only the D-Bus backend asks; the
    /// others are always there. Support is a cheap, hopeful probe: it
    /// promises no mechanism, so an acquisition may fail where it is true.
    /// Where it is false on the D-Bus platform, neither bus could be
    /// connected to.
    pub open spec fn supported(self, session_bus: bool, system_bus: bool) -> bool {
        match self {
            Platform::Linux => session_bus || system_bus,
            _ => true,
        }
    }
}

/// An acquisition under way on one of the platforms.
#[derive(Debug, PartialEq, Eq)]
pub enum Acquisition {
    Linux(linux::Acquisition),
    MacOs(macos::Acquisition),
    Windows(windows::Acquisition),
}

/// The mathematical value of an `Acquisition`.
pub enum AcquisitionView {
    Linux(linux::AcquisitionView),
    MacOs(macos::Acquisition),
    Windows(windows::AcquisitionView),
}

impl View for Acquisition {
    type V = AcquisitionView;

    open spec fn view(&self) -> AcquisitionView {
        match self {
            Acquisition::Linux(acquisition) => AcquisitionView::Linux(acquisition@),
            Acquisition::MacOs(acquisition) => AcquisitionView::MacOs(acquisition@),
            Acquisition::Windows(acquisition) => AcquisitionView::Windows(acquisition@),
        }
    }
}

#[derive(Debug, PartialEq, Eq)]
enum Inner {
    Linux(linux::Inner),
    MacOs(macos::Inner),
    Windows(windows::Inner),
}

/// The handle of one backend with its flag.
pub enum InnerView {
    Linux(linux::InnerView),
    MacOs(macos::InnerView),
    Windows(windows::InnerView),
}

impl View for Inner {
    type V = InnerView;

    closed spec fn view(&self) -> InnerView {
        match self {
            Inner::Linux(inner) => InnerView::Linux(inner@),
            Inner::MacOs(inner) => InnerView::MacOs(inner@),
            Inner::Windows(inner) => InnerView::Windows(inner@),
        }
    }
}

/// The guard that keeps the display awake while it is held.
///
/// It owns the handle of exactly one backend and a flag that is up until
/// the first release.
#[derive(Debug, PartialEq, Eq)]
pub struct ScreenWakeLock {
    inner: Inner,
}

/// The mathematical value of a `ScreenWakeLock`.
pub struct ScreenWakeLockView {
    pub inner: InnerView,
}

impl View for ScreenWakeLock {
    type V = ScreenWakeLockView;

    closed spec fn view(&self) -> ScreenWakeLockView {
        ScreenWakeLockView { inner: self.inner@ }
    }
}

impl ScreenWakeLockView {
    /// The platform whose backend the guard holds.
    pub open spec fn platform(self) -> Platform {
        match self.inner {
            InnerView::Linux(_) => Platform::Linux,
            InnerView::MacOs(_) => Platform::MacOs,
            InnerView::Windows(_) => Platform::Windows,
        }
    }

    /// The flag is up exactly while there is a handle.
    pub open spec fn wf(self) -> bool {
        match self.inner {
            InnerView::Linux(inner) => inner.wf(),
            InnerView::MacOs(_) => true,
            InnerView::Windows(inner) => inner.wf(),
        }
    }

    /// Whether the guard still holds its lock.
    pub open spec fn active(self) -> bool {
        match self.inner {
            InnerView::Linux(inner) => inner.active,
            InnerView::MacOs(inner) => inner.active,
            InnerView::Windows(inner) => inner.active,
        }
    }

    /// What a release asks of the driver, in order: the undo of the lock
    /// while it is held, nothing afterwards.
    pub open spec fn release_plan(self) -> Seq<ActionView> {
        match self.inner {
            InnerView::Linux(inner) => inner.release_plan(),
            InnerView::MacOs(inner) => inner.release_plan(),
            InnerView::Windows(inner) => inner.release_plan(),
        }
    }

    /// The guard after a release.
    pub open spec fn released(self) -> ScreenWakeLockView {
        ScreenWakeLockView {
            inner: match self.inner {
                InnerView::Linux(inner) => InnerView::Linux(inner.released()),
                InnerView::MacOs(inner) => InnerView::MacOs(inner.released()),
                InnerView::Windows(inner) => InnerView::Windows(inner.released()),
            },
        }
    }

    /// What the driver holds open on behalf of the guard.
    pub open spec fn resources(self) -> Set<Resource> {
        match self.inner {
            InnerView::Linux(inner) => inner.resources(),
            InnerView::MacOs(inner) => inner.resources(),
            InnerView::Windows(inner) => inner.resources(),
        }
    }
}

/// A step of the D-Bus backend as a step of the guard.
pub open spec fn lift_linux(step: StepView<linux::AcquisitionView, linux::InnerView>) -> StepView<
    AcquisitionView,
    ScreenWakeLockView,
> {
    match step {
        StepView::Pending(acquisition, action) => StepView::Pending(
            AcquisitionView::Linux(acquisition),
            action,
        ),
        StepView::Held(inner) => StepView::Held(
            ScreenWakeLockView { inner: InnerView::Linux(inner) },
        ),
        StepView::Failed(error) => StepView::Failed(error),
    }
}

/// A step of the assertion backend as a step of the guard.
pub open spec fn lift_macos(step: StepView<macos::Acquisition, macos::InnerView>) -> StepView<
    AcquisitionView,
    ScreenWakeLockView,
> {
    match step {
        StepView::Pending(acquisition, action) => StepView::Pending(
            AcquisitionView::MacOs(acquisition),
            action,
        ),
        StepView::Held(inner) => StepView::Held(
            ScreenWakeLockView { inner: InnerView::MacOs(inner) },
        ),
        StepView::Failed(error) => StepView::Failed(error),
    }
}

/// A step of the power-request backend as a step of the guard.
pub open spec fn lift_windows(
    step: StepView<windows::AcquisitionView, windows::InnerView>,
) -> StepView<AcquisitionView, ScreenWakeLockView> {
    match step {
        StepView::Pending(acquisition, action) => StepView::Pending(
            AcquisitionView::Windows(acquisition),
            action,
        ),
        StepView::Held(inner) => StepView::Held(
            ScreenWakeLockView { inner: InnerView::Windows(inner) },
        ),
        StepView::Failed(error) => StepView::Failed(error),
    }
}

/// The step with which an acquisition begins on a platform.
pub open spec fn begin(platform: Platform, reason: Seq<char>, linux: LinuxOptionsView) -> StepView<
    AcquisitionView,
    ScreenWakeLockView,
> {
    match platform {
        Platform::Linux => lift_linux(linux::begin_with(reason, linux)),
        Platform::MacOs => lift_macos(macos::begin(reason)),
        Platform::Windows => lift_windows(windows::begin(reason)),
    }
}

impl AcquisitionView {
    /// The platform on which the acquisition runs.
    pub open spec fn platform(self) -> Platform {
        match self {
            AcquisitionView::Linux(_) => Platform::Linux,
            AcquisitionView::MacOs(_) => Platform::MacOs,
            AcquisitionView::Windows(_) => Platform::Windows,
        }
    }

    /// The step that follows when the driver reports `event` for the
    /// pending action.
    pub open spec fn advance(self, event: EventView) -> StepView<
        AcquisitionView,
        ScreenWakeLockView,
    > {
        match self {
            AcquisitionView::Linux(acquisition) => lift_linux(acquisition.advance(event)),
            AcquisitionView::MacOs(_) => lift_macos(macos::conclude(event)),
            AcquisitionView::Windows(acquisition) => lift_windows(acquisition.advance(event)),
        }
    }
}

fn from_linux(step: Step<linux::Acquisition, linux::Inner>) -> (lifted: Step<
    Acquisition,
    ScreenWakeLock,
>)
    ensures
        lifted@ == lift_linux(step@),
{
    match step {
        Step::Pending(acquisition, action) => Step::Pending(
            Acquisition::Linux(acquisition),
            action,
        ),
        Step::Held(inner) => Step::Held(ScreenWakeLock { inner: Inner::Linux(inner) }),
        Step::Failed(error) => Step::Failed(error),
    }
}

fn from_macos(step: Step<macos::Acquisition, macos::Inner>) -> (lifted: Step<
    Acquisition,
    ScreenWakeLock,
>)
    ensures
        lifted@ == lift_macos(step@),
{
    match step {
        Step::Pending(acquisition, action) => Step::Pending(
            Acquisition::MacOs(acquisition),
            action,
        ),
        Step::Held(inner) => Step::Held(ScreenWakeLock { inner: Inner::MacOs(inner) }),
        Step::Failed(error) => Step::Failed(error),
    }
}

fn from_windows(step: Step<windows::Acquisition, windows::Inner>) -> (lifted: Step<
    Acquisition,
    ScreenWakeLock,
>)
    ensures
        lifted@ == lift_windows(step@),
{
    match step {
        Step::Pending(acquisition, action) => Step::Pending(
            Acquisition::Windows(acquisition),
            action,
        ),
        Step::Held(inner) => Step::Held(ScreenWakeLock { inner: Inner::Windows(inner) }),
        Step::Failed(error) => Step::Failed(error),
    }
}

impl Acquisition {
    /// The platform on which the acquisition runs.
    pub fn platform(&self) -> (platform: Platform)
        ensures
            platform == self@.platform(),
    {
        match self {
            Acquisition::Linux(_) => Platform::Linux,
            Acquisition::MacOs(_) => Platform::MacOs,
            Acquisition::Windows(_) => Platform::Windows,
        }
    }

    /// Takes the driver's report on the pending action and says how the
    /// acquisition goes on: with the next action, with the guard, or with
    /// an error.
    pub fn advance(self, event: Event) -> (step: Step<Acquisition, ScreenWakeLock>)
        ensures
            step@ == self@.advance(event@),
    {
        match self {
            Acquisition::Linux(acquisition) => from_linux(acquisition.advance(event)),
            Acquisition::MacOs(acquisition) => from_macos(acquisition.advance(event)),
            Acquisition::Windows(acquisition) => from_windows(acquisition.advance(event)),
        }
    }
}

impl ScreenWakeLock {
    /// Begins to acquire a wake lock on `platform` for `reason`, with no
    /// option set. The step names the first action; the driver reports its
    /// outcome to `Acquisition::advance`, and so on until the step holds
    /// the guard or an error.
    pub fn acquire(platform: Platform, reason: &str) -> (step: Step<Acquisition, ScreenWakeLock>)
        ensures
            step@ == begin(platform, reason@, LinuxOptionsView::unset()),
    {
        Self::acquire_with_linux_options(platform, reason, LinuxOptions::default())
    }

    /// Begins to acquire a wake lock on `platform` for `reason` under the
    /// given options, which only the D-Bus backend reads.
    pub fn acquire_with_linux_options(platform: Platform, reason: &str, linux: LinuxOptions) -> (step:
        Step<Acquisition, ScreenWakeLock>)
        ensures
            step@ == begin(platform, reason@, linux@),
    {
        match platform {
            Platform::Linux => from_linux(linux::acquire(reason, linux)),
            Platform::MacOs => from_macos(macos::acquire(reason, linux)),
            Platform::Windows => from_windows(windows::acquire(reason, linux)),
        }
    }

    /// Whether the backend of `platform` can work, given which of the two
    /// message buses the driver could connect to.
    pub fn is_supported(platform: Platform, session_bus: bool, system_bus: bool) -> (supported:
        bool)
        ensures
            supported == platform.supported(session_bus, system_bus),
    {
        match platform {
            Platform::Linux => linux::is_supported(session_bus, system_bus),
            Platform::MacOs => macos::is_supported(),
            Platform::Windows => windows::is_supported(),
        }
    }

    /// The platform whose backend the guard holds.
    pub fn platform(&self) -> (platform: Platform)
        ensures
            platform == self@.platform(),
    {
        match &self.inner {
            Inner::Linux(_) => Platform::Linux,
            Inner::MacOs(_) => Platform::MacOs,
            Inner::Windows(_) => Platform::Windows,
        }
    }

    /// Whether the guard still holds its lock.
    pub fn is_active(&self) -> (active: bool)
        ensures
            active == self@.active(),
            self@.wf(),
    {
        match &self.inner {
            Inner::Linux(inner) => inner.is_active(),
            Inner::MacOs(inner) => inner.is_active(),
            Inner::Windows(inner) => inner.is_active(),
        }
    }

    /// Gives the lock back: returns the actions that undo it, in order,
    /// and lowers the flag. The driver performs the actions and ignores
    /// how they fare. Only the first release has an effect: from the
    /// second on nothing is returned and nothing changes.
    pub fn release(&mut self) -> (actions: Vec<Action>)
        ensures
            actions_view(actions@) == old(self)@.release_plan(),
            actions.len() == old(self)@.release_plan().len(),
            final(self)@ == old(self)@.released(),
            !final(self)@.active(),
    {
        match &mut self.inner {
            Inner::Linux(inner) => linux::release(inner),
            Inner::MacOs(inner) => macos::release(inner),
            Inner::Windows(inner) => windows::release(inner),
        }
    }
}

} // verus!
