//! The backend for the power requests of Windows.
//!
//! A power request is created under the caller's reason, and two request
//! kinds are set on it: first that the system is required, second that the
//! display is required. The display kind alone does not hold on every power
//! configuration, so the two go together: both are set, or the request
//! is closed again and the acquisition fails.

use crate::ledger::Resource;
use crate::protocol::{
    actions_view, Action, ActionView, Event, EventView, PowerRequest, Step, StepView,
};
use crate::text::{wide, wide_text};
use crate::{Error, ErrorView, LinuxOptions};
use vstd::prelude::*;

verus! {

/// The version of the reason context.
pub const POWER_REQUEST_CONTEXT_VERSION: u32 = 0;

/// The flag of a reason context that holds a plain string.
pub const POWER_REQUEST_CONTEXT_SIMPLE_STRING: u32 = 1;

/// One power request with both kinds set.
#[derive(Debug, PartialEq, Eq)]
pub struct PlatformWakeLock {
    handle: isize,
    // The reason as the request was given it, kept for as long as the
    // request lives.
    reason_wide: Vec<u16>,
}

/// The mathematical value of a `PlatformWakeLock`.
pub struct PlatformWakeLockView {
    pub handle: isize,
    pub reason_wide: Seq<u16>,
}

impl View for PlatformWakeLock {
    type V = PlatformWakeLockView;

    closed spec fn view(&self) -> PlatformWakeLockView {
        PlatformWakeLockView { handle: self.handle, reason_wide: self.reason_wide@ }
    }
}

impl PlatformWakeLockView {
    /// What a release asks of the driver: to clear the two kinds in the
    /// reverse of the order in which they were set, and to close the
    /// request.
    pub open spec fn undo(self) -> Seq<ActionView> {
        seq![
            ActionView::ClearRequest { handle: self.handle, request: PowerRequest::DisplayRequired },
            ActionView::ClearRequest { handle: self.handle, request: PowerRequest::SystemRequired },
            ActionView::CloseHandle { handle: self.handle },
        ]
    }
}

/// Where an acquisition stands: what the driver was last asked to do.
#[derive(Clone, Copy, Debug, PartialEq, Eq, Structural)]
pub enum Stage {
    /// To create the power request.
    Creating,
    /// To set a request kind on the request under this handle.
    Setting(isize, PowerRequest),
    /// To close the request under this handle, on which a kind could not
    /// be set.
    Closing(isize),
}

impl Stage {
    /// What the driver holds open while the acquisition waits at this
    /// stage: the request, once it is created.
    pub open spec fn in_work(self) -> Set<Resource> {
        match self {
            Stage::Creating => Set::empty(),
            Stage::Setting(handle, _) => set![Resource::Request(handle)],
            Stage::Closing(handle) => set![Resource::Request(handle)],
        }
    }
}

/// An acquisition under way.
#[derive(Debug, PartialEq, Eq)]
pub struct Acquisition {
    reason_wide: Vec<u16>,
    stage: Stage,
    // Why a kind could not be set; empty before the stage `Closing`.
    failure: String,
}

/// The mathematical value of an `Acquisition`.
pub struct AcquisitionView {
    pub reason_wide: Seq<u16>,
    pub stage: Stage,
    pub failure: Seq<char>,
}

impl View for Acquisition {
    type V = AcquisitionView;

    closed spec fn view(&self) -> AcquisitionView {
        AcquisitionView {
            reason_wide: self.reason_wide@,
            stage: self.stage,
            failure: self.failure@,
        }
    }
}

impl AcquisitionView {
    /// The same acquisition at another stage.
    pub open spec fn at(self, stage: Stage) -> AcquisitionView {
        AcquisitionView { reason_wide: self.reason_wide, stage, failure: self.failure }
    }

    /// The same acquisition, about to close the request because of
    /// `failure`.
    pub open spec fn closing(self, handle: isize, failure: Seq<char>) -> AcquisitionView {
        AcquisitionView { reason_wide: self.reason_wide, stage: Stage::Closing(handle), failure }
    }

    /// What the driver is asked to do at this stage.
    pub open spec fn pending(self) -> ActionView {
        match self.stage {
            Stage::Creating => ActionView::CreateRequest {
                version: POWER_REQUEST_CONTEXT_VERSION,
                flags: POWER_REQUEST_CONTEXT_SIMPLE_STRING,
                reason: self.reason_wide,
            },
            Stage::Setting(handle, request) => ActionView::SetRequest { handle, request },
            Stage::Closing(handle) => ActionView::CloseHandle { handle },
        }
    }

    /// The step that waits in this state.
    pub open spec fn wait(self) -> StepView<AcquisitionView, InnerView> {
        StepView::Pending(self, self.pending())
    }

    /// The step that follows when the driver reports `event` for the
    /// pending action. Only `Done` counts as a kind that was set.
    pub open spec fn advance(self, event: EventView) -> StepView<AcquisitionView, InnerView> {
        match self.stage {
            Stage::Creating => match event {
                EventView::Handle(handle) => self.at(
                    Stage::Setting(handle, PowerRequest::SystemRequired),
                ).wait(),
                _ => StepView::Failed(ErrorView::Os(event.failure_text())),
            },
            Stage::Setting(handle, request) => if event is Done {
                match request {
                    PowerRequest::SystemRequired => self.at(
                        Stage::Setting(handle, PowerRequest::DisplayRequired),
                    ).wait(),
                    PowerRequest::DisplayRequired => StepView::Held(
                        InnerView::holding(handle, self.reason_wide),
                    ),
                }
            } else {
                self.closing(handle, event.failure_text()).wait()
            },
            Stage::Closing(_) => StepView::Failed(ErrorView::Os(self.failure)),
        }
    }
}

/// The step with which every acquisition begins: to create the request
/// under the reason, encoded as the power API reads it.
pub open spec fn begin(reason: Seq<char>) -> StepView<AcquisitionView, InnerView> {
    AcquisitionView { reason_wide: wide(reason), stage: Stage::Creating, failure: Seq::empty() }.wait()
}

impl Acquisition {
    /// Where the acquisition stands.
    pub fn stage(&self) -> (stage: Stage)
        ensures
            stage == self@.stage,
    {
        self.stage
    }

    fn wait(self) -> (step: Step<Acquisition, Inner>)
        ensures
            step@ == self@.wait(),
    {
        let action = match self.stage {
            Stage::Creating => Action::CreateRequest {
                version: POWER_REQUEST_CONTEXT_VERSION,
                flags: POWER_REQUEST_CONTEXT_SIMPLE_STRING,
                reason: self.reason_wide.clone(),
            },
            Stage::Setting(handle, request) => Action::SetRequest { handle, request },
            Stage::Closing(handle) => Action::CloseHandle { handle },
        };
        Step::Pending(self, action)
    }

    /// Takes the driver's report on the pending action and says how the
    /// acquisition goes on. When a kind cannot be set, the request is
    /// closed before the acquisition fails with the reason why.
    pub fn advance(self, event: Event) -> (step: Step<Acquisition, Inner>)
        ensures
            step@ == self@.advance(event@),
    {
        match self.stage {
            Stage::Creating => match event {
                Event::Handle(handle) => {
                    let next = Acquisition {
                        reason_wide: self.reason_wide,
                        stage: Stage::Setting(handle, PowerRequest::SystemRequired),
                        failure: self.failure,
                    };
                    next.wait()
                },
                other => Step::Failed(Error::Os(other.failure_text())),
            },
            Stage::Setting(handle, request) => match event {
                Event::Done => match request {
                    PowerRequest::SystemRequired => {
                        let next = Acquisition {
                            reason_wide: self.reason_wide,
                            stage: Stage::Setting(handle, PowerRequest::DisplayRequired),
                            failure: self.failure,
                        };
                        next.wait()
                    },
                    PowerRequest::DisplayRequired => Step::Held(
                        Inner {
                            lock: Some(
                                PlatformWakeLock { handle, reason_wide: self.reason_wide },
                            ),
                            active: true,
                        },
                    ),
                },
                other => {
                    let next = Acquisition {
                        reason_wide: self.reason_wide,
                        stage: Stage::Closing(handle),
                        failure: other.failure_text(),
                    };
                    next.wait()
                },
            },
            Stage::Closing(_) => Step::Failed(Error::Os(self.failure)),
        }
    }
}

impl PlatformWakeLock {
    /// Begins an acquisition: the first thing to do is to create the power
    /// request.
    pub fn acquire(reason: &str) -> (step: Step<Acquisition, Inner>)
        ensures
            step@ == begin(reason@),
    {
        let start = Acquisition {
            reason_wide: wide_text(reason),
            stage: Stage::Creating,
            failure: String::new(),
        };
        start.wait()
    }

    /// The handle of the power request.
    pub fn handle(&self) -> (handle: isize)
        ensures
            handle == self@.handle,
    {
        self.handle
    }

    /// The reason as the request was given it.
    pub fn reason_wide(&self) -> (reason: &Vec<u16>)
        ensures
            reason@ == self@.reason_wide,
    {
        &self.reason_wide
    }

    /// The actions that give the request back, in order. Their outcome
    /// changes nothing in what is to be done.
    pub fn release(self) -> (actions: Vec<Action>)
        ensures
            actions_view(actions@) == self@.undo(),
    {
        let mut actions: Vec<Action> = Vec::new();
        actions.push(
            Action::ClearRequest { handle: self.handle, request: PowerRequest::DisplayRequired },
        );
        actions.push(
            Action::ClearRequest { handle: self.handle, request: PowerRequest::SystemRequired },
        );
        actions.push(Action::CloseHandle { handle: self.handle });
        actions
    }

    /// What a release comes to, given what the driver reports for its last
    /// action: an error exactly where the request could not be closed.
    pub fn released(outcome: Event) -> (result: Result<(), Error>)
        ensures
            match result {
                Ok(_) => release_result(outcome@) is Ok,
                Err(error) => release_result(outcome@) == Err::<(), ErrorView>(error@),
            },
    {
        match outcome {
            Event::Done => Ok(()),
            other => Err(Error::Os(other.failure_text())),
        }
    }
}

/// What a release comes to, given the report on its last action.
pub open spec fn release_result(outcome: EventView) -> Result<(), ErrorView> {
    if outcome is Done {
        Ok(())
    } else {
        Err(ErrorView::Os(outcome.failure_text()))
    }
}

/// A lock and the flag that says whether it is still held.
#[derive(Debug, PartialEq, Eq)]
pub struct Inner {
    lock: Option<PlatformWakeLock>,
    active: bool,
}

/// The mathematical value of an `Inner`.
pub struct InnerView {
    pub lock: Option<PlatformWakeLockView>,
    pub active: bool,
}

impl View for Inner {
    type V = InnerView;

    closed spec fn view(&self) -> InnerView {
        InnerView {
            lock: match self.lock {
                Some(lock) => Some(lock@),
                None => None,
            },
            active: self.active,
        }
    }
}

impl InnerView {
    /// The value that holds a fresh request.
    pub open spec fn holding(handle: isize, reason_wide: Seq<u16>) -> InnerView {
        InnerView { lock: Some(PlatformWakeLockView { handle, reason_wide }), active: true }
    }

    /// The flag is up exactly while there is a lock.
    pub open spec fn wf(self) -> bool {
        self.active <==> self.lock is Some
    }

    /// What a release asks of the driver: the undo of the lock while it is
    /// held, nothing afterwards.
    pub open spec fn release_plan(self) -> Seq<ActionView> {
        match self.lock {
            Some(lock) => if self.active {
                lock.undo()
            } else {
                Seq::empty()
            },
            None => Seq::empty(),
        }
    }

    /// The value after a release.
    pub open spec fn released(self) -> InnerView {
        if self.active {
            InnerView { lock: None, active: false }
        } else {
            self
        }
    }

    /// What the driver holds open on behalf of this value.
    pub open spec fn resources(self) -> Set<Resource> {
        match self.lock {
            Some(lock) => if self.active {
                set![Resource::Request(lock.handle)]
            } else {
                Set::empty()
            },
            None => Set::empty(),
        }
    }
}

impl Inner {
    #[verifier::type_invariant]
    spec fn flag_follows_lock(self) -> bool {
        self.active <==> self.lock is Some
    }

    /// Whether the lock is still held.
    pub fn is_active(&self) -> (active: bool)
        ensures
            active == self@.active,
            self@.wf(),
    {
        proof {
            use_type_invariant(self);
        }
        self.active
    }

    /// The lock, while it is held.
    pub fn lock(&self) -> (lock: Option<&PlatformWakeLock>)
        ensures
            match lock {
                Some(lock) => self@.lock == Some(lock@) && self@.active,
                None => self@.lock is None && !self@.active,
            },
    {
        proof {
            use_type_invariant(self);
        }
        self.lock.as_ref()
    }
}

/// Power requests are always there.
pub fn is_supported() -> (supported: bool)
    ensures
        supported,
{
    true
}

/// Begins an acquisition. The options are for another backend and are not
/// read.
pub fn acquire(reason: &str, _linux: LinuxOptions) -> (step: Step<Acquisition, Inner>)
    ensures
        step@ == begin(reason@),
{
    PlatformWakeLock::acquire(reason)
}

/// Gives the lock back: returns the actions that undo it and lowers the
/// flag. Without a held lock there is nothing to do and nothing changes.
pub fn release(inner: &mut Inner) -> (actions: Vec<Action>)
    ensures
        actions_view(actions@) == old(inner)@.release_plan(),
        final(inner)@ == old(inner)@.released(),
{
    if !inner.active {
        let actions: Vec<Action> = Vec::new();
        return actions;
    }
    let mut held = Inner { lock: None, active: false };
    core::mem::swap(inner, &mut held);
    let actions = match held.lock {
        Some(lock) => lock.release(),
        None => Vec::new(),
    };
    actions
}

} // verus!
