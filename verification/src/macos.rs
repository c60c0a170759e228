//! The backend for the power assertions of macOS.
//!
//! One assertion of the type that keeps the display from sleeping is
//! created, at the level that switches it on and under the caller's reason
//! as its name. Its identifier is all that a release needs.

use crate::ledger::Resource;
use crate::protocol::{actions_view, Action, ActionView, Event, EventView, Step, StepView};
use crate::text::{decimal, decimal_text};
use crate::{Error, ErrorView, LinuxOptions};
use vstd::prelude::*;

verus! {

/// The level that switches an assertion on.
pub const ASSERTION_LEVEL_ON: u32 = 255;

/// The status code with which the assertion call reports success.
pub const RETURN_SUCCESS: i32 = 0;

/// The type of the assertion that keeps the display from sleeping.
pub open spec fn assertion_type() -> Seq<char> {
    "NoDisplaySleepAssertion"@
}

/// An acquisition under way: the assertion call has been asked for.
#[derive(Clone, Copy, Debug, PartialEq, Eq, Structural)]
pub struct Acquisition {}

impl View for Acquisition {
    type V = Acquisition;

    open spec fn view(&self) -> Acquisition {
        *self
    }
}

/// An assertion and the flag that says whether it is still held.
#[derive(Debug, PartialEq, Eq)]
pub struct Inner {
    id: u32,
    active: bool,
}

/// The mathematical value of an `Inner`.
pub struct InnerView {
    pub id: u32,
    pub active: bool,
}

impl View for Inner {
    type V = InnerView;

    closed spec fn view(&self) -> InnerView {
        InnerView { id: self.id, active: self.active }
    }
}

impl InnerView {
    /// What a release asks of the driver: to release the assertion while
    /// it is held, nothing afterwards.
    pub open spec fn release_plan(self) -> Seq<ActionView> {
        if self.active {
            seq![ActionView::ReleaseAssertion { id: self.id }]
        } else {
            Seq::empty()
        }
    }

    /// The value after a release.
    pub open spec fn released(self) -> InnerView {
        InnerView { id: self.id, active: false }
    }

    /// What the driver holds open on behalf of this value.
    pub open spec fn resources(self) -> Set<Resource> {
        if self.active {
            set![Resource::Assertion(self.id)]
        } else {
            Set::empty()
        }
    }
}

impl Inner {
    /// The identifier of the assertion.
    pub fn id(&self) -> (id: u32)
        ensures
            id == self@.id,
    {
        self.id
    }

    /// Whether the assertion is still held.
    pub fn is_active(&self) -> (active: bool)
        ensures
            active == self@.active,
    {
        self.active
    }
}

/// The message of the error for an assertion call that returned `code`.
pub open spec fn creation_failed(code: i32) -> Seq<char> {
    "IOPMAssertionCreateWithName failed (IOReturn="@ + decimal(code as int) + ")"@
}

/// The assertion that is asked for: of the type that keeps the display
/// awake, switched on, named by the reason.
pub open spec fn creation(reason: Seq<char>) -> ActionView {
    ActionView::CreateAssertion { kind: assertion_type(), level: ASSERTION_LEVEL_ON, name: reason }
}

/// The step with which every acquisition begins.
pub open spec fn begin(reason: Seq<char>) -> StepView<Acquisition, InnerView> {
    StepView::Pending(Acquisition {  }, creation(reason))
}

/// The step that follows the driver's report on the assertion call: the
/// lock under the identifier that was written if the status code is the one
/// for success, an error that names the code if it is another, and the
/// error of a failed action for any other event.
pub open spec fn conclude(event: EventView) -> StepView<Acquisition, InnerView> {
    match event {
        EventView::Status { code, id } => if code == RETURN_SUCCESS {
            StepView::Held(InnerView { id, active: true })
        } else {
            StepView::Failed(ErrorView::Os(creation_failed(code)))
        },
        _ => StepView::Failed(ErrorView::Os(event.failure_text())),
    }
}

impl Acquisition {
    /// Takes the driver's report on the assertion call and says how the
    /// acquisition ends.
    pub fn advance(self, event: Event) -> (step: Step<Acquisition, Inner>)
        ensures
            step@ == conclude(event@),
    {
        match event {
            Event::Status { code, id } => {
                if code != RETURN_SUCCESS {
                    let message = String::from_str(
                        "IOPMAssertionCreateWithName failed (IOReturn=",
                    ).concat(decimal_text(code).as_str()).concat(")");
                    return Step::Failed(Error::Os(message));
                }
                Step::Held(Inner { id, active: true })
            },
            other => Step::Failed(Error::Os(other.failure_text())),
        }
    }
}

/// The assertions are always there.
pub fn is_supported() -> (supported: bool)
    ensures
        supported,
{
    true
}

/// Begins an acquisition. The options are for another backend and are not
/// read.
pub fn acquire(reason: &str, _linux: LinuxOptions) -> (step: Step<Acquisition, Inner>)
    ensures
        step@ == begin(reason@),
{
    Step::Pending(
        Acquisition {  },
        Action::CreateAssertion {
            kind: String::from_str("NoDisplaySleepAssertion"),
            level: ASSERTION_LEVEL_ON,
            name: String::from_str(reason),
        },
    )
}

/// Gives the assertion back: returns the action that releases it and
/// lowers the flag. Once the flag is down there is nothing to do.
pub fn release(inner: &mut Inner) -> (actions: Vec<Action>)
    ensures
        actions_view(actions@) == old(inner)@.release_plan(),
        final(inner)@ == old(inner)@.released(),
{
    let mut actions: Vec<Action> = Vec::new();
    if !inner.active {
        return actions;
    }
    actions.push(Action::ReleaseAssertion { id: inner.id });
    inner.active = false;
    actions
}

} // verus!
