//! Whole conversations, and what holds of every one of them.
//!
//! A conversation is an acquisition together with the reports of a driver,
//! whatever they are. `run` follows one from its first step: it collects
//! the actions that the driver is asked to perform and keeps the ledger of
//! what the driver holds open. The lemmas of this module speak of all
//! conversations at once.

use crate::ledger::{Ledger, Resource};
use crate::linux::{agenda, Mechanism, Stage};
use crate::protocol::{ActionView, Bus, EventView, PowerRequest, StepView};
use crate::text::wide;
use crate::{
    begin, lift_macos, AcquisitionView, ErrorView, InnerView, LinuxOptionsView, Platform,
    ScreenWakeLockView,
};
use vstd::prelude::*;

verus! {

/// A conversation so far.
pub struct Trace {
    /// The step that the acquisition has come to.
    pub step: StepView<AcquisitionView, ScreenWakeLockView>,
    /// The actions that the driver has been asked to perform, in order.
    pub actions: Seq<ActionView>,
    /// What the driver holds open after the actions it has reported on.
    pub ledger: Ledger,
}

/// The action that a step asks for, if it asks for one.
pub open spec fn issued(step: StepView<AcquisitionView, ScreenWakeLockView>) -> Seq<ActionView> {
    match step {
        StepView::Pending(_, action) => seq![action],
        _ => Seq::empty(),
    }
}

/// The conversation before the driver has reported anything.
pub open spec fn start(platform: Platform, reason: Seq<char>, linux: LinuxOptionsView) -> Trace {
    let step = begin(platform, reason, linux);
    Trace { step, actions: issued(step), ledger: Ledger::empty() }
}

/// The conversation after one more report. Once the acquisition has ended,
/// reports change nothing.
pub open spec fn extend(trace: Trace, event: EventView) -> Trace {
    match trace.step {
        StepView::Pending(acquisition, action) => {
            let step = acquisition.advance(event);
            Trace {
                step,
                actions: trace.actions + issued(step),
                ledger: trace.ledger.record(action, event),
            }
        },
        _ => trace,
    }
}

/// The conversation after the driver has reported `events`, in order.
pub open spec fn run(
    platform: Platform,
    reason: Seq<char>,
    linux: LinuxOptionsView,
    events: Seq<EventView>,
) -> Trace
    decreases events.len(),
{
    if events.len() == 0 {
        start(platform, reason, linux)
    } else {
        extend(run(platform, reason, linux, events.drop_last()), events.last())
    }
}

/// What the driver holds open when an acquisition has come to `step`: the
/// connection or request in work while it is pending, the resources of the
/// guard once it is held, nothing after a failure.
pub open spec fn open_at(step: StepView<AcquisitionView, ScreenWakeLockView>) -> Set<Resource> {
    match step {
        StepView::Pending(acquisition, _) => match acquisition {
            AcquisitionView::Linux(acquisition) => acquisition.stage.in_work(),
            AcquisitionView::MacOs(_) => Set::empty(),
            AcquisitionView::Windows(acquisition) => acquisition.stage.in_work(),
        },
        StepView::Held(guard) => guard.resources(),
        StepView::Failed(_) => Set::empty(),
    }
}

/// Whether the first report says that the session bus is connected.
pub open spec fn session_connected(events: Seq<EventView>) -> bool {
    events.len() > 0 && events[0] is Connected
}

/// What holds of the ledger in every conversation: nothing was misused,
/// and what is open is what the step accounts for.
spec fn accounted(trace: Trace) -> bool {
    trace.ledger.sound && trace.ledger.open =~= open_at(trace.step)
}

/// What holds of every conversation of the D-Bus backend.
spec fn linux_invariant(
    application_id: Seq<char>,
    reason: Seq<char>,
    events: Seq<EventView>,
    trace: Trace,
) -> bool {
    let session = session_connected(events);
    match trace.step {
        StepView::Pending(AcquisitionView::Linux(acquisition), action) => {
            &&& acquisition.application_id == application_id
            &&& acquisition.reason == reason
            &&& action == acquisition.pending()
            &&& trace.actions == agenda(session, acquisition.stage, application_id, reason)
            &&& trace.actions.len() == events.len() + 1
            &&& (acquisition.stage is OpeningSession <==> events.len() == 0)
            &&& (acquisition.stage is ClosingSession ==> session)
            &&& (acquisition.stage matches Stage::Trying(mechanism) ==> mechanism
                == Mechanism::Logind || session)
        },
        StepView::Held(guard) => {
            &&& guard.inner matches InnerView::Linux(inner)
            &&& inner.active
            &&& inner.lock matches Some(lock)
            &&& trace.actions == agenda(
                session,
                Stage::Trying(lock.backend.mechanism()),
                application_id,
                reason,
            )
            &&& trace.actions.len() <= events.len()
            &&& lock.backend.mechanism().granted(events[trace.actions.len() - 1]) == Some(
                lock.backend,
            )
            &&& (lock.backend.mechanism() == Mechanism::Logind || session)
        },
        StepView::Failed(error) => {
            &&& error == crate::linux::unsupported()
            &&& trace.actions.len() <= events.len()
            &&& (trace.actions == agenda(session, Stage::OpeningSystem, application_id, reason)
                || trace.actions == agenda(
                session,
                Stage::ClosingSystem,
                application_id,
                reason,
            ))
        },
        _ => false,
    }
}

/// What holds of every conversation of the assertion backend.
spec fn macos_invariant(reason: Seq<char>, events: Seq<EventView>, trace: Trace) -> bool {
    &&& trace.actions == seq![crate::macos::creation(reason)]
    &&& if events.len() == 0 {
        trace.step == lift_macos(crate::macos::begin(reason))
    } else {
        trace.step == lift_macos(crate::macos::conclude(events[0]))
    }
}

/// What holds of every conversation of the power-request backend.
spec fn windows_invariant(reason: Seq<char>, trace: Trace) -> bool {
    match trace.step {
        StepView::Pending(AcquisitionView::Windows(acquisition), action) => {
            &&& action == acquisition.pending()
            &&& acquisition.reason_wide == wide(reason)
        },
        StepView::Held(guard) => {
            &&& guard.inner matches InnerView::Windows(inner)
            &&& inner.active
            &&& inner.lock matches Some(lock)
            &&& lock.reason_wide == wide(reason)
        },
        StepView::Failed(error) => error is Os,
        _ => false,
    }
}

spec fn regular(
    platform: Platform,
    reason: Seq<char>,
    linux: LinuxOptionsView,
    events: Seq<EventView>,
    trace: Trace,
) -> bool {
    &&& accounted(trace)
    &&& match platform {
        Platform::Linux => linux_invariant(
            linux.application_id_or_default(),
            linux.reason_or(reason),
            events,
            trace,
        ),
        Platform::MacOs => macos_invariant(reason, events, trace),
        Platform::Windows => windows_invariant(reason, trace),
    }
}

proof fn lemma_linux_step(
    application_id: Seq<char>,
    reason: Seq<char>,
    events: Seq<EventView>,
    trace: Trace,
)
    requires
        events.len() > 0,
        accounted(trace),
        linux_invariant(application_id, reason, events.drop_last(), trace),
    ensures
        accounted(extend(trace, events.last())),
        linux_invariant(application_id, reason, events, extend(trace, events.last())),
{
    let after = extend(trace, events.last());
    if let StepView::Pending(AcquisitionView::Linux(next), _) = after.step {
        assert(after.actions =~= agenda(
            session_connected(events),
            next.stage,
            application_id,
            reason,
        ));
    }
}

proof fn lemma_regular(
    platform: Platform,
    reason: Seq<char>,
    linux: LinuxOptionsView,
    events: Seq<EventView>,
)
    ensures
        regular(platform, reason, linux, events, run(platform, reason, linux, events)),
    decreases events.len(),
{
    if events.len() > 0 {
        let before = events.drop_last();
        lemma_regular(platform, reason, linux, before);
        if platform == Platform::Linux {
            lemma_linux_step(
                linux.application_id_or_default(),
                linux.reason_or(reason),
                events,
                run(platform, reason, linux, before),
            );
        }
    }
}

/// One more report extends the conversation by one step.
pub proof fn lemma_run_push(
    platform: Platform,
    reason: Seq<char>,
    linux: LinuxOptionsView,
    events: Seq<EventView>,
    event: EventView,
)
    ensures
        run(platform, reason, linux, events.push(event)) == extend(
            run(platform, reason, linux, events),
            event,
        ),
{
    assert(events.push(event).drop_last() =~= events);
}

/// Whatever the driver reports, the books are in order: no action uses or
/// closes what is not open, nothing is opened twice, and what is open is
/// what the step accounts for. A failed acquisition has left nothing open.
/// A held guard is active, belongs to the platform it was asked for, and
/// owns what its one backend handle stands for, nothing more.
pub proof fn lemma_nothing_leaks(
    platform: Platform,
    reason: Seq<char>,
    linux: LinuxOptionsView,
    events: Seq<EventView>,
)
    ensures
        run(platform, reason, linux, events).ledger.sound,
        run(platform, reason, linux, events).ledger.open == open_at(
            run(platform, reason, linux, events).step,
        ),
        run(platform, reason, linux, events).step is Failed ==> run(
            platform,
            reason,
            linux,
            events,
        ).ledger.open == Set::<Resource>::empty(),
        run(platform, reason, linux, events).step matches StepView::Held(guard) ==> {
            &&& guard.active()
            &&& guard.platform() == platform
            &&& run(platform, reason, linux, events).ledger.open == guard.resources()
        },
        run(platform, reason, linux, events).step matches StepView::Pending(acquisition, _)
            ==> acquisition.platform() == platform,
{
    lemma_regular(platform, reason, linux, events);
}

/// On the D-Bus platform the first mechanism that grants the inhibition
/// wins. When a conversation ends with a guard, the guard records the
/// mechanism whose inhibit call was the last thing the driver was asked to
/// do, with the token that the driver reported for that call; everything
/// asked before is the agenda up to that call, so every mechanism of
/// higher preference on a bus that could be reached was called and refused,
/// and none of lower preference was called at all. A release addresses the
/// recorded mechanism with the recorded token.
pub proof fn lemma_first_grant_wins(
    reason: Seq<char>,
    linux: LinuxOptionsView,
    events: Seq<EventView>,
)
    ensures
        run(Platform::Linux, reason, linux, events).step matches StepView::Held(guard) ==> {
            let trace = run(Platform::Linux, reason, linux, events);
            &&& guard.inner matches InnerView::Linux(inner)
            &&& inner.lock matches Some(lock)
            &&& trace.actions == agenda(
                session_connected(events),
                Stage::Trying(lock.backend.mechanism()),
                linux.application_id_or_default(),
                linux.reason_or(reason),
            )
            &&& trace.actions.len() <= events.len()
            &&& lock.backend.mechanism().granted(events[trace.actions.len() - 1]) == Some(
                lock.backend,
            )
            &&& (lock.backend.mechanism().spec_bus() == Bus::Session ==> session_connected(events))
            &&& guard.release_plan() == lock.backend.undo()
        },
{
    lemma_regular(Platform::Linux, reason, linux, events);
}

/// On the D-Bus platform an acquisition fails only when nothing is left to
/// try, and then as unsupported: either the system bus could not be
/// connected to, or the login manager refused on it; and if the session bus
/// could be connected to, all four of its mechanisms had refused before.
pub proof fn lemma_unsupported_after_all_refused(
    reason: Seq<char>,
    linux: LinuxOptionsView,
    events: Seq<EventView>,
)
    ensures
        run(Platform::Linux, reason, linux, events).step matches StepView::Failed(error) ==> {
            let trace = run(Platform::Linux, reason, linux, events);
            let session = session_connected(events);
            let application_id = linux.application_id_or_default();
            let reason = linux.reason_or(reason);
            &&& error == crate::linux::unsupported()
            &&& (trace.actions == agenda(session, Stage::OpeningSystem, application_id, reason)
                || trace.actions == agenda(session, Stage::ClosingSystem, application_id, reason))
            &&& trace.ledger.open == Set::<Resource>::empty()
        },
{
    lemma_regular(Platform::Linux, reason, linux, events);
}

/// While an acquisition on the D-Bus platform is pending, what the driver
/// has been asked to do is the agenda of the stage, and the pending action
/// is its last entry.
pub proof fn lemma_pending_follows_agenda(
    reason: Seq<char>,
    linux: LinuxOptionsView,
    events: Seq<EventView>,
)
    ensures
        run(Platform::Linux, reason, linux, events).step matches StepView::Pending(
            acquisition,
            action,
        ) ==> {
            let trace = run(Platform::Linux, reason, linux, events);
            &&& acquisition matches AcquisitionView::Linux(acquisition)
            &&& trace.actions == agenda(
                session_connected(events),
                acquisition.stage,
                linux.application_id_or_default(),
                linux.reason_or(reason),
            )
            &&& trace.actions.len() == events.len() + 1
            &&& trace.actions.last() == action
        },
{
    lemma_regular(Platform::Linux, reason, linux, events);
}

/// On the assertion platform the first report decides: the conversation
/// asks for the one assertion and ends with what the report on it comes
/// to.
pub proof fn lemma_assertion_decides(
    reason: Seq<char>,
    linux: LinuxOptionsView,
    events: Seq<EventView>,
)
    requires
        events.len() > 0,
    ensures
        run(Platform::MacOs, reason, linux, events).step == lift_macos(
            crate::macos::conclude(events[0]),
        ),
        run(Platform::MacOs, reason, linux, events).actions == seq![
            crate::macos::creation(reason),
        ],
{
    lemma_regular(Platform::MacOs, reason, linux, events);
}

/// A release closes what the guard holds open, each thing once, whatever
/// the driver reports for the actions; and the guard owns nothing
/// afterwards.
pub proof fn lemma_release_closes_all(
    guard: ScreenWakeLockView,
    ledger: Ledger,
    outcomes: Seq<EventView>,
)
    requires
        ledger.sound,
        ledger.open == guard.resources(),
        outcomes.len() == guard.release_plan().len(),
    ensures
        ledger.record_all(guard.release_plan(), outcomes).sound,
        ledger.record_all(guard.release_plan(), outcomes).open == Set::<Resource>::empty(),
        guard.released().resources() == Set::<Resource>::empty(),
{
    reveal_with_fuel(Ledger::record_all, 4);
}

/// Only the first release has an effect: a released guard asks for
/// nothing more and does not change again.
pub proof fn lemma_release_once(guard: ScreenWakeLockView)
    ensures
        !guard.released().active(),
        guard.released().release_plan() == Seq::<ActionView>::empty(),
        guard.released().released() == guard.released(),
        !guard.active() ==> guard.released() == guard,
{
}

/// The request that the power-request backend asks to create for a reason.
pub open spec fn request_creation(reason: Seq<char>) -> ActionView {
    ActionView::CreateRequest {
        version: crate::windows::POWER_REQUEST_CONTEXT_VERSION,
        flags: crate::windows::POWER_REQUEST_CONTEXT_SIMPLE_STRING,
        reason: wide(reason),
    }
}

/// On the power-request platform both kinds are set, the system kind
/// first, and the guard then holds the request together with the reason
/// as it was encoded for the creation.
pub proof fn lemma_both_flags_set(
    reason: Seq<char>,
    linux: LinuxOptionsView,
    handle: isize,
)
    ensures
        ({
            let events = seq![EventView::Handle(handle), EventView::Done, EventView::Done];
            let trace = run(Platform::Windows, reason, linux, events);
            &&& trace.step == StepView::<AcquisitionView, ScreenWakeLockView>::Held(
                ScreenWakeLockView {
                    inner: InnerView::Windows(
                        crate::windows::InnerView::holding(handle, wide(reason)),
                    ),
                },
            )
            &&& trace.actions == seq![
                request_creation(reason),
                ActionView::SetRequest { handle, request: PowerRequest::SystemRequired },
                ActionView::SetRequest { handle, request: PowerRequest::DisplayRequired },
            ]
            &&& trace.ledger.sound
            &&& trace.ledger.open == set![Resource::Request(handle)]
        }),
{
    let e0 = Seq::<EventView>::empty();
    let e1 = e0.push(EventView::Handle(handle));
    let e2 = e1.push(EventView::Done);
    let e3 = e2.push(EventView::Done);
    lemma_run_push(Platform::Windows, reason, linux, e0, EventView::Handle(handle));
    lemma_run_push(Platform::Windows, reason, linux, e1, EventView::Done);
    lemma_run_push(Platform::Windows, reason, linux, e2, EventView::Done);
    assert(e3 =~= seq![EventView::Handle(handle), EventView::Done, EventView::Done]);
}

/// When the second kind cannot be set, the request is closed, once, before
/// the acquisition fails with the reason why: the request is neither left
/// open nor closed twice, whatever the driver reports for the closing.
pub proof fn lemma_second_flag_failure_closes_once(
    reason: Seq<char>,
    linux: LinuxOptionsView,
    handle: isize,
    failure: EventView,
    closing: EventView,
)
    requires
        !(failure is Done),
    ensures
        ({
            let events = seq![EventView::Handle(handle), EventView::Done, failure, closing];
            let trace = run(Platform::Windows, reason, linux, events);
            &&& trace.step == StepView::<AcquisitionView, ScreenWakeLockView>::Failed(
                ErrorView::Os(failure.failure_text()),
            )
            &&& trace.actions == seq![
                request_creation(reason),
                ActionView::SetRequest { handle, request: PowerRequest::SystemRequired },
                ActionView::SetRequest { handle, request: PowerRequest::DisplayRequired },
                ActionView::CloseHandle { handle },
            ]
            &&& trace.ledger.sound
            &&& trace.ledger.open == Set::<Resource>::empty()
        }),
{
    let e0 = Seq::<EventView>::empty();
    let e1 = e0.push(EventView::Handle(handle));
    let e2 = e1.push(EventView::Done);
    let e3 = e2.push(failure);
    let e4 = e3.push(closing);
    lemma_run_push(Platform::Windows, reason, linux, e0, EventView::Handle(handle));
    lemma_run_push(Platform::Windows, reason, linux, e1, EventView::Done);
    lemma_run_push(Platform::Windows, reason, linux, e2, failure);
    lemma_run_push(Platform::Windows, reason, linux, e3, closing);
    assert(e4 =~= seq![EventView::Handle(handle), EventView::Done, failure, closing]);
}

/// When the first kind cannot be set, the second is not tried: the request
/// is closed, once, and the acquisition fails with the reason why.
pub proof fn lemma_first_flag_failure_closes_once(
    reason: Seq<char>,
    linux: LinuxOptionsView,
    handle: isize,
    failure: EventView,
    closing: EventView,
)
    requires
        !(failure is Done),
    ensures
        ({
            let events = seq![EventView::Handle(handle), failure, closing];
            let trace = run(Platform::Windows, reason, linux, events);
            &&& trace.step == StepView::<AcquisitionView, ScreenWakeLockView>::Failed(
                ErrorView::Os(failure.failure_text()),
            )
            &&& trace.actions == seq![
                request_creation(reason),
                ActionView::SetRequest { handle, request: PowerRequest::SystemRequired },
                ActionView::CloseHandle { handle },
            ]
            &&& trace.ledger.sound
            &&& trace.ledger.open == Set::<Resource>::empty()
        }),
{
    let e0 = Seq::<EventView>::empty();
    let e1 = e0.push(EventView::Handle(handle));
    let e2 = e1.push(failure);
    let e3 = e2.push(closing);
    lemma_run_push(Platform::Windows, reason, linux, e0, EventView::Handle(handle));
    lemma_run_push(Platform::Windows, reason, linux, e1, failure);
    lemma_run_push(Platform::Windows, reason, linux, e2, closing);
    assert(e3 =~= seq![EventView::Handle(handle), failure, closing]);
}

/// When the request cannot be created, nothing else is asked for and the
/// acquisition fails with the reason why.
pub proof fn lemma_creation_failure(
    reason: Seq<char>,
    linux: LinuxOptionsView,
    failure: EventView,
)
    requires
        !(failure is Handle),
    ensures
        ({
            let trace = run(Platform::Windows, reason, linux, seq![failure]);
            &&& trace.step == StepView::<AcquisitionView, ScreenWakeLockView>::Failed(
                ErrorView::Os(failure.failure_text()),
            )
            &&& trace.actions == seq![request_creation(reason)]
            &&& trace.ledger.sound
            &&& trace.ledger.open == Set::<Resource>::empty()
        }),
{
    let e0 = Seq::<EventView>::empty();
    lemma_run_push(Platform::Windows, reason, linux, e0, failure);
}

/// Support is a weak promise. On the D-Bus platform the backend counts as
/// supported as soon as one bus can be connected to, and yet an
/// acquisition there can fail: the session bus connects, each of its
/// mechanisms refuses, and the system bus cannot be connected to.
pub proof fn lemma_support_promises_no_mechanism(reason: Seq<char>, linux: LinuxOptionsView)
    ensures
        Platform::Linux.supported(true, false),
        exists|events: Seq<EventView>|
            session_connected(events) && (#[trigger] run(
                Platform::Linux,
                reason,
                linux,
                events,
            )).step == StepView::<AcquisitionView, ScreenWakeLockView>::Failed(
                crate::linux::unsupported(),
            ),
{
    let refused = EventView::Failed(Seq::empty());
    let e0 = Seq::<EventView>::empty();
    let e1 = e0.push(EventView::Connected);
    let e2 = e1.push(refused);
    let e3 = e2.push(refused);
    let e4 = e3.push(refused);
    let e5 = e4.push(refused);
    let e6 = e5.push(EventView::Done);
    let e7 = e6.push(refused);
    lemma_run_push(Platform::Linux, reason, linux, e0, EventView::Connected);
    lemma_run_push(Platform::Linux, reason, linux, e1, refused);
    lemma_run_push(Platform::Linux, reason, linux, e2, refused);
    lemma_run_push(Platform::Linux, reason, linux, e3, refused);
    lemma_run_push(Platform::Linux, reason, linux, e4, refused);
    lemma_run_push(Platform::Linux, reason, linux, e5, EventView::Done);
    lemma_run_push(Platform::Linux, reason, linux, e6, refused);
}

/// The most reports that an acquisition can still take before it ends.
pub open spec fn reports_left(step: StepView<AcquisitionView, ScreenWakeLockView>) -> nat {
    match step {
        StepView::Pending(acquisition, _) => match acquisition {
            AcquisitionView::Linux(acquisition) => match acquisition.stage {
                Stage::OpeningSession => 9,
                Stage::Trying(mechanism) => if mechanism == Mechanism::Logind {
                    2
                } else {
                    (8 - mechanism.rank()) as nat
                },
                Stage::ClosingSession => 4,
                Stage::OpeningSystem => 3,
                Stage::ClosingSystem => 1,
            },
            AcquisitionView::MacOs(_) => 1,
            AcquisitionView::Windows(acquisition) => match acquisition.stage {
                crate::windows::Stage::Creating => 4,
                crate::windows::Stage::Setting(_, PowerRequest::SystemRequired) => 3,
                crate::windows::Stage::Setting(_, PowerRequest::DisplayRequired) => 2,
                crate::windows::Stage::Closing(_) => 1,
            },
        },
        _ => 0,
    }
}

/// Every report brings a pending acquisition nearer to its end, whatever
/// it says: there is no way back to an earlier mechanism and no second
/// try.
pub proof fn lemma_report_brings_nearer(
    acquisition: AcquisitionView,
    action: ActionView,
    event: EventView,
)
    ensures
        reports_left(acquisition.advance(event)) < reports_left(
            StepView::Pending(acquisition, action),
        ),
{
}

/// Every acquisition ends: after nine reports at the latest the step holds
/// the guard or an error.
pub proof fn lemma_acquisition_ends(
    platform: Platform,
    reason: Seq<char>,
    linux: LinuxOptionsView,
    events: Seq<EventView>,
)
    ensures
        events.len() + reports_left(run(platform, reason, linux, events).step) <= 9
            || !(run(platform, reason, linux, events).step is Pending),
        events.len() >= 9 ==> !(run(platform, reason, linux, events).step is Pending),
    decreases events.len(),
{
    if events.len() > 0 {
        lemma_acquisition_ends(platform, reason, linux, events.drop_last());
        let before = run(platform, reason, linux, events.drop_last());
        match before.step {
            StepView::Pending(acquisition, action) => {
                lemma_report_brings_nearer(acquisition, action, events.last());
            },
            _ => {},
        }
    }
}

} // verus!
