//! What an acquisition comes to in a world that answers every action in
//! one way.
//!
//! A world says, for each action, what a driver would report after it had
//! performed the action there. Against a world the outcome of an
//! acquisition is fixed, and can be said without a word about steps or
//! stages: on the D-Bus platform the first willing mechanism in the order
//! of preference wins.

use crate::conversation::{
    extend, lemma_acquisition_ends, lemma_first_grant_wins, lemma_nothing_leaks, lemma_run_push,
    request_creation, run, session_connected, Trace,
};
use crate::ledger::Resource;
use crate::linux::{agenda, order, unsupported, BackendView, Mechanism, Stage};
use crate::protocol::{ActionView, Bus, EventView, PowerRequest, StepView};
use crate::text::wide;
use crate::{
    lift_macos, AcquisitionView, ErrorView, InnerView, LinuxOptionsView, Platform,
    ScreenWakeLockView,
};
use vstd::prelude::*;

verus! {

/// What the driver reports in the first `rounds` rounds of an acquisition
/// in `world`: in each round it performs the pending action, if there is
/// one, and reports the world's answer to it.
pub open spec fn reports(
    platform: Platform,
    reason: Seq<char>,
    linux: LinuxOptionsView,
    world: spec_fn(ActionView) -> EventView,
    rounds: nat,
) -> Seq<EventView>
    decreases rounds,
{
    if rounds == 0 {
        Seq::empty()
    } else {
        let before = reports(platform, reason, linux, world, (rounds - 1) as nat);
        match run(platform, reason, linux, before).step {
            StepView::Pending(_, action) => before.push(world(action)),
            _ => before,
        }
    }
}

/// The conversation that an acquisition in `world` comes to. Nine rounds
/// see every acquisition to its end.
pub open spec fn outcome(
    platform: Platform,
    reason: Seq<char>,
    linux: LinuxOptionsView,
    world: spec_fn(ActionView) -> EventView,
) -> Trace {
    run(platform, reason, linux, reports(platform, reason, linux, world, 9))
}

/// Whether a mechanism would grant the inhibition in `world`: its bus can
/// be connected to, and its inhibit call is answered with a token of the
/// kind that the mechanism hands out.
pub open spec fn willing(
    world: spec_fn(ActionView) -> EventView,
    mechanism: Mechanism,
    application_id: Seq<char>,
    reason: Seq<char>,
) -> bool {
    &&& world(ActionView::Connect(mechanism.spec_bus())) is Connected
    &&& mechanism.granted(
        world(ActionView::Call(mechanism.inhibit_call(application_id, reason))),
    ) is Some
}

/// The inhibition that a willing mechanism grants in `world`.
pub open spec fn grant(
    world: spec_fn(ActionView) -> EventView,
    mechanism: Mechanism,
    application_id: Seq<char>,
    reason: Seq<char>,
) -> BackendView {
    mechanism.granted(
        world(ActionView::Call(mechanism.inhibit_call(application_id, reason))),
    )->0
}

/// The first of the mechanisms from place `from` on, in the order of
/// preference, that is willing in `world`.
pub open spec fn first_willing(
    world: spec_fn(ActionView) -> EventView,
    application_id: Seq<char>,
    reason: Seq<char>,
    from: nat,
) -> Option<Mechanism>
    decreases 5 - from,
{
    if from >= 5 {
        None
    } else if willing(world, order()[from as int], application_id, reason) {
        Some(order()[from as int])
    } else {
        first_willing(world, application_id, reason, from + 1)
    }
}

/// The guard that holds `backend`.
pub open spec fn holding(backend: BackendView) -> ScreenWakeLockView {
    ScreenWakeLockView { inner: InnerView::Linux(crate::linux::InnerView::holding(backend)) }
}

/// What one round does: it reports the world's answer to the pending
/// action, and changes nothing once the acquisition has ended.
spec fn round_taken(
    platform: Platform,
    reason: Seq<char>,
    linux: LinuxOptionsView,
    world: spec_fn(ActionView) -> EventView,
    rounds: nat,
) -> bool {
    let before = reports(platform, reason, linux, world, rounds);
    let after = reports(platform, reason, linux, world, rounds + 1);
    match run(platform, reason, linux, before).step {
        StepView::Pending(_, action) => {
            &&& after == before.push(world(action))
            &&& run(platform, reason, linux, after) == extend(
                run(platform, reason, linux, before),
                world(action),
            )
        },
        _ => after == before,
    }
}

proof fn lemma_round(
    platform: Platform,
    reason: Seq<char>,
    linux: LinuxOptionsView,
    world: spec_fn(ActionView) -> EventView,
    rounds: nat,
)
    ensures
        round_taken(platform, reason, linux, world, rounds),
{
    let before = reports(platform, reason, linux, world, rounds);
    match run(platform, reason, linux, before).step {
        StepView::Pending(_, action) => {
            lemma_run_push(platform, reason, linux, before, world(action));
        },
        _ => {},
    }
}

proof fn lemma_nine_rounds(
    platform: Platform,
    reason: Seq<char>,
    linux: LinuxOptionsView,
    world: spec_fn(ActionView) -> EventView,
)
    ensures
        round_taken(platform, reason, linux, world, 0),
        round_taken(platform, reason, linux, world, 1),
        round_taken(platform, reason, linux, world, 2),
        round_taken(platform, reason, linux, world, 3),
        round_taken(platform, reason, linux, world, 4),
        round_taken(platform, reason, linux, world, 5),
        round_taken(platform, reason, linux, world, 6),
        round_taken(platform, reason, linux, world, 7),
        round_taken(platform, reason, linux, world, 8),
{
    lemma_round(platform, reason, linux, world, 0);
    lemma_round(platform, reason, linux, world, 1);
    lemma_round(platform, reason, linux, world, 2);
    lemma_round(platform, reason, linux, world, 3);
    lemma_round(platform, reason, linux, world, 4);
    lemma_round(platform, reason, linux, world, 5);
    lemma_round(platform, reason, linux, world, 6);
    lemma_round(platform, reason, linux, world, 7);
    lemma_round(platform, reason, linux, world, 8);
}

/// As long as the acquisition is pending, every round adds a report.
proof fn lemma_rounds_count(
    platform: Platform,
    reason: Seq<char>,
    linux: LinuxOptionsView,
    world: spec_fn(ActionView) -> EventView,
    rounds: nat,
)
    ensures
        reports(platform, reason, linux, world, rounds).len() == rounds || !(run(
            platform,
            reason,
            linux,
            reports(platform, reason, linux, world, rounds),
        ).step is Pending),
    decreases rounds,
{
    if rounds > 0 {
        lemma_rounds_count(platform, reason, linux, world, (rounds - 1) as nat);
    }
}

/// The outcome is final on every platform and in every world: it holds
/// the guard or an error, never a pending action.
pub proof fn lemma_outcome_is_final(
    platform: Platform,
    reason: Seq<char>,
    linux: LinuxOptionsView,
    world: spec_fn(ActionView) -> EventView,
)
    ensures
        !(outcome(platform, reason, linux, world).step is Pending),
{
    lemma_rounds_count(platform, reason, linux, world, 9);
    lemma_acquisition_ends(
        platform,
        reason,
        linux,
        reports(platform, reason, linux, world, 9),
    );
}

/// On the D-Bus platform the first willing mechanism wins: the guard
/// holds what that mechanism grants, and the acquisition fails as
/// unsupported exactly when no mechanism is willing.
pub proof fn lemma_first_willing_wins(
    reason: Seq<char>,
    linux: LinuxOptionsView,
    world: spec_fn(ActionView) -> EventView,
)
    ensures
        outcome(Platform::Linux, reason, linux, world).step == (match first_willing(
            world,
            linux.application_id_or_default(),
            linux.reason_or(reason),
            0,
        ) {
            Some(mechanism) => StepView::<AcquisitionView, ScreenWakeLockView>::Held(
                holding(
                    grant(
                        world,
                        mechanism,
                        linux.application_id_or_default(),
                        linux.reason_or(reason),
                    ),
                ),
            ),
            None => StepView::Failed(unsupported()),
        }),
{
    reveal_with_fuel(first_willing, 6);
    lemma_nine_rounds(Platform::Linux, reason, linux, world);
}

/// When the mechanisms before place `place` are all unwilling and the one
/// at `place` is willing, the guard records that mechanism and no other:
/// it holds what the mechanism grants, a release undoes that very grant,
/// the driver was asked for nothing beyond the agenda up to the
/// mechanism's inhibit call, and what stays open is the mechanism's own.
pub proof fn lemma_refusals_before_grant(
    reason: Seq<char>,
    linux: LinuxOptionsView,
    world: spec_fn(ActionView) -> EventView,
    place: nat,
)
    requires
        place < 5,
        forall|earlier: int|
            0 <= earlier < place ==> !willing(
                world,
                #[trigger] order()[earlier],
                linux.application_id_or_default(),
                linux.reason_or(reason),
            ),
        willing(
            world,
            order()[place as int],
            linux.application_id_or_default(),
            linux.reason_or(reason),
        ),
    ensures
        ({
            let trace = outcome(Platform::Linux, reason, linux, world);
            let application_id = linux.application_id_or_default();
            let reason = linux.reason_or(reason);
            let mechanism = order()[place as int];
            let backend = grant(world, mechanism, application_id, reason);
            &&& trace.step == StepView::<AcquisitionView, ScreenWakeLockView>::Held(
                holding(backend),
            )
            &&& backend.mechanism() == mechanism
            &&& holding(backend).release_plan() == backend.undo()
            &&& trace.actions == agenda(
                world(ActionView::Connect(Bus::Session)) is Connected,
                Stage::Trying(mechanism),
                application_id,
                reason,
            )
            &&& trace.ledger.sound
            &&& trace.ledger.open == backend.resources()
        }),
{
    reveal_with_fuel(first_willing, 6);
    lemma_first_willing_wins(reason, linux, world);
    let events = reports(Platform::Linux, reason, linux, world, 9);
    lemma_first_grant_wins(reason, linux, events);
    lemma_nothing_leaks(Platform::Linux, reason, linux, events);
    lemma_round(Platform::Linux, reason, linux, world, 0);
    assert(session_connected(events) == (world(ActionView::Connect(Bus::Session))
        is Connected)) by {
        lemma_reports_grow(Platform::Linux, reason, linux, world, 1, 9);
    }
}

/// The reports of more rounds begin with the reports of fewer.
proof fn lemma_reports_grow(
    platform: Platform,
    reason: Seq<char>,
    linux: LinuxOptionsView,
    world: spec_fn(ActionView) -> EventView,
    fewer: nat,
    more: nat,
)
    requires
        fewer <= more,
    ensures
        reports(platform, reason, linux, world, fewer).is_prefix_of(
            reports(platform, reason, linux, world, more),
        ),
    decreases more,
{
    if fewer < more {
        lemma_reports_grow(platform, reason, linux, world, fewer, (more - 1) as nat);
    }
}

/// On the power-request platform the guard is held exactly when the
/// request is created and both kinds are set on it. Otherwise the first
/// thing that goes wrong is the error.
pub proof fn lemma_request_outcome(
    reason: Seq<char>,
    linux: LinuxOptionsView,
    world: spec_fn(ActionView) -> EventView,
)
    ensures
        outcome(Platform::Windows, reason, linux, world).step == (match world(
            request_creation(reason),
        ) {
            EventView::Handle(handle) => {
                let system = world(
                    ActionView::SetRequest { handle, request: PowerRequest::SystemRequired },
                );
                let display = world(
                    ActionView::SetRequest { handle, request: PowerRequest::DisplayRequired },
                );
                if !(system is Done) {
                    StepView::<AcquisitionView, ScreenWakeLockView>::Failed(
                        ErrorView::Os(system.failure_text()),
                    )
                } else if !(display is Done) {
                    StepView::Failed(ErrorView::Os(display.failure_text()))
                } else {
                    StepView::Held(
                        ScreenWakeLockView {
                            inner: InnerView::Windows(
                                crate::windows::InnerView::holding(handle, wide(reason)),
                            ),
                        },
                    )
                }
            },
            other => StepView::Failed(ErrorView::Os(other.failure_text())),
        }),
        outcome(Platform::Windows, reason, linux, world).ledger.sound,
        outcome(Platform::Windows, reason, linux, world).step is Failed ==> outcome(
            Platform::Windows,
            reason,
            linux,
            world,
        ).ledger.open == Set::<Resource>::empty(),
{
    lemma_nine_rounds(Platform::Windows, reason, linux, world);
    lemma_nothing_leaks(
        Platform::Windows,
        reason,
        linux,
        reports(Platform::Windows, reason, linux, world, 9),
    );
}

/// On the assertion platform the answer to the one assertion call is the
/// outcome.
pub proof fn lemma_assertion_outcome(
    reason: Seq<char>,
    linux: LinuxOptionsView,
    world: spec_fn(ActionView) -> EventView,
)
    ensures
        outcome(Platform::MacOs, reason, linux, world).step == lift_macos(
            crate::macos::conclude(world(crate::macos::creation(reason))),
        ),
        outcome(Platform::MacOs, reason, linux, world).actions == seq![
            crate::macos::creation(reason),
        ],
{
    lemma_nine_rounds(Platform::MacOs, reason, linux, world);
}

/// When no mechanism is willing, the acquisition fails as unsupported and
/// the driver holds nothing open: every connection that was opened on the
/// way is closed again.
pub proof fn lemma_all_unwilling(
    reason: Seq<char>,
    linux: LinuxOptionsView,
    world: spec_fn(ActionView) -> EventView,
)
    requires
        forall|place: int|
            0 <= place < 5 ==> !willing(
                world,
                #[trigger] order()[place],
                linux.application_id_or_default(),
                linux.reason_or(reason),
            ),
    ensures
        outcome(Platform::Linux, reason, linux, world).step == StepView::<
            AcquisitionView,
            ScreenWakeLockView,
        >::Failed(unsupported()),
        outcome(Platform::Linux, reason, linux, world).ledger.sound,
        outcome(Platform::Linux, reason, linux, world).ledger.open == Set::<Resource>::empty(),
{
    reveal_with_fuel(first_willing, 6);
    lemma_first_willing_wins(reason, linux, world);
    lemma_nothing_leaks(
        Platform::Linux,
        reason,
        linux,
        reports(Platform::Linux, reason, linux, world, 9),
    );
}

/// Support is necessary for an acquisition, though it is not enough: in a
/// world where the D-Bus backend counts as unsupported, because neither
/// bus can be connected to, no acquisition ends with a guard.
pub proof fn lemma_support_is_necessary(
    reason: Seq<char>,
    linux: LinuxOptionsView,
    world: spec_fn(ActionView) -> EventView,
)
    ensures
        outcome(Platform::Linux, reason, linux, world).step is Held ==> Platform::Linux.supported(
            world(ActionView::Connect(Bus::Session)) is Connected,
            world(ActionView::Connect(Bus::System)) is Connected,
        ),
{
    reveal_with_fuel(first_willing, 6);
    lemma_first_willing_wins(reason, linux, world);
}

} // verus!
