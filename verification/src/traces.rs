//! What holds of every resolution, whatever the caller observes.
//!
//! A resolution is the sequence of events that a [`Resolver`] is given,
//! starting in [`Phase::Probing`]. The theorems here speak of [`next`], the
//! step that [`Resolver::advance`] takes.
//!
//! [`Resolver`]: crate::resolver::Resolver
//! [`Resolver::advance`]: crate::resolver::Resolver::advance

use vstd::prelude::*;
use crate::resolver::{next, request, Action, Event, Failure, Phase};

verus! {

/// The phase reached from `phase` after `events`, in order.
pub open spec fn run(phase: Phase, events: Seq<Event>) -> Phase
    decreases events.len(),
{
    if events.len() == 0 {
        phase
    } else {
        run(next(phase, events.first()), events.drop_first())
    }
}

/// How often the package-sync tool is asked for while `events` arrive,
/// starting from `phase`.
pub open spec fn sync_requests(phase: Phase, events: Seq<Event>) -> nat
    decreases events.len(),
{
    if events.len() == 0 {
        0
    } else {
        let then = next(phase, events.first());
        let here: nat = if request(then) == Action::RunSync {
            1
        } else {
            0
        };
        here + sync_requests(then, events.drop_first())
    }
}

/// Whether `event` reports that the root or the executable is missing.
pub open spec fn reports_absence(event: Event) -> bool {
    event matches Event::Probed { root_exists, executable_exists } && !(root_exists
        && executable_exists)
}

/// The phase after `first` and then `second` is the phase that `second`
/// leads to from where `first` ended; the requests for the package-sync tool
/// add up.
pub proof fn lemma_run_in_two_parts(phase: Phase, first: Seq<Event>, second: Seq<Event>)
    ensures
        run(phase, first + second) == run(run(phase, first), second),
        sync_requests(phase, first + second) == sync_requests(phase, first) + sync_requests(
            run(phase, first),
            second,
        ),
    decreases first.len(),
{
    if first.len() == 0 {
        assert(first + second =~= second);
    } else {
        assert((first + second).drop_first() =~= first.drop_first() + second);
        lemma_run_in_two_parts(next(phase, first.first()), first.drop_first(), second);
    }
}

/// Once the first look at the disk is over, the package-sync tool is never
/// asked for again.
pub proof fn lemma_no_sync_after_probing(phase: Phase, events: Seq<Event>)
    requires
        phase != Phase::Probing,
    ensures
        sync_requests(phase, events) == 0,
    decreases events.len(),
{
    if events.len() > 0 {
        lemma_no_sync_after_probing(next(phase, events.first()), events.drop_first());
    }
}

/// A resolution that has ended stays as it is.
pub proof fn lemma_ended_stays(phase: Phase, events: Seq<Event>)
    requires
        phase is Resolved || phase is Failed,
    ensures
        run(phase, events) == phase,
    decreases events.len(),
{
    if events.len() > 0 {
        lemma_ended_stays(phase, events.drop_first());
    }
}

/// The package-sync tool is asked for if and only if the first look at the
/// disk finds the root or the executable missing, and then once.
pub proof fn lemma_sync_iff_initially_absent(events: Seq<Event>)
    ensures
        sync_requests(Phase::Probing, events) == (if events.len() > 0 && reports_absence(
            events.first(),
        ) {
            1nat
        } else {
            0nat
        }),
{
    if events.len() > 0 {
        lemma_no_sync_after_probing(next(Phase::Probing, events.first()), events.drop_first());
    }
}

/// Where the root and the executable exist and the package directory does
/// too, the environment is resolved and the package-sync tool is not asked
/// for.
pub proof fn lemma_present_environment_resolves(events: Seq<Event>)
    requires
        events.len() >= 3,
        events[0] == (Event::Probed { root_exists: true, executable_exists: true }),
        events[1] == (Event::ExecutableChecked { exists: true }),
        events[2] == (Event::PackagesChecked { exists: true }),
    ensures
        run(Phase::Probing, events) == Phase::Resolved,
        sync_requests(Phase::Probing, events) == 0,
{
    let head = events.take(3);
    let tail = events.skip(3);
    assert(events =~= head + tail);
    reveal_with_fuel(run, 4);
    lemma_run_in_two_parts(Phase::Probing, head, tail);
    lemma_ended_stays(Phase::Resolved, tail);
    lemma_sync_iff_initially_absent(events);
}

/// Where the first look at the disk finds the root or the executable
/// missing, the package-sync tool is asked for at once, and exactly once in
/// the whole resolution. When it has run, the executable is looked for
/// again; if it is still missing, the resolution fails and says so. If the
/// tool could not be started, the resolution fails at once.
pub proof fn lemma_absent_environment_syncs_once(events: Seq<Event>)
    requires
        events.len() >= 1,
        reports_absence(events[0]),
    ensures
        request(next(Phase::Probing, events[0])) == Action::RunSync,
        sync_requests(Phase::Probing, events) == 1,
        request(next(Phase::Syncing, Event::SyncReturned { started: true }))
            == Action::CheckExecutable,
        events.len() >= 3 && events[1] == (Event::SyncReturned { started: true }) && events[2] == (
        Event::ExecutableChecked { exists: false }) ==> run(Phase::Probing, events) == Phase::Failed(
            Failure::ExecutableMissing,
        ) && request(run(Phase::Probing, events)) == Action::Abort(Failure::ExecutableMissing),
        events.len() >= 2 && events[1] == (Event::SyncReturned { started: false }) ==> run(
            Phase::Probing,
            events,
        ) == Phase::Failed(Failure::SyncNotStarted),
{
    lemma_sync_iff_initially_absent(events);
    if events.len() >= 2 && events[1] == (Event::SyncReturned { started: false }) {
        let head = events.take(2);
        let tail = events.skip(2);
        assert(events =~= head + tail);
        reveal_with_fuel(run, 3);
        lemma_run_in_two_parts(Phase::Probing, head, tail);
        lemma_ended_stays(Phase::Failed(Failure::SyncNotStarted), tail);
    }
    if events.len() >= 3 && events[1] == (Event::SyncReturned { started: true }) && events[2] == (
    Event::ExecutableChecked { exists: false }) {
        let head = events.take(3);
        let tail = events.skip(3);
        assert(events =~= head + tail);
        reveal_with_fuel(run, 4);
        lemma_run_in_two_parts(Phase::Probing, head, tail);
        lemma_ended_stays(Phase::Failed(Failure::ExecutableMissing), tail);
    }
}

/// A missing package directory ends the resolution in failure, whatever
/// follows, and the package-sync tool is not asked for on its account.
pub proof fn lemma_missing_packages_is_fatal(before: Seq<Event>, after: Seq<Event>)
    requires
        run(Phase::Probing, before) == Phase::CheckingPackages,
    ensures
        ({
            let events = before + seq![Event::PackagesChecked { exists: false }] + after;
            &&& run(Phase::Probing, events) == Phase::Failed(Failure::PackagesMissing)
            &&& request(run(Phase::Probing, events)) == Action::Abort(Failure::PackagesMissing)
            &&& sync_requests(Phase::Probing, events) == sync_requests(Phase::Probing, before)
        }),
{
    let report = seq![Event::PackagesChecked { exists: false }];
    let failed = Phase::Failed(Failure::PackagesMissing);
    reveal_with_fuel(run, 2);
    lemma_run_in_two_parts(Phase::Probing, before, report);
    lemma_run_in_two_parts(Phase::Probing, before + report, after);
    lemma_ended_stays(failed, after);
    lemma_no_sync_after_probing(Phase::CheckingPackages, report);
    lemma_no_sync_after_probing(failed, after);
}

/// An environment is resolved only after the executable and the package
/// directory were each seen on disk.
pub proof fn lemma_resolved_was_confirmed(events: Seq<Event>)
    requires
        run(Phase::Probing, events) == Phase::Resolved,
    ensures
        events.contains(Event::ExecutableChecked { exists: true }),
        events.contains(Event::PackagesChecked { exists: true }),
{
    lemma_resolved_from(Phase::Probing, events);
}

proof fn lemma_resolved_from(phase: Phase, events: Seq<Event>)
    requires
        run(phase, events) == Phase::Resolved,
        phase != Phase::Resolved,
    ensures
        events.contains(Event::PackagesChecked { exists: true }),
        phase != Phase::CheckingPackages ==> events.contains(
            Event::ExecutableChecked { exists: true },
        ),
    decreases events.len(),
{
    if events.len() > 0 {
        let rest = events.drop_first();
        let then = next(phase, events.first());
        if then == Phase::Resolved {
            assert(events[0] == (Event::PackagesChecked { exists: true }));
        } else {
            if then is Failed {
                lemma_ended_stays(then, rest);
            }
            lemma_resolved_from(then, rest);
            assert forall|e: Event| rest.contains(e) implies events.contains(e) by {
                let i = choose|i: int| 0 <= i < rest.len() && rest[i] == e;
                assert(events[i + 1] == e);
            }
            if phase == Phase::CheckingExecutable {
                assert(events[0] == (Event::ExecutableChecked { exists: true }));
            }
        }
    }
}

} // verus!
