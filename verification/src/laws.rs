//! What holds of the coordinator whatever the platform does: the laws of its
//! state machine, proved over the plain-data model of `discovery`.

use crate::discovery::{
    distinct_names, fresh_sessions, has_name, level_under, live_count, nameless, recorded,
    DiscoveryView, Readings,
};
use crate::protocol::EventView;
use crate::session::{FailureReason, SessionView, Stage};
use vstd::prelude::*;

verus! {

/// The peripheral that a callback is about, if it is about one.
pub open spec fn peripheral_of(event: EventView) -> Option<usize> {
    match event {
        EventView::StateUpdated { .. } => None,
        EventView::PeripheralsRetrieved { .. } => None,
        EventView::Connected { peripheral } => Some(peripheral),
        EventView::ConnectFailed { peripheral } => Some(peripheral),
        EventView::ServicesDiscovered { peripheral, .. } => Some(peripheral),
        EventView::CharacteristicsDiscovered { peripheral, .. } => Some(peripheral),
        EventView::ValueUpdated { peripheral, .. } => Some(peripheral),
    }
}

/// Whether a callback ends the pipeline of the peripheral: a failed connect,
/// a discovery that ended in an error or found nothing, or the end of a read.
pub open spec fn is_terminal_callback(event: EventView, peripheral: int) -> bool {
    match event {
        EventView::ConnectFailed { peripheral: p } => p == peripheral,
        EventView::ServicesDiscovered { peripheral: p, error, services } => {
            p == peripheral && (error || services == 0)
        },
        EventView::CharacteristicsDiscovered { peripheral: p, error, characteristics, .. } => {
            p == peripheral && (error || characteristics == 0)
        },
        EventView::ValueUpdated { peripheral: p, .. } => p == peripheral,
        _ => false,
    }
}

/// Whether one of the events ends the pipeline of the peripheral.
pub open spec fn has_terminal_callback(events: Seq<EventView>, peripheral: int) -> bool {
    exists|i: int| 0 <= i < events.len() && is_terminal_callback(#[trigger] events[i], peripheral)
}

/// How many of the events end the pipeline of the peripheral.
pub open spec fn terminal_callbacks(events: Seq<EventView>, peripheral: int) -> nat
    decreases events.len(),
{
    if events.len() == 0 {
        0
    } else {
        terminal_callbacks(events.drop_last(), peripheral) + if is_terminal_callback(
            events.last(),
            peripheral,
        ) {
            1nat
        } else {
            0nat
        }
    }
}

/// Whether `earlier` is how `later` begins.
pub open spec fn is_prefix(earlier: Readings, later: Readings) -> bool {
    earlier.len() <= later.len() && later.take(earlier.len() as int) == earlier
}

proof fn lemma_live_count_bound(sessions: Seq<SessionView>)
    ensures
        live_count(sessions) <= sessions.len(),
    decreases sessions.len(),
{
    if sessions.len() > 0 {
        lemma_live_count_bound(sessions.drop_last());
    }
}

proof fn lemma_live_count_update(sessions: Seq<SessionView>, place: int, session: SessionView)
    requires
        0 <= place < sessions.len(),
    ensures
        live_count(sessions.update(place, session)) + (if sessions[place].is_live() {
            1nat
        } else {
            0nat
        }) == live_count(sessions) + (if session.is_live() {
            1nat
        } else {
            0nat
        }),
    decreases sessions.len(),
{
    let updated = sessions.update(place, session);
    if place == sessions.len() - 1 {
        assert(updated.drop_last() =~= sessions.drop_last());
    } else {
        assert(updated.drop_last() =~= sessions.drop_last().update(place, session));
        lemma_live_count_update(sessions.drop_last(), place, session);
    }
}

proof fn lemma_live_count_fresh(names: Seq<Option<Seq<char>>>)
    ensures
        live_count(fresh_sessions(names)) == names.len(),
    decreases names.len(),
{
    if names.len() > 0 {
        assert(fresh_sessions(names).drop_last() =~= fresh_sessions(names.drop_last()));
        lemma_live_count_fresh(names.drop_last());
    }
}

proof fn lemma_live_count_none(sessions: Seq<SessionView>)
    requires
        forall|i: int| 0 <= i < sessions.len() ==> !(#[trigger] sessions[i]).is_live(),
    ensures
        live_count(sessions) == 0,
    decreases sessions.len(),
{
    if sessions.len() > 0 {
        lemma_live_count_none(sessions.drop_last());
    }
}

proof fn lemma_recorded_distinct(readings: Readings, name: Seq<char>, level: u8)
    requires
        distinct_names(readings),
    ensures
        distinct_names(recorded(readings, name, level)),
{
}

proof fn lemma_with_stage_consistent(state: DiscoveryView, peripheral: int, stage: Stage)
    requires
        state.consistent(),
        state.is_live(peripheral),
        !stage.spec_is_terminal(),
    ensures
        state.with_stage(peripheral, stage).consistent(),
{
    lemma_live_count_update(
        state.sessions,
        peripheral,
        SessionView { stage, ..state.sessions[peripheral] },
    );
}

proof fn lemma_observed_name_consistent(
    state: DiscoveryView,
    peripheral: int,
    name: Option<Seq<char>>,
)
    requires
        state.consistent(),
        state.is_live(peripheral),
    ensures
        state.with_observed_name(peripheral, name).consistent(),
        state.with_observed_name(peripheral, name).is_live(peripheral),
{
    if name is Some {
        lemma_live_count_update(
            state.sessions,
            peripheral,
            SessionView { name, ..state.sessions[peripheral] },
        );
    }
}

proof fn lemma_failed_consistent(state: DiscoveryView, peripheral: int, reason: FailureReason)
    requires
        state.consistent(),
        state.is_live(peripheral),
    ensures
        state.failed(peripheral, reason).consistent(),
{
    lemma_live_count_update(
        state.sessions,
        peripheral,
        SessionView { stage: Stage::Failed(reason), ..state.sessions[peripheral] },
    );
}

proof fn lemma_completed_consistent(state: DiscoveryView, peripheral: int, level: u8)
    requires
        state.consistent(),
        state.is_live(peripheral),
    ensures
        state.completed(peripheral, level).consistent(),
{
    lemma_live_count_update(
        state.sessions,
        peripheral,
        SessionView { stage: Stage::Done, ..state.sessions[peripheral] },
    );
    lemma_recorded_distinct(state.results, state.sessions[peripheral].result_name(), level);
}

/// In a consistent state no more peripherals are waited for than there are
/// sessions.
pub proof fn law_pending_is_bounded(state: DiscoveryView)
    requires
        state.consistent(),
    ensures
        state.pending <= state.sessions.len(),
{
    lemma_live_count_bound(state.sessions);
}

/// A coordinator starts in a consistent state.
pub proof fn law_initial_is_consistent()
    ensures
        DiscoveryView::initial().consistent(),
{
}

/// Registering peripherals, counting one less as waited for, and taking the
/// readings out each keep a consistent state consistent.
pub proof fn law_operations_keep_consistency(state: DiscoveryView, count: nat)
    requires
        state.consistent(),
    ensures
        state.registered(count).consistent(),
        state.decremented().consistent(),
        state.without_results().consistent(),
{
    lemma_live_count_fresh(nameless(count));
}

/// No callback takes a consistent state to one that is not.
pub proof fn law_step_keeps_consistency(state: DiscoveryView, event: EventView)
    requires
        state.consistent(),
    ensures
        state.step(event).consistent(),
{
    match event {
        EventView::StateUpdated { .. } => {},
        EventView::PeripheralsRetrieved { names } => {
            lemma_live_count_fresh(names);
        },
        EventView::Connected { peripheral } => {
            if state.is_live(peripheral as int) {
                lemma_with_stage_consistent(
                    state,
                    peripheral as int,
                    state.sessions[peripheral as int].stage.spec_advanced_to(
                        Stage::DiscoveringServices,
                    ),
                );
            }
        },
        EventView::ConnectFailed { peripheral } => {
            if state.is_live(peripheral as int) {
                lemma_failed_consistent(state, peripheral as int, FailureReason::ConnectFailed);
            }
        },
        EventView::ServicesDiscovered { peripheral, error, services } => {
            if state.is_live(peripheral as int) {
                lemma_failed_consistent(
                    state,
                    peripheral as int,
                    FailureReason::ServiceDiscoveryError,
                );
                lemma_failed_consistent(state, peripheral as int, FailureReason::NoServices);
                lemma_with_stage_consistent(
                    state,
                    peripheral as int,
                    state.sessions[peripheral as int].stage.spec_advanced_to(
                        Stage::DiscoveringCharacteristics,
                    ),
                );
            }
        },
        EventView::CharacteristicsDiscovered { peripheral, error, characteristics, .. } => {
            if state.is_live(peripheral as int) {
                lemma_failed_consistent(
                    state,
                    peripheral as int,
                    FailureReason::CharacteristicDiscoveryError,
                );
                lemma_failed_consistent(state, peripheral as int, FailureReason::NoCharacteristics);
                lemma_with_stage_consistent(
                    state,
                    peripheral as int,
                    state.sessions[peripheral as int].stage.spec_advanced_to(Stage::ReadingValue),
                );
            }
        },
        EventView::ValueUpdated { peripheral, error, name, value } => {
            if state.is_live(peripheral as int) {
                lemma_observed_name_consistent(state, peripheral as int, name);
                let named = state.with_observed_name(peripheral as int, name);
                lemma_failed_consistent(named, peripheral as int, FailureReason::ReadError);
                lemma_failed_consistent(named, peripheral as int, FailureReason::EmptyValue);
                if value.len() > 0 {
                    lemma_completed_consistent(named, peripheral as int, value[0]);
                }
            }
        },
    }
}

/// No sequence of callbacks takes a consistent state to one that is not.
pub proof fn law_run_keeps_consistency(state: DiscoveryView, events: Seq<EventView>)
    requires
        state.consistent(),
    ensures
        state.run(events).consistent(),
    decreases events.len(),
{
    if events.len() > 0 {
        law_run_keeps_consistency(state, events.drop_last());
        law_step_keeps_consistency(state.run(events.drop_last()), events.last());
    }
}

/// Once the discovery is done, no callback makes it not done. Once
/// peripherals are listed, no callback lists others or makes more of them
/// waited for. The readings only grow: what was kept stays, in its place.
pub proof fn law_step_is_monotonic(state: DiscoveryView, event: EventView)
    ensures
        state.done ==> state.step(event).done,
        state.sessions.len() > 0 ==> state.step(event).sessions.len() == state.sessions.len(),
        state.sessions.len() > 0 ==> state.step(event).pending <= state.pending,
        is_prefix(state.results, state.step(event).results),
{
    assert(state.results.take(state.results.len() as int) =~= state.results);
    match event {
        EventView::ValueUpdated { peripheral, error, name, value } => {
            if state.is_live(peripheral as int) && !error && value.len() > 0 {
                let named = state.with_observed_name(peripheral as int, name);
                let key = named.sessions[peripheral as int].result_name();
                if !has_name(named.results, key) {
                    assert(state.results.push((key, value[0])).take(state.results.len() as int)
                        =~= state.results);
                }
            }
        },
        _ => {},
    }
}

/// A callback for a peripheral whose session is final, or that has no
/// session, changes nothing and asks for nothing.
pub proof fn law_final_sessions_ignore_callbacks(state: DiscoveryView, event: EventView)
    requires
        peripheral_of(event) matches Some(peripheral) && !state.is_live(peripheral as int),
    ensures
        state.step(event) == state,
        state.requests_for(event).len() == 0,
{
}

/// A callback touches no session but that of its own peripheral, and a final
/// session stays as it is whatever comes.
pub proof fn law_final_sessions_stay(state: DiscoveryView, event: EventView, peripheral: int)
    requires
        0 <= peripheral < state.sessions.len(),
        !state.sessions[peripheral].is_live(),
    ensures
        state.step(event).sessions.len() == state.sessions.len(),
        state.step(event).sessions[peripheral] == state.sessions[peripheral],
{
}

/// A terminal callback leaves the session of its peripheral final.
pub proof fn law_terminal_callback_ends_session(
    state: DiscoveryView,
    event: EventView,
    peripheral: int,
)
    requires
        0 <= peripheral < state.sessions.len(),
        is_terminal_callback(event, peripheral),
    ensures
        state.step(event).sessions.len() == state.sessions.len(),
        !state.step(event).sessions[peripheral].is_live(),
{
}

proof fn lemma_run_ends_session(state: DiscoveryView, events: Seq<EventView>, peripheral: int)
    requires
        0 <= peripheral < state.sessions.len(),
        !state.sessions[peripheral].is_live() || has_terminal_callback(events, peripheral),
    ensures
        state.run(events).sessions.len() == state.sessions.len(),
        !state.run(events).sessions[peripheral].is_live(),
    decreases events.len(),
{
    if events.len() > 0 {
        let earlier = events.drop_last();
        let before = state.run(earlier);
        if !state.sessions[peripheral].is_live() || has_terminal_callback(earlier, peripheral) {
            lemma_run_ends_session(state, earlier, peripheral);
            law_final_sessions_stay(before, events.last(), peripheral);
        } else {
            let i = choose|i: int|
                0 <= i < events.len() && is_terminal_callback(#[trigger] events[i], peripheral);
            if i < earlier.len() {
                assert(is_terminal_callback(earlier[i], peripheral));
            }
            lemma_run_keeps_sessions(state, earlier);
            law_terminal_callback_ends_session(before, events.last(), peripheral);
        }
    }
}

proof fn lemma_run_keeps_sessions(state: DiscoveryView, events: Seq<EventView>)
    requires
        state.sessions.len() > 0,
    ensures
        state.run(events).sessions.len() == state.sessions.len(),
    decreases events.len(),
{
    if events.len() > 0 {
        lemma_run_keeps_sessions(state, events.drop_last());
        law_step_is_monotonic(state.run(events.drop_last()), events.last());
    }
}

/// Once every peripheral that has a session has had a terminal callback,
/// one at least, none is waited for and the discovery is done. The order in
/// which the callbacks of different peripherals arrive does not matter, nor
/// what other callbacks come between them.
pub proof fn law_terminal_callbacks_complete_discovery(
    state: DiscoveryView,
    events: Seq<EventView>,
)
    requires
        state.consistent(),
        state.sessions.len() > 0,
        forall|p: int| 0 <= p < state.sessions.len() ==> has_terminal_callback(events, p),
    ensures
        state.run(events).pending == 0,
        state.run(events).done,
{
    let end = state.run(events);
    law_run_keeps_consistency(state, events);
    lemma_run_keeps_sessions(state, events);
    assert forall|p: int| 0 <= p < end.sessions.len() implies !(#[trigger] end.sessions[
        p
    ]).is_live() by {
        lemma_run_ends_session(state, events, p);
    }
    lemma_live_count_none(end.sessions);
}

proof fn lemma_counted_callback_exists(events: Seq<EventView>, peripheral: int)
    requires
        terminal_callbacks(events, peripheral) > 0,
    ensures
        has_terminal_callback(events, peripheral),
    decreases events.len(),
{
    if !is_terminal_callback(events.last(), peripheral) {
        lemma_counted_callback_exists(events.drop_last(), peripheral);
    }
}

/// After exactly one terminal callback for each peripheral that has a
/// session, none is waited for and the discovery is done, however the
/// callbacks of different peripherals are interleaved.
pub proof fn law_one_terminal_callback_each_completes_discovery(
    state: DiscoveryView,
    events: Seq<EventView>,
)
    requires
        state.consistent(),
        state.sessions.len() > 0,
        forall|p: int| 0 <= p < state.sessions.len() ==> terminal_callbacks(events, p) == 1,
    ensures
        state.run(events).pending == 0,
        state.run(events).done,
{
    assert forall|p: int| 0 <= p < state.sessions.len() implies has_terminal_callback(
        events,
        p,
    ) by {
        lemma_counted_callback_exists(events, p);
    }
    law_terminal_callbacks_complete_discovery(state, events);
}

/// The same of a discovery from its start: for whatever peripherals the
/// platform lists, none or many, once each has had a terminal callback none
/// is waited for and the discovery is done.
pub proof fn law_seeded_discovery_completes(
    names: Seq<Option<Seq<char>>>,
    events: Seq<EventView>,
)
    requires
        forall|p: int| 0 <= p < names.len() ==> has_terminal_callback(events, p),
    ensures
        DiscoveryView::initial().after_peripherals(names).run(events).pending == 0,
        DiscoveryView::initial().after_peripherals(names).run(events).done,
{
    let seeded = DiscoveryView::initial().after_peripherals(names);
    law_step_keeps_consistency(
        DiscoveryView::initial(),
        EventView::PeripheralsRetrieved { names },
    );
    if names.len() == 0 {
        lemma_run_stays_done_and_empty(seeded, events);
    } else {
        law_terminal_callbacks_complete_discovery(seeded, events);
    }
}

/// The same after `register_peripherals`, for one peripheral or more.
pub proof fn law_registered_discovery_completes(
    state: DiscoveryView,
    count: nat,
    events: Seq<EventView>,
)
    requires
        state.consistent(),
        count > 0,
        forall|p: int| 0 <= p < count ==> has_terminal_callback(events, p),
    ensures
        state.registered(count).run(events).pending == 0,
        state.registered(count).run(events).done,
{
    law_operations_keep_consistency(state, count);
    law_terminal_callbacks_complete_discovery(state.registered(count), events);
}

proof fn lemma_run_stays_done_and_empty(state: DiscoveryView, events: Seq<EventView>)
    requires
        state.done,
        state.pending == 0,
        state.sessions.len() == 0,
    ensures
        state.run(events).done,
        state.run(events).pending == 0,
        state.run(events).sessions.len() == 0,
    decreases events.len(),
{
    if events.len() > 0 {
        lemma_run_stays_done_and_empty(state, events.drop_last());
    }
}

/// Counting down never goes below zero and never makes a discovery that is
/// done not done. After as many steps as peripherals were waited for, one at
/// least, none is waited for and the discovery is done; every step after
/// that changes nothing.
pub proof fn law_decrement_saturates(state: DiscoveryView, times: nat)
    ensures
        state.decremented_times(times).pending == if times <= state.pending {
            state.pending - times
        } else {
            0
        },
        state.done ==> state.decremented_times(times).done,
        times >= state.pending && times > 0 ==> state.decremented_times(times).done,
        times >= state.pending && times > 0 ==> state.decremented_times(times).decremented()
            == state.decremented_times(times),
        state.decremented_times(times).sessions == state.sessions,
        state.decremented_times(times).results == state.results,
        state.decremented_times(times).manager == state.manager,
    decreases times,
{
    if times > 0 {
        law_decrement_saturates(state, (times - 1) as nat);
    }
}

/// A peripheral whose service discovery reports no service ends as failed,
/// and the readings stay as they were.
pub proof fn law_no_services_fails(state: DiscoveryView, peripheral: usize)
    requires
        state.is_live(peripheral as int),
    ensures
        state.after_services(peripheral, false, 0).sessions[peripheral as int].stage
            == Stage::Failed(FailureReason::NoServices),
        state.after_services(peripheral, false, 0).results == state.results,
{
}

/// A read that ends with a value of no bytes leaves the peripheral failed,
/// at whatever stage it was, and the readings stay as they were.
pub proof fn law_empty_value_fails(
    state: DiscoveryView,
    peripheral: usize,
    name: Option<Seq<char>>,
)
    requires
        state.is_live(peripheral as int),
    ensures
        state.after_value(peripheral, false, name, Seq::empty()).sessions[peripheral as int].stage
            == Stage::Failed(FailureReason::EmptyValue),
        state.after_value(peripheral, false, name, Seq::empty()).results == state.results,
{
}

/// A peripheral that has failed adds nothing to the readings, whatever is
/// reported of it afterwards.
pub proof fn law_failed_peripheral_adds_nothing(
    state: DiscoveryView,
    peripheral: usize,
    events: Seq<EventView>,
)
    requires
        peripheral < state.sessions.len(),
        state.sessions[peripheral as int].stage is Failed,
        forall|i: int|
            0 <= i < events.len() ==> peripheral_of(#[trigger] events[i]) == Some(peripheral),
    ensures
        state.run(events) == state,
    decreases events.len(),
{
    if events.len() > 0 {
        law_failed_peripheral_adds_nothing(state, peripheral, events.drop_last());
        law_final_sessions_ignore_callbacks(state, events.last());
    }
}

/// Taking the readings out leaves none: taking them again gives nothing.
pub proof fn law_take_results_is_destructive(state: DiscoveryView)
    ensures
        state.without_results().results == Seq::<(Seq<char>, u8)>::empty(),
        state.without_results().without_results() == state.without_results(),
{
}

/// A reading is kept under the name of its peripheral, and the first
/// reading under a name is the one that stays: a name that had a byte keeps
/// it, and a name that had none gets the new one.
pub proof fn law_first_reading_stays(readings: Readings, name: Seq<char>, level: u8)
    requires
        distinct_names(readings),
    ensures
        has_name(recorded(readings, name, level), name),
        is_prefix(readings, recorded(readings, name, level)),
        has_name(readings, name) ==> recorded(readings, name, level) == readings,
        level_under(recorded(readings, name, level), name) == if has_name(readings, name) {
            level_under(readings, name)
        } else {
            Some(level)
        },
        forall|other: Seq<char>|
            other != name ==> level_under(recorded(readings, name, level), other) == level_under(
                readings,
                other,
            ),
{
    assert(readings.take(readings.len() as int) =~= readings);
    let after = recorded(readings, name, level);
    lemma_recorded_distinct(readings, name, level);
    if !has_name(readings, name) {
        assert(after[readings.len() as int].0 == name);
        assert(after.take(readings.len() as int) =~= readings);
    }
}

} // verus!
