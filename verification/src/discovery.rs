//! The coordinator's state as plain data, and what each callback makes of it.
//!
//! Every callback is a function from the state before it to the state after
//! it, with the requests that it sends to the platform. A callback for a
//! peripheral whose session is final, or for a peripheral that was never
//! listed, changes nothing and sends nothing.
//!
//! A callback for a session that is not final is taken at whatever stage the
//! session is. The platform does not promise one callback for each request,
//! and a peripheral with several services or characteristics has several
//! requests out at once: so the stage only says how far the peripheral has
//! come, and it never moves back. The first callback that ends the pipeline
//! is the one that counts; the peripheral is counted off once.

use crate::protocol::{EventView, ManagerState, Request};
use crate::session::{FailureReason, SessionView, Stage};
use vstd::prelude::*;

verus! {

/// The readings kept so far: name and raw battery byte, in the order in which
/// they came.
pub type Readings = Seq<(Seq<char>, u8)>;

/// How many of the sessions can still change.
pub open spec fn live_count(sessions: Seq<SessionView>) -> nat
    decreases sessions.len(),
{
    if sessions.len() == 0 {
        0
    } else {
        live_count(sessions.drop_last()) + if sessions.last().is_live() {
            1nat
        } else {
            0nat
        }
    }
}

/// Whether a reading is kept under the name.
pub open spec fn has_name(readings: Readings, name: Seq<char>) -> bool {
    exists|i: int| 0 <= i < readings.len() && (#[trigger] readings[i]).0 == name
}

/// Whether no two readings go by one name.
pub open spec fn distinct_names(readings: Readings) -> bool {
    forall|i: int, j: int|
        0 <= i < j < readings.len() ==> (#[trigger] readings[i]).0 != (#[trigger] readings[j]).0
}

/// The readings after one more came in. The first reading under a name
/// stays: a later one under the same name is dropped.
pub open spec fn recorded(readings: Readings, name: Seq<char>, level: u8) -> Readings {
    if has_name(readings, name) {
        readings
    } else {
        readings.push((name, level))
    }
}

/// The byte kept under a name, if one is.
pub open spec fn level_under(readings: Readings, name: Seq<char>) -> Option<u8> {
    if has_name(readings, name) {
        let i = choose|i: int| 0 <= i < readings.len() && (#[trigger] readings[i]).0 == name;
        Some(readings[i].1)
    } else {
        None
    }
}

/// One session for each name, each at the start of the pipeline.
pub open spec fn fresh_sessions(names: Seq<Option<Seq<char>>>) -> Seq<SessionView> {
    Seq::new(names.len(), |i: int| SessionView::fresh(names[i]))
}

/// So many peripherals without a name.
pub open spec fn nameless(count: nat) -> Seq<Option<Seq<char>>> {
    Seq::new(count, |i: int| None)
}

/// A request to connect to each of the first `count` peripherals, in order.
pub open spec fn connect_requests(count: nat) -> Seq<Request> {
    Seq::new(count, |i: int| Request::Connect { peripheral: i as usize })
}

/// A request to discover the characteristics of each of the first `count`
/// services of a peripheral, in order.
pub open spec fn characteristic_requests(peripheral: usize, count: nat) -> Seq<Request> {
    Seq::new(count, |i: int| Request::DiscoverCharacteristics { peripheral, service: i as usize })
}

/// A request to read each of the first `count` characteristics of a service,
/// in order.
pub open spec fn read_requests(peripheral: usize, service: usize, count: nat) -> Seq<Request> {
    Seq::new(
        count,
        |i: int| Request::ReadValue { peripheral, service, characteristic: i as usize },
    )
}

/// The state of a discovery.
pub struct DiscoveryView {
    /// The manager's state as last reported.
    pub manager: ManagerState,
    /// One session for each peripheral, by its place in the platform's list.
    pub sessions: Seq<SessionView>,
    /// How many peripherals are still waited for.
    pub pending: nat,
    /// Whether the discovery is over.
    pub done: bool,
    /// The readings kept so far.
    pub results: Readings,
}

impl DiscoveryView {
    /// The state before anything has happened.
    pub open spec fn initial() -> DiscoveryView {
        DiscoveryView {
            manager: ManagerState::Unknown,
            sessions: seq![],
            pending: 0,
            done: false,
            results: seq![],
        }
    }

    /// What holds of every state that the coordinator reaches: no more
    /// peripherals are waited for than sessions can still change; once there
    /// are sessions and none is waited for, the discovery is done; and no two
    /// readings go by one name.
    pub open spec fn consistent(self) -> bool {
        &&& self.pending <= live_count(self.sessions)
        &&& self.sessions.len() > 0 && self.pending == 0 ==> self.done
        &&& distinct_names(self.results)
    }

    /// Whether the coordinator still waits for the list of peripherals.
    pub open spec fn awaiting_peripherals(self) -> bool {
        self.sessions.len() == 0 && !self.done
    }

    /// Whether the peripheral has a session that can still change.
    pub open spec fn is_live(self, peripheral: int) -> bool {
        0 <= peripheral < self.sessions.len() && self.sessions[peripheral].is_live()
    }

    /// The state after `count` peripherals were registered: a fresh session
    /// for each, all of them waited for, and the discovery not done. The
    /// readings stay.
    pub open spec fn registered(self, count: nat) -> DiscoveryView {
        DiscoveryView {
            sessions: fresh_sessions(nameless(count)),
            pending: count,
            done: false,
            ..self
        }
    }

    /// The state after one peripheral less is waited for. The count stops at
    /// zero, and at zero the discovery is done.
    pub open spec fn decremented(self) -> DiscoveryView {
        let pending = if self.pending > 0 {
            (self.pending - 1) as nat
        } else {
            0
        };
        DiscoveryView { pending, done: self.done || pending == 0, ..self }
    }

    /// The state after `times` such steps.
    pub open spec fn decremented_times(self, times: nat) -> DiscoveryView
        decreases times,
    {
        if times == 0 {
            self
        } else {
            self.decremented_times((times - 1) as nat).decremented()
        }
    }

    /// The state after the readings were taken out.
    pub open spec fn without_results(self) -> DiscoveryView {
        DiscoveryView { results: seq![], ..self }
    }

    /// The state with the peripheral's session at `stage`.
    pub open spec fn with_stage(self, peripheral: int, stage: Stage) -> DiscoveryView {
        DiscoveryView {
            sessions: self.sessions.update(
                peripheral,
                SessionView { stage, ..self.sessions[peripheral] },
            ),
            ..self
        }
    }

    /// The state after the platform gave a name for the peripheral, or none:
    /// a name replaces the one that the session had.
    pub open spec fn with_observed_name(
        self,
        peripheral: int,
        name: Option<Seq<char>>,
    ) -> DiscoveryView {
        match name {
            Some(_) => DiscoveryView {
                sessions: self.sessions.update(
                    peripheral,
                    SessionView { name, ..self.sessions[peripheral] },
                ),
                ..self
            },
            None => self,
        }
    }

    /// The state after the peripheral moved on to `target`, or stayed where
    /// it was if it was further already.
    pub open spec fn advanced(self, peripheral: int, target: Stage) -> DiscoveryView {
        self.with_stage(peripheral, self.sessions[peripheral].stage.spec_advanced_to(target))
    }

    /// The state after the peripheral's pipeline broke off: its session is
    /// final, and one peripheral less is waited for.
    pub open spec fn failed(self, peripheral: int, reason: FailureReason) -> DiscoveryView {
        self.with_stage(peripheral, Stage::Failed(reason)).decremented()
    }

    /// The state after the peripheral's battery byte was read: the byte is
    /// kept under the session's name, the session is final, and one
    /// peripheral less is waited for.
    pub open spec fn completed(self, peripheral: int, level: u8) -> DiscoveryView {
        DiscoveryView {
            results: recorded(self.results, self.sessions[peripheral].result_name(), level),
            ..self.with_stage(peripheral, Stage::Done)
        }.decremented()
    }

    /// The state after the manager reported its state. A state that rules
    /// out discovery ends it at once.
    pub open spec fn after_state_update(self, state: ManagerState) -> DiscoveryView {
        DiscoveryView { manager: state, done: self.done || state.spec_is_unavailable(), ..self }
    }

    /// What a report of the manager's state asks of the platform: the list
    /// of peripherals, if the radio is ready and the list is still waited for.
    pub open spec fn requests_on_state_update(self, state: ManagerState) -> Seq<Request> {
        if state is PoweredOn && self.awaiting_peripherals() {
            seq![Request::RetrieveConnectedPeripherals]
        } else {
            seq![]
        }
    }

    /// The state after the platform listed the connected peripherals. An
    /// empty list ends the discovery; any other seeds one session for each
    /// peripheral. A list that was not waited for changes nothing.
    pub open spec fn after_peripherals(self, names: Seq<Option<Seq<char>>>) -> DiscoveryView {
        if !self.awaiting_peripherals() {
            self
        } else if names.len() == 0 {
            DiscoveryView { done: true, ..self }
        } else {
            DiscoveryView { sessions: fresh_sessions(names), pending: names.len(), ..self }
        }
    }

    /// What the list of peripherals asks of the platform: to connect to each.
    pub open spec fn requests_on_peripherals(self, names: Seq<Option<Seq<char>>>) -> Seq<
        Request,
    > {
        if self.awaiting_peripherals() {
            connect_requests(names.len())
        } else {
            seq![]
        }
    }

    /// The state after a connect request succeeded.
    pub open spec fn after_connect(self, peripheral: usize) -> DiscoveryView {
        if self.is_live(peripheral as int) {
            self.advanced(peripheral as int, Stage::DiscoveringServices)
        } else {
            self
        }
    }

    /// What a successful connect asks of the platform: to discover the
    /// services.
    pub open spec fn requests_on_connect(self, peripheral: usize) -> Seq<Request> {
        if self.is_live(peripheral as int) {
            seq![Request::DiscoverServices { peripheral }]
        } else {
            seq![]
        }
    }

    /// The state after a connect request failed.
    pub open spec fn after_connect_failure(self, peripheral: usize) -> DiscoveryView {
        if self.is_live(peripheral as int) {
            self.failed(peripheral as int, FailureReason::ConnectFailed)
        } else {
            self
        }
    }

    /// The state after service discovery ended. An error, or no service at
    /// all, breaks the pipeline off.
    pub open spec fn after_services(
        self,
        peripheral: usize,
        error: bool,
        services: usize,
    ) -> DiscoveryView {
        if !self.is_live(peripheral as int) {
            self
        } else if error {
            self.failed(peripheral as int, FailureReason::ServiceDiscoveryError)
        } else if services == 0 {
            self.failed(peripheral as int, FailureReason::NoServices)
        } else {
            self.advanced(peripheral as int, Stage::DiscoveringCharacteristics)
        }
    }

    /// What the end of service discovery asks of the platform: to discover
    /// the characteristics of each service reported.
    pub open spec fn requests_on_services(
        self,
        peripheral: usize,
        error: bool,
        services: usize,
    ) -> Seq<Request> {
        if self.is_live(peripheral as int) && !error {
            characteristic_requests(peripheral, services as nat)
        } else {
            seq![]
        }
    }

    /// The state after characteristic discovery ended for a service. An
    /// error, or no characteristic at all, breaks the pipeline off.
    pub open spec fn after_characteristics(
        self,
        peripheral: usize,
        error: bool,
        characteristics: usize,
    ) -> DiscoveryView {
        if !self.is_live(peripheral as int) {
            self
        } else if error {
            self.failed(peripheral as int, FailureReason::CharacteristicDiscoveryError)
        } else if characteristics == 0 {
            self.failed(peripheral as int, FailureReason::NoCharacteristics)
        } else {
            self.advanced(peripheral as int, Stage::ReadingValue)
        }
    }

    /// What the end of characteristic discovery asks of the platform: to read
    /// each characteristic reported.
    pub open spec fn requests_on_characteristics(
        self,
        peripheral: usize,
        service: usize,
        error: bool,
        characteristics: usize,
    ) -> Seq<Request> {
        if self.is_live(peripheral as int) && !error {
            read_requests(peripheral, service, characteristics as nat)
        } else {
            seq![]
        }
    }

    /// The state after a read ended. An error, or a value without a byte,
    /// breaks the pipeline off and keeps nothing. Otherwise the first byte of
    /// the value is the battery level, whatever it is.
    pub open spec fn after_value(
        self,
        peripheral: usize,
        error: bool,
        name: Option<Seq<char>>,
        value: Seq<u8>,
    ) -> DiscoveryView {
        if !self.is_live(peripheral as int) {
            self
        } else {
            let named = self.with_observed_name(peripheral as int, name);
            if error {
                named.failed(peripheral as int, FailureReason::ReadError)
            } else if value.len() == 0 {
                named.failed(peripheral as int, FailureReason::EmptyValue)
            } else {
                named.completed(peripheral as int, value[0])
            }
        }
    }

    /// The state after an event.
    pub open spec fn step(self, event: EventView) -> DiscoveryView {
        match event {
            EventView::StateUpdated { state } => self.after_state_update(state),
            EventView::PeripheralsRetrieved { names } => self.after_peripherals(names),
            EventView::Connected { peripheral } => self.after_connect(peripheral),
            EventView::ConnectFailed { peripheral } => self.after_connect_failure(peripheral),
            EventView::ServicesDiscovered { peripheral, error, services } => self.after_services(
                peripheral,
                error,
                services,
            ),
            EventView::CharacteristicsDiscovered { peripheral, error, characteristics, .. } => {
                self.after_characteristics(peripheral, error, characteristics)
            },
            EventView::ValueUpdated { peripheral, error, name, value } => self.after_value(
                peripheral,
                error,
                name,
                value,
            ),
        }
    }

    /// What an event asks of the platform.
    pub open spec fn requests_for(self, event: EventView) -> Seq<Request> {
        match event {
            EventView::StateUpdated { state } => self.requests_on_state_update(state),
            EventView::PeripheralsRetrieved { names } => self.requests_on_peripherals(names),
            EventView::Connected { peripheral } => self.requests_on_connect(peripheral),
            EventView::ConnectFailed { peripheral } => seq![],
            EventView::ServicesDiscovered { peripheral, error, services } => {
                self.requests_on_services(peripheral, error, services)
            },
            EventView::CharacteristicsDiscovered {
                peripheral,
                service,
                error,
                characteristics,
            } => {
                self.requests_on_characteristics(peripheral, service, error, characteristics)
            },
            EventView::ValueUpdated { .. } => seq![],
        }
    }

    /// The state after the events, taken in order.
    pub open spec fn run(self, events: Seq<EventView>) -> DiscoveryView
        decreases events.len(),
    {
        if events.len() == 0 {
            self
        } else {
            self.run(events.drop_last()).step(events.last())
        }
    }

    /// What the events ask of the platform, in order.
    pub open spec fn requests_of_run(self, events: Seq<EventView>) -> Seq<Request>
        decreases events.len(),
    {
        if events.len() == 0 {
            seq![]
        } else {
            self.requests_of_run(events.drop_last()) + self.run(events.drop_last()).requests_for(
                events.last(),
            )
        }
    }
}

} // verus!
