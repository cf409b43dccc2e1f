//! The discovery coordinator: it takes the platform's callbacks one by one,
//! moves the peripherals through the pipeline, and keeps the battery bytes
//! that were read.
//!
//! The coordinator never waits and never calls the platform. Each callback
//! returns the requests that the caller has to pass on, and the caller hands
//! back what the platform answers. All of it belongs on one thread: the one
//! that pumps the platform's event loop.

use crate::discovery::{
    characteristic_requests, connect_requests, fresh_sessions, has_name, nameless, read_requests,
    recorded, DiscoveryView,
};
use crate::laws::{
    law_operations_keep_consistency, law_run_keeps_consistency, law_step_keeps_consistency,
};
use crate::protocol::{Event, EventView, ManagerState, Request};
use crate::session::{FailureReason, PeripheralSession, SessionView, Stage};
use vstd::prelude::*;

verus! {

/// The coordinator of one discovery.
#[derive(Debug)]
pub struct CentralDelegate {
    manager: ManagerState,
    sessions: Vec<PeripheralSession>,
    pending_reads: usize,
    done: bool,
    battery_levels: Vec<(String, u8)>,
}

impl View for CentralDelegate {
    type V = DiscoveryView;

    closed spec fn view(&self) -> DiscoveryView {
        DiscoveryView {
            manager: self.manager,
            sessions: self.sessions.deep_view(),
            pending: self.pending_reads as nat,
            done: self.done,
            results: self.battery_levels.deep_view(),
        }
    }
}

fn connect_all(count: usize) -> (requests: Vec<Request>)
    ensures
        requests@ == connect_requests(count as nat),
{
    let mut requests: Vec<Request> = Vec::new();
    let mut i: usize = 0;
    while i < count
        invariant
            i <= count,
            requests@ == connect_requests(i as nat),
        decreases count - i,
    {
        requests.push(Request::Connect { peripheral: i });
        i += 1;
    }
    requests
}

fn discover_characteristics_of_all(peripheral: usize, count: usize) -> (requests: Vec<Request>)
    ensures
        requests@ == characteristic_requests(peripheral, count as nat),
{
    let mut requests: Vec<Request> = Vec::new();
    let mut i: usize = 0;
    while i < count
        invariant
            i <= count,
            requests@ == characteristic_requests(peripheral, i as nat),
        decreases count - i,
    {
        requests.push(Request::DiscoverCharacteristics { peripheral, service: i });
        i += 1;
    }
    requests
}

fn read_all(peripheral: usize, service: usize, count: usize) -> (requests: Vec<Request>)
    ensures
        requests@ == read_requests(peripheral, service, count as nat),
{
    let mut requests: Vec<Request> = Vec::new();
    let mut i: usize = 0;
    while i < count
        invariant
            i <= count,
            requests@ == read_requests(peripheral, service, i as nat),
        decreases count - i,
    {
        requests.push(Request::ReadValue { peripheral, service, characteristic: i });
        i += 1;
    }
    requests
}

fn sessions_for(names: &Vec<Option<String>>) -> (sessions: Vec<PeripheralSession>)
    ensures
        sessions.deep_view() == fresh_sessions(names.deep_view()),
{
    let mut sessions: Vec<PeripheralSession> = Vec::new();
    let mut i: usize = 0;
    while i < names.len()
        invariant
            i <= names.len(),
            sessions.deep_view() == fresh_sessions(names.deep_view().take(i as int)),
        decreases names.len() - i,
    {
        let ghost before = sessions.deep_view();
        let name: Option<String> = match &names[i] {
            Some(name) => Some(name.clone()),
            None => None,
        };
        let session = PeripheralSession { stage: Stage::Connecting, name };
        sessions.push(session);
        assert(sessions.deep_view() =~= before.push(session@));
        i += 1;
    }
    sessions
}

fn nameless_sessions(count: usize) -> (sessions: Vec<PeripheralSession>)
    ensures
        sessions.deep_view() == fresh_sessions(nameless(count as nat)),
{
    let mut sessions: Vec<PeripheralSession> = Vec::new();
    let mut i: usize = 0;
    while i < count
        invariant
            i <= count,
            sessions.deep_view() == fresh_sessions(nameless(i as nat)),
        decreases count - i,
    {
        let ghost before = sessions.deep_view();
        let session = PeripheralSession { stage: Stage::Connecting, name: None };
        sessions.push(session);
        assert(sessions.deep_view() =~= before.push(session@));
        i += 1;
    }
    sessions
}

impl CentralDelegate {
    /// A coordinator before anything has happened.
    pub fn new() -> (delegate: Self)
        ensures
            delegate@ == DiscoveryView::initial(),
            delegate@.consistent(),
    {
        let delegate = CentralDelegate {
            manager: ManagerState::Unknown,
            sessions: Vec::new(),
            pending_reads: 0,
            done: false,
            battery_levels: Vec::new(),
        };
        assert(delegate.sessions.deep_view() =~= Seq::<SessionView>::empty());
        assert(delegate.battery_levels.deep_view() =~= Seq::<(Seq<char>, u8)>::empty());
        delegate
    }

    /// Whether the discovery is over.
    pub fn is_done(&self) -> (done: bool)
        ensures
            done == self@.done,
    {
        self.done
    }

    /// How many peripherals are still waited for.
    pub fn pending(&self) -> (pending: usize)
        ensures
            pending == self@.pending,
    {
        self.pending_reads
    }

    /// The manager's state as last reported.
    pub fn manager_state(&self) -> (state: ManagerState)
        ensures
            state == self@.manager,
    {
        self.manager
    }

    /// How many peripherals have a session.
    pub fn session_count(&self) -> (count: usize)
        ensures
            count == self@.sessions.len(),
    {
        self.sessions.len()
    }

    /// The session of a peripheral, if it has one.
    pub fn session(&self, peripheral: usize) -> (session: Option<&PeripheralSession>)
        ensures
            peripheral < self@.sessions.len() <==> session is Some,
            session matches Some(s) ==> s@ == self@.sessions[peripheral as int],
    {
        if peripheral < self.sessions.len() {
            Some(&self.sessions[peripheral])
        } else {
            None
        }
    }

    /// The readings kept so far: name and raw battery byte, in the order in
    /// which they came.
    pub fn results(&self) -> (results: &Vec<(String, u8)>)
        ensures
            results.deep_view() == self@.results,
    {
        &self.battery_levels
    }

    /// Takes the readings out. The coordinator keeps none of them.
    pub fn take_results(&mut self) -> (results: Vec<(String, u8)>)
        ensures
            results.deep_view() == old(self)@.results,
            final(self)@ == old(self)@.without_results(),
            final(self)@.results.len() == 0,
            old(self)@.consistent() ==> final(self)@.consistent(),
    {
        let mut results: Vec<(String, u8)> = Vec::new();
        std::mem::swap(&mut results, &mut self.battery_levels);
        assert(self.battery_levels.deep_view() =~= Seq::<(Seq<char>, u8)>::empty());
        results
    }

    /// Starts a run with `count` peripherals: a fresh session for each, all
    /// of them waited for, and the discovery not done. The readings stay.
    pub fn register_peripherals(&mut self, count: usize)
        ensures
            final(self)@ == old(self)@.registered(count as nat),
            old(self)@.consistent() ==> final(self)@.consistent(),
    {
        proof {
            if self@.consistent() {
                law_operations_keep_consistency(self@, count as nat);
            }
        }
        self.sessions = nameless_sessions(count);
        self.pending_reads = count;
        self.done = false;
    }

    /// Counts one peripheral less as waited for. The count stops at zero,
    /// and at zero the discovery is done.
    pub fn decrement_pending(&mut self)
        ensures
            final(self)@ == old(self)@.decremented(),
            final(self)@.pending <= old(self)@.pending,
            final(self)@.pending == 0 || old(self)@.done ==> final(self)@.done,
            old(self)@.consistent() ==> final(self)@.consistent(),
    {
        if self.pending_reads > 0 {
            self.pending_reads -= 1;
        }
        if self.pending_reads == 0 {
            self.done = true;
        }
    }

    fn is_live(&self, peripheral: usize) -> (live: bool)
        ensures
            live == self@.is_live(peripheral as int),
    {
        peripheral < self.sessions.len() && !self.sessions[peripheral].stage.is_terminal()
    }

    fn set_stage(&mut self, peripheral: usize, stage: Stage)
        requires
            peripheral < old(self)@.sessions.len(),
        ensures
            final(self)@ == old(self)@.with_stage(peripheral as int, stage),
    {
        self.sessions[peripheral].stage = stage;
        assert(self.sessions.deep_view() =~= old(self).sessions.deep_view().update(
            peripheral as int,
            SessionView { stage, ..old(self).sessions.deep_view()[peripheral as int] },
        ));
    }

    fn observe_name(&mut self, peripheral: usize, name: Option<&str>)
        requires
            peripheral < old(self)@.sessions.len(),
        ensures
            final(self)@ == old(self)@.with_observed_name(peripheral as int, name.deep_view()),
    {
        if let Some(name) = name {
            self.sessions[peripheral].name = Some(String::from_str(name));
            assert(self.sessions.deep_view() =~= old(self).sessions.deep_view().update(
                peripheral as int,
                SessionView {
                    name: Some(name@),
                    ..old(self).sessions.deep_view()[peripheral as int]
                },
            ));
        }
    }

    fn advance(&mut self, peripheral: usize, target: Stage)
        requires
            peripheral < old(self)@.sessions.len(),
        ensures
            final(self)@ == old(self)@.advanced(peripheral as int, target),
    {
        let stage = self.sessions[peripheral].stage.advanced_to(target);
        self.set_stage(peripheral, stage);
    }

    fn fail(&mut self, peripheral: usize, reason: FailureReason)
        requires
            peripheral < old(self)@.sessions.len(),
        ensures
            final(self)@ == old(self)@.failed(peripheral as int, reason),
    {
        self.set_stage(peripheral, Stage::Failed(reason));
        self.decrement_pending();
    }

    fn holds_name(&self, name: &String) -> (held: bool)
        ensures
            held == has_name(self@.results, name@),
    {
        let mut i: usize = 0;
        while i < self.battery_levels.len()
            invariant
                i <= self.battery_levels.len(),
                forall|j: int|
                    0 <= j < i ==> (#[trigger] self.battery_levels.deep_view()[j]).0 != name@,
            decreases self.battery_levels.len() - i,
        {
            if self.battery_levels[i].0 == *name {
                assert(self.battery_levels.deep_view()[i as int].0 == name@);
                return true;
            }
            i += 1;
        }
        false
    }

    fn complete(&mut self, peripheral: usize, level: u8)
        requires
            peripheral < old(self)@.sessions.len(),
        ensures
            final(self)@ == old(self)@.completed(peripheral as int, level),
    {
        let name: String = match &self.sessions[peripheral].name {
            Some(name) => name.clone(),
            None => {
                proof {
                    reveal_strlit("Unknown");
                }
                String::from_str("Unknown")
            },
        };
        assert(name@ == self@.sessions[peripheral as int].result_name());
        if !self.holds_name(&name) {
            self.battery_levels.push((name, level));
        }
        assert(self@.results == recorded(old(self)@.results, name@, level));
        self.set_stage(peripheral, Stage::Done);
        self.decrement_pending();
    }

    /// The manager reported its state. A state that rules out discovery ends
    /// it at once. When the radio is ready and the list of peripherals is
    /// still waited for, the list is asked for.
    pub fn central_manager_did_update_state(&mut self, state: ManagerState) -> (requests: Vec<
        Request,
    >)
        ensures
            final(self)@ == old(self)@.after_state_update(state),
            requests@ == old(self)@.requests_on_state_update(state),
            old(self)@.consistent() ==> final(self)@.consistent(),
    {
        proof {
            if self@.consistent() {
                law_step_keeps_consistency(self@, EventView::StateUpdated { state });
            }
        }
        let mut requests: Vec<Request> = Vec::new();
        if state == ManagerState::PoweredOn && self.sessions.len() == 0 && !self.done {
            requests.push(Request::RetrieveConnectedPeripherals);
        }
        self.manager = state;
        if state.is_unavailable() {
            self.done = true;
        }
        requests
    }

    /// The platform listed the connected peripherals that offer the Battery
    /// Service, each with its name where it has one. An empty list ends the
    /// discovery. Any other list seeds one session for each peripheral and
    /// asks to connect to each. A list that was not waited for is ignored.
    pub fn handle_powered_on(&mut self, connected: &Vec<Option<String>>) -> (requests: Vec<
        Request,
    >)
        ensures
            final(self)@ == old(self)@.after_peripherals(connected.deep_view()),
            requests@ == old(self)@.requests_on_peripherals(connected.deep_view()),
            old(self)@.consistent() ==> final(self)@.consistent(),
    {
        proof {
            if self@.consistent() {
                law_step_keeps_consistency(
                    self@,
                    EventView::PeripheralsRetrieved { names: connected.deep_view() },
                );
            }
        }
        if self.sessions.len() != 0 || self.done {
            return Vec::new();
        }
        let count = connected.len();
        if count == 0 {
            self.done = true;
            return Vec::new();
        }
        self.sessions = sessions_for(connected);
        self.pending_reads = count;
        connect_all(count)
    }

    /// A connect request succeeded: the services are asked for.
    pub fn central_manager_did_connect_peripheral(&mut self, peripheral: usize) -> (requests: Vec<
        Request,
    >)
        ensures
            final(self)@ == old(self)@.after_connect(peripheral),
            requests@ == old(self)@.requests_on_connect(peripheral),
            old(self)@.consistent() ==> final(self)@.consistent(),
    {
        proof {
            if self@.consistent() {
                law_step_keeps_consistency(self@, EventView::Connected { peripheral });
            }
        }
        let mut requests: Vec<Request> = Vec::new();
        if self.is_live(peripheral) {
            self.advance(peripheral, Stage::DiscoveringServices);
            requests.push(Request::DiscoverServices { peripheral });
        }
        requests
    }

    /// A connect request failed: the peripheral's pipeline is over.
    pub fn central_manager_did_fail_to_connect_peripheral(&mut self, peripheral: usize)
        ensures
            final(self)@ == old(self)@.after_connect_failure(peripheral),
            old(self)@.consistent() ==> final(self)@.consistent(),
    {
        proof {
            if self@.consistent() {
                law_step_keeps_consistency(self@, EventView::ConnectFailed { peripheral });
            }
        }
        if self.is_live(peripheral) {
            self.fail(peripheral, FailureReason::ConnectFailed);
        }
    }

    /// Service discovery ended, with an error or with `services` services.
    /// An error, or no service at all, ends the peripheral's pipeline and
    /// keeps no reading. Otherwise the characteristics of each service are
    /// asked for.
    pub fn peripheral_did_discover_services(
        &mut self,
        peripheral: usize,
        error: bool,
        services: usize,
    ) -> (requests: Vec<Request>)
        ensures
            final(self)@ == old(self)@.after_services(peripheral, error, services),
            requests@ == old(self)@.requests_on_services(peripheral, error, services),
            old(self)@.is_live(peripheral as int) && (error || services == 0) ==> {
                &&& final(self)@.sessions[peripheral as int].stage is Failed
                &&& final(self)@.results == old(self)@.results
            },
            old(self)@.consistent() ==> final(self)@.consistent(),
    {
        proof {
            if self@.consistent() {
                law_step_keeps_consistency(
                    self@,
                    EventView::ServicesDiscovered { peripheral, error, services },
                );
            }
        }
        if !self.is_live(peripheral) {
            return Vec::new();
        }
        if error {
            self.fail(peripheral, FailureReason::ServiceDiscoveryError);
            return Vec::new();
        }
        if services == 0 {
            self.fail(peripheral, FailureReason::NoServices);
            return Vec::new();
        }
        self.advance(peripheral, Stage::DiscoveringCharacteristics);
        discover_characteristics_of_all(peripheral, services)
    }

    /// Characteristic discovery ended for a service, with an error or with
    /// `characteristics` characteristics. An error, or no characteristic at
    /// all, ends the peripheral's pipeline and keeps no reading. Otherwise
    /// each characteristic is read.
    pub fn peripheral_did_discover_characteristics(
        &mut self,
        peripheral: usize,
        service: usize,
        error: bool,
        characteristics: usize,
    ) -> (requests: Vec<Request>)
        ensures
            final(self)@ == old(self)@.after_characteristics(peripheral, error, characteristics),
            requests@ == old(self)@.requests_on_characteristics(
                peripheral,
                service,
                error,
                characteristics,
            ),
            old(self)@.is_live(peripheral as int) && (error || characteristics == 0) ==> {
                &&& final(self)@.sessions[peripheral as int].stage is Failed
                &&& final(self)@.results == old(self)@.results
            },
            old(self)@.consistent() ==> final(self)@.consistent(),
    {
        proof {
            if self@.consistent() {
                law_step_keeps_consistency(
                    self@,
                    EventView::CharacteristicsDiscovered {
                        peripheral,
                        service,
                        error,
                        characteristics,
                    },
                );
            }
        }
        if !self.is_live(peripheral) {
            return Vec::new();
        }
        if error {
            self.fail(peripheral, FailureReason::CharacteristicDiscoveryError);
            return Vec::new();
        }
        if characteristics == 0 {
            self.fail(peripheral, FailureReason::NoCharacteristics);
            return Vec::new();
        }
        self.advance(peripheral, Stage::ReadingValue);
        read_all(peripheral, service, characteristics)
    }

    /// A read ended, with an error or with the bytes of the value. `name` is
    /// the peripheral's name at this moment, where it has one. An error, or
    /// a value without a byte, ends the peripheral's pipeline and keeps no
    /// reading. Otherwise the first byte is kept as the battery level under
    /// the peripheral's name, unless a reading under that name is there
    /// already. The byte is kept as it is, valid percentage or not.
    pub fn peripheral_did_update_value(
        &mut self,
        peripheral: usize,
        error: bool,
        name: Option<&str>,
        value: &[u8],
    )
        ensures
            final(self)@ == old(self)@.after_value(peripheral, error, name.deep_view(), value@),
            old(self)@.is_live(peripheral as int) && (error || value@.len() == 0) ==> {
                &&& final(self)@.sessions[peripheral as int].stage is Failed
                &&& final(self)@.results == old(self)@.results
            },
            old(self)@.consistent() ==> final(self)@.consistent(),
    {
        proof {
            if self@.consistent() {
                law_step_keeps_consistency(
                    self@,
                    EventView::ValueUpdated {
                        peripheral,
                        error,
                        name: name.deep_view(),
                        value: value@,
                    },
                );
            }
        }
        if !self.is_live(peripheral) {
            return ;
        }
        self.observe_name(peripheral, name);
        if error {
            self.fail(peripheral, FailureReason::ReadError);
        } else if value.len() == 0 {
            self.fail(peripheral, FailureReason::EmptyValue);
        } else {
            self.complete(peripheral, value[0]);
        }
    }

    /// Takes one event and returns the requests that it asks for.
    pub fn handle_event(&mut self, event: &Event) -> (requests: Vec<Request>)
        ensures
            final(self)@ == old(self)@.step(event@),
            requests@ == old(self)@.requests_for(event@),
            old(self)@.consistent() ==> final(self)@.consistent(),
    {
        match event {
            Event::StateUpdated { state } => self.central_manager_did_update_state(*state),
            Event::PeripheralsRetrieved { names } => self.handle_powered_on(names),
            Event::Connected { peripheral } => self.central_manager_did_connect_peripheral(
                *peripheral,
            ),
            Event::ConnectFailed { peripheral } => {
                self.central_manager_did_fail_to_connect_peripheral(*peripheral);
                Vec::new()
            },
            Event::ServicesDiscovered { peripheral, error, services } => {
                self.peripheral_did_discover_services(*peripheral, *error, *services)
            },
            Event::CharacteristicsDiscovered { peripheral, service, error, characteristics } => {
                self.peripheral_did_discover_characteristics(
                    *peripheral,
                    *service,
                    *error,
                    *characteristics,
                )
            },
            Event::ValueUpdated { peripheral, error, name, value } => {
                let name: Option<&str> = match name {
                    Some(name) => Some(name.as_str()),
                    None => None,
                };
                self.peripheral_did_update_value(*peripheral, *error, name, value.as_slice());
                Vec::new()
            },
        }
    }

    /// Takes the events in order and returns all the requests that they ask
    /// for, in order.
    pub fn handle_events(&mut self, events: &Vec<Event>) -> (requests: Vec<Request>)
        ensures
            final(self)@ == old(self)@.run(events.deep_view()),
            requests@ == old(self)@.requests_of_run(events.deep_view()),
            old(self)@.consistent() ==> final(self)@.consistent(),
    {
        proof {
            if self@.consistent() {
                law_run_keeps_consistency(self@, events.deep_view());
            }
        }
        let mut requests: Vec<Request> = Vec::new();
        let mut i: usize = 0;
        while i < events.len()
            invariant
                i <= events.len(),
                self@ == old(self)@.run(events.deep_view().take(i as int)),
                requests@ == old(self)@.requests_of_run(events.deep_view().take(i as int)),
            decreases events.len() - i,
        {
            assert(events.deep_view().take(i + 1).drop_last() =~= events.deep_view().take(
                i as int,
            ));
            let mut more = self.handle_event(&events[i]);
            requests.append(&mut more);
            i += 1;
        }
        assert(events.deep_view().take(i as int) =~= events.deep_view());
        requests
    }
}

} // verus!
