//! What passes between the coordinator and the platform: the callbacks that
//! come in as events, and the requests that go out.

use vstd::prelude::*;

verus! {

/// The UUID of the Battery Service.
pub const BATTERY_SERVICE_UUID: &'static str = "180F";

/// The UUID of the Battery Level characteristic.
pub const BATTERY_LEVEL_UUID: &'static str = "2A19";

/// The state of the platform's Bluetooth manager.
#[derive(Debug, Clone, Copy, PartialEq, Eq, Structural)]
pub enum ManagerState {
    /// Not known yet.
    Unknown,
    /// The connection to the system service was lost for a moment.
    Resetting,
    /// The machine has no low-energy radio.
    Unsupported,
    /// The program may not use Bluetooth.
    Unauthorized,
    /// The radio is switched off.
    PoweredOff,
    /// The radio is ready.
    PoweredOn,
}

impl ManagerState {
    /// Whether the state rules out any discovery.
    pub open spec fn spec_is_unavailable(self) -> bool {
        self is Unauthorized || self is Unsupported
    }

    /// Whether the state rules out any discovery.
    #[verifier::when_used_as_spec(spec_is_unavailable)]
    pub fn is_unavailable(self) -> (unavailable: bool)
        ensures
            unavailable == self.spec_is_unavailable(),
    {
        match self {
            ManagerState::Unauthorized => true,
            ManagerState::Unsupported => true,
            _ => false,
        }
    }
}

/// What the coordinator asks of the platform. Peripherals are named by their
/// place in the list that the platform gave, services and characteristics by
/// their place in the list that the callback reported.
#[derive(Debug, Clone, Copy, PartialEq, Eq, Structural)]
pub enum Request {
    /// List the connected peripherals that offer the Battery Service.
    RetrieveConnectedPeripherals,
    /// Connect to a peripheral.
    Connect { peripheral: usize },
    /// Discover the Battery Service of a peripheral.
    DiscoverServices { peripheral: usize },
    /// Discover the Battery Level characteristic of a service.
    DiscoverCharacteristics { peripheral: usize, service: usize },
    /// Read the value of a characteristic.
    ReadValue { peripheral: usize, service: usize, characteristic: usize },
}

/// The UUID that limits what a request looks for, if it looks for anything.
pub open spec fn uuid_filter_of(request: Request) -> Option<Seq<char>> {
    match request {
        Request::RetrieveConnectedPeripherals => Some(seq!['1', '8', '0', 'F']),
        Request::DiscoverServices { .. } => Some(seq!['1', '8', '0', 'F']),
        Request::DiscoverCharacteristics { .. } => Some(seq!['2', 'A', '1', '9']),
        Request::Connect { .. } => None,
        Request::ReadValue { .. } => None,
    }
}

impl Request {
    /// The UUID that limits what the request looks for: that of the Battery
    /// Service for peripherals and services, that of the Battery Level
    /// characteristic for characteristics.
    pub fn uuid_filter(&self) -> (uuid: Option<&'static str>)
        ensures
            uuid.deep_view() == uuid_filter_of(*self),
    {
        proof {
            reveal_strlit("180F");
            reveal_strlit("2A19");
        }
        match self {
            Request::RetrieveConnectedPeripherals => Some(BATTERY_SERVICE_UUID),
            Request::DiscoverServices { .. } => Some(BATTERY_SERVICE_UUID),
            Request::DiscoverCharacteristics { .. } => Some(BATTERY_LEVEL_UUID),
            Request::Connect { .. } => None,
            Request::ReadValue { .. } => None,
        }
    }
}

/// What the platform tells the coordinator.
#[derive(Debug)]
pub enum Event {
    /// The manager's state changed.
    StateUpdated { state: ManagerState },
    /// The answer to `Request::RetrieveConnectedPeripherals`: the name of
    /// each connected peripheral, where it has one.
    PeripheralsRetrieved { names: Vec<Option<String>> },
    /// A connect request succeeded.
    Connected { peripheral: usize },
    /// A connect request failed.
    ConnectFailed { peripheral: usize },
    /// Service discovery ended, with an error or with so many services.
    ServicesDiscovered { peripheral: usize, error: bool, services: usize },
    /// Characteristic discovery for a service ended, with an error or with so
    /// many characteristics.
    CharacteristicsDiscovered {
        peripheral: usize,
        service: usize,
        error: bool,
        characteristics: usize,
    },
    /// A read ended, with an error or with the bytes of the value. `name` is
    /// the peripheral's name at that moment, where it has one.
    ValueUpdated { peripheral: usize, error: bool, name: Option<String>, value: Vec<u8> },
}

/// An event as plain data.
pub enum EventView {
    StateUpdated { state: ManagerState },
    PeripheralsRetrieved { names: Seq<Option<Seq<char>>> },
    Connected { peripheral: usize },
    ConnectFailed { peripheral: usize },
    ServicesDiscovered { peripheral: usize, error: bool, services: usize },
    CharacteristicsDiscovered {
        peripheral: usize,
        service: usize,
        error: bool,
        characteristics: usize,
    },
    ValueUpdated { peripheral: usize, error: bool, name: Option<Seq<char>>, value: Seq<u8> },
}

impl View for Event {
    type V = EventView;

    open spec fn view(&self) -> EventView {
        match self {
            Event::StateUpdated { state } => EventView::StateUpdated { state: *state },
            Event::PeripheralsRetrieved { names } => EventView::PeripheralsRetrieved {
                names: names.deep_view(),
            },
            Event::Connected { peripheral } => EventView::Connected { peripheral: *peripheral },
            Event::ConnectFailed { peripheral } => EventView::ConnectFailed {
                peripheral: *peripheral,
            },
            Event::ServicesDiscovered { peripheral, error, services } => {
                EventView::ServicesDiscovered {
                    peripheral: *peripheral,
                    error: *error,
                    services: *services,
                }
            },
            Event::CharacteristicsDiscovered { peripheral, service, error, characteristics } => {
                EventView::CharacteristicsDiscovered {
                    peripheral: *peripheral,
                    service: *service,
                    error: *error,
                    characteristics: *characteristics,
                }
            },
            Event::ValueUpdated { peripheral, error, name, value } => EventView::ValueUpdated {
                peripheral: *peripheral,
                error: *error,
                name: name.deep_view(),
                value: value@,
            },
        }
    }
}

impl DeepView for Event {
    type V = EventView;

    open spec fn deep_view(&self) -> EventView {
        self@
    }
}

} // verus!
