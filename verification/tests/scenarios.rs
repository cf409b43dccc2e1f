use btmon::aggregate::get_connected_devices;
use btmon::controller::{
    conclude, next_step, Ending, NextStep, GATT_DISCOVERY_TIMEOUT_MS, RUN_LOOP_INTERVAL_MS,
};
use btmon::device::format_device_output;
use btmon::gatt::CentralDelegate;
use btmon::protocol::{Event, ManagerState, Request};
use btmon::session::{FailureReason, Stage};

/// A platform that answers from a script: what each pump of the event loop
/// delivers, one list of events for each pump.
struct Script {
    connected: Vec<Option<String>>,
    pumps: Vec<Vec<Event>>,
}

struct Run {
    readings: Vec<(String, u8)>,
    ending: Ending,
    pumps: usize,
    requests: Vec<Request>,
    pending: usize,
    done: bool,
}

fn discover(script: Script) -> Run {
    let mut delegate = CentralDelegate::new();
    let mut requests = delegate.central_manager_did_update_state(ManagerState::PoweredOn);
    if requests.contains(&Request::RetrieveConnectedPeripherals) {
        requests.extend(delegate.handle_powered_on(&script.connected));
    }
    let mut elapsed: u64 = 0;
    let mut pumps: usize = 0;
    let mut deliveries = script.pumps.into_iter();
    while next_step(&delegate, elapsed) == NextStep::Pump {
        let events = deliveries.next().unwrap_or_default();
        requests.extend(delegate.handle_events(&events));
        elapsed += RUN_LOOP_INTERVAL_MS;
        pumps += 1;
    }
    let pending = delegate.pending();
    let done = delegate.is_done();
    let outcome = conclude(&mut delegate, elapsed);
    Run { readings: outcome.readings, ending: outcome.ending, pumps, requests, pending, done }
}

fn pipeline(peripheral: usize, name: &str, byte: u8) -> Vec<Event> {
    vec![
        Event::Connected { peripheral },
        Event::ServicesDiscovered { peripheral, error: false, services: 1 },
        Event::CharacteristicsDiscovered {
            peripheral,
            service: 0,
            error: false,
            characteristics: 1,
        },
        Event::ValueUpdated {
            peripheral,
            error: false,
            name: Some(name.to_string()),
            value: vec![byte],
        },
    ]
}

#[test]
fn no_peripherals_end_the_discovery_without_a_pump() {
    let run = discover(Script { connected: Vec::new(), pumps: Vec::new() });
    assert!(run.readings.is_empty());
    assert_eq!(run.pumps, 0);
    assert_eq!(run.ending, Ending::Completed);
    assert_eq!(run.requests, vec![Request::RetrieveConnectedPeripherals]);
    assert!(run.done);
    assert_eq!(run.pending, 0);
}

#[test]
fn one_peripheral_gives_its_byte() {
    let run = discover(Script {
        connected: vec![Some("Magic Mouse".to_string())],
        pumps: vec![pipeline(0, "Magic Mouse", 42)],
    });
    assert_eq!(run.readings, vec![("Magic Mouse".to_string(), 42)]);
    assert_eq!(run.ending, Ending::Completed);
    assert_eq!(run.pumps, 1);
    assert!(run.done);
    assert_eq!(run.pending, 0);
    assert_eq!(
        run.requests,
        vec![
            Request::RetrieveConnectedPeripherals,
            Request::Connect { peripheral: 0 },
            Request::DiscoverServices { peripheral: 0 },
            Request::DiscoverCharacteristics { peripheral: 0, service: 0 },
            Request::ReadValue { peripheral: 0, service: 0, characteristic: 0 },
        ]
    );
}

#[test]
fn one_peripheral_over_several_pumps() {
    let mut events = pipeline(0, "Magic Mouse", 42).into_iter();
    let pumps: Vec<Vec<Event>> = vec![
        Vec::new(),
        vec![events.next().unwrap()],
        vec![events.next().unwrap(), events.next().unwrap()],
        Vec::new(),
        vec![events.next().unwrap()],
    ];
    let run = discover(Script { connected: vec![Some("Magic Mouse".to_string())], pumps });
    assert_eq!(run.readings, vec![("Magic Mouse".to_string(), 42)]);
    assert_eq!(run.ending, Ending::Completed);
    assert_eq!(run.pumps, 5);
}

#[test]
fn one_success_and_one_failed_connect() {
    let mut pumps = vec![pipeline(0, "Keyboard", 77)];
    pumps.push(vec![Event::ConnectFailed { peripheral: 1 }]);
    let run = discover(Script {
        connected: vec![Some("Keyboard".to_string()), Some("Mouse".to_string())],
        pumps,
    });
    assert_eq!(run.readings, vec![("Keyboard".to_string(), 77)]);
    assert_eq!(run.ending, Ending::Completed);
    assert_eq!(run.pumps, 2);
    assert_eq!(run.pending, 0);
    assert!(run.done);
}

#[test]
fn one_failed_connect_and_one_success() {
    let pumps = vec![vec![Event::ConnectFailed { peripheral: 1 }], pipeline(0, "Keyboard", 77)];
    let run = discover(Script {
        connected: vec![Some("Keyboard".to_string()), Some("Mouse".to_string())],
        pumps,
    });
    assert_eq!(run.readings, vec![("Keyboard".to_string(), 77)]);
    assert_eq!(run.ending, Ending::Completed);
    assert_eq!(run.pending, 0);
    assert!(run.done);
}

#[test]
fn success_and_failure_step_by_step() {
    let mut delegate = CentralDelegate::new();
    delegate.central_manager_did_update_state(ManagerState::PoweredOn);
    delegate.handle_powered_on(&vec![Some("Keyboard".to_string()), Some("Mouse".to_string())]);
    assert_eq!(delegate.pending(), 2);
    delegate.handle_events(&pipeline(0, "Keyboard", 77));
    assert_eq!(delegate.pending(), 1);
    assert!(!delegate.is_done());
    assert_eq!(next_step(&delegate, 100), NextStep::Pump);
    delegate.central_manager_did_fail_to_connect_peripheral(1);
    assert_eq!(delegate.pending(), 0);
    assert!(delegate.is_done());
    assert_eq!(next_step(&delegate, 100), NextStep::Finish);
    assert_eq!(delegate.session(0).unwrap().stage, Stage::Done);
    assert_eq!(
        delegate.session(1).unwrap().stage,
        Stage::Failed(FailureReason::ConnectFailed)
    );
    assert_eq!(delegate.take_results(), vec![("Keyboard".to_string(), 77)]);
}

#[test]
fn a_silent_peripheral_runs_into_the_timeout() {
    let run = discover(Script { connected: vec![Some("Mouse".to_string())], pumps: Vec::new() });
    assert!(run.readings.is_empty());
    assert_eq!(run.ending, Ending::TimedOut { elapsed_ms: 2000 });
    assert_eq!(run.pumps, 20);
    assert_eq!(run.pending, 1);
    assert!(!run.done);
    assert_eq!(
        run.requests,
        vec![Request::RetrieveConnectedPeripherals, Request::Connect { peripheral: 0 }]
    );
}

#[test]
fn a_timeout_keeps_what_was_read() {
    let run = discover(Script {
        connected: vec![Some("Keyboard".to_string()), Some("Mouse".to_string())],
        pumps: vec![pipeline(0, "Keyboard", 77)],
    });
    assert_eq!(run.readings, vec![("Keyboard".to_string(), 77)]);
    assert_eq!(run.ending, Ending::TimedOut { elapsed_ms: 2000 });
    assert_eq!(run.pending, 1);
    assert!(!run.done);
}

#[test]
fn a_radio_that_never_gets_ready_runs_into_the_timeout() {
    let mut delegate = CentralDelegate::new();
    assert!(delegate.central_manager_did_update_state(ManagerState::PoweredOff).is_empty());
    let mut elapsed: u64 = 0;
    while next_step(&delegate, elapsed) == NextStep::Pump {
        elapsed += RUN_LOOP_INTERVAL_MS;
    }
    let outcome = conclude(&mut delegate, elapsed);
    assert!(outcome.readings.is_empty());
    assert_eq!(outcome.ending, Ending::TimedOut { elapsed_ms: 2000 });
}

#[test]
fn the_controller_pumps_until_done_or_out_of_time() {
    assert_eq!(GATT_DISCOVERY_TIMEOUT_MS, 2000);
    assert_eq!(RUN_LOOP_INTERVAL_MS, 100);
    let mut delegate = CentralDelegate::new();
    delegate.handle_powered_on(&vec![None]);
    assert_eq!(next_step(&delegate, 0), NextStep::Pump);
    assert_eq!(next_step(&delegate, 1999), NextStep::Pump);
    assert_eq!(next_step(&delegate, 2000), NextStep::Finish);
    assert_eq!(next_step(&delegate, 2001), NextStep::Finish);
    assert_eq!(next_step(&delegate, u64::MAX), NextStep::Finish);
    delegate.central_manager_did_fail_to_connect_peripheral(0);
    assert_eq!(next_step(&delegate, 0), NextStep::Finish);
    assert_eq!(next_step(&delegate, 1999), NextStep::Finish);
}

#[test]
fn concluding_says_how_the_discovery_ended() {
    let mut waiting = CentralDelegate::new();
    waiting.handle_powered_on(&vec![None]);
    let outcome = conclude(&mut waiting, 2034);
    assert_eq!(outcome.ending, Ending::TimedOut { elapsed_ms: 2034 });
    assert!(outcome.readings.is_empty());
    assert_eq!(waiting.pending(), 1);
    assert!(!waiting.is_done());

    let mut done = CentralDelegate::new();
    done.handle_powered_on(&vec![None]);
    done.handle_events(&pipeline(0, "Pen", 3));
    let outcome = conclude(&mut done, 2034);
    assert_eq!(outcome.ending, Ending::Completed);
    assert_eq!(outcome.readings, vec![("Pen".to_string(), 3)]);
    assert!(done.results().is_empty());
    let again = conclude(&mut done, 2034);
    assert!(again.readings.is_empty());
    assert_eq!(again.ending, Ending::Completed);
}

#[test]
fn readings_flow_into_the_list_of_devices() {
    let run = discover(Script {
        connected: vec![
            Some("Keyboard".to_string()),
            Some("Empty".to_string()),
            Some("Mouse".to_string()),
        ],
        pumps: vec![pipeline(2, "Mouse", 42), pipeline(1, "Empty", 0), pipeline(0, "Keyboard", 76)],
    });
    assert_eq!(run.ending, Ending::Completed);
    assert_eq!(
        run.readings,
        vec![
            ("Mouse".to_string(), 42),
            ("Empty".to_string(), 0),
            ("Keyboard".to_string(), 76),
        ]
    );
    let devices = get_connected_devices(&run.readings, &Vec::new(), None);
    let lines: Vec<String> = devices.iter().map(format_device_output).collect();
    assert_eq!(lines, vec!["Mouse: 42%", "Keyboard: 76%"]);
}
