use cooler_telemetry::descriptor::{Configuration, Endpoint, Interface, InterfaceSetting};
use cooler_telemetry::report::Telemetry;
use cooler_telemetry::session::{
    replay, start, step, Action, Error, Event, State, TransportError,
};

const ENDPOINT: Endpoint = Endpoint { config: 1, iface: 2, setting: 3, address: 0x81 };

fn tree() -> Vec<Option<Configuration>> {
    vec![
        None,
        Some(Configuration {
            number: 1,
            interfaces: vec![Some(Interface {
                settings: vec![
                    InterfaceSetting {
                        interface_number: 2,
                        setting_number: 3,
                        endpoint_addresses: vec![0x81, 0x01],
                    },
                    InterfaceSetting {
                        interface_number: 2,
                        setting_number: 4,
                        endpoint_addresses: vec![0x82],
                    },
                ],
            })],
        }),
    ]
}

fn target() -> Event {
    Event::DeviceIds { vendor_id: 0x1b1c, product_id: 0x0c22 }
}

fn other_device() -> Event {
    Event::DeviceIds { vendor_id: 0x1d6b, product_id: 0x0002 }
}

fn report() -> Vec<u8> {
    let mut data = vec![0u8; 64];
    data[8] = 0x05;
    data[15] = 0xe8;
    data[16] = 0x03;
    data[43] = 0x10;
    data[44] = 0x02;
    data
}

/// Hands the events to a fresh session, one step at a time, and gives back
/// every action asked for, the first included, and the state reached.
fn run(events: Vec<Event>) -> (Vec<Action>, State) {
    let (mut state, first) = start();
    let mut actions = vec![first];
    for event in events {
        let (next, action) = step(state, event);
        state = next;
        actions.push(action);
    }
    (actions, state)
}

/// The events of a session up to the answer to the kernel-driver query.
fn up_to_query() -> Vec<Event> {
    vec![Event::Devices { count: 1 }, target(), Event::Completed, Event::Configurations(tree())]
}

/// The events of a session with a kernel driver, up to the answer to the
/// release of the interface.
fn detached_up_to_release() -> Vec<Event> {
    let mut events = up_to_query();
    events.extend(vec![
        Event::KernelDriver { active: true },
        Event::Completed,
        Event::Completed,
        Event::Completed,
        Event::Completed,
        Event::Completed,
        Event::Completed,
        Event::Received { buffer: report(), count: 64 },
        Event::Completed,
    ]);
    events
}

fn count_reattach(actions: &[Action]) -> usize {
    actions.iter().filter(|a| matches!(a, Action::AttachKernelDriver { .. })).count()
}

#[test]
fn session_begins_by_listing_devices() {
    assert_eq!(start(), (State::Listing, Action::ListDevices));
}

#[test]
fn reading_without_kernel_driver() {
    let mut events = up_to_query();
    events.extend(vec![
        Event::KernelDriver { active: false },
        Event::Completed,
        Event::Completed,
        Event::Completed,
        Event::Completed,
        Event::Completed,
        Event::Received { buffer: report(), count: 64 },
        Event::Completed,
        Event::Completed,
    ]);
    let (actions, state) = run(events);
    assert_eq!(
        actions,
        vec![
            Action::ListDevices,
            Action::ReadDeviceIds { index: 0 },
            Action::OpenDevice { index: 0 },
            Action::ReadConfigurations,
            Action::QueryKernelDriver { iface: 2 },
            Action::SetConfiguration { config: 1 },
            Action::ClaimInterface { iface: 2 },
            Action::SetAlternateSetting { iface: 2, setting: 3 },
            Action::SetIdle,
            Action::SetReport,
            Action::ReadInterrupt { address: 0x81 },
            Action::Report(Telemetry {
                temperature_raw: 1280,
                fan1_rpm: 1000,
                fan2_rpm: 0,
                fan3_rpm: 0x0210,
                pump_rpm: 0,
            }),
            Action::ReleaseInterface { iface: 2 },
            Action::Finish(Ok(())),
        ]
    );
    assert_eq!(state, State::Finished { result: Ok(()), driver_detached: false });
    assert_eq!(count_reattach(&actions), 0);
}

#[test]
fn reading_with_kernel_driver_reattaches_once() {
    let mut events = detached_up_to_release();
    events.push(Event::Completed);
    events.push(Event::Completed);
    let (actions, state) = run(events);
    assert_eq!(
        actions,
        vec![
            Action::ListDevices,
            Action::ReadDeviceIds { index: 0 },
            Action::OpenDevice { index: 0 },
            Action::ReadConfigurations,
            Action::QueryKernelDriver { iface: 2 },
            Action::DetachKernelDriver { iface: 2 },
            Action::SetConfiguration { config: 1 },
            Action::ClaimInterface { iface: 2 },
            Action::SetAlternateSetting { iface: 2, setting: 3 },
            Action::SetIdle,
            Action::SetReport,
            Action::ReadInterrupt { address: 0x81 },
            Action::Report(Telemetry {
                temperature_raw: 1280,
                fan1_rpm: 1000,
                fan2_rpm: 0,
                fan3_rpm: 0x0210,
                pump_rpm: 0,
            }),
            Action::ReleaseInterface { iface: 2 },
            Action::AttachKernelDriver { iface: 2 },
            Action::Finish(Ok(())),
        ]
    );
    assert_eq!(state, State::Finished { result: Ok(()), driver_detached: false });
    assert_eq!(count_reattach(&actions), 1);
}

#[test]
fn no_matching_device_ends_the_session_at_once() {
    let (actions, state) = run(vec![
        Event::Devices { count: 3 },
        other_device(),
        Event::DeviceIds { vendor_id: 0x1b1c, product_id: 0x0c21 },
        Event::DeviceIds { vendor_id: 0x1b1d, product_id: 0x0c22 },
    ]);
    assert_eq!(
        actions,
        vec![
            Action::ListDevices,
            Action::ReadDeviceIds { index: 0 },
            Action::ReadDeviceIds { index: 1 },
            Action::ReadDeviceIds { index: 2 },
            Action::Finish(Err(Error::DeviceNotFound)),
        ]
    );
    assert_eq!(
        state,
        State::Finished { result: Err(Error::DeviceNotFound), driver_detached: false }
    );
}

#[test]
fn no_device_at_all_is_not_found() {
    let (actions, state) = run(vec![Event::Devices { count: 0 }]);
    assert_eq!(actions, vec![Action::ListDevices, Action::Finish(Err(Error::DeviceNotFound))]);
    assert_eq!(
        state,
        State::Finished { result: Err(Error::DeviceNotFound), driver_detached: false }
    );
}

#[test]
fn failed_enumeration_is_not_found() {
    let (actions, _) = run(vec![Event::Failed(TransportError::Access)]);
    assert_eq!(actions, vec![Action::ListDevices, Action::Finish(Err(Error::DeviceNotFound))]);
}

#[test]
fn unreadable_device_is_passed_over() {
    let (actions, state) =
        run(vec![Event::Devices { count: 2 }, Event::Failed(TransportError::Io), target()]);
    assert_eq!(
        actions,
        vec![
            Action::ListDevices,
            Action::ReadDeviceIds { index: 0 },
            Action::ReadDeviceIds { index: 1 },
            Action::OpenDevice { index: 1 },
        ]
    );
    assert_eq!(state, State::Opening { index: 1, count: 2 });
}

#[test]
fn device_that_cannot_be_opened_falls_through_to_the_next() {
    let (actions, state) = run(vec![
        Event::Devices { count: 3 },
        target(),
        Event::Failed(TransportError::Busy),
        other_device(),
        target(),
        Event::Completed,
    ]);
    assert_eq!(
        actions,
        vec![
            Action::ListDevices,
            Action::ReadDeviceIds { index: 0 },
            Action::OpenDevice { index: 0 },
            Action::ReadDeviceIds { index: 1 },
            Action::ReadDeviceIds { index: 2 },
            Action::OpenDevice { index: 2 },
            Action::ReadConfigurations,
        ]
    );
    assert_eq!(state, State::Resolving);
}

#[test]
fn every_match_failing_to_open_is_not_found() {
    let (actions, _) = run(vec![
        Event::Devices { count: 2 },
        target(),
        Event::Failed(TransportError::Access),
        target(),
        Event::Failed(TransportError::Busy),
    ]);
    assert_eq!(actions.last(), Some(&Action::Finish(Err(Error::DeviceNotFound))));
    assert_eq!(actions.len(), 6);
}

#[test]
fn device_without_endpoints_is_fatal_before_any_change() {
    let (actions, state) = run(vec![
        Event::Devices { count: 1 },
        target(),
        Event::Completed,
        Event::Configurations(vec![Some(Configuration { number: 1, interfaces: vec![] }), None]),
    ]);
    assert_eq!(
        actions,
        vec![
            Action::ListDevices,
            Action::ReadDeviceIds { index: 0 },
            Action::OpenDevice { index: 0 },
            Action::ReadConfigurations,
            Action::Finish(Err(Error::NoEndpointFound)),
        ]
    );
    assert_eq!(
        state,
        State::Finished { result: Err(Error::NoEndpointFound), driver_detached: false }
    );
}

#[test]
fn unreadable_descriptors_are_fatal() {
    let (actions, _) = run(vec![
        Event::Devices { count: 1 },
        target(),
        Event::Completed,
        Event::Failed(TransportError::BadDescriptor),
    ]);
    assert_eq!(
        actions.last(),
        Some(&Action::Finish(Err(Error::Transport(TransportError::BadDescriptor))))
    );
}

#[test]
fn first_endpoint_is_the_one_used() {
    let (actions, state) = run(up_to_query());
    assert_eq!(actions.last(), Some(&Action::QueryKernelDriver { iface: 2 }));
    assert_eq!(state, State::QueryingDriver { endpoint: ENDPOINT });
}

#[test]
fn failed_driver_query_is_fatal() {
    let mut events = up_to_query();
    events.push(Event::Failed(TransportError::NotSupported));
    let (actions, state) = run(events);
    assert_eq!(
        actions.last(),
        Some(&Action::Finish(Err(Error::Transport(TransportError::NotSupported))))
    );
    assert_eq!(
        state,
        State::Finished {
            result: Err(Error::Transport(TransportError::NotSupported)),
            driver_detached: false,
        }
    );
}

#[test]
fn failed_detach_is_fatal_and_leaves_the_driver() {
    let mut events = up_to_query();
    events.push(Event::KernelDriver { active: true });
    events.push(Event::Failed(TransportError::NotFound));
    let (actions, state) = run(events);
    assert_eq!(
        state,
        State::Finished {
            result: Err(Error::Transport(TransportError::NotFound)),
            driver_detached: false,
        }
    );
    assert_eq!(count_reattach(&actions), 0);
}

#[test]
fn each_configuration_step_is_fatal_on_failure() {
    for completed in 0..3usize {
        let mut events = up_to_query();
        events.push(Event::KernelDriver { active: true });
        events.push(Event::Completed);
        for _ in 0..completed {
            events.push(Event::Completed);
        }
        events.push(Event::Failed(TransportError::Busy));
        let (actions, state) = run(events);
        assert_eq!(
            state,
            State::Finished {
                result: Err(Error::Transport(TransportError::Busy)),
                driver_detached: true,
            }
        );
        assert_eq!(actions.len(), 8 + completed);
        assert_eq!(
            actions.last(),
            Some(&Action::Finish(Err(Error::Transport(TransportError::Busy))))
        );
        assert!(!actions.contains(&Action::ReleaseInterface { iface: 2 }));
        assert_eq!(count_reattach(&actions), 0);
    }
}

#[test]
fn failed_idle_request_is_passed_over() {
    let mut events = up_to_query();
    events.extend(vec![
        Event::KernelDriver { active: false },
        Event::Completed,
        Event::Completed,
        Event::Completed,
        Event::Failed(TransportError::Pipe),
    ]);
    let (actions, state) = run(events);
    assert_eq!(actions.last(), Some(&Action::SetReport));
    assert_eq!(state, State::Triggering { endpoint: ENDPOINT, detached: false });
}

#[test]
fn failed_set_report_is_fatal() {
    let mut events = up_to_query();
    events.extend(vec![
        Event::KernelDriver { active: true },
        Event::Completed,
        Event::Completed,
        Event::Completed,
        Event::Completed,
        Event::Completed,
        Event::Failed(TransportError::Timeout),
    ]);
    let (actions, state) = run(events);
    assert_eq!(
        actions.last(),
        Some(&Action::Finish(Err(Error::Transport(TransportError::Timeout))))
    );
    assert_eq!(
        state,
        State::Finished {
            result: Err(Error::Transport(TransportError::Timeout)),
            driver_detached: true,
        }
    );
    assert!(!actions.iter().any(|a| matches!(a, Action::ReadInterrupt { .. })));
    assert!(!actions.iter().any(|a| matches!(a, Action::Report(_))));
    assert!(!actions.iter().any(|a| matches!(a, Action::ReleaseInterface { .. })));
    assert_eq!(count_reattach(&actions), 0);
}

#[test]
fn failed_read_is_fatal() {
    let mut events = up_to_query();
    events.extend(vec![
        Event::KernelDriver { active: false },
        Event::Completed,
        Event::Completed,
        Event::Completed,
        Event::Completed,
        Event::Completed,
        Event::Failed(TransportError::Timeout),
    ]);
    let (actions, state) = run(events);
    assert_eq!(
        state,
        State::Finished {
            result: Err(Error::Transport(TransportError::Timeout)),
            driver_detached: false,
        }
    );
    assert!(!actions.iter().any(|a| matches!(a, Action::Report(_))));
    assert!(!actions.iter().any(|a| matches!(a, Action::ReleaseInterface { .. })));
}

#[test]
fn partial_read_decodes_what_was_received() {
    let mut events = up_to_query();
    events.extend(vec![
        Event::KernelDriver { active: false },
        Event::Completed,
        Event::Completed,
        Event::Completed,
        Event::Completed,
        Event::Completed,
        Event::Received { buffer: report(), count: 17 },
    ]);
    let (actions, _) = run(events);
    assert_eq!(
        actions.last(),
        Some(&Action::Report(Telemetry {
            temperature_raw: 1280,
            fan1_rpm: 1000,
            fan2_rpm: 0,
            fan3_rpm: 0,
            pump_rpm: 0,
        }))
    );
}

#[test]
fn failed_release_ends_without_reattach() {
    let mut events = detached_up_to_release();
    events.push(Event::Failed(TransportError::NoDevice));
    let (actions, state) = run(events);
    assert_eq!(
        state,
        State::Finished {
            result: Err(Error::Transport(TransportError::NoDevice)),
            driver_detached: true,
        }
    );
    assert_eq!(count_reattach(&actions), 0);
    assert!(actions.iter().any(|a| matches!(a, Action::Report(_))));
}

#[test]
fn failed_reattach_is_reported() {
    let mut events = detached_up_to_release();
    events.push(Event::Completed);
    events.push(Event::Failed(TransportError::Busy));
    let (actions, state) = run(events);
    assert_eq!(
        state,
        State::Finished {
            result: Err(Error::Transport(TransportError::Busy)),
            driver_detached: true,
        }
    );
    assert_eq!(count_reattach(&actions), 1);
}

#[test]
fn answer_of_the_wrong_kind_is_an_error() {
    let (actions, _) =
        run(vec![Event::Devices { count: 1 }, target(), Event::Completed, Event::Completed]);
    assert_eq!(actions.last(), Some(&Action::Finish(Err(Error::UnexpectedEvent))));
    let mut events = up_to_query();
    events.push(Event::Devices { count: 1 });
    let (actions, _) = run(events);
    assert_eq!(actions.last(), Some(&Action::Finish(Err(Error::UnexpectedEvent))));
}

#[test]
fn finished_session_stays_finished() {
    let mut events = detached_up_to_release();
    events.push(Event::Completed);
    events.push(Event::Completed);
    events.push(Event::Completed);
    events.push(Event::KernelDriver { active: true });
    events.push(Event::Failed(TransportError::Other));
    let (actions, state) = run(events);
    assert_eq!(state, State::Finished { result: Ok(()), driver_detached: false });
    assert_eq!(&actions[actions.len() - 3..], &[Action::Finish(Ok(())); 3]);
    assert_eq!(count_reattach(&actions), 1);
}

#[test]
fn driver_flag_follows_the_session() {
    let events = detached_up_to_release();
    let (mut state, _) = start();
    let mut seen = vec![state.is_driver_detached()];
    for event in events {
        state = step(state, event).0;
        seen.push(state.is_driver_detached());
    }
    let expected: Vec<bool> = (0..14).map(|i| i >= 6).collect();
    assert_eq!(seen, expected);
    state = step(state, Event::Completed).0;
    assert!(state.is_driver_detached());
    state = step(state, Event::Completed).0;
    assert!(!state.is_driver_detached());
}

#[test]
fn replay_is_stepping_from_the_start() {
    assert_eq!(replay(vec![]), (vec![Action::ListDevices], State::Listing));
    let mut events = detached_up_to_release();
    events.push(Event::Completed);
    events.push(Event::Completed);
    for n in 0..=events.len() {
        let prefix: Vec<Event> = events[..n].to_vec();
        let (actions, state) = replay(prefix.clone());
        assert_eq!(actions.len(), n + 1);
        assert_eq!((actions, state), run(prefix));
    }
}

#[test]
fn replay_of_a_failed_session() {
    let (actions, state) = replay(vec![
        Event::Devices { count: 2 },
        other_device(),
        target(),
        Event::Completed,
        Event::Configurations(tree()),
        Event::KernelDriver { active: true },
        Event::Completed,
        Event::Failed(TransportError::Access),
    ]);
    assert_eq!(
        actions,
        vec![
            Action::ListDevices,
            Action::ReadDeviceIds { index: 0 },
            Action::ReadDeviceIds { index: 1 },
            Action::OpenDevice { index: 1 },
            Action::ReadConfigurations,
            Action::QueryKernelDriver { iface: 2 },
            Action::DetachKernelDriver { iface: 2 },
            Action::SetConfiguration { config: 1 },
            Action::Finish(Err(Error::Transport(TransportError::Access))),
        ]
    );
    assert_eq!(
        state,
        State::Finished {
            result: Err(Error::Transport(TransportError::Access)),
            driver_detached: true,
        }
    );
}
