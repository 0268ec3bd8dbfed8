//! One reading of the device as a state machine. The machine names the next
//! transport operation; the caller performs it and hands back what came of
//! it. Which device is opened, which endpoint is used, what is fatal and
//! what is put back at the end is decided here.

use crate::descriptor::{find_readable_endpoints, readable_endpoints, Configuration, Endpoint};
use crate::protocol::{is_target, matches_target, received, received_bytes};
use crate::report::{decode_report, decoded, Telemetry};
use vstd::prelude::*;

verus! {

/// Why the transport could not do what it was asked.
#[derive(Clone, Copy, Debug, PartialEq, Eq)]
pub enum TransportError {
    Io,
    InvalidParam,
    Access,
    NoDevice,
    NotFound,
    Busy,
    Timeout,
    Overflow,
    Pipe,
    Interrupted,
    NoMem,
    NotSupported,
    BadDescriptor,
    Other,
}

/// Why a session ended without a reading.
#[derive(Clone, Copy, Debug, PartialEq, Eq)]
pub enum Error {
    /// No device with the right identifiers could be opened.
    DeviceNotFound,
    /// The device declares no endpoint.
    NoEndpointFound,
    /// A transport operation that the session cannot do without failed.
    Transport(TransportError),
    /// The caller answered an operation with the result of another.
    UnexpectedEvent,
}

/// What the caller is to do next.
#[derive(Clone, Copy, Debug, PartialEq, Eq)]
pub enum Action {
    /// Enumerate the connected devices; answered by `Event::Devices`.
    ListDevices,
    /// Read the identifiers of device `index`; answered by `Event::DeviceIds`.
    ReadDeviceIds { index: usize },
    /// Open device `index`.
    OpenDevice { index: usize },
    /// Read the descriptor tree of the opened device; answered by
    /// `Event::Configurations`.
    ReadConfigurations,
    /// Ask whether a kernel driver is bound to the interface; answered by
    /// `Event::KernelDriver`.
    QueryKernelDriver { iface: u8 },
    /// Detach the kernel driver from the interface.
    DetachKernelDriver { iface: u8 },
    /// Activate the configuration.
    SetConfiguration { config: u8 },
    /// Claim the interface.
    ClaimInterface { iface: u8 },
    /// Select the alternate setting of the interface.
    SetAlternateSetting { iface: u8, setting: u8 },
    /// Send the idle request, as `protocol::set_idle` gives it.
    SetIdle,
    /// Send the set-report command, as `protocol::set_report` gives it.
    SetReport,
    /// Read one report from the endpoint, as `protocol::read_interrupt`
    /// asks for it; answered by `Event::Received`.
    ReadInterrupt { address: u8 },
    /// Hand the reading to the user, for instance as the lines of
    /// `render::report_lines`.
    Report(Telemetry),
    /// Release the interface.
    ReleaseInterface { iface: u8 },
    /// Put the kernel driver back on the interface.
    AttachKernelDriver { iface: u8 },
    /// Nothing more: the session has ended with this result.
    Finish(Result<(), Error>),
}

/// What came of the last action.
#[derive(Clone, Debug, PartialEq, Eq)]
pub enum Event {
    /// The number of connected devices.
    Devices { count: usize },
    /// The identifiers of the device asked about.
    DeviceIds { vendor_id: u16, product_id: u16 },
    /// The configurations of the device, `None` for one that could not be
    /// read.
    Configurations(Vec<Option<Configuration>>),
    /// Whether a kernel driver is bound to the interface.
    KernelDriver { active: bool },
    /// The buffer that an interrupt read filled, and how many bytes of it.
    Received { buffer: Vec<u8>, count: usize },
    /// The operation succeeded and has nothing to report.
    Completed,
    /// The operation failed.
    Failed(TransportError),
}

/// Where a session stands: the operation whose result it waits for. From
/// `Activating` on, `detached` says whether a kernel driver was detached
/// from the interface.
#[derive(Clone, Copy, Debug, PartialEq, Eq)]
pub enum State {
    /// The devices are being enumerated.
    Listing,
    /// The identifiers of device `index` of `count` are being read.
    Identifying { index: usize, count: usize },
    /// Device `index` of `count` is being opened.
    Opening { index: usize, count: usize },
    /// The descriptors of the open device are being read.
    Resolving,
    /// The kernel is being asked whether a driver holds the interface.
    QueryingDriver { endpoint: Endpoint },
    /// The kernel driver is being detached.
    Detaching { endpoint: Endpoint },
    /// The configuration is being activated.
    Activating { endpoint: Endpoint, detached: bool },
    /// The interface is being claimed.
    Claiming { endpoint: Endpoint, detached: bool },
    /// The alternate setting is being selected.
    Selecting { endpoint: Endpoint, detached: bool },
    /// The idle request is under way.
    Idling { endpoint: Endpoint, detached: bool },
    /// The set-report command is under way.
    Triggering { endpoint: Endpoint, detached: bool },
    /// The report is being read.
    Reading { endpoint: Endpoint, detached: bool },
    /// The reading is being handed to the user.
    Reporting { endpoint: Endpoint, detached: bool },
    /// The interface is being released.
    Releasing { endpoint: Endpoint, detached: bool },
    /// The kernel driver is being put back.
    Reattaching { endpoint: Endpoint },
    /// The session is over. `driver_detached` says whether a kernel driver
    /// was detached and has not been put back.
    Finished { result: Result<(), Error>, driver_detached: bool },
}

impl State {
    /// Whether a kernel driver has been detached and not put back.
    pub open spec fn driver_detached(self) -> bool {
        match self {
            State::Activating { detached, .. } => detached,
            State::Claiming { detached, .. } => detached,
            State::Selecting { detached, .. } => detached,
            State::Idling { detached, .. } => detached,
            State::Triggering { detached, .. } => detached,
            State::Reading { detached, .. } => detached,
            State::Reporting { detached, .. } => detached,
            State::Releasing { detached, .. } => detached,
            State::Reattaching { .. } => true,
            State::Finished { driver_detached, .. } => driver_detached,
            _ => false,
        }
    }

    /// Tells whether a kernel driver has been detached and not put back.
    pub fn is_driver_detached(&self) -> (detached: bool)
        ensures
            detached == self.driver_detached(),
    {
        match self {
            State::Activating { detached, .. } => *detached,
            State::Claiming { detached, .. } => *detached,
            State::Selecting { detached, .. } => *detached,
            State::Idling { detached, .. } => *detached,
            State::Triggering { detached, .. } => *detached,
            State::Reading { detached, .. } => *detached,
            State::Reporting { detached, .. } => *detached,
            State::Releasing { detached, .. } => *detached,
            State::Reattaching { .. } => true,
            State::Finished { driver_detached, .. } => *driver_detached,
            _ => false,
        }
    }
}

/// The session over after `state`, for the reason `error`. What is known of
/// the kernel driver is kept.
pub open spec fn fail(state: State, error: Error) -> (State, Action) {
    (
        State::Finished { result: Err(error), driver_detached: state.driver_detached() },
        Action::Finish(Err(error)),
    )
}

/// The error with which `event` ends a session that cannot go on without
/// the success of the operation it answers.
pub open spec fn failure(event: Event) -> Error {
    match event {
        Event::Failed(cause) => Error::Transport(cause),
        _ => Error::UnexpectedEvent,
    }
}

/// The search for the device at candidate `index` of `count`: its
/// identifiers are asked for, and with no candidate left the search is over.
pub open spec fn identify(index: int, count: usize) -> (State, Action) {
    if 0 <= index < count {
        (
            State::Identifying { index: index as usize, count },
            Action::ReadDeviceIds { index: index as usize },
        )
    } else {
        fail(State::Listing, Error::DeviceNotFound)
    }
}

/// The configuration of the session on `endpoint`, begun by activating the
/// endpoint's configuration.
pub open spec fn activate(endpoint: Endpoint, detached: bool) -> (State, Action) {
    (State::Activating { endpoint, detached }, Action::SetConfiguration { config: endpoint.config })
}

/// The transition function: the state that follows `state` on `event`, and
/// the action to take then.
///
/// The device is the first candidate, in bus order, that has the right
/// identifiers and can be opened. The endpoint is the first that the device
/// declares. An idle request that fails is passed over; every other failure
/// ends the session where it stands, with nothing undone.
pub open spec fn next(state: State, event: Event) -> (State, Action) {
    match state {
        State::Listing => match event {
            Event::Devices { count } => identify(0, count),
            _ => fail(state, Error::DeviceNotFound),
        },
        State::Identifying { index, count } => match event {
            Event::DeviceIds { vendor_id, product_id } => if is_target(vendor_id, product_id) {
                (State::Opening { index, count }, Action::OpenDevice { index })
            } else {
                identify(index + 1, count)
            },
            _ => identify(index + 1, count),
        },
        State::Opening { index, count } => match event {
            Event::Completed => (State::Resolving, Action::ReadConfigurations),
            _ => identify(index + 1, count),
        },
        State::Resolving => match event {
            Event::Configurations(configurations) => {
                let endpoints = readable_endpoints(configurations@);
                if endpoints.len() > 0 {
                    (
                        State::QueryingDriver { endpoint: endpoints[0] },
                        Action::QueryKernelDriver { iface: endpoints[0].iface },
                    )
                } else {
                    fail(state, Error::NoEndpointFound)
                }
            },
            _ => fail(state, failure(event)),
        },
        State::QueryingDriver { endpoint } => match event {
            Event::KernelDriver { active } => if active {
                (State::Detaching { endpoint }, Action::DetachKernelDriver { iface: endpoint.iface })
            } else {
                activate(endpoint, false)
            },
            _ => fail(state, failure(event)),
        },
        State::Detaching { endpoint } => match event {
            Event::Completed => activate(endpoint, true),
            _ => fail(state, failure(event)),
        },
        State::Activating { endpoint, detached } => match event {
            Event::Completed => (
                State::Claiming { endpoint, detached },
                Action::ClaimInterface { iface: endpoint.iface },
            ),
            _ => fail(state, failure(event)),
        },
        State::Claiming { endpoint, detached } => match event {
            Event::Completed => (
                State::Selecting { endpoint, detached },
                Action::SetAlternateSetting { iface: endpoint.iface, setting: endpoint.setting },
            ),
            _ => fail(state, failure(event)),
        },
        State::Selecting { endpoint, detached } => match event {
            Event::Completed => (State::Idling { endpoint, detached }, Action::SetIdle),
            _ => fail(state, failure(event)),
        },
        State::Idling { endpoint, detached } => (
            State::Triggering { endpoint, detached },
            Action::SetReport,
        ),
        State::Triggering { endpoint, detached } => match event {
            Event::Completed => (
                State::Reading { endpoint, detached },
                Action::ReadInterrupt { address: endpoint.address },
            ),
            _ => fail(state, failure(event)),
        },
        State::Reading { endpoint, detached } => match event {
            Event::Received { buffer, count } => (
                State::Reporting { endpoint, detached },
                Action::Report(decoded(received_bytes(buffer@, count as nat))),
            ),
            _ => fail(state, failure(event)),
        },
        State::Reporting { endpoint, detached } => (
            State::Releasing { endpoint, detached },
            Action::ReleaseInterface { iface: endpoint.iface },
        ),
        State::Releasing { endpoint, detached } => match event {
            Event::Completed => if detached {
                (
                    State::Reattaching { endpoint },
                    Action::AttachKernelDriver { iface: endpoint.iface },
                )
            } else {
                (State::Finished { result: Ok(()), driver_detached: false }, Action::Finish(Ok(())))
            },
            _ => fail(state, failure(event)),
        },
        State::Reattaching { endpoint } => match event {
            Event::Completed => (
                State::Finished { result: Ok(()), driver_detached: false },
                Action::Finish(Ok(())),
            ),
            _ => fail(state, failure(event)),
        },
        State::Finished { result, driver_detached } => (state, Action::Finish(result)),
    }
}

/// Ends the session after `state` for the reason `error`.
fn abort(state: State, error: Error) -> (step: (State, Action))
    ensures
        step == fail(state, error),
{
    let driver_detached = state.is_driver_detached();
    (State::Finished { result: Err(error), driver_detached }, Action::Finish(Err(error)))
}

/// Ends the session after `state` on an event that is not the success of
/// the operation waited for.
fn abort_on(state: State, event: Event) -> (step: (State, Action))
    ensures
        step == fail(state, failure(event)),
{
    match event {
        Event::Failed(cause) => abort(state, Error::Transport(cause)),
        _ => abort(state, Error::UnexpectedEvent),
    }
}

/// Goes on to the candidate after `index`, or gives the search up.
fn identify_after(index: usize, count: usize) -> (step: (State, Action))
    ensures
        step == identify(index + 1, count),
{
    if count > 0 && index < count - 1 {
        (State::Identifying { index: index + 1, count }, Action::ReadDeviceIds { index: index + 1 })
    } else {
        abort(State::Listing, Error::DeviceNotFound)
    }
}

/// Begins a session: the devices are to be enumerated.
pub fn start() -> (step: (State, Action))
    ensures
        step == (State::Listing, Action::ListDevices),
{
    (State::Listing, Action::ListDevices)
}

/// Takes the result of the last action and says what to do next.
pub fn step(state: State, event: Event) -> (step: (State, Action))
    ensures
        step == next(state, event),
{
    match state {
        State::Listing => match event {
            Event::Devices { count } => if count > 0 {
                (State::Identifying { index: 0, count }, Action::ReadDeviceIds { index: 0 })
            } else {
                abort(state, Error::DeviceNotFound)
            },
            _ => abort(state, Error::DeviceNotFound),
        },
        State::Identifying { index, count } => match event {
            Event::DeviceIds { vendor_id, product_id } => if matches_target(
                vendor_id,
                product_id,
            ) {
                (State::Opening { index, count }, Action::OpenDevice { index })
            } else {
                identify_after(index, count)
            },
            _ => identify_after(index, count),
        },
        State::Opening { index, count } => match event {
            Event::Completed => (State::Resolving, Action::ReadConfigurations),
            _ => identify_after(index, count),
        },
        State::Resolving => match event {
            Event::Configurations(configurations) => {
                let endpoints = find_readable_endpoints(configurations.as_slice());
                if endpoints.len() > 0 {
                    let endpoint = endpoints[0];
                    (
                        State::QueryingDriver { endpoint },
                        Action::QueryKernelDriver { iface: endpoint.iface },
                    )
                } else {
                    abort(state, Error::NoEndpointFound)
                }
            },
            other => abort_on(state, other),
        },
        State::QueryingDriver { endpoint } => match event {
            Event::KernelDriver { active } => if active {
                (State::Detaching { endpoint }, Action::DetachKernelDriver { iface: endpoint.iface })
            } else {
                (
                    State::Activating { endpoint, detached: false },
                    Action::SetConfiguration { config: endpoint.config },
                )
            },
            other => abort_on(state, other),
        },
        State::Detaching { endpoint } => match event {
            Event::Completed => (
                State::Activating { endpoint, detached: true },
                Action::SetConfiguration { config: endpoint.config },
            ),
            other => abort_on(state, other),
        },
        State::Activating { endpoint, detached } => match event {
            Event::Completed => (
                State::Claiming { endpoint, detached },
                Action::ClaimInterface { iface: endpoint.iface },
            ),
            other => abort_on(state, other),
        },
        State::Claiming { endpoint, detached } => match event {
            Event::Completed => (
                State::Selecting { endpoint, detached },
                Action::SetAlternateSetting { iface: endpoint.iface, setting: endpoint.setting },
            ),
            other => abort_on(state, other),
        },
        State::Selecting { endpoint, detached } => match event {
            Event::Completed => (State::Idling { endpoint, detached }, Action::SetIdle),
            other => abort_on(state, other),
        },
        State::Idling { endpoint, detached } => (
            State::Triggering { endpoint, detached },
            Action::SetReport,
        ),
        State::Triggering { endpoint, detached } => match event {
            Event::Completed => (
                State::Reading { endpoint, detached },
                Action::ReadInterrupt { address: endpoint.address },
            ),
            other => abort_on(state, other),
        },
        State::Reading { endpoint, detached } => match event {
            Event::Received { buffer, count } => {
                let telemetry = decode_report(received(buffer.as_slice(), count));
                (State::Reporting { endpoint, detached }, Action::Report(telemetry))
            },
            other => abort_on(state, other),
        },
        State::Reporting { endpoint, detached } => (
            State::Releasing { endpoint, detached },
            Action::ReleaseInterface { iface: endpoint.iface },
        ),
        State::Releasing { endpoint, detached } => match event {
            Event::Completed => if detached {
                (
                    State::Reattaching { endpoint },
                    Action::AttachKernelDriver { iface: endpoint.iface },
                )
            } else {
                (State::Finished { result: Ok(()), driver_detached: false }, Action::Finish(Ok(())))
            },
            other => abort_on(state, other),
        },
        State::Reattaching { endpoint } => match event {
            Event::Completed => (
                State::Finished { result: Ok(()), driver_detached: false },
                Action::Finish(Ok(())),
            ),
            other => abort_on(state, other),
        },
        State::Finished { result, driver_detached } => (state, Action::Finish(result)),
    }
}

/// The state of a session that has been handed `events`, in order.
pub open spec fn state_after(events: Seq<Event>) -> State
    decreases events.len(),
{
    if events.len() == 0 {
        State::Listing
    } else {
        next(state_after(events.drop_last()), events.last()).0
    }
}

/// The action that a session asks for when it has been handed `events`.
pub open spec fn action_after(events: Seq<Event>) -> Action {
    if events.len() == 0 {
        Action::ListDevices
    } else {
        next(state_after(events.drop_last()), events.last()).1
    }
}

/// Replays a session on recorded answers, without a device: every action
/// that the session asks for, the first included, and the state it reaches.
/// What is proved below of `state_after` and `action_after` holds of what
/// this returns.
pub fn replay(events: Vec<Event>) -> (run: (Vec<Action>, State))
    ensures
        run.0@.len() == events@.len() + 1,
        forall|n: int| 0 <= n <= events@.len() ==> run.0@[n] == action_after(events@.take(n)),
        run.1 == state_after(events@),
{
    let ghost all = events@;
    let (first_state, first_action) = start();
    let mut state = first_state;
    let mut actions: Vec<Action> = Vec::new();
    actions.push(first_action);
    for event in it: events
        invariant
            it.seq() == all,
            actions@.len() == it.index() + 1,
            state == state_after(all.take(it.index() as int)),
            forall|n: int| 0 <= n <= it.index() ==> actions@[n] == action_after(all.take(n)),
    {
        proof {
            let n = it.index() as int;
            assert(all.take(n + 1).drop_last() == all.take(n));
            assert(all.take(n + 1).last() == event);
        }
        let (following, action) = step(state, event);
        state = following;
        actions.push(action);
    }
    assert(all.take(all.len() as int) == all);
    (actions, state)
}

/// Whether `event` names a device with the identifiers looked for.
pub open spec fn names_target(event: Event) -> bool {
    match event {
        Event::DeviceIds { vendor_id, product_id } => is_target(vendor_id, product_id),
        _ => false,
    }
}

/// Whether `action` belongs to the search for the device and leaves every
/// device untouched: enumerating, reading identifiers, or giving up.
pub open spec fn only_searches(action: Action) -> bool {
    action is ListDevices || action is ReadDeviceIds || action == Action::Finish(
        Err(Error::DeviceNotFound),
    )
}

/// Where no connected device has the identifiers looked for, a session does
/// nothing but search: it opens no device, makes no transfer and reports no
/// reading, whatever else the transport answers.
pub proof fn no_target_no_transfer(events: Seq<Event>)
    requires
        forall|i: int| 0 <= i < events.len() ==> !names_target(#[trigger] events[i]),
    ensures
        forall|n: int|
            0 <= n <= events.len() ==> only_searches(#[trigger] action_after(events.take(n))),
        state_after(events) is Finished ==> state_after(events) == (State::Finished {
            result: Err(Error::DeviceNotFound),
            driver_detached: false,
        }),
{
    assert forall|n: int| 0 <= n <= events.len() implies only_searches(
        #[trigger] action_after(events.take(n)),
    ) by {
        search_goes_on(events.take(n));
    }
    search_goes_on(events);
}

/// Whether a session in `state` is searching for the device, or has given
/// the search up.
spec fn searching(state: State) -> bool {
    state is Listing || state is Identifying || state == (State::Finished {
        result: Err(Error::DeviceNotFound),
        driver_detached: false,
    })
}

proof fn search_goes_on(events: Seq<Event>)
    requires
        forall|i: int| 0 <= i < events.len() ==> !names_target(#[trigger] events[i]),
    ensures
        searching(state_after(events)),
        only_searches(action_after(events)),
    decreases events.len(),
{
    if events.len() > 0 {
        search_goes_on(events.drop_last());
        assert(!names_target(events[events.len() - 1]));
    }
}

/// Where the transport counts `count` devices and none has the identifiers
/// looked for, the session is over, without a device, once every device has
/// been asked about.
pub proof fn search_ends_without_target(events: Seq<Event>, count: usize)
    requires
        events.len() > count,
        events[0] == (Event::Devices { count }),
        forall|i: int| 0 <= i < events.len() ==> !names_target(#[trigger] events[i]),
    ensures
        state_after(events) == (State::Finished {
            result: Err(Error::DeviceNotFound),
            driver_detached: false,
        }),
{
    search_advances(events, count);
}

proof fn search_advances(events: Seq<Event>, count: usize)
    requires
        events.len() > 0,
        events[0] == (Event::Devices { count }),
        forall|i: int| 0 <= i < events.len() ==> !names_target(#[trigger] events[i]),
    ensures
        state_after(events) == (if events.len() <= count {
            State::Identifying { index: (events.len() - 1) as usize, count }
        } else {
            State::Finished { result: Err(Error::DeviceNotFound), driver_detached: false }
        }),
    decreases events.len(),
{
    let before = events.drop_last();
    assert(!names_target(events[events.len() - 1]));
    if events.len() > 1 {
        assert(before[0] == events[0]);
        search_advances(before, count);
    }
}

/// The device that `action` is about, where it reads a device's identifiers
/// or opens a device.
pub open spec fn candidate(action: Action) -> Option<usize> {
    match action {
        Action::ReadDeviceIds { index } => Some(index),
        Action::OpenDevice { index } => Some(index),
        _ => None,
    }
}

/// A device is opened only when its identifiers have just been read and are
/// the ones looked for.
pub proof fn opens_only_a_match(events: Seq<Event>)
    requires
        events.len() > 0,
        action_after(events) is OpenDevice,
    ensures
        names_target(events.last()),
        action_after(events.drop_last()) == (Action::ReadDeviceIds {
            index: candidate(action_after(events))->0,
        }),
{
    state_awaits_candidate(events.drop_last());
}

/// The search takes the devices in bus order and takes none twice: each time
/// identifiers are asked for, the device comes after every device that the
/// session has asked about or tried to open before.
pub proof fn search_goes_in_bus_order(events: Seq<Event>, earlier: int, later: int)
    requires
        0 <= earlier < later <= events.len(),
        candidate(action_after(events.take(earlier))) is Some,
        candidate(action_after(events.take(later))) is Some,
    ensures
        candidate(action_after(events.take(earlier)))->0 <= candidate(
            action_after(events.take(later)),
        )->0,
        action_after(events.take(later)) is ReadDeviceIds ==> candidate(
            action_after(events.take(earlier)),
        )->0 < candidate(action_after(events.take(later)))->0,
    decreases later - earlier,
{
    let before = events.take(later - 1);
    assert(events.take(later).drop_last() == before);
    state_awaits_candidate(before);
    state_awaits_candidate(events.take(later));
    if earlier < later - 1 {
        state_awaits_action(events.take(earlier));
        operations_come_in_order(events, earlier, later - 1);
        search_goes_in_bus_order(events, earlier, later - 1);
    }
}

/// The device that a session in `state` waits to hear about.
spec fn awaited_candidate(state: State) -> Option<usize> {
    match state {
        State::Identifying { index, .. } => Some(index),
        State::Opening { index, .. } => Some(index),
        _ => None,
    }
}

proof fn state_awaits_candidate(events: Seq<Event>)
    ensures
        awaited_candidate(state_after(events)) == candidate(action_after(events)),
        state_after(events) is Identifying <==> action_after(events) is ReadDeviceIds,
        state_after(events) is Opening <==> action_after(events) is OpenDevice,
    decreases events.len(),
{
    if events.len() > 0 {
        state_awaits_candidate(events.drop_last());
    }
}

/// The place of an operation in the order of a session. Reading a device's
/// identifiers and opening it share a place: the search goes to and fro
/// between them.
pub open spec fn place(action: Action) -> nat {
    match action {
        Action::ListDevices => 0,
        Action::ReadDeviceIds { .. } => 1,
        Action::OpenDevice { .. } => 1,
        Action::ReadConfigurations => 2,
        Action::QueryKernelDriver { .. } => 3,
        Action::DetachKernelDriver { .. } => 4,
        Action::SetConfiguration { .. } => 5,
        Action::ClaimInterface { .. } => 6,
        Action::SetAlternateSetting { .. } => 7,
        Action::SetIdle => 8,
        Action::SetReport => 9,
        Action::ReadInterrupt { .. } => 10,
        Action::Report(_) => 11,
        Action::ReleaseInterface { .. } => 12,
        Action::AttachKernelDriver { .. } => 13,
        Action::Finish(_) => 14,
    }
}

/// A session never goes back: whatever the transport answers, a later
/// operation has no earlier place than the one before. Once a device is
/// open, every operation is asked for at most once, in the order of
/// `place`, until the session is over.
pub proof fn operations_come_in_order(events: Seq<Event>, earlier: int, later: int)
    requires
        0 <= earlier < later <= events.len(),
    ensures
        place(action_after(events.take(earlier))) <= place(action_after(events.take(later))),
        2 <= place(action_after(events.take(earlier))) < 14 ==> place(
            action_after(events.take(earlier)),
        ) < place(action_after(events.take(later))),
    decreases later - earlier,
{
    let before = events.take(later - 1);
    assert(events.take(later).drop_last() == before);
    state_awaits_action(before);
    state_awaits_action(events.take(later));
    if earlier < later - 1 {
        operations_come_in_order(events, earlier, later - 1);
    }
}

/// The place of the operation that a session in `state` waits for.
spec fn awaited_place(state: State) -> nat {
    match state {
        State::Listing => 0,
        State::Identifying { .. } => 1,
        State::Opening { .. } => 1,
        State::Resolving => 2,
        State::QueryingDriver { .. } => 3,
        State::Detaching { .. } => 4,
        State::Activating { .. } => 5,
        State::Claiming { .. } => 6,
        State::Selecting { .. } => 7,
        State::Idling { .. } => 8,
        State::Triggering { .. } => 9,
        State::Reading { .. } => 10,
        State::Reporting { .. } => 11,
        State::Releasing { .. } => 12,
        State::Reattaching { .. } => 13,
        State::Finished { .. } => 14,
    }
}

proof fn state_awaits_action(events: Seq<Event>)
    ensures
        awaited_place(state_after(events)) == place(action_after(events)),
    decreases events.len(),
{
    if events.len() > 0 {
        state_awaits_action(events.drop_last());
    }
}

/// Whether, in the session handed `events`, the kernel driver was detached:
/// a detach was asked for and succeeded.
pub open spec fn detach_succeeded(events: Seq<Event>) -> bool
    decreases events.len(),
{
    events.len() > 0 && (detach_succeeded(events.drop_last()) || (state_after(
        events.drop_last(),
    ) is Detaching && events.last() is Completed))
}

/// Whether, in the session handed `events`, the interface was released:
/// the release was asked for and succeeded.
pub open spec fn interface_released(events: Seq<Event>) -> bool
    decreases events.len(),
{
    events.len() > 0 && (interface_released(events.drop_last()) || (state_after(
        events.drop_last(),
    ) is Releasing && events.last() is Completed))
}

/// Whether, in the session handed `events`, the kernel driver was put back:
/// the reattach was asked for and succeeded.
pub open spec fn reattach_succeeded(events: Seq<Event>) -> bool
    decreases events.len(),
{
    events.len() > 0 && (reattach_succeeded(events.drop_last()) || (state_after(
        events.drop_last(),
    ) is Reattaching && events.last() is Completed))
}

/// How often the session handed `events` has asked for the kernel driver to
/// be put back.
pub open spec fn reattach_count(events: Seq<Event>) -> nat
    decreases events.len(),
{
    if events.len() == 0 {
        0
    } else {
        reattach_count(events.drop_last()) + (if action_after(events) is AttachKernelDriver {
            1nat
        } else {
            0nat
        })
    }
}

/// A session asks for the kernel driver to be put back exactly once when it
/// has detached the driver and has released the interface, and never
/// otherwise. A session that ends before it has released the interface asks
/// for nothing more.
pub proof fn reattach_once_after_release(events: Seq<Event>)
    ensures
        reattach_count(events) == (if detach_succeeded(events) && interface_released(events) {
            1nat
        } else {
            0nat
        }),
{
    teardown_invariant(events);
}

/// What a session knows of the kernel driver is never lost: in every state,
/// also after a failure, the session says that the driver is detached
/// exactly when it was detached and has not been put back.
pub proof fn driver_flag_is_kept(events: Seq<Event>)
    ensures
        state_after(events).driver_detached() == (detach_succeeded(events) && !reattach_succeeded(
            events,
        )),
{
    teardown_invariant(events);
}

/// Whether a session in `state` has selected an endpoint and has not begun
/// to put the kernel driver back.
spec fn in_session(state: State) -> bool {
    state is Activating || state is Claiming || state is Selecting || state is Idling || state
        is Triggering || state is Reading || state is Reporting || state is Releasing
}

proof fn teardown_invariant(events: Seq<Event>)
    ensures
        state_after(events).driver_detached() == (detach_succeeded(events) && !reattach_succeeded(
            events,
        )),
        reattach_count(events) == (if detach_succeeded(events) && interface_released(events) {
            1nat
        } else {
            0nat
        }),
        !(in_session(state_after(events)) || state_after(events) is Reattaching || state_after(
            events,
        ) is Finished) ==> !detach_succeeded(events),
        !(state_after(events) is Reattaching || state_after(events) is Finished)
            ==> !interface_released(events),
        !(state_after(events) is Finished) ==> !reattach_succeeded(events),
        state_after(events) is Reattaching ==> detach_succeeded(events) && interface_released(
            events,
        ),
    decreases events.len(),
{
    if events.len() > 0 {
        teardown_invariant(events.drop_last());
    }
}

} // verus!
