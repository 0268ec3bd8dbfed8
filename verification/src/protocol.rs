//! The wire constants of the device and the three transfers of one reading:
//! an idle request, a set-report command that makes the device prepare its
//! report, and the interrupt read that fetches it.

use crate::report::REPORT_LEN;
use vstd::prelude::*;
use vstd::slice::slice_subrange;

verus! {

/// Vendor identifier of the device.
pub const VENDOR_ID: u16 = 0x1b1c;

/// Product identifier of the device.
pub const PRODUCT_ID: u16 = 0x0c22;

/// Bound on the wait for any one transfer, in milliseconds.
pub const TRANSFER_TIMEOUT_MS: u64 = 1000;

/// Request type of both control transfers: host to device, class-specific,
/// directed at an interface.
pub const CONTROL_REQUEST_TYPE: u8 = 0x21;

/// Request code of the idle request.
pub const SET_IDLE_REQUEST: u8 = 0x0a;

/// Value field of the idle request.
pub const SET_IDLE_VALUE: u16 = 0x0000;

/// Index field of the idle request.
pub const SET_IDLE_INDEX: u16 = 0x0000;

/// Request code of the set-report command.
pub const SET_REPORT_REQUEST: u8 = 0x09;

/// Value field of the set-report command.
pub const SET_REPORT_VALUE: u16 = 0x0200;

/// Index field of the set-report command.
pub const SET_REPORT_INDEX: u16 = 0x0000;

/// Length of the set-report payload, in bytes.
pub const SET_REPORT_LEN: usize = 64;

/// Whether a device with these identifiers is the one looked for.
pub open spec fn is_target(vendor_id: u16, product_id: u16) -> bool {
    vendor_id == VENDOR_ID && product_id == PRODUCT_ID
}

/// Tells whether a device with these identifiers is the one looked for.
pub fn matches_target(vendor_id: u16, product_id: u16) -> (matches: bool)
    ensures
        matches == is_target(vendor_id, product_id),
{
    vendor_id == VENDOR_ID && product_id == PRODUCT_ID
}

/// An outbound control transfer, ready to be handed to the transport.
#[derive(Clone, Debug, PartialEq, Eq)]
pub struct ControlRequest {
    /// Direction, type and recipient of the request.
    pub request_type: u8,
    /// Request code.
    pub request: u8,
    /// Value field.
    pub value: u16,
    /// Index field.
    pub index: u16,
    /// The bytes to send.
    pub payload: Vec<u8>,
    /// Bound on the wait, in milliseconds.
    pub timeout_ms: u64,
}

/// An inbound interrupt transfer, ready to be handed to the transport.
#[derive(Clone, Copy, Debug, PartialEq, Eq, Structural)]
pub struct InterruptRead {
    /// Address of the endpoint to read from.
    pub address: u8,
    /// Number of bytes asked for.
    pub length: usize,
    /// Bound on the wait, in milliseconds.
    pub timeout_ms: u64,
}

/// Byte `i` of the set-report payload: three command bytes in front, the
/// trigger byte at the end, zero between.
pub open spec fn set_report_byte(i: int) -> u8 {
    if i == 0 {
        0x3f
    } else if i == 1 {
        0x10
    } else if i == 2 {
        0xff
    } else if i == 63 {
        0x5b
    } else {
        0x00
    }
}

/// The 64 bytes of the set-report payload.
pub open spec fn set_report_payload() -> Seq<u8> {
    Seq::new(SET_REPORT_LEN as nat, |i: int| set_report_byte(i))
}

/// The idle request: fixed request code, value and index, and no payload.
pub fn set_idle() -> (request: ControlRequest)
    ensures
        request.request_type == CONTROL_REQUEST_TYPE,
        request.request == SET_IDLE_REQUEST,
        request.value == SET_IDLE_VALUE,
        request.index == SET_IDLE_INDEX,
        request.payload@ == Seq::<u8>::empty(),
        request.timeout_ms == TRANSFER_TIMEOUT_MS,
{
    ControlRequest {
        request_type: CONTROL_REQUEST_TYPE,
        request: SET_IDLE_REQUEST,
        value: SET_IDLE_VALUE,
        index: SET_IDLE_INDEX,
        payload: Vec::new(),
        timeout_ms: TRANSFER_TIMEOUT_MS,
    }
}

/// The set-report command, which makes the device prepare its report for the
/// next interrupt read.
pub fn set_report() -> (request: ControlRequest)
    ensures
        request.request_type == CONTROL_REQUEST_TYPE,
        request.request == SET_REPORT_REQUEST,
        request.value == SET_REPORT_VALUE,
        request.index == SET_REPORT_INDEX,
        request.payload@ == set_report_payload(),
        request.timeout_ms == TRANSFER_TIMEOUT_MS,
{
    let mut payload: Vec<u8> = Vec::new();
    payload.push(0x3f);
    payload.push(0x10);
    payload.push(0xff);
    while payload.len() < SET_REPORT_LEN - 1
        invariant
            3 <= payload.len() <= SET_REPORT_LEN - 1,
            forall|i: int| 0 <= i < payload.len() ==> payload[i] == set_report_byte(i),
        decreases SET_REPORT_LEN - payload.len(),
    {
        payload.push(0x00);
    }
    payload.push(0x5b);
    assert(payload@ =~= set_report_payload());
    ControlRequest {
        request_type: CONTROL_REQUEST_TYPE,
        request: SET_REPORT_REQUEST,
        value: SET_REPORT_VALUE,
        index: SET_REPORT_INDEX,
        payload,
        timeout_ms: TRANSFER_TIMEOUT_MS,
    }
}

/// The interrupt read that fetches one report from the endpoint at
/// `address`: one report's length is asked for, no more and no less.
pub fn read_interrupt(address: u8) -> (request: InterruptRead)
    ensures
        request == (InterruptRead {
            address,
            length: REPORT_LEN,
            timeout_ms: TRANSFER_TIMEOUT_MS,
        }),
{
    InterruptRead { address, length: REPORT_LEN, timeout_ms: TRANSFER_TIMEOUT_MS }
}

/// What an interrupt read has received: the first `count` bytes of the
/// buffer it filled, and no more than the buffer holds.
pub open spec fn received_bytes(buffer: Seq<u8>, count: nat) -> Seq<u8> {
    if count >= buffer.len() {
        buffer
    } else {
        buffer.take(count as int)
    }
}

/// The bytes that an interrupt read has received, given the buffer that the
/// transport filled and the count that it reported. A transfer need not fill
/// the buffer.
pub fn received(buffer: &[u8], count: usize) -> (bytes: &[u8])
    ensures
        bytes@ == received_bytes(buffer@, count as nat),
{
    if count >= buffer.len() {
        buffer
    } else {
        slice_subrange(buffer, 0, count)
    }
}

} // verus!
