//! The telemetry report: a buffer of up to 64 bytes in which five 16-bit
//! little-endian fields sit at fixed offsets.

use byteorder::{ByteOrder, LittleEndian};
use vstd::prelude::*;
use vstd::slice::slice_subrange;

verus! {

/// Length of a complete report, in bytes.
pub const REPORT_LEN: usize = 64;

/// Offset of the coolant temperature, in 1/256 degree Celsius.
pub const TEMPERATURE_OFFSET: usize = 7;

/// Offset of the speed of the first fan, in rpm.
pub const FAN1_OFFSET: usize = 15;

/// Offset of the speed of the second fan, in rpm.
pub const FAN2_OFFSET: usize = 22;

/// Offset of the speed of the pump, in rpm.
pub const PUMP_OFFSET: usize = 29;

/// Offset of the speed of the third fan, in rpm.
pub const FAN3_OFFSET: usize = 43;

/// The number that two bytes spell in little-endian order.
pub open spec fn le_u16(lo: u8, hi: u8) -> int {
    lo as int + 256 * (hi as int)
}

/// Whether both bytes of the field at `offset` lie inside `data`.
pub open spec fn field_present(data: Seq<u8>, offset: int) -> bool {
    0 <= offset && offset + 2 <= data.len()
}

/// The field at `offset`: its two bytes in little-endian order where the
/// buffer holds both of them, and zero where it does not.
pub open spec fn field_at(data: Seq<u8>, offset: int) -> int {
    if field_present(data, offset) {
        le_u16(data[offset], data[offset + 1])
    } else {
        0
    }
}

/// `byteorder::LittleEndian::read_u16` (through the `ByteOrder` trait): the
/// first two bytes of `buf` as a little-endian number. The crate documents a
/// panic for a buffer of fewer than two bytes, which `requires` leaves out.
#[verifier::external_body]
fn read_u16_le(buf: &[u8]) -> (value: u16)
    requires
        buf@.len() >= 2,
    ensures
        value as int == le_u16(buf@[0], buf@[1]),
{
    LittleEndian::read_u16(buf)
}

/// Reads the field at `offset`, or zero where the buffer ends before it.
pub fn read_field(data: &[u8], offset: usize) -> (value: u16)
    ensures
        value as int == field_at(data@, offset as int),
{
    let len: usize = data.len();
    if offset <= len && len - offset >= 2 {
        let window = slice_subrange(data, offset, offset + 2);
        read_u16_le(window)
    } else {
        0
    }
}

/// What one report says: the coolant temperature and four speeds.
#[derive(Clone, Copy, Debug, PartialEq, Eq, Structural)]
pub struct Telemetry {
    /// Coolant temperature in degrees Celsius, as a fixed-point number with
    /// eight fractional bits.
    pub temperature_raw: u16,
    /// Speed of the first fan, in rpm.
    pub fan1_rpm: u16,
    /// Speed of the second fan, in rpm.
    pub fan2_rpm: u16,
    /// Speed of the third fan, in rpm.
    pub fan3_rpm: u16,
    /// Speed of the pump, in rpm.
    pub pump_rpm: u16,
}

/// The telemetry that a buffer holds. Each field is read on its own: one
/// that the buffer is too short for is zero, whatever becomes of the others.
pub open spec fn decoded(data: Seq<u8>) -> Telemetry {
    Telemetry {
        temperature_raw: field_at(data, TEMPERATURE_OFFSET as int) as u16,
        fan1_rpm: field_at(data, FAN1_OFFSET as int) as u16,
        fan2_rpm: field_at(data, FAN2_OFFSET as int) as u16,
        fan3_rpm: field_at(data, FAN3_OFFSET as int) as u16,
        pump_rpm: field_at(data, PUMP_OFFSET as int) as u16,
    }
}

/// Decodes a report. The buffer may have any length: nothing is rejected.
pub fn decode_report(data: &[u8]) -> (telemetry: Telemetry)
    ensures
        telemetry == decoded(data@),
        telemetry.temperature_raw as int == field_at(data@, TEMPERATURE_OFFSET as int),
        telemetry.fan1_rpm as int == field_at(data@, FAN1_OFFSET as int),
        telemetry.fan2_rpm as int == field_at(data@, FAN2_OFFSET as int),
        telemetry.fan3_rpm as int == field_at(data@, FAN3_OFFSET as int),
        telemetry.pump_rpm as int == field_at(data@, PUMP_OFFSET as int),
{
    Telemetry {
        temperature_raw: read_field(data, TEMPERATURE_OFFSET),
        fan1_rpm: read_field(data, FAN1_OFFSET),
        fan2_rpm: read_field(data, FAN2_OFFSET),
        fan3_rpm: read_field(data, FAN3_OFFSET),
        pump_rpm: read_field(data, PUMP_OFFSET),
    }
}

/// Every field is a 16-bit number, so `decoded` loses nothing when it stores
/// one.
pub proof fn field_at_is_u16(data: Seq<u8>, offset: int)
    ensures
        0 <= field_at(data, offset) <= 0xffff,
{
}

/// Whether a field of the report starts at `offset`.
pub open spec fn is_field_offset(offset: int) -> bool {
    offset == TEMPERATURE_OFFSET || offset == FAN1_OFFSET || offset == FAN2_OFFSET || offset
        == PUMP_OFFSET || offset == FAN3_OFFSET
}

/// Decoding reads the ten bytes of the five fields and nothing else: two
/// buffers of one length that agree on the bytes of every field decode to the
/// same telemetry. In particular, the same contents always give the same
/// five values.
pub proof fn decoding_reads_only_the_fields(a: Seq<u8>, b: Seq<u8>)
    requires
        a.len() == b.len(),
        forall|offset: int, i: int|
            is_field_offset(offset) && field_present(a, offset) && offset <= i <= offset + 1
                ==> a[i] == b[i],
    ensures
        decoded(a) == decoded(b),
{
    assert(is_field_offset(TEMPERATURE_OFFSET as int));
    assert(is_field_offset(FAN1_OFFSET as int));
    assert(is_field_offset(FAN2_OFFSET as int));
    assert(is_field_offset(FAN3_OFFSET as int));
    assert(is_field_offset(PUMP_OFFSET as int));
}

/// A buffer of any length decodes field by field: each field whose two bytes
/// the buffer holds is those bytes in little-endian order, and each other
/// field is zero. A buffer of 45 bytes or more holds all five.
pub proof fn short_report_decodes_fieldwise(data: Seq<u8>)
    ensures
        decoded(data).temperature_raw == (if data.len() >= 9 {
            le_u16(data[7], data[8])
        } else {
            0
        }),
        decoded(data).fan1_rpm == (if data.len() >= 17 {
            le_u16(data[15], data[16])
        } else {
            0
        }),
        decoded(data).fan2_rpm == (if data.len() >= 24 {
            le_u16(data[22], data[23])
        } else {
            0
        }),
        decoded(data).pump_rpm == (if data.len() >= 31 {
            le_u16(data[29], data[30])
        } else {
            0
        }),
        decoded(data).fan3_rpm == (if data.len() >= 45 {
            le_u16(data[43], data[44])
        } else {
            0
        }),
{
}

/// Cutting a report short changes only the fields that are cut: the first
/// `n` bytes decode, field by field, to what the whole buffer gives where
/// the field ends within them, and to zero where it does not.
pub proof fn truncation_zeroes_only_cut_fields(data: Seq<u8>, n: int, offset: int)
    requires
        0 <= n <= data.len(),
        0 <= offset,
    ensures
        field_at(data.take(n), offset) == (if offset + 2 <= n {
            field_at(data, offset)
        } else {
            0
        }),
{
}

/// Whether `hundredths` is the temperature `raw / 256` in hundredths of a
/// degree, rounded to the nearest hundredth and, where two are equally near,
/// to the even one. The error is counted in 1/25600 degree.
pub open spec fn is_nearest_hundredth(raw: int, hundredths: int) -> bool {
    let error = 256 * hundredths - 100 * raw;
    &&& -128 <= error <= 128
    &&& (error == 128 || error == -128) ==> hundredths % 2 == 0
}

/// Rounding as `is_nearest_hundredth` describes it leaves no choice.
pub proof fn nearest_hundredth_is_unique(raw: int, a: int, b: int)
    requires
        is_nearest_hundredth(raw, a),
        is_nearest_hundredth(raw, b),
    ensures
        a == b,
{
}

impl Telemetry {
    /// The whole degrees of the temperature.
    pub fn whole_degrees(&self) -> (degrees: u8)
        ensures
            degrees as int == self.temperature_raw as int / 256,
    {
        (self.temperature_raw / 256) as u8
    }

    /// What the temperature has beyond its whole degrees, in 1/256 degree.
    pub fn fraction(&self) -> (fraction: u8)
        ensures
            fraction as int == self.temperature_raw as int % 256,
            256 * (self.temperature_raw as int / 256) + fraction as int
                == self.temperature_raw as int,
    {
        (self.temperature_raw % 256) as u8
    }

    /// The temperature in hundredths of a degree, for display with two
    /// decimals: the nearest hundredth, the even one on a tie.
    pub fn temperature_hundredths(&self) -> (hundredths: u16)
        ensures
            is_nearest_hundredth(self.temperature_raw as int, hundredths as int),
            hundredths <= 25600,
    {
        let scaled: u32 = self.temperature_raw as u32 * 100;
        let floor: u32 = scaled / 256;
        let rest: u32 = scaled % 256;
        if rest > 128 || (rest == 128 && floor % 2 == 1) {
            (floor + 1) as u16
        } else {
            floor as u16
        }
    }
}

} // verus!
