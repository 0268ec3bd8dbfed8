//! A reading as text: five lines, the temperature with two decimals and each
//! speed as a whole number of revolutions per minute.

use crate::report::{
    decoded, field_at, is_nearest_hundredth, nearest_hundredth_is_unique, Telemetry, FAN1_OFFSET,
    FAN2_OFFSET, FAN3_OFFSET, PUMP_OFFSET, TEMPERATURE_OFFSET,
};
use vstd::prelude::*;

verus! {

/// The character of the decimal digit `d`.
pub open spec fn digit(d: int) -> char {
    if d == 0 {
        '0'
    } else if d == 1 {
        '1'
    } else if d == 2 {
        '2'
    } else if d == 3 {
        '3'
    } else if d == 4 {
        '4'
    } else if d == 5 {
        '5'
    } else if d == 6 {
        '6'
    } else if d == 7 {
        '7'
    } else if d == 8 {
        '8'
    } else {
        '9'
    }
}

/// The decimal numeral of `n`, without leading zeros.
pub open spec fn decimal(n: nat) -> Seq<char>
    decreases n,
{
    if n < 10 {
        seq![digit(n as int)]
    } else {
        decimal(n / 10).push(digit((n % 10) as int))
    }
}

/// A number of hundredths as a numeral with two decimals.
pub open spec fn two_decimals(hundredths: nat) -> Seq<char> {
    decimal(hundredths / 100) + seq![
        '.',
        digit((hundredths / 10 % 10) as int),
        digit((hundredths % 10) as int),
    ]
}

/// The temperature `raw / 256` in hundredths of a degree, rounded to the
/// nearest hundredth, to the even one on a tie.
pub open spec fn hundredths_of(raw: u16) -> nat {
    (choose|h: int| is_nearest_hundredth(raw as int, h)) as nat
}

/// The line that gives the temperature.
pub open spec fn temperature_line(telemetry: Telemetry) -> Seq<char> {
    "Temp : "@ + two_decimals(hundredths_of(telemetry.temperature_raw)) + "\u{b0}C"@
}

/// A line that gives a speed, after its label.
pub open spec fn speed_line(label: Seq<char>, rpm: u16) -> Seq<char> {
    label + decimal(rpm as nat) + " rpm"@
}

/// The five lines of a reading: temperature, the three fans, the pump.
pub open spec fn lines_of(telemetry: Telemetry) -> Seq<Seq<char>> {
    seq![
        temperature_line(telemetry),
        speed_line("Fan 1: "@, telemetry.fan1_rpm),
        speed_line("Fan 2: "@, telemetry.fan2_rpm),
        speed_line("Fan 3: "@, telemetry.fan3_rpm),
        speed_line("Pump : "@, telemetry.pump_rpm),
    ]
}

/// Every temperature has a nearest hundredth, so `hundredths_of` is that
/// hundredth and no arbitrary number.
pub proof fn hundredths_of_is_nearest(raw: u16)
    ensures
        is_nearest_hundredth(raw as int, hundredths_of(raw) as int),
{
    let floor = 100 * raw / 256;
    let rest = 100 * raw % 256;
    let rounded = if rest > 128 || (rest == 128 && floor % 2 == 1) {
        floor + 1
    } else {
        floor
    };
    assert(is_nearest_hundredth(raw as int, rounded));
    let chosen = choose|h: int| is_nearest_hundredth(raw as int, h);
    nearest_hundredth_is_unique(raw as int, rounded, chosen);
}

/// The temperature is printed as the field at the temperature's offset
/// divided by 256, to the nearest hundredth, with two decimals.
pub proof fn temperature_is_printed_to_the_nearest_hundredth(data: Seq<u8>)
    ensures
        ({
            let hundredths = hundredths_of(decoded(data).temperature_raw);
            &&& is_nearest_hundredth(field_at(data, TEMPERATURE_OFFSET as int), hundredths as int)
            &&& lines_of(decoded(data))[0] == "Temp : "@ + two_decimals(hundredths) + "\u{b0}C"@
        }),
{
    hundredths_of_is_nearest(decoded(data).temperature_raw);
}

/// Each speed is printed as it stands in the report: the numeral on its line
/// is the field at its offset, neither scaled nor rounded.
pub proof fn speeds_are_printed_as_read(data: Seq<u8>)
    ensures
        lines_of(decoded(data))[1] == "Fan 1: "@ + decimal(
            field_at(data, FAN1_OFFSET as int) as nat,
        ) + " rpm"@,
        lines_of(decoded(data))[2] == "Fan 2: "@ + decimal(
            field_at(data, FAN2_OFFSET as int) as nat,
        ) + " rpm"@,
        lines_of(decoded(data))[3] == "Fan 3: "@ + decimal(
            field_at(data, FAN3_OFFSET as int) as nat,
        ) + " rpm"@,
        lines_of(decoded(data))[4] == "Pump : "@ + decimal(
            field_at(data, PUMP_OFFSET as int) as nat,
        ) + " rpm"@,
{
}

/// The numeral of one digit.
fn digit_text(d: u16) -> (text: &'static str)
    requires
        d < 10,
    ensures
        text@ == seq![digit(d as int)],
{
    proof {
        reveal_strlit("0");
        reveal_strlit("1");
        reveal_strlit("2");
        reveal_strlit("3");
        reveal_strlit("4");
        reveal_strlit("5");
        reveal_strlit("6");
        reveal_strlit("7");
        reveal_strlit("8");
        reveal_strlit("9");
    }
    let text = if d == 0 {
        "0"
    } else if d == 1 {
        "1"
    } else if d == 2 {
        "2"
    } else if d == 3 {
        "3"
    } else if d == 4 {
        "4"
    } else if d == 5 {
        "5"
    } else if d == 6 {
        "6"
    } else if d == 7 {
        "7"
    } else if d == 8 {
        "8"
    } else {
        "9"
    };
    assert(text@ =~= seq![digit(d as int)]);
    text
}

/// Appends the decimal numeral of `n` to `text`.
fn push_decimal(text: &mut String, n: u16)
    ensures
        final(text)@ == old(text)@ + decimal(n as nat),
    decreases n,
{
    if n >= 10 {
        push_decimal(text, n / 10);
    }
    text.append(digit_text(n % 10));
}

/// Writes a speed with its label.
fn render_speed(label: &str, rpm: u16) -> (line: String)
    ensures
        line@ == speed_line(label@, rpm),
{
    let mut line = String::from_str(label);
    push_decimal(&mut line, rpm);
    line.append(" rpm");
    line
}

/// Writes the temperature.
fn render_temperature(telemetry: &Telemetry) -> (line: String)
    ensures
        line@ == temperature_line(*telemetry),
{
    let hundredths: u16 = telemetry.temperature_hundredths();
    proof {
        hundredths_of_is_nearest(telemetry.temperature_raw);
        nearest_hundredth_is_unique(
            telemetry.temperature_raw as int,
            hundredths as int,
            hundredths_of(telemetry.temperature_raw) as int,
        );
    }
    let mut line = String::from_str("Temp : ");
    push_decimal(&mut line, hundredths / 100);
    line.append(".");
    line.append(digit_text(hundredths / 10 % 10));
    line.append(digit_text(hundredths % 10));
    line.append("\u{b0}C");
    proof {
        reveal_strlit(".");
    }
    line
}

/// Writes a reading as its five lines: the temperature, rounded to two
/// decimals, then the three fans and the pump.
pub fn report_lines(telemetry: &Telemetry) -> (lines: Vec<String>)
    ensures
        lines@.len() == 5,
        forall|i: int| 0 <= i < 5 ==> (#[trigger] lines@[i])@ == lines_of(*telemetry)[i],
{
    let mut lines: Vec<String> = Vec::new();
    lines.push(render_temperature(telemetry));
    lines.push(render_speed("Fan 1: ", telemetry.fan1_rpm));
    lines.push(render_speed("Fan 2: ", telemetry.fan2_rpm));
    lines.push(render_speed("Fan 3: ", telemetry.fan3_rpm));
    lines.push(render_speed("Pump : ", telemetry.pump_rpm));
    lines
}

} // verus!
