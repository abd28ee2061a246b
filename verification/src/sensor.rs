use vstd::prelude::*;

use crate::graphics::{text_24x32, text_8x16, text_mark, Font, Frame, Mark, Point};
use crate::panel::{height, spec_height, Panel};

verus! {

/// The unit shown after the temperature: the 2.9 inch panel has room for
/// the degree sign only.
pub open spec fn temperature_unit(panel: Panel) -> Seq<char> {
    match panel {
        Panel::Epd4in2 => seq!['°', 'C'],
        Panel::Epd2in9 => seq!['°'],
    }
}

/// Where the temperature goes: on the 4.2 inch panel 100 pixels below the
/// top, on the 2.9 inch panel in the bottom 32-pixel row.
pub open spec fn temperature_position(panel: Panel) -> Point {
    match panel {
        Panel::Epd4in2 => Point { x: 0, y: 100 },
        Panel::Epd2in9 => Point { x: 0, y: (spec_height(panel) - 32) as i32 },
    }
}

/// The block of the other readings: the gas resistance in kOhm, the
/// pressure in hPa and the relative humidity in %, one per line.
pub open spec fn readings_text(gas_resistance: Seq<char>, pressure: Seq<char>, humidity: Seq<char>) -> Seq<
    char,
> {
    gas_resistance + seq!['k', 'O', 'h', 'm', '\n'] + pressure + seq!['h', 'P', 'a', '\n'] + humidity
        + seq!['%']
}

/// What `draw_sensor` draws: the temperature with its unit in the 24x32
/// font, then the block of the other readings in the 8x16 font at the top
/// left corner.
pub open spec fn sensor_marks(
    panel: Panel,
    temperature: Seq<char>,
    humidity: Seq<char>,
    pressure: Seq<char>,
    gas_resistance: Seq<char>,
) -> Seq<Mark> {
    seq![
        text_mark(temperature + temperature_unit(panel), temperature_position(panel), Font::Font24x32),
        text_mark(readings_text(gas_resistance, pressure, humidity), Point { x: 0, y: 0 }, Font::Font8x16),
    ]
}

/// The block of the other readings, from the numbers already written out.
pub fn readings_block(gas_resistance: &str, pressure: &str, humidity: &str) -> (s: String)
    ensures
        s@ == readings_text(gas_resistance@, pressure@, humidity@),
{
    proof {
        reveal_strlit("kOhm\n");
        reveal_strlit("hPa\n");
        reveal_strlit("%");
        assert("kOhm\n"@ == seq!['k', 'O', 'h', 'm', '\n']);
        assert("hPa\n"@ == seq!['h', 'P', 'a', '\n']);
        assert("%"@ == seq!['%']);
    }
    let mut s = gas_resistance.to_owned();
    s.append("kOhm\n");
    s.append(pressure);
    s.append("hPa\n");
    s.append(humidity);
    s.append("%");
    assert(s@ =~= readings_text(gas_resistance@, pressure@, humidity@));
    s
}

/// Draws the sensor readings laid out for `panel`. Each reading comes
/// already written out as a number: the temperature in °C, the humidity in
/// %, the pressure in hPa and the gas resistance in kOhm.
pub fn draw_sensor(
    frame: &mut Frame,
    panel: Panel,
    temperature: &str,
    humidity: &str,
    pressure: &str,
    gas_resistance: &str,
)
    ensures
        final(frame)@ == old(frame)@ + sensor_marks(
            panel,
            temperature@,
            humidity@,
            pressure@,
            gas_resistance@,
        ),
{
    let readings = readings_block(gas_resistance, pressure, humidity);
    let mut shown = temperature.to_owned();
    let top_left = match panel {
        Panel::Epd4in2 => {
            proof {
                reveal_strlit("°C");
                assert("°C"@ == seq!['°', 'C']);
            }
            shown.append("°C");
            Point::new(0, 100)
        },
        Panel::Epd2in9 => {
            proof {
                reveal_strlit("°");
                assert("°"@ == seq!['°']);
            }
            shown.append("°");
            Point::new(0, height(panel) - 32)
        },
    };
    text_24x32(frame, shown.as_str(), top_left);
    text_8x16(frame, readings.as_str(), Point::new(0, 0));
    assert(final(frame)@ =~= old(frame)@ + sensor_marks(
        panel,
        temperature@,
        humidity@,
        pressure@,
        gas_resistance@,
    ));
}

} // verus!
