//! The dashboard renderer: quantisation of the readings into the LED matrix.

use crate::bitmap::bitmap_bits;
use crate::buttons::ButtonState;
use crate::channels::{latest_pressure, pending_input, InputReceiver, PressureReceiver};
use crate::readout::{focused_text, lemma_digits_len, readout_bytes};
use crate::sense_co2::Co2Measurement;
use crate::sense_pa::PressureMeasurement;
use crate::text::{text_bytes, READOUT_CAPACITY};
use microbit_bsp::display::Bitmap;
use vstd::prelude::*;
use vstd::string::StringSliceAdditionalSpecFns;

verus! {

/// Columns of the LED matrix.
pub const COLS: usize = 5;

/// Rows of the LED matrix.
pub const ROWS: usize = 5;

/// Temperature bar (column 0): lit at `height` rows above the bottom row when
/// the temperature in Fahrenheit exceeds 50 plus 10 per row.
pub open spec fn temp_bar(temp_f: int, height: int) -> bool {
    temp_f > 50 + 10 * height
}

/// CO2 bar (column 2): lit at `height` rows above the bottom row when the
/// concentration exceeds 400 ppm plus 200 ppm per row.
pub open spec fn co2_bar(co2: int, height: int) -> bool {
    co2 > 400 + 200 * height
}

/// Humidity bar (column 4): lit at `height` rows above the bottom row when
/// the humidity reaches 20 % plus 20 % per row; the top row already lights at
/// 90 %.
pub open spec fn humidity_bar(humidity: int, height: int) -> bool {
    humidity >= 20 + 20 * height || (height == 4 && humidity >= 90)
}

/// Temperature remainder (column 1): lit at `depth` rows below the top row
/// when the units digit exceeds 2 per row, and on every row above 99 degrees.
pub open spec fn temp_fine(temp_f: int, depth: int) -> bool {
    temp_f % 10 > 2 * depth || temp_f > 99
}

/// CO2 remainder (column 3): lit at `depth` rows below the top row when the
/// remainder within the 200 ppm bucket exceeds 40 ppm per row, and on every
/// row above 1400 ppm.
pub open spec fn co2_fine(co2: int, depth: int) -> bool {
    co2 % 200 > 40 * depth || co2 > 1400
}

/// Whether the cell in `row` (0 = top) and `col` (0 = left) of the dashboard
/// is lit.
pub open spec fn dash_cell(co2: int, humidity: int, temp_f: int, row: int, col: int) -> bool {
    if col == 0 {
        temp_bar(temp_f, ROWS - 1 - row)
    } else if col == 1 {
        temp_fine(temp_f, row)
    } else if col == 2 {
        co2_bar(co2, ROWS - 1 - row)
    } else if col == 3 {
        co2_fine(co2, row)
    } else {
        humidity_bar(humidity, ROWS - 1 - row)
    }
}

/// One row of the dashboard, leftmost cell first.
pub open spec fn dash_row(co2: int, humidity: int, temp_f: int, row: int) -> Seq<bool> {
    Seq::new(COLS as nat, |col: int| dash_cell(co2, humidity, temp_f, row, col))
}

/// The dashboard for a set of readings: its rows from the top down.
pub open spec fn dashboard(co2: int, humidity: int, temp_f: int) -> Seq<Seq<bool>> {
    Seq::new(ROWS as nat, |row: int| dash_row(co2, humidity, temp_f, row))
}

/// Whether `col` is one of the three bar columns.
pub open spec fn is_bar_column(col: int) -> bool {
    col == 0 || col == 2 || col == 4
}

/// A bar has no gaps: where a bar column of the dashboard is lit at height
/// `i` above the bottom row, it is lit at every height `j` below.
pub proof fn lemma_bars_monotonic(
    co2: int,
    humidity: int,
    temp_f: int,
    col: int,
    i: int,
    j: int,
)
    requires
        is_bar_column(col),
        0 <= j < i < ROWS,
        dashboard(co2, humidity, temp_f)[ROWS - 1 - i][col],
    ensures
        dashboard(co2, humidity, temp_f)[ROWS - 1 - j][col],
{
}

/// The cells of a frame of the LED matrix: its rows from the top down.
pub open spec fn frame_cells(rows: [Bitmap; ROWS]) -> Seq<Seq<bool>> {
    Seq::new(ROWS as nat, |row: int| bitmap_bits(rows[row]))
}

/// A row of the dashboard with its bar columns only.
spec fn bars_only(co2: int, humidity: int, temp_f: int, row: int) -> Seq<bool> {
    Seq::new(COLS as nat, |col: int| col % 2 == 0 && dash_cell(co2, humidity, temp_f, row, col))
}

/// Quantises the three readings into the 5x5 dashboard.
pub fn set_dash(co2: usize, humidity: usize, temp_f: usize) -> (dash: [Bitmap; ROWS])
    ensures
        frame_cells(dash) == dashboard(co2 as int, humidity as int, temp_f as int),
{
    let blank = Bitmap::empty(COLS);
    let mut dash = [blank; ROWS];

    // bars, from the bottom row up
    for i in 0..ROWS
        invariant
            bitmap_bits(blank) == Seq::new(COLS as nat, |c: int| false),
            forall|r: int|
                0 <= r < ROWS - i ==> bitmap_bits(#[trigger] dash[r]) == bitmap_bits(blank),
            forall|r: int|
                ROWS - i <= r < ROWS ==> bitmap_bits(#[trigger] dash[r]) == bars_only(
                    co2 as int,
                    humidity as int,
                    temp_f as int,
                    r,
                ),
    {
        let r = ROWS - 1 - i;
        let mut row = dash[r];
        if temp_f > 50 + 10 * i {
            row.set(0);
        }
        if co2 > 400 + 200 * i {
            row.set(2);
        }
        if humidity >= 20 + 20 * i || (i == 4 && humidity >= 90) {
            row.set(4);
        }
        assert(bitmap_bits(row) =~= bars_only(
            co2 as int,
            humidity as int,
            temp_f as int,
            r as int,
        ));
        dash[r] = row;
    }

    // remainders, from the top row down
    for i in 0..ROWS
        invariant
            forall|r: int|
                0 <= r < i ==> bitmap_bits(#[trigger] dash[r]) == dash_row(
                    co2 as int,
                    humidity as int,
                    temp_f as int,
                    r,
                ),
            forall|r: int|
                i <= r < ROWS ==> bitmap_bits(#[trigger] dash[r]) == bars_only(
                    co2 as int,
                    humidity as int,
                    temp_f as int,
                    r,
                ),
    {
        let mut row = dash[i];
        if temp_f % 10 > 2 * i || temp_f > 99 {
            row.set(1);
        }
        if co2 % 200 > 40 * i || co2 > 1400 {
            row.set(3);
        }
        assert(bitmap_bits(row) =~= dash_row(
            co2 as int,
            humidity as int,
            temp_f as int,
            i as int,
        ));
        dash[i] = row;
    }
    assert(frame_cells(dash) =~= dashboard(co2 as int, humidity as int, temp_f as int));
    dash
}

/// Time that the dashboard stays on the matrix, in milliseconds.
pub const DASHBOARD_HOLD_MS: u64 = 1000;

/// A reading that an input source can bring into focus.
#[derive(Clone, Copy, Debug, PartialEq, Eq, Structural)]
pub enum Metric {
    /// Temperature in degrees Fahrenheit, from the pressure sensor.
    TempF,
    /// CO2 concentration in ppm.
    Co2,
    /// Relative humidity in percent.
    Humidity,
}

/// Brightness of the LED matrix.
#[derive(Clone, Copy, Debug, PartialEq, Eq, Structural)]
pub enum Brightness {
    /// The lowest level.
    Min,
    /// The highest level.
    Max,
}

/// What an input source brings into focus, and how it is shown.
#[derive(Clone, Copy, Debug)]
pub struct FocusBinding {
    /// The reading shown.
    pub metric: Metric,
    /// Time that the text takes to scroll by, in milliseconds.
    pub scroll_ms: u64,
    /// Unit written after the value.
    pub units: &'static str,
}

/// The focused view of each input source.
#[derive(Clone, Copy, Debug)]
pub struct Bindings {
    pub a: FocusBinding,
    pub b: FocusBinding,
    pub c: FocusBinding,
}

impl Bindings {
    /// The binding of an input source.
    pub open spec fn of(self, source: ButtonState) -> FocusBinding {
        match source {
            ButtonState::A => self.a,
            ButtonState::B => self.b,
            ButtonState::C => self.c,
        }
    }

    /// The binding of an input source.
    pub fn lookup(&self, source: ButtonState) -> (binding: FocusBinding)
        ensures
            binding == self.of(source),
    {
        match source {
            ButtonState::A => self.a,
            ButtonState::B => self.b,
            ButtonState::C => self.c,
        }
    }

    /// Whether these are the bindings of the device as built: button A
    /// shows the temperature, button B the CO2 concentration, the touch pad
    /// the humidity.
    pub open spec fn is_standard(self) -> bool {
        &&& self.a.metric == Metric::TempF
        &&& self.a.scroll_ms == 2750
        &&& self.a.units@ == "F"@
        &&& self.b.metric == Metric::Co2
        &&& self.b.scroll_ms == 4500
        &&& self.b.units@ == "ppm"@
        &&& self.c.metric == Metric::Humidity
        &&& self.c.scroll_ms == 2750
        &&& self.c.units@ == "%"@
    }

    /// The bindings of the device as built.
    pub fn standard() -> (bindings: Bindings)
        ensures
            bindings.is_standard(),
    {
        Bindings {
            a: FocusBinding { metric: Metric::TempF, scroll_ms: 2750, units: "F" },
            b: FocusBinding { metric: Metric::Co2, scroll_ms: 4500, units: "ppm" },
            c: FocusBinding { metric: Metric::Humidity, scroll_ms: 2750, units: "%" },
        }
    }
}

/// The temperature that the renderer shows: that of the pressure sensor in
/// whole degrees Fahrenheit, 0 below zero.
pub open spec fn shown_temp_f(pressure: PressureMeasurement) -> int {
    if pressure.temp_f < 0 {
        0
    } else {
        pressure.temp_f as int
    }
}

/// The value of a metric in a pair of measurements.
pub open spec fn metric_value(
    metric: Metric,
    co2: Co2Measurement,
    pressure: PressureMeasurement,
) -> int {
    match metric {
        Metric::TempF => shown_temp_f(pressure),
        Metric::Co2 => co2.co2 as int,
        Metric::Humidity => co2.humidity as int,
    }
}

/// What the renderer puts on the matrix in one cycle.
#[derive(Debug)]
pub enum Shown {
    /// The readout of one metric, scrolled by.
    Focused { text: heapless::String<9>, scroll_ms: u64, brightness: Brightness },
    /// The dashboard of all metrics, held still.
    Dashboard { rows: [Bitmap; ROWS], hold_ms: u64, brightness: Brightness },
}

/// Why a cycle shows nothing.
#[derive(Clone, Copy, Debug, PartialEq, Eq, Structural)]
pub enum RenderError {
    /// The readout of the metric in focus does not fit the text buffer.
    ReadoutTooLong,
}

/// Whether `outcome` is what a cycle shows for a pair of measurements and the
/// input event that was pending, if any. With an event pending it is the
/// focused readout of the metric bound to the event's source, at full
/// brightness, or an error where the text does not fit; it is never the
/// dashboard. With none pending it is the dashboard, dimmed.
pub open spec fn is_render_of(
    outcome: Result<Shown, RenderError>,
    co2: Co2Measurement,
    pressure: PressureMeasurement,
    event: Option<ButtonState>,
    bindings: Bindings,
) -> bool {
    match event {
        Some(source) => {
            let binding = bindings.of(source);
            let wanted = readout_bytes(
                metric_value(binding.metric, co2, pressure) as nat,
                binding.units.spec_bytes(),
            );
            if wanted.len() <= READOUT_CAPACITY {
                &&& outcome matches Ok(Shown::Focused { text, scroll_ms, brightness })
                &&& text_bytes(text) == wanted
                &&& scroll_ms == binding.scroll_ms
                &&& brightness == Brightness::Max
            } else {
                outcome == Err::<Shown, RenderError>(RenderError::ReadoutTooLong)
            }
        },
        None => {
            &&& outcome matches Ok(Shown::Dashboard { rows, hold_ms, brightness })
            &&& frame_cells(rows) == dashboard(
                co2.co2 as int,
                co2.humidity as int,
                shown_temp_f(pressure),
            )
            &&& hold_ms == DASHBOARD_HOLD_MS
            &&& brightness == Brightness::Min
        },
    }
}

/// The value of a metric in a pair of measurements.
pub fn read_metric(metric: Metric, co2: &Co2Measurement, pressure: &PressureMeasurement) -> (value:
    u16)
    ensures
        value == metric_value(metric, *co2, *pressure),
{
    match metric {
        Metric::TempF => if pressure.temp_f < 0 {
            0
        } else {
            pressure.temp_f as u16
        },
        Metric::Co2 => co2.co2,
        Metric::Humidity => co2.humidity as u16,
    }
}

/// Decides what one cycle shows: the focused readout if an input event is
/// pending, the dashboard otherwise.
pub fn render_cycle(
    co2: &Co2Measurement,
    pressure: &PressureMeasurement,
    event: Option<ButtonState>,
    bindings: &Bindings,
) -> (outcome: Result<Shown, RenderError>)
    ensures
        is_render_of(outcome, *co2, *pressure, event, *bindings),
{
    match event {
        Some(source) => {
            let binding = bindings.lookup(source);
            let value = read_metric(binding.metric, co2, pressure);
            match focused_text(value, binding.units) {
                Some(text) => Ok(
                    Shown::Focused {
                        text,
                        scroll_ms: binding.scroll_ms,
                        brightness: Brightness::Max,
                    },
                ),
                None => Err(RenderError::ReadoutTooLong),
            }
        },
        None => {
            let temp_f = read_metric(Metric::TempF, co2, pressure);
            let rows = set_dash(co2.co2 as usize, co2.humidity as usize, temp_f as usize);
            Ok(Shown::Dashboard { rows, hold_ms: DASHBOARD_HOLD_MS, brightness: Brightness::Min })
        },
    }
}

/// The dashboard is a function of the latest readings and of nothing else:
/// two cycles without an event, on measurements that agree in the CO2
/// concentration, the humidity and the temperature shown, light the same
/// cells.
pub proof fn lemma_dashboard_is_a_function(
    first: Result<Shown, RenderError>,
    co2_first: Co2Measurement,
    pressure_first: PressureMeasurement,
    bindings_first: Bindings,
    second: Result<Shown, RenderError>,
    co2_second: Co2Measurement,
    pressure_second: PressureMeasurement,
    bindings_second: Bindings,
)
    requires
        is_render_of(first, co2_first, pressure_first, None, bindings_first),
        is_render_of(second, co2_second, pressure_second, None, bindings_second),
        co2_first.co2 == co2_second.co2,
        co2_first.humidity == co2_second.humidity,
        shown_temp_f(pressure_first) == shown_temp_f(pressure_second),
    ensures
        first matches Ok(Shown::Dashboard { rows: rows_first, .. }) && second matches Ok(
            Shown::Dashboard { rows: rows_second, .. },
        ) && frame_cells(rows_first) == frame_cells(rows_second),
{
}

/// An input event takes precedence over the dashboard: whatever the
/// measurements and the bindings, a cycle with an event pending never shows
/// the dashboard.
pub proof fn lemma_focus_precedence(
    outcome: Result<Shown, RenderError>,
    co2: Co2Measurement,
    pressure: PressureMeasurement,
    source: ButtonState,
    bindings: Bindings,
)
    requires
        is_render_of(outcome, co2, pressure, Some(source), bindings),
    ensures
        !(outcome matches Ok(Shown::Dashboard { .. })),
        outcome is Ok ==> outcome matches Ok(Shown::Focused { .. }),
{
}

/// With the bindings of the device as built every readout fits the text
/// buffer while the CO2 concentration stays below 10000 ppm, so that a cycle
/// with an event pending then shows the focused readout.
pub proof fn lemma_standard_readout_fits(
    outcome: Result<Shown, RenderError>,
    co2: Co2Measurement,
    pressure: PressureMeasurement,
    source: ButtonState,
    bindings: Bindings,
)
    requires
        bindings.is_standard(),
        co2.co2 < 10000,
        is_render_of(outcome, co2, pressure, Some(source), bindings),
    ensures
        outcome matches Ok(Shown::Focused { .. }),
{
    broadcast use vstd::string::is_ascii_spec_bytes;

    reveal_strlit("F");
    reveal_strlit("ppm");
    reveal_strlit("%");
    let binding = bindings.of(source);
    let value = metric_value(binding.metric, co2, pressure) as nat;
    lemma_digits_len(value);
    assert(vstd::string::is_ascii(binding.units)) by {
        vstd::utf8::is_ascii_chars_nat_bound(binding.units@);
    }
    assert(binding.units.spec_bytes().len() == binding.units@.len());
}

/// One cycle of the renderer: what it found on the channels and what it
/// shows.
#[derive(Debug)]
pub struct Cycle {
    /// The pressure measurement that the channel held; `None` if it held
    /// none.
    pub pressure: Option<PressureMeasurement>,
    /// The input event taken from the queue, if one was pending.
    pub event: Option<ButtonState>,
    /// What the cycle shows; `None` if the cycle is skipped.
    pub outcome: Option<Result<Shown, RenderError>>,
}

/// Runs one cycle of the renderer on a fresh CO2 measurement. While the
/// pressure channel holds no measurement the cycle is skipped, and the input
/// queue is left alone. Otherwise the cycle takes at most one event from the
/// queue and shows what `render_cycle` decides for it.
pub fn poll_cycle(
    co2: &Co2Measurement,
    pressure: &mut PressureReceiver<'_>,
    inputs: &InputReceiver<'_>,
    bindings: &Bindings,
) -> (cycle: Cycle)
    ensures
        match cycle.pressure {
            Some(latest) => {
                &&& cycle.outcome matches Some(outcome)
                &&& is_render_of(outcome, *co2, latest, cycle.event, *bindings)
            },
            None => cycle.event is None && cycle.outcome is None,
        },
{
    let polled = match latest_pressure(pressure) {
        Some(latest) => Polled::Ready { pressure: latest, event: pending_input(inputs) },
        None => Polled::Waiting,
    };
    conclude_cycle(co2, polled, bindings)
}

/// What the renderer found on the channels in one cycle.
#[derive(Clone, Copy, Debug, PartialEq, Eq, Structural)]
pub enum Polled {
    /// The pressure channel held no measurement; the input queue was not
    /// asked.
    Waiting,
    /// The pressure channel held a measurement, and the input queue handed
    /// out an event or none.
    Ready { pressure: PressureMeasurement, event: Option<ButtonState> },
}

/// Whether `cycle` is the cycle for a CO2 measurement and what the channels
/// handed out: skipped, with nothing found and nothing shown, while the
/// renderer waits for a pressure measurement; otherwise the record of what
/// was found, with what `is_render_of` asks to be shown for it.
pub open spec fn is_cycle_of(
    cycle: Cycle,
    co2: Co2Measurement,
    polled: Polled,
    bindings: Bindings,
) -> bool {
    match polled {
        Polled::Waiting => {
            &&& cycle.pressure is None
            &&& cycle.event is None
            &&& cycle.outcome is None
        },
        Polled::Ready { pressure, event } => {
            &&& cycle.pressure == Some(pressure)
            &&& cycle.event == event
            &&& cycle.outcome matches Some(outcome)
            &&& is_render_of(outcome, co2, pressure, event, bindings)
        },
    }
}

/// Makes the cycle of what the channels handed out: skipped while the
/// renderer waits for a pressure measurement, otherwise what `render_cycle`
/// decides for the measurements and the event found.
pub fn conclude_cycle(co2: &Co2Measurement, polled: Polled, bindings: &Bindings) -> (cycle: Cycle)
    ensures
        is_cycle_of(cycle, *co2, polled, *bindings),
{
    match polled {
        Polled::Waiting => Cycle { pressure: None, event: None, outcome: None },
        Polled::Ready { pressure, event } => {
            let outcome = render_cycle(co2, &pressure, event, bindings);
            Cycle { pressure: Some(pressure), event, outcome: Some(outcome) }
        },
    }
}

} // verus!
