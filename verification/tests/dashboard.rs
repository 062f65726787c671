use air_dashboard::display::{set_dash, COLS, ROWS};

/// The lit cells of column `col`, bottom row first.
fn column(co2: usize, humidity: usize, temp_f: usize, col: usize) -> Vec<bool> {
    let dash = set_dash(co2, humidity, temp_f);
    (0..ROWS).map(|height| dash[ROWS - 1 - height].is_set(col)).collect()
}

/// The rows of the dashboard from the top down, `#` for a lit cell.
fn picture(co2: usize, humidity: usize, temp_f: usize) -> Vec<String> {
    let dash = set_dash(co2, humidity, temp_f);
    dash.iter()
        .map(|row| (0..COLS).map(|col| if row.is_set(col) { '#' } else { '.' }).collect())
        .collect()
}

#[test]
fn humidity_top_bucket_boundary() {
    assert_eq!(column(400, 89, 50, 4), vec![true, true, true, true, false]);
    assert_eq!(column(400, 90, 50, 4), vec![true, true, true, true, true]);
    assert_eq!(column(400, 100, 50, 4), vec![true, true, true, true, true]);
}

#[test]
fn humidity_ladder_below_the_top_bucket() {
    assert_eq!(column(400, 19, 50, 4), vec![false, false, false, false, false]);
    assert_eq!(column(400, 20, 50, 4), vec![true, false, false, false, false]);
    assert_eq!(column(400, 39, 50, 4), vec![true, false, false, false, false]);
    assert_eq!(column(400, 40, 50, 4), vec![true, true, false, false, false]);
    assert_eq!(column(400, 80, 50, 4), vec![true, true, true, true, false]);
}

#[test]
fn end_to_end_dashboard_scenario() {
    // 650 ppm, 45 %, 70 degrees Fahrenheit
    assert_eq!(column(650, 45, 70, 0), vec![true, true, false, false, false]);
    assert_eq!(column(650, 45, 70, 2), vec![true, true, false, false, false]);
    assert_eq!(column(650, 45, 70, 4), vec![true, true, false, false, false]);
    assert_eq!(
        picture(650, 45, 70),
        vec!["...#.", "...#.", ".....", "#.#.#", "#.#.#"]
    );
}

#[test]
fn co2_bar_thresholds_are_strict() {
    assert_eq!(column(400, 0, 0, 2), vec![false, false, false, false, false]);
    assert_eq!(column(401, 0, 0, 2), vec![true, false, false, false, false]);
    assert_eq!(column(600, 0, 0, 2), vec![true, false, false, false, false]);
    assert_eq!(column(601, 0, 0, 2), vec![true, true, false, false, false]);
    assert_eq!(column(1200, 0, 0, 2), vec![true, true, true, true, false]);
    assert_eq!(column(1201, 0, 0, 2), vec![true, true, true, true, true]);
}

#[test]
fn temperature_bar_thresholds_are_strict() {
    assert_eq!(column(0, 0, 50, 0), vec![false, false, false, false, false]);
    assert_eq!(column(0, 0, 51, 0), vec![true, false, false, false, false]);
    assert_eq!(column(0, 0, 70, 0), vec![true, true, false, false, false]);
    assert_eq!(column(0, 0, 71, 0), vec![true, true, true, false, false]);
    assert_eq!(column(0, 0, 91, 0), vec![true, true, true, true, true]);
}

#[test]
fn temperature_remainder_fills_from_the_top() {
    // units digit 0: nothing; 1: top row; 9: all rows (9 > 8)
    assert_eq!(picture(0, 0, 70)[0], ".....");
    let one = picture(0, 0, 71);
    assert_eq!(one.iter().map(|r| &r[1..2] == "#").collect::<Vec<bool>>(), vec![true, false, false, false, false]);
    let five = picture(0, 0, 75);
    assert_eq!(five.iter().map(|r| &r[1..2] == "#").collect::<Vec<bool>>(), vec![true, true, true, false, false]);
    let nine = picture(0, 0, 79);
    assert_eq!(nine.iter().map(|r| &r[1..2] == "#").collect::<Vec<bool>>(), vec![true, true, true, true, true]);
}

#[test]
fn co2_remainder_fills_from_the_top() {
    // 650 ppm: remainder 50 within the bucket, over 0 and 40 but not 80
    let dash = picture(650, 0, 0);
    assert_eq!(dash.iter().map(|r| &r[3..4] == "#").collect::<Vec<bool>>(), vec![true, true, false, false, false]);
    let full = picture(799, 0, 0);
    assert_eq!(full.iter().map(|r| &r[3..4] == "#").collect::<Vec<bool>>(), vec![true, true, true, true, true]);
    let none = picture(800, 0, 0);
    assert_eq!(none.iter().map(|r| &r[3..4] == "#").collect::<Vec<bool>>(), vec![false, false, false, false, false]);
}

#[test]
fn readings_above_the_range_saturate() {
    assert_eq!(
        picture(1401, 100, 100),
        vec!["#####", "#####", "#####", "#####", "#####"]
    );
    assert_eq!(
        picture(usize::MAX, usize::MAX, usize::MAX),
        vec!["#####", "#####", "#####", "#####", "#####"]
    );
    // 1400 ppm is the last value inside the range: remainder 0
    assert_eq!(column(1400, 0, 0, 3), vec![false, false, false, false, false]);
    // 99 degrees is the last value inside the range: units digit 9
    assert_eq!(column(0, 0, 99, 1), vec![true, true, true, true, true]);
}

#[test]
fn dashboard_of_nothing_is_dark() {
    assert_eq!(
        picture(0, 0, 0),
        vec![".....", ".....", ".....", ".....", "....."]
    );
}

#[test]
fn dashboard_is_a_function_of_its_inputs() {
    for &(co2, humidity, temp_f) in [(650usize, 45usize, 70usize), (1234, 91, 87), (0, 0, 0)].iter() {
        let first = set_dash(co2, humidity, temp_f);
        let second = set_dash(co2, humidity, temp_f);
        assert!(first == second);
    }
}

#[test]
fn bars_have_no_gaps() {
    for co2 in (0..1600usize).step_by(37) {
        for humidity in (0..=100usize).step_by(7) {
            for temp_f in (30..110usize).step_by(3) {
                for &col in [0usize, 2, 4].iter() {
                    let bar = column(co2, humidity, temp_f, col);
                    for height in 1..ROWS {
                        assert!(!bar[height] || bar[height - 1]);
                    }
                }
            }
        }
    }
}
