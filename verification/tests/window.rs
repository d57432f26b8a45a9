//! Where the editor window appears.
use anvi::window::{centered, place_over};

#[test]
fn centers_on_the_target() {
    let work = (0, 0, 1920, 1080);
    assert_eq!(
        place_over((100, 100, 500, 400), work, (200, 100)),
        (200, 200)
    );
}

#[test]
fn clamps_to_the_bottom_right_of_the_work_area() {
    let work = (0, 0, 1920, 1032);
    assert_eq!(
        place_over((1800, 960, 1900, 1020), work, (400, 300)),
        (1520, 732)
    );
}

#[test]
fn pins_an_oversized_window_to_the_top_left() {
    assert_eq!(
        place_over((10, 20, 700, 500), (0, 0, 800, 600), (1000, 700)),
        (0, 0)
    );
}

#[test]
fn stays_on_a_monitor_with_negative_coordinates() {
    let work = (-1920, -100, 0, 980);
    assert_eq!(
        place_over((-1500, 200, -1100, 400), work, (600, 200)),
        (-1600, 200)
    );
    // A target at the monitor's left edge does not push the window over it.
    assert_eq!(
        place_over((-1900, 0, -1850, 50), work, (600, 200)),
        (-1920, -75)
    );
}

#[test]
fn saturates_instead_of_overflowing() {
    // The sum of left and right does not fit.
    let huge = (i32::MIN, i32::MIN, i32::MAX, i32::MAX);
    assert_eq!(
        place_over(
            (i32::MAX - 10, i32::MAX - 10, i32::MAX, i32::MAX),
            huge,
            (100, 100)
        ),
        (i32::MAX - 100, i32::MAX - 100)
    );
    // A width that no coordinate can express only pins the window.
    assert_eq!(
        place_over((0, 0, 10, 10), (0, 0, 100, 100), (u32::MAX, u32::MAX)),
        (0, 0)
    );
}

#[test]
fn agrees_with_exact_arithmetic() {
    let ends = [i32::MIN, i32::MIN + 1, -1921, -3, -1, 0, 1, 2, 800, i32::MAX - 1, i32::MAX];
    for target_min in ends {
        for target_max in ends {
            for work_min in ends {
                for work_max in ends {
                    for side in [0u32, 1, 3, 400, 0x7fff_ffff, 0x8000_0000, u32::MAX] {
                        let span = i64::from(side);
                        let (from, to) = (i64::from(target_min), i64::from(target_max));
                        let start = from + (to - from) / 2 - span / 2;
                        let last = i64::from(work_max) - span;
                        assert_eq!(
                            i64::from(centered(target_min, target_max, work_min, work_max, side)),
                            start.min(last).max(i64::from(work_min))
                        );
                    }
                }
            }
        }
    }
}

#[test]
fn a_window_as_large_as_the_screen_fits_exactly() {
    let whole = (i32::MIN, i32::MIN, i32::MAX, i32::MAX);
    assert_eq!(
        place_over((0, 0, 10, 10), whole, (u32::MAX, u32::MAX)),
        (i32::MIN, i32::MIN)
    );
    assert_eq!(
        place_over((0, 0, 10, 10), whole, (3_000_000_000, 3_000_000_000)),
        (-1_499_999_995, -1_499_999_995)
    );
}

#[test]
fn a_target_as_large_as_the_screen_is_centred_on() {
    let whole = (i32::MIN, i32::MIN, i32::MAX, i32::MAX);
    assert_eq!(place_over(whole, whole, (100, 200)), (-51, -101));
}
