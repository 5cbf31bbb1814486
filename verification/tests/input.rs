use std::time::Instant;
use wezterm::input::{ClickPosition, LastMouseClick, MouseButton, CLICK_INTERVAL};

fn at(column: usize, row: i64) -> ClickPosition {
    ClickPosition {
        column,
        row,
        x_pixel_offset: 0,
        y_pixel_offset: 0,
    }
}

#[test]
fn test_forgiving_double_click() {
    let click = LastMouseClick::new(
        MouseButton::Left,
        ClickPosition {
            column: 10,
            row: 5,
            x_pixel_offset: 0,
            y_pixel_offset: 0,
        },
    );

    // 1 cell away should count as a streak
    let streak = click.add(
        MouseButton::Left,
        ClickPosition {
            column: 11,
            row: 6,
            x_pixel_offset: 0,
            y_pixel_offset: 0,
        },
    );
    assert_eq!(streak.streak, 2);

    // 2 cells away should reset the streak
    let reset = click.add(
        MouseButton::Left,
        ClickPosition {
            column: 12,
            row: 5,
            x_pixel_offset: 0,
            y_pixel_offset: 0,
        },
    );
    assert_eq!(reset.streak, 1);
}

#[test]
fn new_click_starts_a_streak_of_one() {
    let click = LastMouseClick::new(MouseButton::Right, at(3, 4));
    assert_eq!(click.streak, 1);
    assert_eq!(click.button, MouseButton::Right);
    assert_eq!(click.position, at(3, 4));
}

#[test]
fn triple_click_counts_three() {
    let first = LastMouseClick::new(MouseButton::Left, at(0, 0));
    let second = first.add(MouseButton::Left, at(0, 0));
    let third = second.add(MouseButton::Left, at(1, 1));
    assert_eq!(third.streak, 3);
    assert_eq!(third.position, at(1, 1));
}

#[test]
fn other_button_resets_streak() {
    let click = LastMouseClick::new(MouseButton::Left, at(10, 5));
    let other = click.add(MouseButton::Middle, at(10, 5));
    assert_eq!(other.streak, 1);
    assert_eq!(other.button, MouseButton::Middle);
}

#[test]
fn row_two_away_resets_streak() {
    let click = LastMouseClick::new(MouseButton::Left, at(10, 5));
    let moved = click.add(MouseButton::Left, at(10, 7));
    assert_eq!(moved.streak, 1);
    let up = click.add(MouseButton::Left, at(9, 4));
    assert_eq!(up.streak, 2);
}

#[test]
fn extreme_rows_do_not_overflow() {
    let click = LastMouseClick::new(MouseButton::Left, at(0, i64::MIN));
    let far = click.add(MouseButton::Left, at(usize::MAX, i64::MAX));
    assert_eq!(far.streak, 1);
}

#[test]
fn interval_bounds_the_streak() {
    let click = LastMouseClick::new(MouseButton::Left, at(2, 2));
    let limit = CLICK_INTERVAL as u128 * 1_000_000;
    let in_time = click.add_at(MouseButton::Left, at(2, 2), Instant::now(), limit);
    assert_eq!(in_time.streak, 2);
    let late = click.add_at(MouseButton::Left, at(2, 2), Instant::now(), limit + 1);
    assert_eq!(late.streak, 1);
}

#[test]
fn clone_keeps_the_click() {
    let click = LastMouseClick::new(MouseButton::WheelUp(2), at(1, 2));
    let copy = click.clone();
    assert_eq!(copy.streak, click.streak);
    assert_eq!(copy.button, MouseButton::WheelUp(2));
    let next = copy.add(MouseButton::WheelUp(2), at(1, 2));
    assert_eq!(next.streak, 2);
}

#[test]
fn new_at_records_the_instant() {
    let now = Instant::now();
    let click = LastMouseClick::new_at(MouseButton::Left, at(1, 1), now);
    assert_eq!(click.time, now);
    assert_eq!(click.streak, 1);
    let next = click.add_at(MouseButton::Left, at(1, 1), now, 0);
    assert_eq!(next.time, now);
    assert_eq!(next.streak, 2);
}

#[test]
fn pixel_offsets_do_not_matter() {
    let click = LastMouseClick::new(MouseButton::Left, at(4, 4));
    let moved = ClickPosition {
        column: 4,
        row: 4,
        x_pixel_offset: 13,
        y_pixel_offset: -7,
    };
    assert_eq!(click.add(MouseButton::Left, moved).streak, 2);
}
