//! Mouse input types and the multi-click ("click streak") tracker.
use vstd::prelude::*;
use std::time::{Duration, Instant};

verus! {

/// A row index relative to the top of the visible screen.
pub type VisibleRowIndex = i64;

#[verifier::external_type_specification]
#[verifier::external_body]
pub struct ExInstant(Instant);

/// A mouse button, or a wheel movement by some number of steps.
#[derive(Debug, Copy, Clone, PartialEq, Eq, Structural, Ord, PartialOrd, Hash)]
pub enum MouseButton {
    Left,
    Middle,
    Right,
    WheelUp(usize),
    WheelDown(usize),
    WheelLeft(usize),
    WheelRight(usize),
    /// No button.
    NoButton,
}

/// What happened to the mouse.
#[derive(Debug, Copy, Clone, PartialEq, Eq, Structural)]
pub enum MouseEventKind {
    Press,
    Release,
    Move,
}

/// The modifier keys held during a mouse event, as a set of flag bits.
#[derive(Debug, Copy, Clone, PartialEq, Eq, Structural)]
pub struct KeyModifiers {
    pub bits: u16,
}

/// A mouse event at a cell of the visible screen.
#[derive(Debug, Copy, Clone, PartialEq, Eq, Structural)]
pub struct MouseEvent {
    pub kind: MouseEventKind,
    pub x: usize,
    pub y: VisibleRowIndex,
    pub x_pixel_offset: isize,
    pub y_pixel_offset: isize,
    pub button: MouseButton,
    pub modifiers: KeyModifiers,
}

/// The cell (and pixel offset inside it) at which a click happened.
#[derive(Debug, Copy, Clone, PartialEq, Eq, Structural)]
pub struct ClickPosition {
    pub column: usize,
    pub row: i64,
    pub x_pixel_offset: isize,
    pub y_pixel_offset: isize,
}

/// Keeps track of the "click streak": the number of successive clicks of
/// the same mouse button within `CLICK_INTERVAL` milliseconds of each other.
/// The streak is reset to 1 each time the mouse button differs from the last
/// click, or when the elapsed time exceeds `CLICK_INTERVAL`, or when the
/// cursor moves by more than one cell in either direction.
#[derive(Debug)]
pub struct LastMouseClick {
    pub button: MouseButton,
    pub position: ClickPosition,
    /// When the click happened.
    pub time: Instant,
    pub streak: usize,
}

impl Clone for LastMouseClick {
    fn clone(&self) -> (r: Self)
        ensures
            r == *self,
    {
        Self { button: self.button, position: self.position, time: self.time, streak: self.streak }
    }
}

/// The multi-click interval, measured in milliseconds.
pub const CLICK_INTERVAL: u64 = 500;

/// Reads the monotonic clock (`std::time::Instant::now`). Nothing is promised
/// of the value: it depends on the time at which it is called.
#[verifier::external_body]
fn instant_now() -> (now: Instant) {
    Instant::now()
}

/// `later.duration_since(earlier)` (`std::time::Instant::duration_since`).
/// The result depends on when the two instants were read, so nothing is
/// promised of it.
#[verifier::external_body]
fn instant_duration_since(later: &Instant, earlier: &Instant) -> (elapsed: Duration) {
    later.duration_since(*earlier)
}

/// The whole number of nanoseconds in `d` (`std::time::Duration::as_nanos`).
/// `Duration` is opaque here, so nothing is promised of the number.
#[verifier::external_body]
fn duration_nanos(d: &Duration) -> (nanos: u128) {
    d.as_nanos()
}

/// Two coordinates are at most one apart.
pub open spec fn within_one(a: int, b: int) -> bool {
    -1 <= a - b <= 1
}

/// Two click positions are in the same or in adjacent cells (diagonals included).
pub open spec fn is_near(p: ClickPosition, q: ClickPosition) -> bool {
    within_one(p.column as int, q.column as int) && within_one(p.row as int, q.row as int)
}

/// The click interval in nanoseconds.
pub open spec fn click_interval_nanos() -> nat {
    CLICK_INTERVAL as nat * 1_000_000
}

/// A click of `button` at `position`, `elapsed_nanos` after a click of
/// `prev_button` at `prev_position`, continues that click's streak.
pub open spec fn continues_streak(
    prev_button: MouseButton,
    prev_position: ClickPosition,
    button: MouseButton,
    position: ClickPosition,
    elapsed_nanos: nat,
) -> bool {
    &&& button == prev_button
    &&& is_near(position, prev_position)
    &&& elapsed_nanos <= click_interval_nanos()
}

fn columns_near(a: usize, b: usize) -> (r: bool)
    ensures
        r == within_one(a as int, b as int),
{
    if a >= b {
        a - b <= 1
    } else {
        b - a <= 1
    }
}

fn rows_near(a: i64, b: i64) -> (r: bool)
    ensures
        r == within_one(a as int, b as int),
{
    let d: i128 = (a as i128) - (b as i128);
    -1 <= d && d <= 1
}

/// The click that follows `prev`: `button` pressed at `position` at the
/// instant `now`, `elapsed_nanos` nanoseconds after `prev`.
pub open spec fn spec_add_at(
    prev: LastMouseClick,
    button: MouseButton,
    position: ClickPosition,
    now: Instant,
    elapsed_nanos: nat,
) -> LastMouseClick {
    LastMouseClick {
        button,
        position,
        time: now,
        streak: if continues_streak(prev.button, prev.position, button, position, elapsed_nanos) {
            (prev.streak + 1) as usize
        } else {
            1
        },
    }
}

/// The click after a run of clicks of `button` at `position`, each given by
/// the instant it happened and the nanoseconds since the click before it.
pub open spec fn click_chain(
    start: LastMouseClick,
    button: MouseButton,
    position: ClickPosition,
    steps: Seq<(Instant, nat)>,
) -> LastMouseClick
    decreases steps.len(),
{
    if steps.len() == 0 {
        start
    } else {
        spec_add_at(
            click_chain(start, button, position, steps.drop_last()),
            button,
            position,
            steps.last().0,
            steps.last().1,
        )
    }
}

impl LastMouseClick {
    /// The first click of a streak, made at the instant `now`.
    pub fn new_at(button: MouseButton, position: ClickPosition, now: Instant) -> (click: Self)
        ensures
            click == (LastMouseClick { button, position, time: now, streak: 1 }),
    {
        Self { button, position, time: now, streak: 1 }
    }

    /// The first click of a streak, made now.
    pub fn new(button: MouseButton, position: ClickPosition) -> (click: Self)
        ensures
            click.button == button,
            click.position == position,
            click.streak == 1,
    {
        Self::new_at(button, position, instant_now())
    }

    /// The click that follows `self`: `button` pressed at `position` at the
    /// instant `now`, which lies `elapsed_nanos` nanoseconds after `self`.
    pub fn add_at(
        &self,
        button: MouseButton,
        position: ClickPosition,
        now: Instant,
        elapsed_nanos: u128,
    ) -> (click: Self)
        requires
            continues_streak(self.button, self.position, button, position, elapsed_nanos as nat)
                ==> self.streak < usize::MAX,
        ensures
            click == spec_add_at(*self, button, position, now, elapsed_nanos as nat),
    {
        let interval: u128 = (CLICK_INTERVAL as u128) * 1_000_000;
        let streak = if button == self.button && columns_near(position.column, self.position.column)
            && rows_near(position.row, self.position.row) && elapsed_nanos <= interval {
            self.streak + 1
        } else {
            1
        };
        Self { button, position, time: now, streak }
    }

    /// The click that follows `self`: `button` pressed at `position` now.
    /// The streak grows by one when the button is the same and the position
    /// is in the same or an adjacent cell and at most `CLICK_INTERVAL`
    /// milliseconds have passed; otherwise it starts again at 1.
    pub fn add(&self, button: MouseButton, position: ClickPosition) -> (click: Self)
        requires
            button == self.button && is_near(position, self.position) ==> self.streak
                < usize::MAX,
        ensures
            exists|elapsed_nanos: nat|
                click == spec_add_at(*self, button, position, click.time, elapsed_nanos),
            click.button == button,
            click.position == position,
            click.streak == 1 || click.streak == self.streak + 1,
            click.streak != 1 ==> button == self.button && is_near(position, self.position),
            !(button == self.button && is_near(position, self.position)) ==> click.streak == 1,
    {
        let now = instant_now();
        let elapsed = duration_nanos(&instant_duration_since(&now, &self.time));
        let click = self.add_at(button, position, now, elapsed);
        assert(click == spec_add_at(*self, button, position, click.time, elapsed as nat));
        click
    }
}

/// Quick clicks of one button in one cell count up: after `n` further
/// clicks, each at most `CLICK_INTERVAL` after the one before, a streak
/// started by a click of that button in that or an adjacent cell has grown
/// by `n` (so a first click followed by `n` clicks counts `n + 1`).
pub proof fn law_streak_counts_quick_clicks(
    start: LastMouseClick,
    button: MouseButton,
    position: ClickPosition,
    steps: Seq<(Instant, nat)>,
)
    requires
        start.button == button,
        is_near(position, start.position),
        forall|i: int| 0 <= i < steps.len() ==> #[trigger] steps[i].1 <= click_interval_nanos(),
        start.streak + steps.len() <= usize::MAX,
    ensures
        click_chain(start, button, position, steps).streak == start.streak + steps.len(),
        steps.len() > 0 ==> click_chain(start, button, position, steps).button == button
            && click_chain(start, button, position, steps).position == position,
    decreases steps.len(),
{
    if steps.len() > 0 {
        let front = steps.drop_last();
        assert forall|i: int| 0 <= i < front.len() implies #[trigger] front[i].1
            <= click_interval_nanos() by {
            assert(front[i] == steps[i]);
        }
        law_streak_counts_quick_clicks(start, button, position, front);
        let prev = click_chain(start, button, position, front);
        assert(steps.last() == steps[steps.len() - 1]);
        if front.len() > 0 {
            assert(is_near(position, prev.position));
        }
    }
}

/// Pixel offsets inside a cell never change the streak.
pub proof fn law_pixel_offsets_ignored(
    prev: LastMouseClick,
    button: MouseButton,
    p1: ClickPosition,
    p2: ClickPosition,
    now: Instant,
    elapsed_nanos: nat,
)
    requires
        p1.column == p2.column,
        p1.row == p2.row,
    ensures
        spec_add_at(prev, button, p1, now, elapsed_nanos).streak == spec_add_at(
            prev,
            button,
            p2,
            now,
            elapsed_nanos,
        ).streak,
{
}

/// A click continues the streak exactly when it is of the same button, in
/// the same or an adjacent cell (column and row each at most one away), and
/// at most 500 ms (500,000,000 ns) after the previous click; it then counts
/// one more, and otherwise starts again at 1. The new click is the one
/// given: its button, position and instant.
pub proof fn law_streak_rule(
    prev: LastMouseClick,
    button: MouseButton,
    position: ClickPosition,
    now: Instant,
    elapsed_nanos: nat,
)
    requires
        prev.streak < usize::MAX,
    ensures
        ({
            let next = spec_add_at(prev, button, position, now, elapsed_nanos);
            let dc = position.column as int - prev.position.column as int;
            let dr = position.row as int - prev.position.row as int;
            &&& next.button == button
            &&& next.position == position
            &&& next.time == now
            &&& (button == prev.button && -1 <= dc <= 1 && -1 <= dr <= 1 && elapsed_nanos
                <= 500_000_000) ==> next.streak == prev.streak + 1
            &&& button != prev.button ==> next.streak == 1
            &&& (dc > 1 || dc < -1 || dr > 1 || dr < -1) ==> next.streak == 1
            &&& elapsed_nanos > 500_000_000 ==> next.streak == 1
        }),
{
}

} // verus!
