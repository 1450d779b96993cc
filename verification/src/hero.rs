use vstd::prelude::*;

use crate::attack::{lemma_total_time_grows, total_time};
use crate::client::{KeyActionKind, Move};

verus! {

/// Which direction keys are held down.
#[derive(Debug, Clone, Copy, PartialEq, Eq, Structural)]
pub struct Moving {
    pub left: bool,
    pub right: bool,
    pub up: bool,
    pub down: bool,
}

/// `1` for a held key, `0` otherwise.
pub open spec fn held(b: bool) -> int {
    if b {
        1
    } else {
        0
    }
}

impl Moving {
    /// The unit steps along x and y that the held keys ask for: left is
    /// `-1` and right `+1` on x, up is `-1` and down `+1` on y; opposite keys
    /// cancel.
    pub open spec fn steps(self) -> (int, int) {
        (held(self.right) - held(self.left), held(self.down) - held(self.up))
    }

    pub open spec fn new_spec() -> Moving {
        Moving { left: false, right: false, up: false, down: false }
    }

    /// The keys held after the key of `movement` went down or up.
    pub open spec fn with_key(self, kind: KeyActionKind, movement: Move) -> Moving {
        let pressed = kind == KeyActionKind::Pressed;
        Moving {
            left: if movement == Move::Left { pressed } else { self.left },
            right: if movement == Move::Right { pressed } else { self.right },
            up: if movement == Move::Up { pressed } else { self.up },
            down: if movement == Move::Down { pressed } else { self.down },
        }
    }

    /// Whether the key of `movement` is held.
    pub open spec fn holds(self, movement: Move) -> bool {
        match movement {
            Move::Left => self.left,
            Move::Right => self.right,
            Move::Up => self.up,
            Move::Down => self.down,
        }
    }

    /// No key held.
    pub fn new() -> (moving: Self)
        ensures
            moving == Moving::new_spec(),
    {
        Moving { left: false, right: false, up: false, down: false }
    }

    /// Records that the key of `movement` went down or up.
    pub fn handle_key(&mut self, kind: KeyActionKind, movement: Move)
        ensures
            *final(self) == old(self).with_key(kind, movement),
    {
        let pressed = match kind {
            KeyActionKind::Pressed => true,
            KeyActionKind::Released => false,
        };
        match movement {
            Move::Left => self.left = pressed,
            Move::Right => self.right = pressed,
            Move::Up => self.up = pressed,
            Move::Down => self.down = pressed,
        }
    }

    /// Whether the held keys move the hero: on some axis exactly one of the
    /// two keys is held.
    pub fn is_moving(&self) -> (moving: bool)
        ensures
            moving <==> (self.left != self.right || self.up != self.down),
    {
        let moving_x = self.left ^ self.right;
        let moving_y = self.up ^ self.down;
        moving_x || moving_y
    }

    /// The direction of the held keys, as unit steps along x and y.
    pub fn direction(&self) -> (steps: (i8, i8))
        ensures
            steps.0 == self.steps().0,
            steps.1 == self.steps().1,
    {
        let mut x: i8 = 0;
        let mut y: i8 = 0;
        if self.up {
            y = y - 1;
        }
        if self.down {
            y = y + 1;
        }
        if self.left {
            x = x - 1;
        }
        if self.right {
            x = x + 1;
        }
        (x, y)
    }
}

/// Law: the held keys give a direction other than zero exactly when they move
/// the hero.
pub proof fn lemma_direction_zero_iff_still(moving: Moving)
    ensures
        (moving.steps().0 != 0 || moving.steps().1 != 0) <==> (moving.left != moving.right
            || moving.up != moving.down),
{
}

/// Law: pressing a key and releasing it leaves the key released and the
/// other keys as they were; so when the key was not held before, the keys
/// held are the same as before the press.
pub proof fn lemma_press_release_restores(before: Moving, movement: Move)
    ensures
        before.with_key(KeyActionKind::Pressed, movement).with_key(
            KeyActionKind::Released,
            movement,
        ) == before.with_key(KeyActionKind::Released, movement),
        !before.holds(movement) ==> before.with_key(KeyActionKind::Pressed, movement).with_key(
            KeyActionKind::Released,
            movement,
        ) == before,
{
}

/// A dash in direction `direction`, taking `time_to_complete` ms.
#[derive(Debug, Clone, Copy, PartialEq, Eq)]
pub struct DashInfo<V> {
    pub direction: V,
    pub time_passed: u128,
    pub time_to_complete: u128,
}

impl<V> DashInfo<V> {
    pub fn new(direction: V, time_to_complete: u128) -> (dash: Self)
        ensures
            dash.direction == direction,
            dash.time_passed == 0,
            dash.time_to_complete == time_to_complete,
    {
        DashInfo { direction, time_passed: 0, time_to_complete }
    }

    pub fn update(&mut self, dt: u128)
        requires
            old(self).time_passed + dt <= u128::MAX,
        ensures
            final(self).time_passed == old(self).time_passed + dt,
            final(self).time_to_complete == old(self).time_to_complete,
            final(self).direction == old(self).direction,
    {
        self.time_passed += dt;
    }
}

/// The pause after a dash before the next one.
#[derive(Debug, Clone, Copy, PartialEq, Eq, Structural)]
pub struct DashCooldown {
    pub time_passed: u128,
    pub duration: u128,
}

impl DashCooldown {
    pub fn new(duration: u128) -> (cooldown: Self)
        ensures
            cooldown.time_passed == 0,
            cooldown.duration == duration,
    {
        DashCooldown { time_passed: 0, duration }
    }

    pub fn update(&mut self, dt: u128)
        requires
            old(self).time_passed + dt <= u128::MAX,
        ensures
            final(self).time_passed == old(self).time_passed + dt,
            final(self).duration == old(self).duration,
    {
        self.time_passed += dt;
    }

    pub fn completed(&self) -> (done: bool)
        ensures
            done <==> self.time_passed >= self.duration,
    {
        self.time_passed >= self.duration
    }
}

/// A dash cooldown after `update` was called with each time of `dts` in turn.
pub open spec fn cooldown_updated(c: DashCooldown, dts: Seq<u128>) -> DashCooldown
    decreases dts.len(),
{
    if dts.len() == 0 {
        c
    } else {
        let before = cooldown_updated(c, dts.drop_last());
        DashCooldown { time_passed: (before.time_passed + dts.last()) as u128, ..before }
    }
}

/// Law: a cooldown of `duration` ms, updated with each time of `dts` in
/// turn, has counted their total, and is over exactly when that total
/// reaches `duration`.
pub proof fn lemma_cooldown_total_time(duration: u128, dts: Seq<u128>)
    requires
        total_time(dts) <= u128::MAX,
    ensures
        cooldown_updated(DashCooldown { time_passed: 0, duration }, dts).time_passed == total_time(
            dts,
        ),
        cooldown_updated(DashCooldown { time_passed: 0, duration }, dts).duration == duration,
        cooldown_updated(DashCooldown { time_passed: 0, duration }, dts).time_passed >= duration
            <==> total_time(dts) >= duration,
    decreases dts.len(),
{
    if dts.len() > 0 {
        lemma_total_time_grows(dts, dts.len() - 1);
        assert(dts.take(dts.len() - 1) =~= dts.drop_last());
        lemma_cooldown_total_time(duration, dts.drop_last());
    }
}

} // verus!
