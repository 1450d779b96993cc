use vstd::prelude::*;

use crate::attack::{lemma_total_time_grows, total_time, RecoverInfo};
use crate::hero::{DashCooldown, DashInfo};

verus! {

/// How long a hero's dash cooldown lasts, in ms.
pub const DASH_COOLDOWN: u128 = 200;

/// How long a hero recovers after its attack, in ms.
pub const HERO_RECOVERY: u128 = 0;

/// What a character is busy with. The payloads that carry positions and
/// angles (a walk target `M`, a dash direction `V`, an attack `A`, a complex
/// attack `C`) are the caller's; the action only keeps their time.
#[derive(Debug, Clone, Copy, PartialEq, Eq)]
pub enum Action<M, V, A, C> {
    Move(M),
    Dash(DashInfo<V>),
    DashCooldown(DashCooldown),
    Attack(A),
    Recovery(RecoverInfo),
    ComplexAttack(C),
    Animation,
    Empty,
}

impl<M, V, A, C> Action<M, V, A, C> {
    /// Whether `dt` ms can pass without a timer running over.
    pub open spec fn can_advance(self, dt: u128) -> bool {
        match self {
            Action::Dash(d) => d.time_passed + dt <= u128::MAX,
            Action::DashCooldown(c) => c.time_passed + dt <= u128::MAX,
            Action::Recovery(r) => r.time_passed + dt <= u128::MAX,
            _ => true,
        }
    }

    /// The action after `dt` ms: dashes, cooldowns and recoveries count the
    /// time, and a cooldown or recovery that is over leaves the character
    /// free; walking, attacks and animations are advanced elsewhere.
    pub open spec fn after(self, dt: u128) -> Self {
        match self {
            Action::Dash(d) => Action::Dash(
                DashInfo { time_passed: (d.time_passed + dt) as u128, ..d },
            ),
            Action::DashCooldown(c) => if c.time_passed + dt >= c.duration {
                Action::Empty
            } else {
                Action::DashCooldown(DashCooldown { time_passed: (c.time_passed + dt) as u128, ..c })
            },
            Action::Recovery(r) => if r.time_passed + dt >= r.time_to_complete {
                Action::Empty
            } else {
                Action::Recovery(RecoverInfo { time_passed: (r.time_passed + dt) as u128, ..r })
            },
            _ => self,
        }
    }

    pub fn is_empty(&self) -> (empty: bool)
        ensures
            empty <==> self is Empty,
    {
        match self {
            Action::Empty => true,
            _ => false,
        }
    }

    pub fn is_some(&self) -> (busy: bool)
        ensures
            busy <==> !(self is Empty),
    {
        !self.is_empty()
    }

    /// Whether the character is dashing (and so cannot be hurt).
    pub fn is_dash(&self) -> (dashing: bool)
        ensures
            dashing <==> self is Dash,
    {
        match self {
            Action::Dash(_) => true,
            _ => false,
        }
    }

    /// A hero's attack is over: it recovers for `HERO_RECOVERY` ms.
    pub fn finish_attack(&mut self)
        ensures
            *final(self) == Action::<M, V, A, C>::Recovery(
                RecoverInfo { time_passed: 0, time_to_complete: HERO_RECOVERY },
            ),
    {
        *self = Action::Recovery(RecoverInfo::new(HERO_RECOVERY));
    }

    /// A hero's dash is over: it may not dash again for `DASH_COOLDOWN` ms.
    pub fn finish_dash(&mut self)
        ensures
            *final(self) == Action::<M, V, A, C>::DashCooldown(
                DashCooldown { time_passed: 0, duration: DASH_COOLDOWN },
            ),
    {
        *self = Action::DashCooldown(DashCooldown::new(DASH_COOLDOWN));
    }

    pub fn clear(&mut self)
        ensures
            *final(self) is Empty,
    {
        *self = Action::Empty;
    }

    /// Lets `dt` ms pass.
    pub fn update(&mut self, dt: u128)
        requires
            old(self).can_advance(dt),
        ensures
            *final(self) == old(self).after(dt),
            *old(self) matches Action::DashCooldown(c) ==> match *final(self) {
                Action::Empty => c.time_passed + dt >= c.duration,
                Action::DashCooldown(n) => c.time_passed + dt < c.duration && n.time_passed
                    == c.time_passed + dt && n.duration == c.duration,
                _ => false,
            },
            *old(self) matches Action::Recovery(r) ==> match *final(self) {
                Action::Empty => r.time_passed + dt >= r.time_to_complete,
                Action::Recovery(n) => r.time_passed + dt < r.time_to_complete && n.time_passed
                    == r.time_passed + dt && n.time_to_complete == r.time_to_complete,
                _ => false,
            },
    {
        match self {
            Action::Dash(d) => {
                d.update(dt);
            },
            Action::DashCooldown(cooldown) => {
                cooldown.update(dt);
                if cooldown.completed() {
                    self.clear();
                }
            },
            Action::Recovery(recovery) => {
                recovery.update(dt);
                if recovery.completed() {
                    self.clear();
                }
            },
            _ => {},
        }
    }
}

/// Law: a cooldown or recovery ends exactly when its time is over, and an
/// empty action stays empty.
pub proof fn lemma_action_timers_end<M, V, A, C>(action: Action<M, V, A, C>, dt: u128)
    requires
        action.can_advance(dt),
    ensures
        action is Empty ==> action.after(dt) is Empty,
        action matches Action::DashCooldown(c) ==> (action.after(dt) is Empty <==> c.time_passed
            + dt >= c.duration),
        action matches Action::Recovery(r) ==> (action.after(dt) is Empty <==> r.time_passed + dt
            >= r.time_to_complete),
        action is Dash ==> action.after(dt) is Dash,
{
}

/// An action after `update` was called with each time of `dts` in turn.
pub open spec fn action_run<M, V, A, C>(action: Action<M, V, A, C>, dts: Seq<u128>) -> Action<
    M,
    V,
    A,
    C,
>
    decreases dts.len(),
{
    if dts.len() == 0 {
        action
    } else {
        action_run(action, dts.drop_last()).after(dts.last())
    }
}

/// Law: letting `dt` ms pass on a dash cooldown or a recovery adds `dt` to
/// the time it has counted and keeps its length, unless that time reaches
/// its length, and then the character is free.
pub proof fn lemma_action_step<M, V, A, C>(action: Action<M, V, A, C>, dt: u128)
    requires
        action.can_advance(dt),
    ensures
        action matches Action::DashCooldown(c) ==> match action.after(dt) {
            Action::Empty => c.time_passed + dt >= c.duration,
            Action::DashCooldown(n) => c.time_passed + dt < c.duration && n.time_passed
                == c.time_passed + dt && n.duration == c.duration,
            _ => false,
        },
        action matches Action::Recovery(r) ==> match action.after(dt) {
            Action::Empty => r.time_passed + dt >= r.time_to_complete,
            Action::Recovery(n) => r.time_passed + dt < r.time_to_complete && n.time_passed
                == r.time_passed + dt && n.time_to_complete == r.time_to_complete,
            _ => false,
        },
        action matches Action::Dash(d) ==> (action.after(dt) matches Action::Dash(n)
            && n.time_passed == d.time_passed + dt && n.time_to_complete == d.time_to_complete),
{
}

/// Law: a dash cooldown of `duration` ms that starts now and is let run for
/// the times of `dts` (at least one) frees the character exactly when their
/// total reaches `duration`; until then it has counted that total.
pub proof fn lemma_cooldown_run<M, V, A, C>(duration: u128, dts: Seq<u128>)
    requires
        dts.len() > 0,
        total_time(dts) <= u128::MAX,
    ensures
        action_run(
            Action::<M, V, A, C>::DashCooldown(DashCooldown { time_passed: 0, duration }),
            dts,
        ) is Empty <==> total_time(dts) >= duration,
        !(total_time(dts) >= duration) ==> action_run(
            Action::<M, V, A, C>::DashCooldown(DashCooldown { time_passed: 0, duration }),
            dts,
        ) == Action::<M, V, A, C>::DashCooldown(
            DashCooldown { time_passed: total_time(dts) as u128, duration },
        ),
    decreases dts.len(),
{
    let rest = dts.drop_last();
    lemma_total_time_grows(dts, dts.len() - 1);
    assert(dts.take(dts.len() - 1) =~= rest);
    if rest.len() > 0 {
        lemma_cooldown_run::<M, V, A, C>(duration, rest);
    } else {
        assert(total_time(rest) == 0);
    }
}

/// Law: a recovery of `time_to_complete` ms that starts now and is let run
/// for the times of `dts` (at least one) frees the character exactly when
/// their total reaches `time_to_complete`; until then it has counted that
/// total.
pub proof fn lemma_recovery_action_run<M, V, A, C>(time_to_complete: u128, dts: Seq<u128>)
    requires
        dts.len() > 0,
        total_time(dts) <= u128::MAX,
    ensures
        action_run(
            Action::<M, V, A, C>::Recovery(RecoverInfo { time_passed: 0, time_to_complete }),
            dts,
        ) is Empty <==> total_time(dts) >= time_to_complete,
        !(total_time(dts) >= time_to_complete) ==> action_run(
            Action::<M, V, A, C>::Recovery(RecoverInfo { time_passed: 0, time_to_complete }),
            dts,
        ) == Action::<M, V, A, C>::Recovery(
            RecoverInfo { time_passed: total_time(dts) as u128, time_to_complete },
        ),
    decreases dts.len(),
{
    let rest = dts.drop_last();
    lemma_total_time_grows(dts, dts.len() - 1);
    assert(dts.take(dts.len() - 1) =~= rest);
    if rest.len() > 0 {
        lemma_recovery_action_run::<M, V, A, C>(time_to_complete, rest);
    } else {
        assert(total_time(rest) == 0);
    }
}

} // verus!
