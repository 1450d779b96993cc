use vstd::prelude::*;

use crate::client::{KeyActionKind, Move};
use crate::hero::Moving;

verus! {

/// The hp a single hit takes.
pub const HIT_DAMAGE: i32 = 35;

/// How long after a key is released the direction is looked at again, in ms.
pub const KEY_UP_GRACE: u128 = 100;

/// A hero's hp after one hit: a dashing hero, or one at exactly 0 hp, takes
/// nothing; otherwise the hit takes `HIT_DAMAGE`, but not below 0.
pub open spec fn hero_hp_after_hit(hp: i32, dashing: bool) -> i32 {
    if dashing || hp == 0 {
        hp
    } else if hp - HIT_DAMAGE < 0 {
        0
    } else {
        (hp - HIT_DAMAGE) as i32
    }
}

/// A hero's health.
#[derive(Debug, Clone, Copy, PartialEq, Eq, Structural)]
pub struct HeroVitals {
    pub hp: i32,
    pub max_hp: i32,
}

impl HeroVitals {
    /// A fresh hero: 1000 of 1000 hp.
    pub fn new() -> (vitals: Self)
        ensures
            vitals.hp == 1000,
            vitals.max_hp == 1000,
    {
        HeroVitals { hp: 1000, max_hp: 1000 }
    }

    /// Takes one hit, unless the hero is dashing.
    pub fn receive_damage(&mut self, dashing: bool)
        requires
            !dashing && old(self).hp != 0 ==> old(self).hp >= i32::MIN + HIT_DAMAGE,
        ensures
            final(self).hp == hero_hp_after_hit(old(self).hp, dashing),
            final(self).max_hp == old(self).max_hp,
            !dashing && old(self).hp >= HIT_DAMAGE ==> final(self).hp == old(self).hp - HIT_DAMAGE,
            !dashing && 0 < old(self).hp < HIT_DAMAGE ==> final(self).hp == 0,
            dashing || old(self).hp == 0 ==> final(self).hp == old(self).hp,
    {
        if dashing {
            return;
        }
        if self.hp == 0 {
            return;
        }
        self.hp -= HIT_DAMAGE;
        if self.hp < 0 {
            self.hp = 0;
        }
    }

    pub fn defeated(&self) -> (down: bool)
        ensures
            down <==> self.hp <= 0,
    {
        self.hp <= 0
    }

    /// Heals the hero fully.
    pub fn reset(&mut self)
        ensures
            final(self).hp == old(self).max_hp,
            final(self).max_hp == old(self).max_hp,
    {
        self.hp = self.max_hp;
    }
}

/// Law: a hit never heals, never takes a hero with hp in `0..=max_hp` out of
/// that range, and leaves a dashing hero untouched.
pub proof fn lemma_hero_hit_bounds(hp: i32, max_hp: i32, dashing: bool)
    requires
        0 <= hp <= max_hp,
    ensures
        0 <= hero_hp_after_hit(hp, dashing) <= hp,
        dashing ==> hero_hp_after_hit(hp, dashing) == hp,
        !dashing && hp > 0 ==> hero_hp_after_hit(hp, dashing) < hp,
{
}

/// Law: a hit takes exactly `HIT_DAMAGE` from a hero that is not dashing
/// and has at least that much hp, and brings one with less (but some) down
/// to 0; a boss with more hp than a hit takes loses exactly `HIT_DAMAGE`, and
/// one with less or as much goes down to 0 and starts its respawn time; a
/// defeated boss counts the time it has been down.
pub proof fn lemma_hit_takes_exactly(hp: i32, boss: BossVitals, dt: u128)
    ensures
        hp >= HIT_DAMAGE ==> hero_hp_after_hit(hp, false) == hp - HIT_DAMAGE,
        0 < hp < HIT_DAMAGE ==> hero_hp_after_hit(hp, false) == 0,
        hero_hp_after_hit(hp, true) == hp,
        boss.hp > HIT_DAMAGE ==> boss.after_hit() == (BossVitals {
            hp: (boss.hp - HIT_DAMAGE) as i32,
            ..boss
        }),
        0 < boss.hp <= HIT_DAMAGE ==> boss.after_hit() == (BossVitals {
            hp: 0,
            time_since_defeated: 0,
            ..boss
        }),
        boss.hp <= 0 ==> boss.after_hit() == boss,
        boss.hp <= 0 && boss.time_since_defeated + dt <= u128::MAX ==> boss.after_wait(
            dt,
        ).time_since_defeated == boss.time_since_defeated + dt && (boss.after_wait(dt).hp
            == if boss.time_since_defeated + dt > boss.respawn_time {
            boss.max_hp
        } else {
            boss.hp
        }),
        boss.hp > 0 ==> boss.after_wait(dt) == boss,
{
}

/// The keys a hero holds, and how long ago one was released.
#[derive(Debug, Clone, Copy, PartialEq, Eq, Structural)]
pub struct HeroControls {
    pub moving: Moving,
    pub last_key_up: Option<u128>,
}

impl HeroControls {
    pub fn new() -> (controls: Self)
        ensures
            controls.moving == Moving::new_spec(),
            controls.last_key_up is None,
    {
        HeroControls { moving: Moving::new(), last_key_up: None }
    }

    /// Records a key going down or up and gives the hero's new direction; a
    /// release also starts the grace timer.
    pub fn handle_move_action(&mut self, kind: KeyActionKind, movement: Move) -> (direction: (
        i8,
        i8,
    ))
        ensures
            final(self).moving == old(self).moving.with_key(kind, movement),
            final(self).last_key_up == (if kind == KeyActionKind::Released {
                Some(0u128)
            } else {
                old(self).last_key_up
            }),
            direction.0 == final(self).moving.steps().0,
            direction.1 == final(self).moving.steps().1,
    {
        self.moving.handle_key(kind, movement);
        if let KeyActionKind::Released = kind {
            self.last_key_up = Some(0);
        }
        self.moving.direction()
    }

    /// Lets `dt` ms pass on the grace timer. Once it runs past
    /// `KEY_UP_GRACE` it stops, and if the hero still moves, the direction
    /// is looked at again: that direction is returned.
    pub fn update_key_timer(&mut self, dt: u128) -> (redirect: Option<(i8, i8)>)
        requires
            old(self).last_key_up matches Some(t) ==> t + dt <= u128::MAX,
        ensures
            final(self).moving == old(self).moving,
            match old(self).last_key_up {
                None => final(self).last_key_up is None && redirect is None,
                Some(t) => if t + dt > KEY_UP_GRACE {
                    &&& final(self).last_key_up is None
                    &&& redirect == (if old(self).moving.left != old(self).moving.right
                        || old(self).moving.up != old(self).moving.down {
                        Some(
                            (
                                old(self).moving.steps().0 as i8,
                                old(self).moving.steps().1 as i8,
                            ),
                        )
                    } else {
                        None
                    })
                } else {
                    final(self).last_key_up == Some((t + dt) as u128) && redirect is None
                },
            },
    {
        match self.last_key_up {
            None => None,
            Some(t) => {
                let time_passed: u128 = t + dt;
                if time_passed > KEY_UP_GRACE {
                    self.last_key_up = None;
                    if self.moving.is_moving() {
                        Some(self.moving.direction())
                    } else {
                        None
                    }
                } else {
                    self.last_key_up = Some(time_passed);
                    None
                }
            },
        }
    }
}

/// A boss's health, and how long it has been down.
#[derive(Debug, Clone, Copy, PartialEq, Eq, Structural)]
pub struct BossVitals {
    pub hp: i32,
    pub max_hp: i32,
    pub time_since_defeated: u128,
    pub respawn_time: u128,
}

impl BossVitals {
    /// A fresh boss: 300 of 300 hp, back 10 s after it is defeated.
    pub fn new() -> (vitals: Self)
        ensures
            vitals == (BossVitals { hp: 300, max_hp: 300, time_since_defeated: 0, respawn_time: 10_000 }),
    {
        BossVitals { hp: 300, max_hp: 300, time_since_defeated: 0, respawn_time: 10_000 }
    }

    /// A fresh boss whose respawn time is given in seconds, as the editor saves it.
    pub fn with_respawn_seconds(respawn_seconds: u128) -> (vitals: Self)
        requires
            respawn_seconds * 1000 <= u128::MAX,
        ensures
            vitals == (BossVitals {
                hp: 300,
                max_hp: 300,
                time_since_defeated: 0,
                respawn_time: (respawn_seconds * 1000) as u128,
            }),
    {
        BossVitals { hp: 300, max_hp: 300, time_since_defeated: 0, respawn_time: respawn_seconds * 1000 }
    }

    pub fn defeated(&self) -> (down: bool)
        ensures
            down <==> self.hp <= 0,
    {
        self.hp <= 0
    }

    /// The boss after one hit: a defeated boss takes nothing; otherwise the
    /// hit takes `HIT_DAMAGE`, but not below 0, and a boss brought to 0 starts
    /// its respawn time.
    pub open spec fn after_hit(self) -> BossVitals {
        if self.hp <= 0 {
            self
        } else if self.hp - HIT_DAMAGE <= 0 {
            BossVitals { hp: 0, time_since_defeated: 0, ..self }
        } else {
            BossVitals { hp: (self.hp - HIT_DAMAGE) as i32, ..self }
        }
    }

    /// The boss after `dt` ms: a defeated boss counts the time, and once it
    /// has been down longer than its respawn time it is back at full hp.
    pub open spec fn after_wait(self, dt: u128) -> BossVitals {
        if self.hp > 0 {
            self
        } else {
            let t: int = self.time_since_defeated + dt;
            BossVitals {
                time_since_defeated: t as u128,
                hp: if t > self.respawn_time { self.max_hp } else { self.hp },
                ..self
            }
        }
    }

    /// Takes one hit.
    pub fn receive_damage(&mut self)
        ensures
            *final(self) == old(self).after_hit(),
            old(self).hp > HIT_DAMAGE ==> final(self).hp == old(self).hp - HIT_DAMAGE,
            0 < old(self).hp <= HIT_DAMAGE ==> final(self).hp == 0 && final(self).time_since_defeated == 0,
            old(self).hp <= 0 ==> *final(self) == *old(self),
    {
        if self.defeated() {
            return;
        }
        self.hp -= HIT_DAMAGE;
        if self.hp < 0 {
            self.hp = 0;
        }
        if self.hp == 0 {
            self.time_since_defeated = 0;
        }
    }

    /// Lets `dt` ms pass for a defeated boss.
    pub fn check_respawn_time(&mut self, dt: u128)
        requires
            old(self).hp <= 0 ==> old(self).time_since_defeated + dt <= u128::MAX,
        ensures
            *final(self) == old(self).after_wait(dt),
    {
        if !self.defeated() {
            return;
        }
        self.time_since_defeated += dt;
        if self.time_since_defeated > self.respawn_time {
            self.hp = self.max_hp;
        }
    }
}

/// Law: a boss takes hits until it is down, and stays down (taking no more
/// hits) until more than its respawn time has passed since the hit that
/// downed it; then it is back at full hp.
pub proof fn lemma_boss_respawns(boss: BossVitals, dt: u128)
    requires
        0 < boss.hp <= HIT_DAMAGE,
        boss.max_hp > 0,
    ensures
        boss.after_hit().hp == 0,
        boss.after_hit().after_hit() == boss.after_hit(),
        dt > boss.respawn_time ==> boss.after_hit().after_wait(dt).hp == boss.max_hp,
        dt <= boss.respawn_time ==> boss.after_hit().after_wait(dt).hp == 0,
{
}

/// Whether a boss may start a new attack: it is not defeated, not attacking
/// and not recovering from an attack.
pub fn can_start_attack(vitals: &BossVitals, attacking: bool, recovering: bool) -> (may: bool)
    ensures
        may <==> vitals.hp > 0 && !attacking && !recovering,
{
    if vitals.defeated() {
        return false;
    }
    if attacking || recovering {
        return false;
    }
    true
}

/// A random index below `len`.
#[verifier::external_body]
fn random_index(len: usize) -> (index: usize)
    requires
        len > 0,
    ensures
        index < len,
{
    rand::random_range(0..len)
}

/// The hero a boss goes after, among `count` heroes: none when there is no
/// hero, the only one when there is one, a random one otherwise.
pub fn choose_target(count: usize) -> (target: Option<usize>)
    ensures
        count == 0 ==> target is None,
        count == 1 ==> target == Some(0usize),
        count > 1 ==> (target matches Some(i) && i < count),
{
    if count == 0 {
        None
    } else if count == 1 {
        Some(0)
    } else {
        Some(random_index(count))
    }
}

/// The attack a boss uses, among `candidates` attacks in range: none when
/// there is none, a random one otherwise.
pub fn choose_attack(candidates: usize) -> (chosen: Option<usize>)
    ensures
        candidates == 0 ==> chosen is None,
        candidates > 0 ==> (chosen matches Some(i) && i < candidates),
{
    if candidates == 0 {
        None
    } else {
        Some(random_index(candidates))
    }
}

} // verus!
