use vstd::prelude::*;

verus! {

/// Something that takes damage from an attack.
pub trait ReceiveDamage: Sized {
    /// What the target is after it took a hit of `value`; each implementor
    /// says what a hit does to it.
    spec fn damaged(self, value: u32) -> Self;

    /// Takes a hit of `value`.
    fn receive_damage(&mut self, value: u32)
        ensures
            *final(self) == old(self).damaged(value),
    ;
}

/// The shape of an attack.
#[derive(Debug, Clone, Copy, PartialEq, Eq, Structural)]
pub enum AttackKind {
    Pizza,
    Circle,
}

impl AttackKind {
    /// Every kind, in the order the editor offers them.
    pub fn options() -> (kinds: [AttackKind; 2])
        ensures
            kinds@ == seq![AttackKind::Pizza, AttackKind::Circle],
    {
        let kinds = [AttackKind::Pizza, AttackKind::Circle];
        assert(kinds@ =~= seq![AttackKind::Pizza, AttackKind::Circle]);
        kinds
    }

    /// The name of the kind, as its `Display` writes it.
    pub fn name(&self) -> (text: &'static str)
        ensures
            text@ == attack_kind_name(*self),
    {
        match self {
            AttackKind::Pizza => "Pizza",
            AttackKind::Circle => "Circle",
        }
    }
}

pub open spec fn attack_kind_name(kind: AttackKind) -> Seq<char> {
    match kind {
        AttackKind::Pizza => "Pizza"@,
        AttackKind::Circle => "Circle"@,
    }
}

/// How an attack sweeps over its area.
#[derive(Debug, Clone, Copy, PartialEq, Eq, Structural)]
pub enum AttackOrder {
    LeftToRight,
    RightToLeft,
    LeftThenRight,
    RightThenLeft,
    CloseToFar,
    CenterToSides,
    SidesToCenter,
    ExpandingCircle,
    ProjectileFromCaster,
}

pub open spec fn all_attack_orders() -> Seq<AttackOrder> {
    seq![
        AttackOrder::LeftToRight,
        AttackOrder::RightToLeft,
        AttackOrder::LeftThenRight,
        AttackOrder::RightThenLeft,
        AttackOrder::CloseToFar,
        AttackOrder::CenterToSides,
        AttackOrder::SidesToCenter,
        AttackOrder::ExpandingCircle,
        AttackOrder::ProjectileFromCaster,
    ]
}

pub open spec fn attack_order_name(order: AttackOrder) -> Seq<char> {
    match order {
        AttackOrder::LeftToRight => "LeftToRight"@,
        AttackOrder::RightToLeft => "RightToLeft"@,
        AttackOrder::LeftThenRight => "LeftThenRight"@,
        AttackOrder::RightThenLeft => "RightThenLeft"@,
        AttackOrder::CloseToFar => "CloseToFar"@,
        AttackOrder::CenterToSides => "CenterToSides"@,
        AttackOrder::SidesToCenter => "SidesToCenter"@,
        AttackOrder::ExpandingCircle => "ExpandingCircle"@,
        AttackOrder::ProjectileFromCaster => "ProjectileFromCaster"@,
    }
}

impl AttackOrder {
    /// Every order, in the order the editor offers them.
    pub fn options() -> (orders: [AttackOrder; 9])
        ensures
            orders@ == all_attack_orders(),
    {
        let orders = [
            AttackOrder::LeftToRight,
            AttackOrder::RightToLeft,
            AttackOrder::LeftThenRight,
            AttackOrder::RightThenLeft,
            AttackOrder::CloseToFar,
            AttackOrder::CenterToSides,
            AttackOrder::SidesToCenter,
            AttackOrder::ExpandingCircle,
            AttackOrder::ProjectileFromCaster,
        ];
        assert(orders@ =~= all_attack_orders());
        orders
    }

    /// The name of the order, as its `Display` writes it.
    pub fn name(&self) -> (text: &'static str)
        ensures
            text@ == attack_order_name(*self),
    {
        match self {
            AttackOrder::LeftToRight => "LeftToRight",
            AttackOrder::RightToLeft => "RightToLeft",
            AttackOrder::LeftThenRight => "LeftThenRight",
            AttackOrder::RightThenLeft => "RightThenLeft",
            AttackOrder::CloseToFar => "CloseToFar",
            AttackOrder::CenterToSides => "CenterToSides",
            AttackOrder::SidesToCenter => "SidesToCenter",
            AttackOrder::ExpandingCircle => "ExpandingCircle",
            AttackOrder::ProjectileFromCaster => "ProjectileFromCaster",
        }
    }

    /// Whether the sweep runs from the right: the angle of such an attack
    /// is mirrored.
    pub fn from_right(&self) -> (mirrored: bool)
        ensures
            mirrored <==> (*self == AttackOrder::RightToLeft || *self
                == AttackOrder::RightThenLeft),
    {
        match self {
            AttackOrder::RightToLeft | AttackOrder::RightThenLeft => true,
            _ => false,
        }
    }

    /// Whether the reach of the attack grows with its progress (otherwise it
    /// has its full reach from the start).
    pub fn grows(&self) -> (grows: bool)
        ensures
            grows <==> (*self == AttackOrder::CloseToFar || *self
                == AttackOrder::ExpandingCircle),
    {
        match self {
            AttackOrder::CloseToFar | AttackOrder::ExpandingCircle => true,
            _ => false,
        }
    }
}

/// Ways a pizza-shaped attack can be drawn.
#[derive(Debug, Clone, Copy, PartialEq, Eq, Structural)]
pub enum PizzaAnimationKind {
    StartAngle,
    EndAngle,
    WidthAngle,
}

#[derive(Debug, Clone, Copy, PartialEq, Eq, Structural)]
pub enum MissileShape {
    Circle,
}

#[derive(Debug, Clone, Copy, PartialEq, Eq, Structural)]
pub struct MissileInfo {
    pub number_of_missiles: u8,
    pub shape: MissileShape,
}

/// Whether an attack is still being aimed or already hits.
#[derive(Debug, Clone, Copy, PartialEq, Eq, Structural)]
pub enum AttackState {
    Selected,
    Attacking,
}

/// An attack as the editor saves it. Its name, timings (in ms), shape, sweep
/// and state are held here; where it stands and points, its range and its
/// width are kept in floating point by the caller, in `geometry`.
#[derive(Debug)]
pub struct AttackConstructor<G> {
    pub name: String,
    pub delay: u128,
    pub time_to_complete: u128,
    pub aftercast: u128,
    pub kind: AttackKind,
    pub order: AttackOrder,
    pub state: AttackState,
    pub geometry: G,
}

impl<G> AttackConstructor<G> {
    /// A new attack named `name`: no delay, no duration, no aftercast, a
    /// pizza slice that grows from close to far, being aimed.
    pub fn new(name: String, geometry: G) -> (attack: Self)
        ensures
            attack == (AttackConstructor {
                name,
                delay: 0,
                time_to_complete: 0,
                aftercast: 0,
                kind: AttackKind::Pizza,
                order: AttackOrder::CloseToFar,
                state: AttackState::Selected,
                geometry,
            }),
    {
        AttackConstructor {
            name,
            delay: 0,
            time_to_complete: 0,
            aftercast: 0,
            kind: AttackKind::Pizza,
            order: AttackOrder::CloseToFar,
            state: AttackState::Selected,
            geometry,
        }
    }
}

/// Damage of an attack part as the editor saves it.
#[derive(Debug, Clone, Copy, PartialEq, Eq, Structural)]
pub struct AttackDamageConstructor {
    pub value: u32,
    pub instances: u32,
    pub delay_between_instances: u32,
}

/// Damage dealt in `instances` hits of `value`, at least
/// `delay_between_instances` ms apart.
#[derive(Debug, Clone, Copy, PartialEq, Eq, Structural)]
pub struct AttackDamage {
    pub value: u32,
    pub instances: u32,
    pub delay_between_instances: u32,
    pub time_since_last_done: u128,
}

impl AttackDamage {
    /// Whether `do_damage` hits `target` when `dt` ms pass in this state.
    pub open spec fn hits_after(self, dt: u128) -> bool {
        self.instances > 0 && self.time_since_last_done + dt >= self.delay_between_instances
    }

    /// The state after `dt` ms pass.
    pub open spec fn after(self, dt: u128) -> AttackDamage {
        if self.instances == 0 {
            self
        } else if self.hits_after(dt) {
            AttackDamage {
                instances: (self.instances - 1) as u32,
                time_since_last_done: 0,
                ..self
            }
        } else {
            AttackDamage { time_since_last_done: (self.time_since_last_done + dt) as u128, ..self }
        }
    }

    pub fn from_constructor(constructor: AttackDamageConstructor) -> (damage: Self)
        ensures
            damage.value == constructor.value,
            damage.instances == constructor.instances,
            damage.delay_between_instances == constructor.delay_between_instances,
            damage.time_since_last_done == 0,
    {
        let AttackDamageConstructor { value, instances, delay_between_instances } = constructor;
        AttackDamage { value, instances, delay_between_instances, time_since_last_done: 0 }
    }

    pub fn has_instances(&self) -> (some_left: bool)
        ensures
            some_left <==> self.instances > 0,
    {
        self.instances > 0
    }

    /// Lets `dt` ms pass; once the delay since the last hit is over, uses up
    /// one instance and gives the damage the hit deals.
    pub fn next_hit(&mut self, dt: u128) -> (hit: Option<u32>)
        requires
            old(self).instances > 0 ==> old(self).time_since_last_done + dt <= u128::MAX,
        ensures
            *final(self) == old(self).after(dt),
            hit == if old(self).hits_after(dt) {
                Some(old(self).value)
            } else {
                None::<u32>
            },
    {
        if !self.has_instances() {
            return None;
        }
        self.time_since_last_done += dt;
        if self.time_since_last_done < self.delay_between_instances as u128 {
            return None;
        }
        self.instances -= 1;
        self.time_since_last_done = 0;
        Some(self.value)
    }

    /// Lets `dt` ms pass; once the delay since the last hit is over, hits
    /// `target` with `value` (the hit that `next_hit` gives) and uses up one
    /// instance.
    pub fn do_damage<T: ReceiveDamage>(&mut self, target: &mut T, dt: u128)
        requires
            old(self).instances > 0 ==> old(self).time_since_last_done + dt <= u128::MAX,
        ensures
            *final(self) == old(self).after(dt),
            old(self).hits_after(dt) ==> *final(target) == old(target).damaged(old(self).value),
            !old(self).hits_after(dt) ==> *final(target) == *old(target),
    {
        if let Some(value) = self.next_hit(dt) {
            target.receive_damage(value);
        }
    }
}

/// Law: damage never gains instances; it loses exactly one each time it
/// hits, and damage with no instance left never hits.
pub proof fn lemma_damage_instances(damage: AttackDamage, dt: u128)
    ensures
        damage.after(dt).instances <= damage.instances,
        damage.hits_after(dt) ==> damage.after(dt).instances == damage.instances - 1,
        !damage.hits_after(dt) ==> damage.after(dt).instances == damage.instances,
        damage.instances == 0 ==> !damage.hits_after(dt),
{
}

/// The damage after `do_damage` was called with each time of `dts` in turn.
pub open spec fn damage_run(d: AttackDamage, dts: Seq<u128>) -> AttackDamage
    decreases dts.len(),
{
    if dts.len() == 0 {
        d
    } else {
        damage_run(d, dts.drop_last()).after(dts.last())
    }
}

/// How many of those calls hit their target (each with the damage's value).
pub open spec fn hits_in_run(d: AttackDamage, dts: Seq<u128>) -> nat
    decreases dts.len(),
{
    if dts.len() == 0 {
        0
    } else {
        hits_in_run(d, dts.drop_last()) + if damage_run(d, dts.drop_last()).hits_after(
            dts.last(),
        ) {
            1nat
        } else {
            0nat
        }
    }
}

/// Law: over any run of calls, the hits dealt and the instances left add up
/// to the instances the damage started with, so it never deals more hits
/// than that; every hit is of the same value.
pub proof fn lemma_damage_run(d: AttackDamage, dts: Seq<u128>)
    ensures
        hits_in_run(d, dts) + damage_run(d, dts).instances == d.instances,
        hits_in_run(d, dts) <= d.instances,
        damage_run(d, dts).value == d.value,
    decreases dts.len(),
{
    if dts.len() > 0 {
        lemma_damage_run(d, dts.drop_last());
    }
}

/// The pause after an attack before the next one may start.
#[derive(Debug, Clone, Copy, PartialEq, Eq, Structural)]
pub struct RecoverInfo {
    pub time_passed: u128,
    pub time_to_complete: u128,
}

impl RecoverInfo {
    pub fn new(time_to_complete: u128) -> (info: Self)
        ensures
            info.time_passed == 0,
            info.time_to_complete == time_to_complete,
    {
        RecoverInfo { time_passed: 0, time_to_complete }
    }

    pub fn update(&mut self, dt: u128)
        requires
            old(self).time_passed + dt <= u128::MAX,
        ensures
            final(self).time_passed == old(self).time_passed + dt,
            final(self).time_to_complete == old(self).time_to_complete,
    {
        self.time_passed += dt;
    }

    pub fn completed(&self) -> (done: bool)
        ensures
            done <==> self.time_passed >= self.time_to_complete,
    {
        self.time_passed >= self.time_to_complete
    }
}


/// The sum of the times in `dts`.
pub open spec fn total_time(dts: Seq<u128>) -> int
    decreases dts.len(),
{
    if dts.len() == 0 {
        0
    } else {
        total_time(dts.drop_last()) + dts.last()
    }
}

/// A recovery after `update` was called with each time of `dts` in turn.
pub open spec fn recovery_updated(r: RecoverInfo, dts: Seq<u128>) -> RecoverInfo
    decreases dts.len(),
{
    if dts.len() == 0 {
        r
    } else {
        let before = recovery_updated(r, dts.drop_last());
        RecoverInfo { time_passed: (before.time_passed + dts.last()) as u128, ..before }
    }
}

/// The total of a run of times is never below the total of its start.
pub proof fn lemma_total_time_grows(dts: Seq<u128>, k: int)
    requires
        0 <= k <= dts.len(),
    ensures
        0 <= total_time(dts.take(k)) <= total_time(dts),
    decreases dts.len(),
{
    if dts.len() > 0 {
        if k == dts.len() {
            assert(dts.take(k) =~= dts);
            lemma_total_time_grows(dts.drop_last(), k - 1);
            assert(dts.drop_last().take(k - 1) =~= dts.drop_last());
        } else {
            lemma_total_time_grows(dts.drop_last(), k);
            assert(dts.drop_last().take(k) =~= dts.take(k));
        }
    } else {
        assert(dts.take(k) =~= dts);
    }
}

/// Law: a recovery of `time_to_complete` ms, updated with each time of `dts`
/// in turn, has counted their total, and is over exactly when that total
/// reaches `time_to_complete` (a recovery of 0 ms is over at once).
pub proof fn lemma_recovery_total_time(time_to_complete: u128, dts: Seq<u128>)
    requires
        total_time(dts) <= u128::MAX,
    ensures
        recovery_updated(RecoverInfo { time_passed: 0, time_to_complete }, dts).time_passed
            == total_time(dts),
        recovery_updated(RecoverInfo { time_passed: 0, time_to_complete }, dts).time_to_complete
            == time_to_complete,
        recovery_updated(RecoverInfo { time_passed: 0, time_to_complete }, dts).time_passed
            >= time_to_complete <==> total_time(dts) >= time_to_complete,
    decreases dts.len(),
{
    if dts.len() > 0 {
        lemma_total_time_grows(dts, dts.len() - 1);
        assert(dts.take(dts.len() - 1) =~= dts.drop_last());
        lemma_recovery_total_time(time_to_complete, dts.drop_last());
    }
}

/// The recovery after `dt` ms: a recovery that is over is dropped.
pub open spec fn recovery_after(recovering: Option<RecoverInfo>, dt: u128) -> Option<RecoverInfo> {
    match recovering {
        None => None,
        Some(r) => if r.time_passed + dt >= r.time_to_complete {
            None
        } else {
            Some(RecoverInfo { time_passed: (r.time_passed + dt) as u128, ..r })
        },
    }
}

/// A recovery after `update_recovery` was called with each time of `dts` in
/// turn.
pub open spec fn recovery_run(recovering: Option<RecoverInfo>, dts: Seq<u128>) -> Option<
    RecoverInfo,
>
    decreases dts.len(),
{
    if dts.len() == 0 {
        recovering
    } else {
        recovery_after(recovery_run(recovering, dts.drop_last()), dts.last())
    }
}

/// Law: letting `dt` ms pass adds `dt` to the time a recovery has counted,
/// keeps its length, and drops it exactly when the time reaches its length;
/// no recovery stays none.
pub proof fn lemma_recovery_step(r: RecoverInfo, dt: u128)
    requires
        r.time_passed + dt <= u128::MAX,
    ensures
        recovery_after(Some(r), dt) is None <==> r.time_passed + dt >= r.time_to_complete,
        recovery_after(Some(r), dt) matches Some(next) ==> next.time_passed == r.time_passed + dt
            && next.time_to_complete == r.time_to_complete,
        recovery_after(None, dt) is None,
{
}

/// Law: a recovery of `time_to_complete` ms that starts now and is let run
/// for the times of `dts` (at least one) is over exactly when their total
/// reaches `time_to_complete`; while it is not, it has counted that total.
pub proof fn lemma_recovery_run(time_to_complete: u128, dts: Seq<u128>)
    requires
        dts.len() > 0,
        total_time(dts) <= u128::MAX,
    ensures
        recovery_run(Some(RecoverInfo { time_passed: 0, time_to_complete }), dts) is None
            <==> total_time(dts) >= time_to_complete,
        recovery_run(Some(RecoverInfo { time_passed: 0, time_to_complete }), dts) matches Some(r)
            ==> r.time_passed == total_time(dts) && r.time_to_complete == time_to_complete,
    decreases dts.len(),
{
    let start = Some(RecoverInfo { time_passed: 0, time_to_complete });
    let rest = dts.drop_last();
    lemma_total_time_grows(dts, dts.len() - 1);
    assert(dts.take(dts.len() - 1) =~= rest);
    if rest.len() > 0 {
        lemma_recovery_run(time_to_complete, rest);
    } else {
        assert(total_time(rest) == 0);
        assert(recovery_run(start, rest) == start);
    }
}

/// Lets `dt` ms pass on a recovery, if there is one.
pub fn update_recovery(recovering: &mut Option<RecoverInfo>, dt: u128)
    requires
        *old(recovering) matches Some(r) ==> r.time_passed + dt <= u128::MAX,
    ensures
        *final(recovering) == recovery_after(*old(recovering), dt),
        *old(recovering) is None ==> *final(recovering) is None,
        *old(recovering) matches Some(r) ==> match *final(recovering) {
            None => r.time_passed + dt >= r.time_to_complete,
            Some(n) => r.time_passed + dt < r.time_to_complete && n.time_passed == r.time_passed
                + dt && n.time_to_complete == r.time_to_complete,
        },
{
    if let Some(recovery) = recovering {
        recovery.update(dt);
        if recovery.completed() {
            *recovering = None;
        }
    }
}

} // verus!

verus! {

/// The timing of a single attack: it is aimed for `delay` ms, then hits for
/// `time_to_complete` ms, and lingers for `aftercast` ms more.
/// While aimed, `time_passed` counts from the start; once attacking, it
/// counts from the end of the delay.
#[derive(Debug, Clone, Copy, PartialEq, Eq, Structural)]
pub struct AttackClock {
    pub delay: u128,
    pub time_passed: u128,
    pub time_to_complete: u128,
    pub aftercast: u128,
    pub state: AttackState,
}

impl AttackClock {
    /// The time since the attack was started.
    pub open spec fn elapsed(self) -> int {
        match self.state {
            AttackState::Selected => self.time_passed as int,
            AttackState::Attacking => self.time_passed + self.delay,
        }
    }

    /// The clock after `dt` ms pass.
    pub open spec fn after(self, dt: u128) -> AttackClock {
        let t: int = self.time_passed + dt;
        match self.state {
            AttackState::Selected => if t < self.delay {
                AttackClock { time_passed: t as u128, ..self }
            } else {
                AttackClock {
                    time_passed: (t - self.delay) as u128,
                    state: AttackState::Attacking,
                    ..self
                }
            },
            AttackState::Attacking => AttackClock { time_passed: t as u128, ..self },
        }
    }

    /// A clock that starts aiming now.
    pub fn new(delay: u128, time_to_complete: u128, aftercast: u128) -> (clock: Self)
        ensures
            clock == (AttackClock {
                delay,
                time_passed: 0,
                time_to_complete,
                aftercast,
                state: AttackState::Selected,
            }),
    {
        AttackClock { delay, time_passed: 0, time_to_complete, aftercast, state: AttackState::Selected }
    }

    /// Lets `dt` ms pass; the attack starts hitting once its delay is over.
    pub fn update(&mut self, dt: u128)
        requires
            old(self).time_passed + dt <= u128::MAX,
        ensures
            *final(self) == old(self).after(dt),
    {
        self.time_passed += dt;
        match self.state {
            AttackState::Selected => {
                if self.time_passed < self.delay {
                    return;
                }
                self.state = AttackState::Attacking;
                self.time_passed -= self.delay;
            },
            AttackState::Attacking => {},
        }
    }

    /// Whether the attack and its aftercast are over.
    pub fn completed(&self) -> (done: bool)
        requires
            self.time_to_complete + self.aftercast <= u128::MAX,
        ensures
            done <==> self.time_passed > self.time_to_complete + self.aftercast,
    {
        self.time_passed > self.time_to_complete + self.aftercast
    }
}

/// Law: the clock loses no time and gains none: `dt` ms after an update,
/// exactly `dt` ms more have passed since the attack started.
pub proof fn lemma_clock_keeps_time(clock: AttackClock, dt: u128)
    requires
        clock.time_passed + dt <= u128::MAX,
    ensures
        clock.after(dt).elapsed() == clock.elapsed() + dt,
{
}

/// Law: an attack that hits never goes back to being aimed, and an aimed one
/// hits once its delay has passed in total.
pub proof fn lemma_clock_state_moves_forward(clock: AttackClock, dt: u128)
    requires
        clock.time_passed + dt <= u128::MAX,
    ensures
        clock.state == AttackState::Attacking ==> clock.after(dt).state == AttackState::Attacking,
        clock.after(dt).state == AttackState::Attacking <==> clock.elapsed() + dt >= clock.delay
            || clock.state == AttackState::Attacking,
{
}

/// The index of the part of an attack sequence that is active once the parts
/// that are over have been skipped: from `index`, the first part that is not
/// `finished`, or the number of parts when all are. An index already past
/// the end stays as it is.
pub open spec fn next_active_index(index: int, finished: Seq<bool>) -> int
    decreases finished.len() - index,
{
    if index >= finished.len() {
        index
    } else if finished[index] {
        next_active_index(index + 1, finished)
    } else {
        index
    }
}

/// One part of an attack sequence: it is over once `time_passed` reaches
/// `time_to_complete` (in ms), and it may deal `damage`. Its shape, and where
/// it stands and points (floating point), are the caller's `shape`.
#[derive(Debug, Clone)]
pub struct AttackPart<S> {
    pub time_passed: u128,
    pub time_to_complete: u128,
    pub shape: S,
    pub damage: Option<AttackDamage>,
}

impl<S> AttackPart<S> {
    /// A part that starts now, with the damage the editor gave it.
    pub fn new(time_to_complete: u128, shape: S, damage: Option<AttackDamageConstructor>) -> (part:
        Self)
        ensures
            part.time_passed == 0,
            part.time_to_complete == time_to_complete,
            part.shape == shape,
            part.damage == match damage {
                Some(c) => Some(
                    AttackDamage {
                        value: c.value,
                        instances: c.instances,
                        delay_between_instances: c.delay_between_instances,
                        time_since_last_done: 0,
                    },
                ),
                None => None::<AttackDamage>,
            },
    {
        let damage = match damage {
            Some(c) => Some(AttackDamage::from_constructor(c)),
            None => None,
        };
        AttackPart { time_passed: 0, time_to_complete, shape, damage }
    }

    pub open spec fn is_over(self) -> bool {
        self.time_passed >= self.time_to_complete
    }

    pub fn completed(&self) -> (done: bool)
        ensures
            done <==> self.is_over(),
    {
        self.time_passed >= self.time_to_complete
    }
}

/// Which parts of a sequence are over.
pub open spec fn parts_over<S>(parts: Seq<AttackPart<S>>) -> Seq<bool> {
    parts.map_values(|p: AttackPart<S>| p.is_over())
}

/// Parts of an attack that run one after the other; `index` is the part
/// that runs, or the number of parts once all are over.
#[derive(Debug, Clone)]
pub struct AttackSequence<S> {
    pub time_passed: u128,
    pub parts: Vec<AttackPart<S>>,
    pub index: usize,
}

impl<S> AttackSequence<S> {
    /// The sequence after the parts that are over have been skipped.
    pub open spec fn after_update(self) -> AttackSequence<S> {
        AttackSequence {
            index: next_active_index(self.index as int, parts_over(self.parts@)) as usize,
            ..self
        }
    }

    /// The index of the part that runs, if there is one.
    pub open spec fn running(self) -> Option<usize> {
        if self.index < self.parts@.len() {
            Some(self.index)
        } else {
            None
        }
    }

    pub open spec fn is_over(self) -> bool {
        self.index >= self.parts@.len()
    }

    /// A sequence that starts now, at its first part.
    pub fn new(parts: Vec<AttackPart<S>>) -> (sequence: Self)
        ensures
            sequence.time_passed == 0,
            sequence.parts == parts,
            sequence.index == 0,
    {
        AttackSequence { time_passed: 0, parts, index: 0 }
    }

    /// The part that runs, if there is one.
    pub fn active_part(&self) -> (part: Option<&AttackPart<S>>)
        ensures
            match part {
                Some(p) => self.index < self.parts@.len() && *p == self.parts@[self.index as int],
                None => self.index >= self.parts@.len(),
            },
    {
        if self.index < self.parts.len() {
            Some(&self.parts[self.index])
        } else {
            None
        }
    }

    /// Skips the parts that are over, and gives the part that runs now (the
    /// caller moves its shape on by the time passing), if there is one.
    pub fn update(&mut self) -> (runs: Option<usize>)
        ensures
            *final(self) == old(self).after_update(),
            runs == final(self).running(),
            old(self).index <= final(self).index,
            old(self).index <= old(self).parts@.len() ==> final(self).index <= final(self).parts@.len(),
            forall|j: int|
                old(self).index <= j < final(self).index ==> #[trigger] final(self).parts@[j].is_over(),
            old(self).index <= old(self).parts@.len() ==> (final(self).is_over() <==> final(self).index == final(self).parts@.len()),
    {
        let ghost over = parts_over(self.parts@);
        while self.index < self.parts.len() && self.parts[self.index].completed()
            invariant
                self.parts == old(self).parts,
                self.time_passed == old(self).time_passed,
                over == parts_over(self.parts@),
                old(self).index <= self.index,
                next_active_index(old(self).index as int, over) == next_active_index(
                    self.index as int,
                    over,
                ),
                forall|j: int| old(self).index <= j < self.index ==> #[trigger] self.parts@[j].is_over(),
                old(self).index <= self.parts@.len() ==> self.index <= self.parts@.len(),
            decreases self.parts@.len() - self.index,
        {
            assert(over[self.index as int] == self.parts@[self.index as int].is_over());
            self.index = self.index + 1;
        }
        proof {
            if self.index < self.parts@.len() {
                assert(over[self.index as int] == self.parts@[self.index as int].is_over());
            }
        }
        if self.index < self.parts.len() {
            Some(self.index)
        } else {
            None
        }
    }

    pub fn completed(&self) -> (done: bool)
        ensures
            done <==> self.is_over(),
    {
        self.index >= self.parts.len()
    }
}

/// Law: skipping the parts that are over never goes back, leaves nothing
/// more to skip, and a sequence that is over stays over.
pub proof fn lemma_sequence_settles<S>(sequence: AttackSequence<S>)
    ensures
        sequence.index <= sequence.after_update().index,
        sequence.after_update().after_update() == sequence.after_update(),
        sequence.is_over() ==> sequence.after_update() == sequence,
        sequence.after_update().running() matches Some(i) ==> !sequence.parts@[i as int].is_over(),
{
    let over = parts_over(sequence.parts@);
    lemma_next_active_index(sequence.index as int, over);
    let next: int = next_active_index(sequence.index as int, over);
    if next < over.len() {
        assert(over[next] == sequence.parts@[next].is_over());
    }
    assert(sequence.parts.len() == sequence.parts@.len());
    assert(sequence.after_update().index == next);
    lemma_next_active_index(next, over);
}

proof fn lemma_next_active_index(index: int, over: Seq<bool>)
    requires
        0 <= index,
    ensures
        index <= next_active_index(index, over),
        index >= over.len() ==> next_active_index(index, over) == index,
        index <= over.len() ==> next_active_index(index, over) <= over.len(),
        next_active_index(index, over) < over.len() ==> !over[next_active_index(index, over)],
        next_active_index(next_active_index(index, over), over) == next_active_index(index, over),
    decreases over.len() - index,
{
    if index < over.len() && over[index] {
        lemma_next_active_index(index + 1, over);
    }
}

/// An attack made of sequences that run side by side; where it was cast and
/// aimed (floating point) is the caller's `geometry`.
#[derive(Debug, Clone)]
pub struct ComplexAttack<S, G> {
    pub time_passed: u128,
    pub sequences: Vec<AttackSequence<S>>,
    pub geometry: G,
}

impl<S, G> ComplexAttack<S, G> {
    /// An attack that starts now.
    pub fn new(sequences: Vec<AttackSequence<S>>, geometry: G) -> (attack: Self)
        ensures
            attack.time_passed == 0,
            attack.sequences == sequences,
            attack.geometry == geometry,
    {
        ComplexAttack { time_passed: 0, sequences, geometry }
    }

    /// Skips the parts that are over in every sequence, and gives for each
    /// sequence the part that runs now (the caller moves its shape on), if
    /// there is one.
    pub fn update(&mut self) -> (runs: Vec<Option<usize>>)
        ensures
            final(self).time_passed == old(self).time_passed,
            final(self).geometry == old(self).geometry,
            final(self).sequences@.len() == old(self).sequences@.len(),
            runs@.len() == old(self).sequences@.len(),
            forall|i: int|
                0 <= i < old(self).sequences@.len() ==> final(self).sequences@[i] == old(self).sequences@[i].after_update() && runs@[i] == final(self).sequences@[i].running(),
    {
        let mut runs: Vec<Option<usize>> = Vec::new();
        let mut i: usize = 0;
        while i < self.sequences.len()
            invariant
                i <= self.sequences@.len(),
                self.sequences@.len() == old(self).sequences@.len(),
                self.time_passed == old(self).time_passed,
                self.geometry == old(self).geometry,
                runs@.len() == i,
                forall|j: int|
                    0 <= j < i ==> #[trigger] self.sequences@[j] == old(self).sequences@[j].after_update(),
                forall|j: int| 0 <= j < i ==> #[trigger] runs@[j] == self.sequences@[j].running(),
                forall|j: int|
                    i <= j < self.sequences@.len() ==> #[trigger] self.sequences@[j] == old(self).sequences@[j],
            decreases self.sequences@.len() - i,
        {
            let run = self.sequences[i].update();
            runs.push(run);
            i = i + 1;
        }
        runs
    }

    /// Whether every sequence is over.
    pub fn completed(&self) -> (done: bool)
        ensures
            done <==> forall|i: int| 0 <= i < self.sequences@.len() ==> self.sequences@[i].is_over(),
    {
        let mut i: usize = 0;
        while i < self.sequences.len()
            invariant
                i <= self.sequences@.len(),
                forall|j: int| 0 <= j < i ==> self.sequences@[j].is_over(),
            decreases self.sequences@.len() - i,
        {
            if !self.sequences[i].completed() {
                return false;
            }
            i = i + 1;
        }
        true
    }
}

} // verus!
