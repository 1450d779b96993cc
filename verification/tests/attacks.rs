use shared::attack::{
    AttackClock, AttackDamage, AttackDamageConstructor, AttackKind, AttackOrder, AttackPart,
    AttackSequence, AttackState, ComplexAttack, ReceiveDamage, RecoverInfo,
};

#[derive(Debug, Clone, PartialEq)]
struct Target {
    hits: Vec<u32>,
}

impl ReceiveDamage for Target {
    fn damaged(self, value: u32) -> Self {
        let mut hits = self.hits;
        hits.push(value);
        Target { hits }
    }

    fn receive_damage(&mut self, value: u32) {
        self.hits.push(value);
    }
}

#[test]
fn options_list_every_variant_in_order() {
    assert_eq!(AttackKind::options(), [AttackKind::Pizza, AttackKind::Circle]);
    let orders = AttackOrder::options();
    assert_eq!(orders.len(), 9);
    assert_eq!(orders[0], AttackOrder::LeftToRight);
    assert_eq!(orders[4], AttackOrder::CloseToFar);
    assert_eq!(orders[8], AttackOrder::ProjectileFromCaster);
}

#[test]
fn names_match_display() {
    assert_eq!(AttackKind::Circle.name(), "Circle");
    assert_eq!(AttackOrder::SidesToCenter.name(), "SidesToCenter");
    assert!(AttackOrder::RightThenLeft.from_right());
    assert!(!AttackOrder::LeftToRight.from_right());
    assert!(AttackOrder::ExpandingCircle.grows());
    assert!(!AttackOrder::CenterToSides.grows());
}

#[test]
fn damage_hits_after_each_delay() {
    let constructor = AttackDamageConstructor { value: 10, instances: 2, delay_between_instances: 100 };
    let mut damage = AttackDamage::from_constructor(constructor);
    assert_eq!(damage.time_since_last_done, 0);
    assert!(damage.has_instances());
    let mut target = Target { hits: Vec::new() };
    damage.do_damage(&mut target, 60);
    assert!(target.hits.is_empty());
    assert_eq!(damage.time_since_last_done, 60);
    damage.do_damage(&mut target, 40);
    assert_eq!(target.hits, vec![10]);
    assert_eq!(damage.instances, 1);
    assert_eq!(damage.time_since_last_done, 0);
    damage.do_damage(&mut target, 150);
    assert_eq!(target.hits, vec![10, 10]);
    assert!(!damage.has_instances());
    damage.do_damage(&mut target, 1000);
    assert_eq!(target.hits, vec![10, 10]);
    assert_eq!(damage.time_since_last_done, 0);
}

#[test]
fn damage_without_delay_hits_at_once() {
    let constructor = AttackDamageConstructor { value: 10, instances: 1, delay_between_instances: 0 };
    let mut damage = AttackDamage::from_constructor(constructor);
    let mut target = Target { hits: Vec::new() };
    damage.do_damage(&mut target, 0);
    assert_eq!(target.hits, vec![10]);
    assert_eq!(damage.instances, 0);
}

#[test]
fn next_hit_gives_the_damage_when_due() {
    let constructor = AttackDamageConstructor { value: 7, instances: 2, delay_between_instances: 50 };
    let mut damage = AttackDamage::from_constructor(constructor);
    assert_eq!(damage.next_hit(49), None);
    assert_eq!(damage.next_hit(1), Some(7));
    assert_eq!(damage.instances, 1);
    assert_eq!(damage.next_hit(50), Some(7));
    assert_eq!(damage.instances, 0);
    assert_eq!(damage.next_hit(500), None);
    assert_eq!(damage.time_since_last_done, 0);
}

#[test]
fn recovery_completes_after_its_time() {
    let mut recover = RecoverInfo::new(300);
    assert_eq!(recover.time_passed, 0);
    assert!(!recover.completed());
    recover.update(299);
    assert!(!recover.completed());
    recover.update(1);
    assert!(recover.completed());
    assert!(RecoverInfo::new(0).completed());
}

#[test]
fn clock_aims_then_attacks() {
    let mut clock = AttackClock::new(300, 100, 500);
    assert_eq!(clock.state, AttackState::Selected);
    clock.update(200);
    assert_eq!(clock.state, AttackState::Selected);
    assert_eq!(clock.time_passed, 200);
    clock.update(150);
    assert_eq!(clock.state, AttackState::Attacking);
    assert_eq!(clock.time_passed, 50);
    assert!(!clock.completed());
    clock.update(550);
    assert_eq!(clock.time_passed, 600);
    assert!(!clock.completed());
    clock.update(1);
    assert!(clock.completed());
}

#[test]
fn clock_with_exact_delay_starts_attacking() {
    let mut clock = AttackClock::new(50, 100, 0);
    clock.update(50);
    assert_eq!(clock.state, AttackState::Attacking);
    assert_eq!(clock.time_passed, 0);
}

fn part(time_passed: u128, time_to_complete: u128, name: &'static str) -> AttackPart<&'static str> {
    let mut part = AttackPart::new(time_to_complete, name, None);
    part.time_passed = time_passed;
    part
}

#[test]
fn attack_part_from_the_editor() {
    let damage = AttackDamageConstructor { value: 10, instances: 1, delay_between_instances: 0 };
    let part = AttackPart::new(1500, "circle", Some(damage));
    assert_eq!(part.time_passed, 0);
    assert_eq!(part.time_to_complete, 1500);
    assert!(!part.completed());
    let d = part.damage.unwrap();
    assert_eq!((d.value, d.instances, d.delay_between_instances, d.time_since_last_done), (10, 1, 0, 0));
    assert!(AttackPart::new(0, "done", None).completed());
}

#[test]
fn sequence_index_skips_finished_parts() {
    let parts = vec![part(5, 5, "a"), part(9, 2, "b"), part(0, 7, "c"), part(3, 3, "d")];
    let mut sequence = AttackSequence::new(parts);
    assert_eq!(sequence.active_part().unwrap().shape, "a");
    assert_eq!(sequence.update(), Some(2));
    assert_eq!(sequence.index, 2);
    assert_eq!(sequence.active_part().unwrap().shape, "c");
    assert_eq!(sequence.update(), Some(2));
    assert!(!sequence.completed());
    sequence.index = 3;
    assert_eq!(sequence.update(), None);
    assert_eq!(sequence.index, 4);
    assert!(sequence.completed());
    assert!(sequence.active_part().is_none());
    sequence.index = 7;
    assert_eq!(sequence.update(), None);
    assert_eq!(sequence.index, 7);
    let mut empty: AttackSequence<&str> = AttackSequence::new(vec![]);
    assert_eq!(empty.update(), None);
    assert!(empty.completed());
    let mut all_done = AttackSequence::new(vec![part(1, 1, "x"), part(0, 0, "y")]);
    assert_eq!(all_done.update(), None);
    assert_eq!(all_done.index, 2);
}

#[test]
fn complex_attack_runs_its_sequences_side_by_side() {
    let first = AttackSequence::new(vec![part(0, 1500, "left")]);
    let second = AttackSequence::new(vec![part(2, 2, "gone"), part(0, 1500, "right")]);
    let mut attack = ComplexAttack::new(vec![first, second], (30, -30));
    assert_eq!(attack.time_passed, 0);
    assert_eq!(attack.update(), vec![Some(0), Some(1)]);
    assert!(!attack.completed());
    attack.sequences[0].parts[0].time_passed = 1500;
    attack.sequences[1].parts[1].time_passed = 1600;
    assert_eq!(attack.update(), vec![None, None]);
    assert!(attack.completed());
    assert_eq!(attack.geometry, (30, -30));
    let mut nothing: ComplexAttack<&str, ()> = ComplexAttack::new(vec![], ());
    assert!(nothing.update().is_empty());
    assert!(nothing.completed());
}

#[test]
fn hits_over_a_run_use_up_the_instances() {
    let constructor = AttackDamageConstructor { value: 10, instances: 2, delay_between_instances: 100 };
    let mut damage = AttackDamage::from_constructor(constructor);
    let mut first = Target { hits: Vec::new() };
    let mut second = Target { hits: Vec::new() };
    damage.do_damage(&mut first, 60);
    assert!(first.hits.is_empty());
    let before = first.clone();
    damage.do_damage(&mut first, 50);
    assert_eq!(first, before.damaged(10));
    assert_eq!(damage.instances, 1);
    assert_eq!(damage.time_since_last_done, 0);
    for _ in 0..5 {
        damage.do_damage(&mut second, 100);
    }
    assert_eq!(first.hits.len() + second.hits.len() + damage.instances as usize, 2);
    assert_eq!(second.hits, vec![10]);
}

#[test]
fn recovery_and_cooldown_count_the_total_time() {
    let mut recover = RecoverInfo::new(300);
    for dt in [100, 150, 49] {
        recover.update(dt);
    }
    assert_eq!(recover.time_passed, 299);
    assert!(!recover.completed());
    recover.update(1);
    assert!(recover.completed());
    let mut cooldown = shared::hero::DashCooldown::new(200);
    for dt in [0, 120, 80] {
        cooldown.update(dt);
    }
    assert!(cooldown.completed());
    assert!(shared::hero::DashCooldown::new(0).completed());
}

#[test]
fn skipped_parts_are_over_and_the_index_stays_in_range() {
    let parts = vec![part(4, 4, "a"), part(8, 1, "b"), part(8, 8, "c")];
    let mut sequence = AttackSequence::new(parts);
    assert_eq!(sequence.update(), None);
    assert_eq!(sequence.index, 3);
    assert!(sequence.parts.iter().all(|p| p.completed()));
    assert!(sequence.completed());
}
