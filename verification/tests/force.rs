use bevy::ecs::entity::Entity;
use bevy::math::Vec3;
use wanderlust::{
    accumulate_forces, float_force, ground_reaction, jump_force, AccumulatedForce,
    AccumulatorError, AccumulatorPhase, Contributions, FloatForce, ForceContribution,
    GravityForce, GroundCast, GroundHit, Groundedness, JumpForce,
};

fn ground(entity: Entity, dynamic: bool) -> GroundCast {
    GroundCast::hit(GroundHit {
        entity,
        distance: 450,
        point: Vec3::new(0.0, -0.45, 0.0),
        normal: Vec3::Y,
        point_velocity: Vec3::ZERO,
        dynamic,
    })
}

fn sample() -> Contributions {
    Contributions {
        gravity: ForceContribution::from_linear(Vec3::new(0.0, -785.0, 0.0)),
        float: ForceContribution::from_linear(Vec3::new(0.0, 800.0, 0.0)),
        upright: ForceContribution::from_angular(Vec3::new(0.5, 0.0, -0.25)),
        movement: ForceContribution::from_linear(Vec3::new(10.0, 0.0, 4.0)),
        jump: ForceContribution { linear: Vec3::new(0.0, 500.0, 0.0), angular: Vec3::new(0.0, 2.0, 0.0) },
    }
}

#[test]
fn default_forces_are_zero() {
    assert_eq!(GravityForce::default().linear, Vec3::ZERO);
    assert_eq!(FloatForce::default().linear, Vec3::ZERO);
    assert_eq!(JumpForce::default().linear, Vec3::ZERO);
    let none = ForceContribution::none();
    assert_eq!(none.linear, Vec3::ZERO);
    assert_eq!(none.angular, Vec3::ZERO);
    assert!(none.is_nothing());
}

#[test]
fn a_force_or_a_torque_is_something() {
    assert!(!ForceContribution::from_linear(Vec3::new(0.0, 0.0, 1.0)).is_nothing());
    assert!(!ForceContribution::from_angular(Vec3::new(1.0, 0.0, 0.0)).is_nothing());
    assert!(ForceContribution::from_linear(Vec3::ZERO).is_nothing());
}

#[test]
fn part_forces_contribute_their_linear_force_without_torque() {
    let g = GravityForce { linear: Vec3::new(0.0, -9.817, 0.0) }.contribution();
    assert_eq!(g.linear, Vec3::new(0.0, -9.817, 0.0));
    assert_eq!(g.angular, Vec3::ZERO);
    let f = FloatForce { linear: Vec3::new(0.0, 3.0, 0.0) }.contribution();
    assert_eq!(f.linear, Vec3::new(0.0, 3.0, 0.0));
    assert_eq!(f.angular, Vec3::ZERO);
    let j = JumpForce { linear: Vec3::new(0.0, 6.0, 0.0) }.contribution();
    assert_eq!(j.linear, Vec3::new(0.0, 6.0, 0.0));
    assert_eq!(j.angular, Vec3::ZERO);
}

#[test]
fn float_force_is_exactly_zero_while_airborne() {
    let spring = Vec3::new(0.0, 123.5, 0.0);
    assert_eq!(float_force(Groundedness::Airborne, spring).linear, Vec3::ZERO);
    assert_eq!(float_force(Groundedness::Grounded, spring).linear, spring);
}

#[test]
fn jump_force_is_the_impulse_only_in_the_launching_tick() {
    let impulse = Vec3::new(0.0, 6.26, 0.0);
    assert_eq!(jump_force(false, impulse).linear, Vec3::ZERO);
    assert_eq!(jump_force(true, impulse).linear, impulse);
}

#[test]
fn combine_adds_part_by_part() {
    let a = ForceContribution { linear: Vec3::new(1.0, 2.0, 3.0), angular: Vec3::new(0.5, 0.0, 0.0) };
    let b = ForceContribution { linear: Vec3::new(10.0, 20.0, 30.0), angular: Vec3::new(0.0, 0.25, 0.0) };
    let sum = a.combine(&b);
    assert_eq!(sum.linear, Vec3::new(11.0, 22.0, 33.0));
    assert_eq!(sum.angular, Vec3::new(0.5, 0.25, 0.0));
}

#[test]
fn accumulation_counts_every_contributor_once() {
    let total = accumulate_forces(&sample());
    assert_eq!(total.linear, Vec3::new(10.0, 515.0, 4.0));
    assert_eq!(total.angular, Vec3::new(0.5, 2.0, -0.25));
}

#[test]
fn accumulated_force_is_handed_out_exactly_once() {
    let mut accumulated = AccumulatedForce::new();
    assert_eq!(accumulated.current_phase(), AccumulatorPhase::Clear);
    assert!(accumulated.apply().is_none());
    assert_eq!(accumulated.accumulate(&sample()), Ok(()));
    assert_eq!(accumulated.current_phase(), AccumulatorPhase::Written);
    let applied = accumulated.apply().unwrap();
    assert_eq!(applied.linear, Vec3::new(10.0, 515.0, 4.0));
    assert_eq!(applied.angular, Vec3::new(0.5, 2.0, -0.25));
    assert_eq!(accumulated.current_phase(), AccumulatorPhase::Applied);
    assert!(accumulated.apply().is_none());
    assert!(accumulated.apply().is_none());
    assert_eq!(accumulated.clear(), Ok(()));
    assert_eq!(accumulated.current_phase(), AccumulatorPhase::Clear);
    assert!(accumulated.apply().is_none());
}

#[test]
fn second_write_in_one_tick_is_refused() {
    let mut accumulated = AccumulatedForce::new();
    assert_eq!(accumulated.accumulate(&sample()), Ok(()));
    let mut other = sample();
    other.movement = ForceContribution::from_linear(Vec3::new(-99.0, 0.0, 0.0));
    assert_eq!(accumulated.accumulate(&other), Err(AccumulatorError::AlreadyWritten));
    assert_eq!(accumulated.apply().unwrap().linear, Vec3::new(10.0, 515.0, 4.0));
    assert_eq!(accumulated.accumulate(&other), Err(AccumulatorError::AlreadyWritten));
    assert_eq!(accumulated.clear(), Ok(()));
    assert_eq!(accumulated.accumulate(&other), Ok(()));
    assert_eq!(accumulated.apply().unwrap().linear, Vec3::new(-99.0, 515.0, 0.0));
}

#[test]
fn clearing_before_the_hand_over_is_refused() {
    let mut accumulated = AccumulatedForce::new();
    assert_eq!(accumulated.clear(), Ok(()));
    assert_eq!(accumulated.accumulate(&sample()), Ok(()));
    assert_eq!(accumulated.clear(), Err(AccumulatorError::NotApplied));
    assert_eq!(accumulated.current_phase(), AccumulatorPhase::Written);
    assert!(accumulated.apply().is_some());
    assert_eq!(accumulated.clear(), Ok(()));
}

#[test]
fn dynamic_ground_gets_the_opposite_force() {
    let applied = ForceContribution {
        linear: Vec3::new(1.0, 515.0, -4.0),
        angular: Vec3::new(0.0, 1.0, 0.0),
    };
    let platform = Entity::from_raw(11);
    let reaction = ground_reaction(&applied, &ground(platform, true), true).unwrap();
    assert_eq!(reaction.entity, platform);
    assert_eq!(reaction.linear, Vec3::new(-1.0, -515.0, 4.0));
}

#[test]
fn no_reaction_on_fixed_ground_without_contact_or_when_switched_off() {
    let applied = ForceContribution::from_linear(Vec3::new(0.0, 515.0, 0.0));
    let fixed = ground(Entity::from_raw(11), false);
    let moving = ground(Entity::from_raw(11), true);
    assert!(ground_reaction(&applied, &fixed, true).is_none());
    assert!(ground_reaction(&applied, &GroundCast::miss(), true).is_none());
    assert!(ground_reaction(&applied, &moving, false).is_none());
    assert!(ground_reaction(&applied, &fixed, false).is_none());
}

#[test]
fn hand_overs_never_outnumber_writes() {
    let mut accumulated = AccumulatedForce::new();
    let mut writes = 0;
    let mut hand_overs = 0;
    // 0: accumulate, 1: apply, 2: clear
    let ops = [1, 0, 0, 2, 1, 1, 2, 2, 0, 2, 0, 1, 0, 2, 0, 1, 1, 0];
    for op in ops {
        match op {
            0 => {
                if accumulated.accumulate(&sample()).is_ok() {
                    writes += 1;
                }
            }
            1 => {
                if accumulated.apply().is_some() {
                    hand_overs += 1;
                }
            }
            _ => {
                let _ = accumulated.clear();
            }
        }
        let waiting = if accumulated.current_phase() == AccumulatorPhase::Written { 1 } else { 0 };
        assert_eq!(writes, hand_overs + waiting);
    }
    assert_eq!(writes, 3);
    assert_eq!(hand_overs, 3);
}
