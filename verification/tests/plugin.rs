use bevy::ecs::entity::Entity;
use wanderlust::{Parts, Stage, WanderlustPlugin};

#[test]
fn default_plugin_switches_everything_on() {
    let plugin = WanderlustPlugin::default();
    assert!(plugin.tweaks);
    assert!(plugin.default_systems);
}

#[test]
fn default_plan_chains_the_whole_pipeline() {
    let plan = WanderlustPlugin::default().plan();
    assert_eq!(plan.startup, vec![Stage::SetupPhysicsContext]);
    assert_eq!(
        plan.update,
        vec![
            Stage::GetMass,
            Stage::GetVelocity,
            Stage::FindGround,
            Stage::DetermineGroundedness,
            Stage::GravityForce,
            Stage::MovementForce,
            Stage::FloatForce,
            Stage::UprightForce,
            Stage::JumpForce,
            Stage::AccumulateForces,
            Stage::ApplyForces,
            Stage::ApplyGroundForces,
        ]
    );
}

#[test]
fn every_tick_stage_is_planned_once_and_in_pipeline_order() {
    let update = WanderlustPlugin::default().plan().update;
    let place = |stage: Stage| {
        let places: Vec<usize> =
            update.iter().enumerate().filter(|(_, s)| **s == stage).map(|(i, _)| i).collect();
        assert_eq!(places.len(), 1);
        places[0]
    };
    let contributors = [
        Stage::GravityForce,
        Stage::MovementForce,
        Stage::FloatForce,
        Stage::UprightForce,
        Stage::JumpForce,
    ];
    assert!(place(Stage::FindGround) < place(Stage::DetermineGroundedness));
    for contributor in contributors {
        assert!(place(Stage::DetermineGroundedness) < place(contributor));
        assert!(place(contributor) < place(Stage::AccumulateForces));
    }
    assert!(place(Stage::AccumulateForces) < place(Stage::ApplyForces));
    assert!(place(Stage::ApplyForces) < place(Stage::ApplyGroundForces));
    assert!(!update.contains(&Stage::SetupPhysicsContext));
}

#[test]
fn tweaks_and_systems_are_switched_independently() {
    let no_tweaks = WanderlustPlugin { tweaks: false, default_systems: true }.plan();
    assert!(no_tweaks.startup.is_empty());
    assert_eq!(no_tweaks.update.len(), 12);
    let no_systems = WanderlustPlugin { tweaks: true, default_systems: false }.plan();
    assert_eq!(no_systems.startup, vec![Stage::SetupPhysicsContext]);
    assert!(no_systems.update.is_empty());
    let nothing = WanderlustPlugin { tweaks: false, default_systems: false }.plan();
    assert!(nothing.startup.is_empty());
    assert!(nothing.update.is_empty());
}

#[test]
fn parts_come_first_and_the_controller_last() {
    let a = Entity::from_raw(1);
    let b = Entity::from_raw(2);
    let controller = Entity::from_raw(9);
    let parts = Parts { parts: vec![a, b] };
    assert_eq!(parts.parts(controller), vec![a, b, controller]);
    assert_eq!(parts.parts(a), vec![a, b, a]);
}

#[test]
fn controller_without_parts_is_its_only_entity() {
    let controller = Entity::from_raw(9);
    assert_eq!(Parts::default().parts(controller), vec![controller]);
    assert!(Parts::default().parts.is_empty());
}
