//! Which stages the controller runs, and in which order.
//!
//! The adapter registers one system per [`Stage`] with the host's scheduler
//! and chains them in the order that [`WanderlustPlugin::plan`] returns.

use vstd::prelude::*;

verus! {

/// One step of the controller's work on a body.
#[derive(Clone, Copy, Debug, PartialEq, Eq, Hash, Structural)]
pub enum Stage {
    /// One-time tuning of the host engine's solver, run at startup.
    SetupPhysicsContext,
    /// Read the body's mass and inertia from the host engine.
    GetMass,
    /// Read the body's linear and angular velocity from the host engine.
    GetVelocity,
    /// Cast the body's shape downward and record what it meets.
    FindGround,
    /// Classify the body as grounded or airborne.
    DetermineGroundedness,
    /// Contributor: gravity along the up vector.
    GravityForce,
    /// Contributor: locomotion from the movement intent.
    MovementForce,
    /// Contributor: the ride-height spring.
    FloatForce,
    /// Contributor: the upright-orientation spring.
    UprightForce,
    /// Contributor: the jump impulse.
    JumpForce,
    /// Sum the contributions into the tick's resultant.
    AccumulateForces,
    /// Hand the resultant to the host engine.
    ApplyForces,
    /// Hand the reaction to whatever the body stands on.
    ApplyGroundForces,
}

/// The stages of one tick, in the order in which they must run: the readings
/// and the ground probe first, then every contributor, then accumulation, then
/// application.
pub open spec fn tick_order() -> Seq<Stage> {
    seq![
        Stage::GetMass,
        Stage::GetVelocity,
        Stage::FindGround,
        Stage::DetermineGroundedness,
        Stage::GravityForce,
        Stage::MovementForce,
        Stage::FloatForce,
        Stage::UprightForce,
        Stage::JumpForce,
        Stage::AccumulateForces,
        Stage::ApplyForces,
        Stage::ApplyGroundForces,
    ]
}

/// The stages run once at startup when the tweaks are switched on.
pub open spec fn startup_order() -> Seq<Stage> {
    seq![Stage::SetupPhysicsContext]
}

impl Stage {
    /// Whether this stage produces a force contribution.
    pub open spec fn is_contributor(self) -> bool {
        self is GravityForce || self is MovementForce || self is FloatForce
            || self is UprightForce || self is JumpForce
    }

    /// Whether this stage belongs to every tick (as opposed to startup).
    pub open spec fn is_tick_stage(self) -> bool {
        !(self is SetupPhysicsContext)
    }
}

/// The place of a stage in the tick order, counted from zero. The startup
/// stage is no part of a tick and has the place -1.
pub open spec fn place(stage: Stage) -> int {
    match stage {
        Stage::SetupPhysicsContext => -1,
        Stage::GetMass => 0,
        Stage::GetVelocity => 1,
        Stage::FindGround => 2,
        Stage::DetermineGroundedness => 3,
        Stage::GravityForce => 4,
        Stage::MovementForce => 5,
        Stage::FloatForce => 6,
        Stage::UprightForce => 7,
        Stage::JumpForce => 8,
        Stage::AccumulateForces => 9,
        Stage::ApplyForces => 10,
        Stage::ApplyGroundForces => 11,
    }
}

/// `a` occurs in `order` at an earlier place than `b`.
pub open spec fn runs_before(order: Seq<Stage>, a: Stage, b: Stage) -> bool {
    exists|i: int, j: int| 0 <= i < j < order.len() && order[i] == a && order[j] == b
}

/// `stage` occurs in `order` at exactly one place.
pub open spec fn runs_once(order: Seq<Stage>, stage: Stage) -> bool {
    exists|i: int|
        0 <= i < order.len() && order[i] == stage && forall|j: int|
            0 <= j < order.len() && order[j] == stage ==> j == i
}

/// What the plugin asks the host's scheduler to run.
pub struct Plan {
    /// Stages to run once, at startup, in this order.
    pub startup: Vec<Stage>,
    /// Stages to run every tick, chained in this order, before the host
    /// engine integrates.
    pub update: Vec<Stage>,
}

/// Configuration of the controller plugin.
#[derive(Clone, Copy, Debug, PartialEq, Eq, Structural)]
pub struct WanderlustPlugin {
    /// Apply the one-time solver tuning to the host engine at startup.
    pub tweaks: bool,
    /// Register the controller's own per-tick stages.
    pub default_systems: bool,
}

impl Default for WanderlustPlugin {
    fn default() -> (plugin: Self)
        ensures
            plugin.tweaks,
            plugin.default_systems,
    {
        WanderlustPlugin { tweaks: true, default_systems: true }
    }
}

impl WanderlustPlugin {
    /// The startup and per-tick stages for this configuration.
    pub fn plan(&self) -> (plan: Plan)
        ensures
            plan.startup@ == if self.tweaks { startup_order() } else { Seq::<Stage>::empty() },
            plan.update@ == if self.default_systems { tick_order() } else { Seq::<Stage>::empty() },
    {
        let mut startup: Vec<Stage> = Vec::new();
        if self.tweaks {
            startup.push(Stage::SetupPhysicsContext);
        }
        let mut update: Vec<Stage> = Vec::new();
        if self.default_systems {
            update.push(Stage::GetMass);
            update.push(Stage::GetVelocity);
            update.push(Stage::FindGround);
            update.push(Stage::DetermineGroundedness);
            update.push(Stage::GravityForce);
            update.push(Stage::MovementForce);
            update.push(Stage::FloatForce);
            update.push(Stage::UprightForce);
            update.push(Stage::JumpForce);
            update.push(Stage::AccumulateForces);
            update.push(Stage::ApplyForces);
            update.push(Stage::ApplyGroundForces);
        }
        proof {
            assert(startup@ =~= if self.tweaks { startup_order() } else { Seq::<Stage>::empty() });
            assert(update@ =~= if self.default_systems { tick_order() } else { Seq::<Stage>::empty() });
        }
        Plan { startup, update }
    }
}

/// Every stage of a tick stands in the tick order at its place and nowhere
/// else: it runs exactly once per tick.
pub proof fn lemma_every_tick_stage_runs_once(stage: Stage)
    requires
        stage.is_tick_stage(),
    ensures
        0 <= place(stage) < tick_order().len(),
        tick_order()[place(stage)] == stage,
        forall|j: int| 0 <= j < tick_order().len() && tick_order()[j] == stage ==> j == place(stage),
        runs_once(tick_order(), stage),
{
    let order = tick_order();
    assert(order.len() == 12);
    assert(order[place(stage)] == stage);
    assert forall|j: int| 0 <= j < order.len() && order[j] == stage implies j == place(stage) by {
        assert(order[j] == stage);
        assert(place(order[j]) == j);
    }
}

/// The ground is probed and classified before any contributor runs, every
/// contributor runs before accumulation, and accumulation runs before the
/// resultant and its reaction are applied.
pub proof fn lemma_tick_order_is_sound(contributor: Stage)
    requires
        contributor.is_contributor(),
    ensures
        runs_before(tick_order(), Stage::FindGround, Stage::DetermineGroundedness),
        runs_before(tick_order(), Stage::DetermineGroundedness, contributor),
        runs_before(tick_order(), contributor, Stage::AccumulateForces),
        runs_before(tick_order(), Stage::AccumulateForces, Stage::ApplyForces),
        runs_before(tick_order(), Stage::ApplyForces, Stage::ApplyGroundForces),
{
    lemma_places_run_in_order(Stage::FindGround, Stage::DetermineGroundedness);
    lemma_places_run_in_order(Stage::DetermineGroundedness, contributor);
    lemma_places_run_in_order(contributor, Stage::AccumulateForces);
    lemma_places_run_in_order(Stage::AccumulateForces, Stage::ApplyForces);
    lemma_places_run_in_order(Stage::ApplyForces, Stage::ApplyGroundForces);
}

/// Of two stages of a tick, the one with the smaller place runs first.
pub proof fn lemma_places_run_in_order(a: Stage, b: Stage)
    requires
        a.is_tick_stage(),
        b.is_tick_stage(),
        place(a) < place(b),
    ensures
        runs_before(tick_order(), a, b),
{
    lemma_every_tick_stage_runs_once(a);
    lemma_every_tick_stage_runs_once(b);
    let i = place(a);
    let j = place(b);
    assert(0 <= i < j < tick_order().len() && tick_order()[i] == a && tick_order()[j] == b);
}

} // verus!
