//! The force contributions of one tick, their sum, and its single hand-over
//! to the host engine.

use vstd::prelude::*;
use bevy::ecs::entity::Entity;
use bevy::math::Vec3;
use crate::ground::{GroundCast, Groundedness};
use crate::host::{is_zero, negated, plus, vec3_is_zero, vec3_negated, vec3_sum, zero};

verus! {

/// What one contributor adds to a body in one tick: a linear force and a
/// torque.
#[derive(Clone, Copy, Debug)]
pub struct ForceContribution {
    pub linear: Vec3,
    pub angular: Vec3,
}

impl ForceContribution {
    /// Neither a force nor a torque: both parts are zero.
    pub open spec fn is_zero(self) -> bool {
        vec3_is_zero(self.linear) && vec3_is_zero(self.angular)
    }

    /// The contribution of a contributor that has nothing to add.
    pub fn none() -> (contribution: ForceContribution)
        ensures
            contribution.is_zero(),
    {
        ForceContribution { linear: zero(), angular: zero() }
    }

    /// Whether this contribution is neither a force nor a torque.
    pub fn is_nothing(&self) -> (nothing: bool)
        ensures
            nothing == self.is_zero(),
    {
        is_zero(self.linear) && is_zero(self.angular)
    }

    /// A linear force without torque.
    pub fn from_linear(linear: Vec3) -> (contribution: ForceContribution)
        ensures
            contribution.linear == linear,
            vec3_is_zero(contribution.angular),
    {
        ForceContribution { linear, angular: zero() }
    }

    /// A torque without linear force.
    pub fn from_angular(angular: Vec3) -> (contribution: ForceContribution)
        ensures
            vec3_is_zero(contribution.linear),
            contribution.angular == angular,
    {
        ForceContribution { linear: zero(), angular }
    }

    /// The sum of two contributions, part by part.
    pub open spec fn combined(self, other: ForceContribution) -> ForceContribution {
        ForceContribution {
            linear: vec3_sum(self.linear, other.linear),
            angular: vec3_sum(self.angular, other.angular),
        }
    }

    /// Adds `other` to this contribution, part by part.
    pub fn combine(&self, other: &ForceContribution) -> (sum: ForceContribution)
        ensures
            sum == self.combined(*other),
    {
        ForceContribution {
            linear: plus(self.linear, other.linear),
            angular: plus(self.angular, other.angular),
        }
    }
}

/// Calculated gravity force.
#[derive(Clone, Copy, Debug)]
pub struct GravityForce {
    /// Linear gravitational force.
    pub linear: Vec3,
}

impl Default for GravityForce {
    fn default() -> (force: Self)
        ensures
            vec3_is_zero(force.linear),
    {
        GravityForce { linear: zero() }
    }
}

impl GravityForce {
    /// Gravity as a contribution: its linear force, no torque.
    pub fn contribution(&self) -> (contribution: ForceContribution)
        ensures
            contribution.linear == self.linear,
            vec3_is_zero(contribution.angular),
    {
        ForceContribution::from_linear(self.linear)
    }
}

/// Calculated force that keeps the body at its ride height.
#[derive(Clone, Copy, Debug)]
pub struct FloatForce {
    /// Linear force along the up vector.
    pub linear: Vec3,
}

impl Default for FloatForce {
    fn default() -> (force: Self)
        ensures
            vec3_is_zero(force.linear),
    {
        FloatForce { linear: zero() }
    }
}

impl FloatForce {
    /// The float force as a contribution: its linear force, no torque.
    pub fn contribution(&self) -> (contribution: ForceContribution)
        ensures
            contribution.linear == self.linear,
            vec3_is_zero(contribution.angular),
    {
        ForceContribution::from_linear(self.linear)
    }
}

/// Calculated force that makes the body jump.
#[derive(Clone, Copy, Debug)]
pub struct JumpForce {
    /// Linear impulse along the up vector.
    pub linear: Vec3,
}

impl Default for JumpForce {
    fn default() -> (force: Self)
        ensures
            vec3_is_zero(force.linear),
    {
        JumpForce { linear: zero() }
    }
}

impl JumpForce {
    /// The jump force as a contribution: its linear force, no torque.
    pub fn contribution(&self) -> (contribution: ForceContribution)
        ensures
            contribution.linear == self.linear,
            vec3_is_zero(contribution.angular),
    {
        ForceContribution::from_linear(self.linear)
    }
}

/// The float force of this tick: the ride-height spring's force while the
/// body is grounded, and exactly zero while it is airborne.
pub fn float_force(groundedness: Groundedness, spring: Vec3) -> (force: FloatForce)
    ensures
        groundedness is Airborne ==> vec3_is_zero(force.linear),
        groundedness is Grounded ==> force.linear == spring,
{
    match groundedness {
        Groundedness::Grounded => FloatForce { linear: spring },
        Groundedness::Airborne => FloatForce { linear: zero() },
    }
}

/// The jump force of this tick: the jump impulse in the tick in which a jump
/// launches, and exactly zero in every other.
pub fn jump_force(launch: bool, impulse: Vec3) -> (force: JumpForce)
    ensures
        !launch ==> vec3_is_zero(force.linear),
        launch ==> force.linear == impulse,
{
    if launch {
        JumpForce { linear: impulse }
    } else {
        JumpForce { linear: zero() }
    }
}

/// The contributions of the five contributors in one tick.
#[derive(Clone, Copy, Debug)]
pub struct Contributions {
    pub gravity: ForceContribution,
    pub float: ForceContribution,
    pub upright: ForceContribution,
    pub movement: ForceContribution,
    pub jump: ForceContribution,
}

impl Contributions {
    /// The resultant: every contribution counted once, summed in the order
    /// gravity, float, upright, movement, jump.
    pub open spec fn resultant(self) -> ForceContribution {
        self.gravity.combined(self.float).combined(self.upright).combined(self.movement).combined(
            self.jump,
        )
    }
}

/// Sums the contributions of one tick into their resultant.
pub fn accumulate_forces(contributions: &Contributions) -> (total: ForceContribution)
    ensures
        total == contributions.resultant(),
{
    contributions.gravity.combine(&contributions.float).combine(&contributions.upright).combine(
        &contributions.movement,
    ).combine(&contributions.jump)
}

/// Where the accumulated force of a body stands within a tick.
#[derive(Clone, Copy, Debug, PartialEq, Eq, Structural)]
pub enum AccumulatorPhase {
    /// Nothing has been accumulated in this tick yet.
    Clear,
    /// The resultant has been written and waits to be applied.
    Written,
    /// The resultant has been handed out.
    Applied,
}

/// Why the accumulator refused an operation.
#[derive(Clone, Copy, Debug, PartialEq, Eq, Structural)]
pub enum AccumulatorError {
    /// A resultant was already written in this tick.
    AlreadyWritten,
    /// The written resultant has not been applied yet.
    NotApplied,
}

/// The accumulated force of one body: written once per tick, handed out once,
/// then cleared for the next tick.
#[derive(Clone, Copy, Debug)]
pub struct AccumulatedForce {
    phase: AccumulatorPhase,
    total: ForceContribution,
}

impl AccumulatedForce {
    /// Where the accumulator stands.
    pub closed spec fn phase(self) -> AccumulatorPhase {
        self.phase
    }

    /// The resultant that was last written.
    pub closed spec fn total(self) -> ForceContribution {
        self.total
    }

    /// What a hand-over would give out now: the written resultant if it has
    /// not been handed out yet.
    pub open spec fn due(self) -> Option<ForceContribution> {
        if self.phase() is Written {
            Some(self.total())
        } else {
            None
        }
    }

    /// The accumulator after writing the resultant of `contributions`.
    pub closed spec fn after_accumulate(self, contributions: Contributions) -> AccumulatedForce {
        if self.phase is Clear {
            AccumulatedForce { phase: AccumulatorPhase::Written, total: contributions.resultant() }
        } else {
            self
        }
    }

    /// The accumulator after a hand-over.
    pub closed spec fn after_apply(self) -> AccumulatedForce {
        if self.phase is Written {
            AccumulatedForce { phase: AccumulatorPhase::Applied, total: self.total }
        } else {
            self
        }
    }

    /// The accumulator after clearing it for the next tick.
    pub closed spec fn after_clear(self) -> AccumulatedForce {
        if self.phase is Written {
            self
        } else {
            AccumulatedForce { phase: AccumulatorPhase::Clear, total: self.total }
        }
    }

    /// An accumulator in which nothing has been written: it holds no force.
    pub fn new() -> (accumulated: AccumulatedForce)
        ensures
            accumulated.phase() is Clear,
            accumulated.total().is_zero(),
            accumulated.due() is None,
    {
        AccumulatedForce { phase: AccumulatorPhase::Clear, total: ForceContribution::none() }
    }

    /// Where the accumulator stands.
    pub fn current_phase(&self) -> (phase: AccumulatorPhase)
        ensures
            phase == self.phase(),
    {
        self.phase
    }

    /// Writes the resultant of this tick's contributions. Refused, with the
    /// accumulator unchanged, unless it is clear.
    pub fn accumulate(&mut self, contributions: &Contributions) -> (written: Result<
        (),
        AccumulatorError,
    >)
        ensures
            *final(self) == old(self).after_accumulate(*contributions),
            old(self).phase() is Clear ==> written is Ok && final(self).phase() is Written
                && final(self).due() == Some(contributions.resultant()),
            !(old(self).phase() is Clear) ==> written == Err::<(), AccumulatorError>(
                AccumulatorError::AlreadyWritten,
            ) && *final(self) == *old(self),
    {
        match self.phase {
            AccumulatorPhase::Clear => {
                self.total = accumulate_forces(contributions);
                self.phase = AccumulatorPhase::Written;
                Ok(())
            },
            _ => Err(AccumulatorError::AlreadyWritten),
        }
    }

    /// Hands out the written resultant for application to the host engine:
    /// `Some` the first time after a write, `None` before any write and on
    /// every later call until the next write.
    pub fn apply(&mut self) -> (resultant: Option<ForceContribution>)
        ensures
            resultant == old(self).due(),
            *final(self) == old(self).after_apply(),
            final(self).due() is None,
            old(self).phase() is Written ==> final(self).phase() is Applied,
            !(old(self).phase() is Written) ==> *final(self) == *old(self),
    {
        match self.phase {
            AccumulatorPhase::Written => {
                self.phase = AccumulatorPhase::Applied;
                Some(self.total)
            },
            _ => None,
        }
    }

    /// Clears the accumulator for the next tick. Refused, with the
    /// accumulator unchanged, while a written resultant has not been applied.
    pub fn clear(&mut self) -> (cleared: Result<(), AccumulatorError>)
        ensures
            *final(self) == old(self).after_clear(),
            old(self).phase() is Written ==> cleared == Err::<(), AccumulatorError>(
                AccumulatorError::NotApplied,
            ) && *final(self) == *old(self),
            !(old(self).phase() is Written) ==> cleared is Ok && final(self).phase() is Clear,
    {
        match self.phase {
            AccumulatorPhase::Written => Err(AccumulatorError::NotApplied),
            _ => {
                self.phase = AccumulatorPhase::Clear;
                Ok(())
            },
        }
    }
}

/// One operation on an accumulator.
pub enum AccumulatorOp {
    /// Write the resultant of these contributions.
    Accumulate(Contributions),
    /// Hand the written resultant out.
    Apply,
    /// Clear for the next tick.
    Clear,
}

impl AccumulatedForce {
    /// The accumulator after one operation.
    pub open spec fn after(self, op: AccumulatorOp) -> AccumulatedForce {
        match op {
            AccumulatorOp::Accumulate(contributions) => self.after_accumulate(contributions),
            AccumulatorOp::Apply => self.after_apply(),
            AccumulatorOp::Clear => self.after_clear(),
        }
    }

    /// The accumulator after a series of operations.
    pub open spec fn after_all(self, ops: Seq<AccumulatorOp>) -> AccumulatedForce
        decreases ops.len(),
    {
        if ops.len() == 0 {
            self
        } else {
            self.after_all(ops.drop_last()).after(ops.last())
        }
    }

    /// How many of `ops` wrote a resultant: the accumulations that met a
    /// clear accumulator.
    pub open spec fn writes(self, ops: Seq<AccumulatorOp>) -> nat
        decreases ops.len(),
    {
        if ops.len() == 0 {
            0
        } else {
            let before = self.after_all(ops.drop_last());
            self.writes(ops.drop_last()) + if ops.last() is Accumulate && before.phase() is Clear {
                1nat
            } else {
                0nat
            }
        }
    }

    /// How many of `ops` handed a resultant out: the hand-overs that found
    /// one due.
    pub open spec fn hand_overs(self, ops: Seq<AccumulatorOp>) -> nat
        decreases ops.len(),
    {
        if ops.len() == 0 {
            0
        } else {
            let before = self.after_all(ops.drop_last());
            self.hand_overs(ops.drop_last()) + if ops.last() is Apply && before.due() is Some {
                1nat
            } else {
                0nat
            }
        }
    }
}

/// A resultant is handed out exactly once: the hand-over after a write gives
/// the resultant of what was written, and a second hand-over gives nothing.
pub proof fn lemma_applied_exactly_once(start: AccumulatedForce, contributions: Contributions)
    requires
        start.phase() is Clear,
    ensures
        start.after_accumulate(contributions).due() == Some(contributions.resultant()),
        start.after_accumulate(contributions).after_apply().due() is None,
        start.after_accumulate(contributions).after_apply().after_apply().due() is None,
{
}

/// Nothing written in a tick is lost or counted twice: a second write in the
/// same tick changes nothing, and clearing changes nothing until the written
/// resultant has been handed out.
pub proof fn lemma_written_resultant_is_kept(
    start: AccumulatedForce,
    first: Contributions,
    second: Contributions,
)
    requires
        start.phase() is Clear,
    ensures
        start.after_accumulate(first).after_accumulate(second) == start.after_accumulate(first),
        start.after_accumulate(first).after_clear() == start.after_accumulate(first),
        start.after_accumulate(first).after_apply().after_clear().phase() is Clear,
{
}

/// Whatever operations are tried in whatever order on an accumulator that
/// starts clear, no resultant is handed out twice and none is dropped: the
/// hand-overs number as many as the writes, less the one resultant that is
/// still waiting if the accumulator stands at written.
pub proof fn lemma_hand_overs_match_writes(start: AccumulatedForce, ops: Seq<AccumulatorOp>)
    requires
        start.phase() is Clear,
    ensures
        start.writes(ops) == start.hand_overs(ops) + if start.after_all(ops).phase() is Written {
            1nat
        } else {
            0nat
        },
    decreases ops.len(),
{
    if ops.len() > 0 {
        lemma_hand_overs_match_writes(start, ops.drop_last());
    }
}

/// The reaction that the body exerts on what it stands on.
#[derive(Clone, Copy, Debug)]
pub struct GroundReaction {
    /// The entity under the body.
    pub entity: Entity,
    /// The force on that entity: opposite to the force applied to the body.
    pub linear: Vec3,
}

/// The reaction to `applied` for this tick's ground, if there is one to
/// apply.
pub open spec fn reaction_of(applied: ForceContribution, cast: GroundCast, enabled: bool) -> Option<
    GroundReaction,
> {
    match cast.cast {
        Some(hit) => if enabled && hit.dynamic {
            Some(GroundReaction { entity: hit.entity, linear: vec3_negated(applied.linear) })
        } else {
            None
        },
        None => None,
    }
}

/// The equal and opposite reaction to the force applied to the body, for the
/// entity that the ground probe met: given only if pushing the ground is
/// enabled and that entity is itself dynamic.
pub fn ground_reaction(applied: &ForceContribution, cast: &GroundCast, enabled: bool) -> (reaction:
    Option<GroundReaction>)
    ensures
        reaction == reaction_of(*applied, *cast, enabled),
{
    match cast.cast {
        Some(hit) => if enabled && hit.dynamic {
            Some(GroundReaction { entity: hit.entity, linear: negated(applied.linear) })
        } else {
            None
        },
        None => None,
    }
}

} // verus!
