//! What the ground probe found, and the grounded / airborne classification
//! with hysteresis that is derived from it.
//!
//! Distances are whole numbers of a length unit that the caller chooses. They
//! are only ever compared, so any unit fine enough to tell the two thresholds
//! apart will do.

use vstd::prelude::*;
use bevy::ecs::entity::Entity;
use bevy::math::Vec3;

verus! {

/// Whether the body stands on something.
#[derive(Clone, Copy, Debug, PartialEq, Eq, Structural)]
pub enum Groundedness {
    Grounded,
    Airborne,
}

/// What the downward shape-cast met.
#[derive(Clone, Copy, Debug)]
pub struct GroundHit {
    /// The entity that was hit.
    pub entity: Entity,
    /// How far the shape travelled before it touched.
    pub distance: u64,
    /// Where it touched, in world space.
    pub point: Vec3,
    /// The surface normal where it touched, in world space.
    pub normal: Vec3,
    /// The velocity of the surface at the point where it touched, so that a
    /// moving platform counts as a moving frame of reference.
    pub point_velocity: Vec3,
    /// Whether the entity that was hit is itself moved by forces.
    pub dynamic: bool,
}

/// The result of one tick's ground probe. It is rebuilt every tick.
#[derive(Clone, Copy, Debug)]
pub struct GroundCast {
    pub cast: Option<GroundHit>,
}

impl GroundCast {
    /// The distance to the ground, if the probe met any.
    pub open spec fn reading(&self) -> Option<u64> {
        match self.cast {
            Some(hit) => Some(hit.distance),
            None => None,
        }
    }

    /// A probe that met nothing.
    pub fn miss() -> (cast: GroundCast)
        ensures
            cast.cast is None,
    {
        GroundCast { cast: None }
    }

    /// A probe that met `hit`.
    pub fn hit(hit: GroundHit) -> (cast: GroundCast)
        ensures
            cast.cast == Some(hit),
    {
        GroundCast { cast: Some(hit) }
    }

    /// The distance to the ground, if the probe met any.
    pub fn distance(&self) -> (d: Option<u64>)
        ensures
            d == self.reading(),
    {
        match self.cast {
            Some(hit) => Some(hit.distance),
            None => None,
        }
    }
}

/// The two distances between which the classification keeps its state.
#[derive(Clone, Copy, Debug)]
pub struct GroundThresholds {
    grounded: u64,
    airborne: u64,
}

impl GroundThresholds {
    /// At or below this distance an airborne body becomes grounded.
    pub closed spec fn enter(&self) -> u64 {
        self.grounded
    }

    /// Only above this distance does a grounded body become airborne.
    pub closed spec fn leave(&self) -> u64 {
        self.airborne
    }

    /// The leave threshold is not below the enter threshold.
    pub open spec fn wf(&self) -> bool {
        self.enter() <= self.leave()
    }

    /// Thresholds with the given distances, or `None` if the airborne
    /// threshold is below the grounded one.
    pub fn new(grounded: u64, airborne: u64) -> (thresholds: Option<GroundThresholds>)
        ensures
            thresholds is Some <==> grounded <= airborne,
            thresholds matches Some(t) ==> t.enter() == grounded && t.leave() == airborne && t.wf(),
    {
        if grounded <= airborne {
            Some(GroundThresholds { grounded, airborne })
        } else {
            None
        }
    }

    /// The distance at or below which an airborne body becomes grounded.
    pub fn grounded_threshold(&self) -> (d: u64)
        ensures
            d == self.enter(),
    {
        self.grounded
    }

    /// The distance above which a grounded body becomes airborne.
    pub fn airborne_threshold(&self) -> (d: u64)
        ensures
            d == self.leave(),
    {
        self.airborne
    }
}

/// A reading that takes a grounded body off the ground: no contact, or a
/// contact farther away than the leave threshold.
pub open spec fn is_beyond(reading: Option<u64>, thresholds: GroundThresholds) -> bool {
    match reading {
        Some(distance) => distance > thresholds.leave(),
        None => true,
    }
}

/// The classification after one reading, given the classification before it.
/// An airborne body becomes grounded at or below the enter threshold; a
/// grounded body becomes airborne only beyond the leave threshold or when
/// contact is lost.
pub open spec fn next_groundedness(
    previous: Groundedness,
    reading: Option<u64>,
    thresholds: GroundThresholds,
) -> Groundedness {
    match reading {
        None => Groundedness::Airborne,
        Some(distance) => match previous {
            Groundedness::Airborne => if distance <= thresholds.enter() {
                Groundedness::Grounded
            } else {
                Groundedness::Airborne
            },
            Groundedness::Grounded => if distance > thresholds.leave() {
                Groundedness::Airborne
            } else {
                Groundedness::Grounded
            },
        },
    }
}

/// Classifies the body for this tick from the previous tick's classification
/// and this tick's probe.
pub fn determine_groundedness(
    previous: Groundedness,
    cast: &GroundCast,
    thresholds: &GroundThresholds,
) -> (now: Groundedness)
    ensures
        now == next_groundedness(previous, cast.reading(), *thresholds),
{
    match cast.cast {
        None => Groundedness::Airborne,
        Some(hit) => match previous {
            Groundedness::Airborne => if hit.distance <= thresholds.grounded {
                Groundedness::Grounded
            } else {
                Groundedness::Airborne
            },
            Groundedness::Grounded => if hit.distance > thresholds.airborne {
                Groundedness::Airborne
            } else {
                Groundedness::Grounded
            },
        },
    }
}

/// The classification after all of `readings`, taken in order from `start`.
pub open spec fn groundedness_after(
    start: Groundedness,
    readings: Seq<Option<u64>>,
    thresholds: GroundThresholds,
) -> Groundedness
    decreases readings.len(),
{
    if readings.len() == 0 {
        start
    } else {
        next_groundedness(
            groundedness_after(start, readings.drop_last(), thresholds),
            readings.last(),
            thresholds,
        )
    }
}

/// How often the classification changed while `readings` came in.
pub open spec fn toggles(
    start: Groundedness,
    readings: Seq<Option<u64>>,
    thresholds: GroundThresholds,
) -> nat
    decreases readings.len(),
{
    if readings.len() == 0 {
        0
    } else {
        let before = groundedness_after(start, readings.drop_last(), thresholds);
        let after = groundedness_after(start, readings, thresholds);
        toggles(start, readings.drop_last(), thresholds) + if before != after {
            1nat
        } else {
            0nat
        }
    }
}

/// How often the classification went from grounded to airborne while
/// `readings` came in.
pub open spec fn takeoffs(
    start: Groundedness,
    readings: Seq<Option<u64>>,
    thresholds: GroundThresholds,
) -> nat
    decreases readings.len(),
{
    if readings.len() == 0 {
        0
    } else {
        let before = groundedness_after(start, readings.drop_last(), thresholds);
        let after = groundedness_after(start, readings, thresholds);
        takeoffs(start, readings.drop_last(), thresholds) + if before is Grounded
            && after is Airborne {
            1nat
        } else {
            0nat
        }
    }
}

/// How often `readings` crossed the leave threshold outward: the places where
/// a reading is beyond it and the reading before was not. A first reading
/// beyond it counts as a crossing.
pub open spec fn crossings(readings: Seq<Option<u64>>, thresholds: GroundThresholds) -> nat
    decreases readings.len(),
{
    if readings.len() == 0 {
        0
    } else {
        let rest = readings.drop_last();
        crossings(rest, thresholds) + if is_beyond(readings.last(), thresholds) && (rest.len() == 0
            || !is_beyond(rest.last(), thresholds)) {
            1nat
        } else {
            0nat
        }
    }
}

/// Every reading is a contact whose distance lies within `slack` of `centre`.
pub open spec fn within_band(readings: Seq<Option<u64>>, centre: int, slack: int) -> bool {
    forall|i: int|
        0 <= i < readings.len() ==> (#[trigger] readings[i] matches Some(distance) && centre
            - slack <= distance <= centre + slack)
}

/// After a reading beyond the leave threshold the body is airborne.
proof fn lemma_beyond_is_airborne(
    start: Groundedness,
    readings: Seq<Option<u64>>,
    thresholds: GroundThresholds,
)
    requires
        thresholds.wf(),
        readings.len() > 0,
        is_beyond(readings.last(), thresholds),
    ensures
        groundedness_after(start, readings, thresholds) is Airborne,
{
}

/// Hysteresis: the classification leaves the ground at most once for every
/// outward crossing of the leave threshold, and so changes at most once more
/// than twice as often as the readings cross it.
pub proof fn lemma_hysteresis(
    start: Groundedness,
    readings: Seq<Option<u64>>,
    thresholds: GroundThresholds,
)
    requires
        thresholds.wf(),
    ensures
        takeoffs(start, readings, thresholds) <= crossings(readings, thresholds),
        toggles(start, readings, thresholds) <= 2 * takeoffs(start, readings, thresholds) + 1,
        toggles(start, readings, thresholds) <= 2 * crossings(readings, thresholds) + 1,
    decreases readings.len(),
{
    lemma_takeoffs_alternate(start, readings, thresholds);
    if readings.len() > 0 {
        let rest = readings.drop_last();
        lemma_hysteresis(start, rest, thresholds);
        if rest.len() > 0 && is_beyond(rest.last(), thresholds) {
            lemma_beyond_is_airborne(start, rest, thresholds);
        }
    }
}

/// Landings and takeoffs alternate: counted from the start, the changes are
/// twice the takeoffs, plus one if the body started airborne and is grounded
/// now, minus one if it started grounded and is airborne now.
proof fn lemma_takeoffs_alternate(
    start: Groundedness,
    readings: Seq<Option<u64>>,
    thresholds: GroundThresholds,
)
    ensures
        toggles(start, readings, thresholds) + (if start is Grounded && groundedness_after(
            start,
            readings,
            thresholds,
        ) is Airborne {
            1int
        } else {
            0int
        }) == 2 * takeoffs(start, readings, thresholds) + (if start is Airborne
            && groundedness_after(start, readings, thresholds) is Grounded {
            1int
        } else {
            0int
        }),
    decreases readings.len(),
{
    if readings.len() > 0 {
        lemma_takeoffs_alternate(start, readings.drop_last(), thresholds);
    }
}

/// While every reading stays in a band around the enter threshold that does
/// not reach past the leave threshold, the classification changes at most
/// once: it may settle on grounded and then stays there.
pub proof fn lemma_band_toggles_at_most_once(
    start: Groundedness,
    readings: Seq<Option<u64>>,
    thresholds: GroundThresholds,
    slack: int,
)
    requires
        thresholds.wf(),
        0 <= slack,
        thresholds.enter() + slack <= thresholds.leave(),
        within_band(readings, thresholds.enter() as int, slack),
    ensures
        crossings(readings, thresholds) == 0,
        takeoffs(start, readings, thresholds) == 0,
        toggles(start, readings, thresholds) <= 1,
    decreases readings.len(),
{
    lemma_hysteresis(start, readings, thresholds);
    if readings.len() > 0 {
        let rest = readings.drop_last();
        assert(within_band(rest, thresholds.enter() as int, slack)) by {
            assert forall|i: int| 0 <= i < rest.len() implies (#[trigger] rest[i] matches Some(
                distance,
            ) && thresholds.enter() - slack <= distance <= thresholds.enter() + slack) by {
                assert(rest[i] == readings[i]);
            }
        }
        lemma_band_toggles_at_most_once(start, rest, thresholds, slack);
        assert(readings.last() == readings[readings.len() - 1]);
    }
}

} // verus!
