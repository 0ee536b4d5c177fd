//! When a jump launches.
//!
//! A jump is asked for by a request flag and served at most once: on the
//! ground, within a grace window after walking off it, or in mid-air while a
//! multi-jump budget lasts. A request that cannot be served yet stays alive
//! for a buffer window, so that one made just before landing still launches.
//! After a launch no further ground jump is served until the body has left
//! the ground and touched it again; a launch that does not lift the body off
//! the ground leaves ground jumps suppressed until it has been airborne once.
//!
//! Durations are whole numbers of a time unit that the caller chooses; the
//! time that passed since the previous tick comes in with every step, so no
//! tick length is assumed.

use vstd::prelude::*;
use crate::ground::Groundedness;

verus! {

/// Where the jump logic stands between two ticks.
#[derive(Clone, Copy, Debug, PartialEq, Eq, Structural)]
pub enum JumpPhase {
    /// No request is waiting and no jump is under way.
    Idle,
    /// A request is waiting to be served.
    Requested,
    /// A jump was launched and the body has not touched the ground again.
    PostJumpAirborne,
}

/// What the game configures about jumping.
#[derive(Clone, Copy, Debug, PartialEq, Eq, Structural)]
pub struct JumpConfig {
    /// How long an unserved request stays alive.
    pub buffer_window: u64,
    /// How long after leaving the ground without jumping a ground jump is
    /// still served.
    pub grace_window: u64,
    /// How many jumps may be launched in mid-air before touching the ground
    /// again.
    pub extra_jumps: u32,
}

/// What one tick tells the jump logic.
#[derive(Clone, Copy, Debug, PartialEq, Eq, Structural)]
pub struct JumpInput {
    /// A jump was asked for since the previous tick.
    pub requested: bool,
    /// This tick's classification of the body.
    pub groundedness: Groundedness,
    /// The time that passed since the previous tick.
    pub elapsed: u64,
}

/// The jump logic's memory from one tick to the next.
#[derive(Clone, Copy, Debug, PartialEq, Eq, Structural)]
pub struct JumpState {
    pub phase: JumpPhase,
    /// How much longer the waiting request stays alive.
    pub buffer_left: u64,
    /// How much longer a ground jump is served although the body is airborne.
    pub grace_left: u64,
    /// How many mid-air jumps are left.
    pub extra_left: u32,
    /// Whether the body has been airborne since the last launch.
    pub airborne_seen: bool,
}

impl JumpInput {
    pub open spec fn grounded(self) -> bool {
        self.groundedness is Grounded
    }
}

impl JumpState {
    /// The fields agree with the phase.
    pub open spec fn wf(self) -> bool {
        &&& self.phase is Idle ==> self.buffer_left == 0
        &&& self.phase is Requested ==> self.buffer_left > 0
        &&& self.phase is PostJumpAirborne ==> self.grace_left == 0
        &&& self.airborne_seen ==> self.phase is PostJumpAirborne
    }

    /// A request is to be served this tick: one made now, or an earlier one
    /// whose buffer window has not run out.
    pub open spec fn pending(self, input: JumpInput) -> bool {
        input.requested || self.buffer_left > input.elapsed
    }

    /// The body touches the ground again after a jump: it was launched, has
    /// been airborne since, and is grounded now.
    pub open spec fn lands(self, input: JumpInput) -> bool {
        self.phase is PostJumpAirborne && self.airborne_seen && input.grounded()
    }

    /// A launched jump is still under way after this tick's landing check.
    pub open spec fn in_flight(self, input: JumpInput) -> bool {
        self.phase is PostJumpAirborne && !self.lands(input)
    }

    /// A ground jump is permitted: no jump is under way, and the body is
    /// grounded or left the ground less than the grace window ago.
    pub open spec fn may_ground_jump(self, input: JumpInput) -> bool {
        !self.in_flight(input) && (input.grounded() || self.grace_left > input.elapsed)
    }

    /// A mid-air jump is permitted: the body is airborne and the budget is
    /// not used up.
    pub open spec fn may_air_jump(self, input: JumpInput) -> bool {
        !input.grounded() && self.extra_left > 0
    }

    /// A jump launches this tick.
    pub open spec fn launches(self, input: JumpInput) -> bool {
        self.pending(input) && (self.may_ground_jump(input) || self.may_air_jump(input))
    }

    /// The mid-air budget at this tick, before any launch: refilled while the
    /// body stands on the ground with no jump under way.
    pub open spec fn budget(self, config: JumpConfig, input: JumpInput) -> u32 {
        if input.grounded() && !self.in_flight(input) {
            config.extra_jumps
        } else {
            self.extra_left
        }
    }

    /// The state after a tick in which a jump launched.
    pub open spec fn after_launch(self, config: JumpConfig, input: JumpInput) -> JumpState {
        JumpState {
            phase: JumpPhase::PostJumpAirborne,
            buffer_left: 0,
            grace_left: 0,
            extra_left: if self.may_ground_jump(input) {
                self.budget(config, input)
            } else {
                (self.extra_left - 1) as u32
            },
            airborne_seen: !input.grounded(),
        }
    }

    /// The state after a tick in which no jump launched.
    pub open spec fn after_wait(self, config: JumpConfig, input: JumpInput) -> JumpState {
        let buffer_left: u64 = if input.requested {
            config.buffer_window
        } else if self.buffer_left > input.elapsed {
            (self.buffer_left - input.elapsed) as u64
        } else {
            0
        };
        let grace_left: u64 = if self.in_flight(input) {
            0
        } else if input.grounded() {
            config.grace_window
        } else if self.grace_left > input.elapsed {
            (self.grace_left - input.elapsed) as u64
        } else {
            0
        };
        JumpState {
            phase: if self.in_flight(input) {
                JumpPhase::PostJumpAirborne
            } else if buffer_left > 0 {
                JumpPhase::Requested
            } else {
                JumpPhase::Idle
            },
            buffer_left,
            grace_left,
            extra_left: self.budget(config, input),
            airborne_seen: self.in_flight(input) && (self.airborne_seen || !input.grounded()),
        }
    }

    /// The state after one tick.
    pub open spec fn next(self, config: JumpConfig, input: JumpInput) -> JumpState {
        if self.launches(input) {
            self.after_launch(config, input)
        } else {
            self.after_wait(config, input)
        }
    }

    /// The state of a body that stands ready: nothing requested, nothing under
    /// way, the full budget at hand.
    pub fn new(config: &JumpConfig) -> (state: JumpState)
        ensures
            state.wf(),
            state.phase is Idle,
            state.buffer_left == 0,
            state.grace_left == 0,
            state.extra_left == config.extra_jumps,
            !state.airborne_seen,
    {
        JumpState {
            phase: JumpPhase::Idle,
            buffer_left: 0,
            grace_left: 0,
            extra_left: config.extra_jumps,
            airborne_seen: false,
        }
    }

    /// Advances the jump logic by one tick and says whether a jump launches
    /// in it. The caller applies the jump impulse exactly when this returns
    /// `true`.
    pub fn step(&mut self, config: &JumpConfig, input: JumpInput) -> (launch: bool)
        ensures
            launch == old(self).launches(input),
            *final(self) == old(self).next(*config, input),
            final(self).wf(),
            launch ==> final(self).phase is PostJumpAirborne,
    {
        let grounded = match input.groundedness {
            Groundedness::Grounded => true,
            Groundedness::Airborne => false,
        };
        let was_launched = match self.phase {
            JumpPhase::PostJumpAirborne => true,
            _ => false,
        };
        let lands = was_launched && self.airborne_seen && grounded;
        let in_flight = was_launched && !lands;
        let pending = input.requested || self.buffer_left > input.elapsed;
        let ground_jump = !in_flight && (grounded || self.grace_left > input.elapsed);
        let air_jump = !grounded && self.extra_left > 0;
        let budget: u32 = if grounded && !in_flight {
            config.extra_jumps
        } else {
            self.extra_left
        };
        if pending && (ground_jump || air_jump) {
            self.phase = JumpPhase::PostJumpAirborne;
            self.buffer_left = 0;
            self.grace_left = 0;
            self.extra_left = if ground_jump {
                budget
            } else {
                self.extra_left - 1
            };
            self.airborne_seen = !grounded;
            true
        } else {
            let buffer_left: u64 = if input.requested {
                config.buffer_window
            } else if self.buffer_left > input.elapsed {
                self.buffer_left - input.elapsed
            } else {
                0
            };
            let grace_left: u64 = if in_flight {
                0
            } else if grounded {
                config.grace_window
            } else if self.grace_left > input.elapsed {
                self.grace_left - input.elapsed
            } else {
                0
            };
            self.phase = if in_flight {
                JumpPhase::PostJumpAirborne
            } else if buffer_left > 0 {
                JumpPhase::Requested
            } else {
                JumpPhase::Idle
            };
            self.buffer_left = buffer_left;
            self.grace_left = grace_left;
            self.extra_left = budget;
            self.airborne_seen = in_flight && (self.airborne_seen || !grounded);
            false
        }
    }
}

/// No jump launches without a request: neither one made this tick nor one
/// still alive in its buffer window.
pub proof fn lemma_launch_needs_request(state: JumpState, input: JumpInput)
    requires
        !input.requested,
        state.buffer_left <= input.elapsed,
    ensures
        !state.launches(input),
{
}

/// A request made while the body is grounded and no jump is under way
/// launches at once, and leaves no request behind.
pub proof fn lemma_grounded_request_launches(
    state: JumpState,
    config: JumpConfig,
    input: JumpInput,
)
    requires
        input.requested,
        input.grounded(),
        !(state.phase is PostJumpAirborne),
    ensures
        state.launches(input),
        state.next(config, input).phase is PostJumpAirborne,
        state.next(config, input).buffer_left == 0,
{
}

/// After a launch, with no mid-air budget left, no further jump launches
/// until the body has been airborne and is grounded again.
pub proof fn lemma_suppressed_until_regrounded(state: JumpState, input: JumpInput)
    requires
        state.wf(),
        state.phase is PostJumpAirborne,
        state.extra_left == 0,
        state.launches(input),
    ensures
        state.airborne_seen,
        input.grounded(),
{
}

/// A body that is airborne without a launch, past its grace window and
/// without mid-air budget, launches nothing; a request made then launches on
/// the first grounded tick that comes before its buffer window has run out.
pub proof fn lemma_buffered_request_launches_on_landing(
    state: JumpState,
    config: JumpConfig,
    request: JumpInput,
    landing: JumpInput,
)
    requires
        state.wf(),
        !(state.phase is PostJumpAirborne),
        state.grace_left <= request.elapsed,
        state.extra_left == 0,
        request.requested,
        !request.grounded(),
        landing.grounded(),
        landing.elapsed < config.buffer_window,
    ensures
        !state.launches(request),
        state.next(config, request).launches(landing),
{
}

/// The state in which the tick with index `n` finds the jump logic: `start`
/// advanced by the first `n` of `inputs`.
pub open spec fn state_at(
    start: JumpState,
    config: JumpConfig,
    inputs: Seq<JumpInput>,
    n: int,
) -> JumpState
    decreases n,
{
    if n <= 0 {
        start
    } else {
        state_at(start, config, inputs, n - 1).next(config, inputs[n - 1])
    }
}

/// A jump launches in the tick with index `n`.
pub open spec fn launches_at(
    start: JumpState,
    config: JumpConfig,
    inputs: Seq<JumpInput>,
    n: int,
) -> bool {
    state_at(start, config, inputs, n).launches(inputs[n])
}

/// The body was airborne in some tick from `from` up to, not including, `to`.
pub open spec fn airborne_within(inputs: Seq<JumpInput>, from: int, to: int) -> bool {
    exists|k: int| from <= k < to && !(#[trigger] inputs[k]).grounded()
}

/// The body touched the ground again within the ticks from `from` up to, not
/// including, `to`: it was airborne in one of them and grounded in a later
/// one.
pub open spec fn regrounded_within(inputs: Seq<JumpInput>, from: int, to: int) -> bool {
    exists|k: int, l: int|
        from <= k < l < to && !(#[trigger] inputs[k]).grounded() && (#[trigger] inputs[l]).grounded()
}

/// Without a mid-air budget the jump logic never gains one.
proof fn lemma_budget_stays_empty(
    start: JumpState,
    config: JumpConfig,
    inputs: Seq<JumpInput>,
    n: int,
)
    requires
        start.wf(),
        start.extra_left == 0,
        config.extra_jumps == 0,
    ensures
        state_at(start, config, inputs, n).wf(),
        state_at(start, config, inputs, n).extra_left == 0,
    decreases n,
{
    if n > 0 {
        lemma_budget_stays_empty(start, config, inputs, n - 1);
    }
}

/// What holds in every tick after a launch, up to the next tick of interest:
/// either the jump is still under way, and the body was airborne since the
/// launch if the logic has seen it airborne, or the body has touched the
/// ground again.
proof fn lemma_flight_or_regrounded(
    start: JumpState,
    config: JumpConfig,
    inputs: Seq<JumpInput>,
    first: int,
    n: int,
)
    requires
        start.wf(),
        start.extra_left == 0,
        config.extra_jumps == 0,
        0 <= first < n <= inputs.len(),
        launches_at(start, config, inputs, first),
    ensures
        regrounded_within(inputs, first, n) || (state_at(start, config, inputs, n).phase
            is PostJumpAirborne && (state_at(start, config, inputs, n).airborne_seen
            ==> airborne_within(inputs, first, n))),
    decreases n - first,
{
    let before = state_at(start, config, inputs, n - 1);
    let input = inputs[n - 1];
    lemma_budget_stays_empty(start, config, inputs, n - 1);
    if n == first + 1 {
        if !input.grounded() {
            assert(first <= first < n && !inputs[first].grounded());
        }
    } else {
        lemma_flight_or_regrounded(start, config, inputs, first, n - 1);
        if regrounded_within(inputs, first, n - 1) {
            let (k, l) = choose|k: int, l: int|
                first <= k < l < n - 1 && !(#[trigger] inputs[k]).grounded() && (
                #[trigger] inputs[l]).grounded();
            assert(first <= k < l < n && !inputs[k].grounded() && inputs[l].grounded());
        } else {
            if before.airborne_seen {
                let k = choose|k: int| first <= k < n - 1 && !(#[trigger] inputs[k]).grounded();
                if input.grounded() {
                    assert(first <= k < n - 1 < n && !inputs[k].grounded() && inputs[n
                        - 1].grounded());
                } else {
                    assert(first <= k < n && !inputs[k].grounded());
                }
            } else if !input.grounded() {
                assert(first <= n - 1 < n && !inputs[n - 1].grounded());
            }
        }
    }
}

/// Without a mid-air budget, a second launch comes only after the body has
/// touched the ground again: between two launches, the second one included,
/// there is a tick in which the body was airborne and a later one in which it
/// was grounded.
pub proof fn lemma_relaunch_needs_regrounding(
    start: JumpState,
    config: JumpConfig,
    inputs: Seq<JumpInput>,
    first: int,
    second: int,
)
    requires
        start.wf(),
        start.extra_left == 0,
        config.extra_jumps == 0,
        0 <= first < second < inputs.len(),
        launches_at(start, config, inputs, first),
        launches_at(start, config, inputs, second),
    ensures
        regrounded_within(inputs, first, second + 1),
{
    lemma_flight_or_regrounded(start, config, inputs, first, second);
    lemma_budget_stays_empty(start, config, inputs, second);
    if regrounded_within(inputs, first, second) {
        let (k, l) = choose|k: int, l: int|
            first <= k < l < second && !(#[trigger] inputs[k]).grounded() && (
            #[trigger] inputs[l]).grounded();
        assert(first <= k < l < second + 1 && !inputs[k].grounded() && inputs[l].grounded());
    } else {
        let k = choose|k: int| first <= k < second && !(#[trigger] inputs[k]).grounded();
        assert(first <= k < second < second + 1 && !inputs[k].grounded()
            && inputs[second].grounded());
    }
}

} // verus!
