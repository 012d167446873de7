//! What holds of the arbiter over one step and over whole runs.
//!
//! The theorems here speak of the step function [`ArbiterState::spec_step`]
//! and of [`spec_run`], its iteration over a sequence of inputs. The
//! executable arbiter is proved to compute exactly that step function, so
//! every statement carries over to it.

use crate::arbiter::{
    spec_behavior_rule, spec_can_change_mode, spec_candidate_mode, spec_elapsed,
    spec_smoothed_speed, ArbiterDraws, ArbiterState, BehaviorWalk, EMERGENCY_THRESHOLD,
    MANUAL_CARS_LIMIT, MANUAL_DISTANCE_THRESHOLD, MANUAL_PEOPLE_LIMIT, MAX_SPEED, MIN_SPEED,
};
use crate::fixed::gap;
use crate::messages::{DrivingMode, Scene};
use crate::random::lemma_walk_is_bounded;
use vstd::prelude::*;

verus! {

/// What the arbiter is handed in one step.
pub struct ArbiterInput {
    /// The latest scene, if one has been written yet.
    pub scene: Option<Scene>,
    /// The clock reading, in milliseconds.
    pub now: u64,
    /// The raw draws for this step.
    pub draws: ArbiterDraws,
}

/// The state after the arbiter has taken every input in turn.
pub open spec fn spec_run(start: ArbiterState, inputs: Seq<ArbiterInput>) -> ArbiterState
    decreases inputs.len(),
{
    if inputs.len() == 0 {
        start
    } else {
        let input = inputs.last();
        spec_run(start, inputs.drop_last()).spec_step(input.scene, input.now, input.draws)
    }
}

/// The clock never runs backwards over the inputs.
pub open spec fn spec_clock_is_monotonic(inputs: Seq<ArbiterInput>) -> bool {
    forall|i: int, j: int| 0 <= i <= j < inputs.len() ==> inputs[i].now <= inputs[j].now
}

/// Whether the `index`-th step of the run changes the mode.
pub open spec fn spec_changes_mode_at(
    start: ArbiterState,
    inputs: Seq<ArbiterInput>,
    index: int,
) -> bool {
    spec_run(start, inputs.take(index + 1)).current_mode != spec_run(
        start,
        inputs.take(index),
    ).current_mode
}

/// The speed after `steps` smoothing steps toward a target that stays put.
pub open spec fn spec_settled_speed(speed: int, target: int, steps: nat) -> int
    decreases steps,
{
    if steps == 0 {
        speed
    } else {
        spec_smoothed_speed(spec_settled_speed(speed, target, (steps - 1) as nat), target)
    }
}

/// The candidate follows the priority order: a close obstacle means
/// Emergency whatever the counts say, Manual needs the absence of the
/// Emergency condition, and Autonomous the absence of both.
pub proof fn lemma_candidate_follows_priority(scene: Scene)
    ensures
        scene.distance_obstacle < EMERGENCY_THRESHOLD <==> spec_candidate_mode(scene)
            == DrivingMode::Emergency,
        spec_candidate_mode(scene) == DrivingMode::Manual <==> scene.distance_obstacle
            >= EMERGENCY_THRESHOLD && (scene.distance_obstacle < MANUAL_DISTANCE_THRESHOLD
            || scene.num_people > MANUAL_PEOPLE_LIMIT || scene.num_cars > MANUAL_CARS_LIMIT),
        spec_candidate_mode(scene) == DrivingMode::Autonomous <==> scene.distance_obstacle
            >= MANUAL_DISTANCE_THRESHOLD && scene.num_people <= MANUAL_PEOPLE_LIMIT
            && scene.num_cars <= MANUAL_CARS_LIMIT,
{
}

/// A step keeps a well-formed state well formed and never touches the
/// thresholds or the cooldown.
pub proof fn lemma_step_keeps_wf(
    state: ArbiterState,
    scene: Option<Scene>,
    now: u64,
    draws: ArbiterDraws,
)
    requires
        state.wf(),
    ensures
        state.spec_step(scene, now, draws).wf(),
        state.spec_step(scene, now, draws).cooldown_duration == state.cooldown_duration,
{
    if let Some(seen) = scene {
        let decided = state.spec_decided(seen, now, draws);
        lemma_walk_is_bounded(40_000, spec_behavior_rule(BehaviorWalk::ManualSpeed), draws.speed);
        lemma_walk_is_bounded(0, spec_behavior_rule(BehaviorWalk::ManualBrake), draws.brake);
        lemma_walk_is_bounded(
            65_000,
            spec_behavior_rule(BehaviorWalk::AutonomousSpeed),
            draws.speed,
        );
        lemma_walk_is_bounded(0, spec_behavior_rule(BehaviorWalk::AutonomousBrake), draws.brake);
        assert(decided.wf());
        lemma_walk_is_bounded(
            decided.steering_angle as int,
            spec_behavior_rule(BehaviorWalk::Steering),
            draws.steering,
        );
    }
}

/// The mode changes only to the candidate, only when the guard allows it,
/// and the change is stamped with the time of the step. A step that leaves
/// the mode alone leaves the stamp and the targets alone too.
pub proof fn lemma_mode_changes_only_when_guarded(
    state: ArbiterState,
    scene: Scene,
    now: u64,
    draws: ArbiterDraws,
)
    requires
        state.wf(),
    ensures
        ({
            let next = state.spec_evaluate(scene, now, draws);
            let candidate = spec_candidate_mode(scene);
            &&& next.current_mode != state.current_mode ==> {
                &&& next.current_mode == candidate
                &&& spec_can_change_mode(
                    candidate,
                    state.last_change_timestamp,
                    now,
                    state.cooldown_duration,
                )
                &&& next.last_change_timestamp == Some(now)
            }
            &&& next.current_mode == state.current_mode ==> {
                &&& next.last_change_timestamp == state.last_change_timestamp
                &&& next.target_speed == state.target_speed
                &&& next.brake_force == state.brake_force
            }
            &&& next.current_mode == candidate || next.current_mode == state.current_mode
        }),
{
}

/// A call for Emergency is honoured at once, cooldown or not.
pub proof fn lemma_emergency_is_never_delayed(
    state: ArbiterState,
    scene: Scene,
    now: u64,
    draws: ArbiterDraws,
)
    requires
        state.wf(),
        spec_candidate_mode(scene) == DrivingMode::Emergency,
    ensures
        state.spec_evaluate(scene, now, draws).current_mode == DrivingMode::Emergency,
{
}

/// While the cooldown runs, a candidate other than Emergency is turned down.
pub proof fn lemma_cooldown_blocks_other_changes(
    state: ArbiterState,
    scene: Scene,
    now: u64,
    draws: ArbiterDraws,
    changed_at: u64,
)
    requires
        state.wf(),
        state.last_change_timestamp == Some(changed_at),
        spec_elapsed(now, changed_at) < state.cooldown_duration,
        spec_candidate_mode(scene) != DrivingMode::Emergency,
    ensures
        state.spec_evaluate(scene, now, draws).current_mode == state.current_mode,
        state.spec_evaluate(scene, now, draws).last_change_timestamp == Some(changed_at),
{
}

/// Once the cooldown has run out, or before any change, the candidate is
/// taken over.
pub proof fn lemma_candidate_wins_after_cooldown(
    state: ArbiterState,
    scene: Scene,
    now: u64,
    draws: ArbiterDraws,
)
    requires
        state.wf(),
        match state.last_change_timestamp {
            None => true,
            Some(changed_at) => spec_elapsed(now, changed_at) >= state.cooldown_duration,
        },
    ensures
        state.spec_evaluate(scene, now, draws).current_mode == spec_candidate_mode(scene),
{
}

/// Every step announces the mode in force after it, changed or not.
pub proof fn lemma_every_step_announces(
    state: ArbiterState,
    scene: Scene,
    now: u64,
    draws: ArbiterDraws,
)
    requires
        state.wf(),
    ensures
        state.spec_report(scene, now).car_data.driving_mode == state.spec_evaluate(
            scene,
            now,
            draws,
        ).current_mode,
        state.spec_evaluate(scene, now, draws).previous_published_mode == Some(
            state.spec_evaluate(scene, now, draws).current_mode,
        ),
{
}

/// One smoothing step moves the speed toward the target without passing it:
/// the new speed lies between the old speed and the target, the gap shrinks
/// by a tenth of itself rounded down, and the speed stays within 5 to 120 km/h.
pub proof fn lemma_speed_approaches_target(speed: int, target: int)
    requires
        MIN_SPEED <= speed <= MAX_SPEED,
        MIN_SPEED <= target <= MAX_SPEED,
    ensures
        MIN_SPEED <= spec_smoothed_speed(speed, target) <= MAX_SPEED,
        speed <= target ==> speed <= spec_smoothed_speed(speed, target) <= target,
        speed >= target ==> target <= spec_smoothed_speed(speed, target) <= speed,
        gap(spec_smoothed_speed(speed, target), target) == gap(speed, target) - gap(speed, target)
            / 10,
        gap(speed, target) >= 10 ==> gap(spec_smoothed_speed(speed, target), target) < gap(
            speed,
            target,
        ),
{
}

/// With the target held fixed the speed converges monotonically: the gap
/// never grows from one step to the next, the speed never leaves the side
/// of the target it started on, and after `steps` steps the gap is below a
/// hundredth of a unit or has shrunk by at least `steps` thousandths.
pub proof fn lemma_speed_converges(speed: int, target: int, steps: nat)
    requires
        MIN_SPEED <= speed <= MAX_SPEED,
        MIN_SPEED <= target <= MAX_SPEED,
    ensures
        MIN_SPEED <= spec_settled_speed(speed, target, steps) <= MAX_SPEED,
        speed <= target ==> speed <= spec_settled_speed(speed, target, steps) <= target,
        speed >= target ==> target <= spec_settled_speed(speed, target, steps) <= speed,
        gap(spec_settled_speed(speed, target, steps + 1), target) <= gap(
            spec_settled_speed(speed, target, steps),
            target,
        ),
        gap(spec_settled_speed(speed, target, steps), target) <= gap(speed, target),
        gap(spec_settled_speed(speed, target, steps), target) < 10 || gap(
            spec_settled_speed(speed, target, steps),
            target,
        ) <= gap(speed, target) - steps,
    decreases steps,
{
    if steps > 0 {
        lemma_speed_converges(speed, target, (steps - 1) as nat);
        let before = spec_settled_speed(speed, target, (steps - 1) as nat);
        lemma_speed_approaches_target(before, target);
    }
    lemma_speed_approaches_target(spec_settled_speed(speed, target, steps), target);
}

/// A run keeps a well-formed state well formed and keeps its cooldown.
pub proof fn lemma_run_keeps_wf(start: ArbiterState, inputs: Seq<ArbiterInput>)
    requires
        start.wf(),
    ensures
        spec_run(start, inputs).wf(),
        spec_run(start, inputs).cooldown_duration == start.cooldown_duration,
    decreases inputs.len(),
{
    if inputs.len() > 0 {
        lemma_run_keeps_wf(start, inputs.drop_last());
        let input = inputs.last();
        lemma_step_keeps_wf(
            spec_run(start, inputs.drop_last()),
            input.scene,
            input.now,
            input.draws,
        );
    }
}

/// The state after `index + 1` inputs is one step away from the state after
/// `index` inputs.
pub proof fn lemma_run_unfolds(start: ArbiterState, inputs: Seq<ArbiterInput>, index: int)
    requires
        0 <= index < inputs.len(),
    ensures
        spec_run(start, inputs.take(index + 1)) == spec_run(start, inputs.take(index)).spec_step(
            inputs[index].scene,
            inputs[index].now,
            inputs[index].draws,
        ),
{
    let prefix = inputs.take(index + 1);
    assert(prefix.drop_last() =~= inputs.take(index));
    assert(prefix.last() == inputs[index]);
}

/// Whatever the inputs, every change of mode in a run is a change to the
/// candidate of that step's scene that the guard allowed at that step's time.
pub proof fn lemma_every_change_in_a_run_is_guarded(
    start: ArbiterState,
    inputs: Seq<ArbiterInput>,
    index: int,
)
    requires
        start.wf(),
        0 <= index < inputs.len(),
        spec_changes_mode_at(start, inputs, index),
    ensures
        inputs[index].scene is Some,
        ({
            let before = spec_run(start, inputs.take(index));
            let after = spec_run(start, inputs.take(index + 1));
            let candidate = spec_candidate_mode(inputs[index].scene->Some_0);
            &&& after.current_mode == candidate
            &&& after.last_change_timestamp == Some(inputs[index].now)
            &&& spec_can_change_mode(
                candidate,
                before.last_change_timestamp,
                inputs[index].now,
                start.cooldown_duration,
            )
        }),
{
    lemma_run_unfolds(start, inputs, index);
    lemma_run_keeps_wf(start, inputs.take(index));
    let before = spec_run(start, inputs.take(index));
    if let Some(seen) = inputs[index].scene {
        lemma_mode_changes_only_when_guarded(
            before,
            seen,
            inputs[index].now,
            inputs[index].draws,
        );
    }
}

/// After a change at step `index`, every later state of the run carries a
/// change stamp that is no older than that step.
proof fn lemma_stamp_is_no_older(
    start: ArbiterState,
    inputs: Seq<ArbiterInput>,
    index: int,
    length: int,
)
    requires
        start.wf(),
        spec_clock_is_monotonic(inputs),
        0 <= index < length <= inputs.len(),
        spec_changes_mode_at(start, inputs, index),
    ensures
        spec_run(start, inputs.take(length)).last_change_timestamp matches Some(stamp)
            && inputs[index].now <= stamp && (length < inputs.len() ==> stamp
            <= inputs[length].now),
    decreases length,
{
    if length == index + 1 {
        lemma_every_change_in_a_run_is_guarded(start, inputs, index);
    } else {
        lemma_stamp_is_no_older(start, inputs, index, length - 1);
        lemma_run_unfolds(start, inputs, length - 1);
        lemma_run_keeps_wf(start, inputs.take(length - 1));
        let before = spec_run(start, inputs.take(length - 1));
        if let Some(seen) = inputs[length - 1].scene {
            lemma_mode_changes_only_when_guarded(
                before,
                seen,
                inputs[length - 1].now,
                inputs[length - 1].draws,
            );
        }
    }
}

/// Under a clock that never runs backwards, no run shows a change to a mode
/// other than Emergency sooner than the cooldown after an earlier change.
pub proof fn lemma_changes_respect_cooldown(
    start: ArbiterState,
    inputs: Seq<ArbiterInput>,
    earlier: int,
    later: int,
)
    requires
        start.wf(),
        spec_clock_is_monotonic(inputs),
        0 <= earlier < later < inputs.len(),
        spec_changes_mode_at(start, inputs, earlier),
        spec_changes_mode_at(start, inputs, later),
        spec_run(start, inputs.take(later + 1)).current_mode != DrivingMode::Emergency,
    ensures
        inputs[later].now - inputs[earlier].now >= start.cooldown_duration,
{
    lemma_stamp_is_no_older(start, inputs, earlier, later);
    lemma_every_change_in_a_run_is_guarded(start, inputs, later);
}

/// While a run leaves the mode alone and a scene arrives at every step, the
/// target speed stays put and the speed follows the smoothing rule alone.
pub proof fn lemma_speed_settles_while_mode_holds(start: ArbiterState, inputs: Seq<ArbiterInput>)
    requires
        start.wf(),
        forall|i: int| 0 <= i < inputs.len() ==> (#[trigger] inputs[i]).scene is Some,
        forall|i: int| 0 <= i < inputs.len() ==> !spec_changes_mode_at(start, inputs, i),
    ensures
        spec_run(start, inputs).current_mode == start.current_mode,
        spec_run(start, inputs).target_speed == start.target_speed,
        spec_run(start, inputs).current_speed == spec_settled_speed(
            start.current_speed as int,
            start.target_speed as int,
            inputs.len(),
        ),
    decreases inputs.len(),
{
    if inputs.len() > 0 {
        let shorter = inputs.drop_last();
        let last = inputs.len() - 1;
        assert forall|i: int| 0 <= i < shorter.len() implies !spec_changes_mode_at(
            start,
            shorter,
            i,
        ) by {
            assert(shorter.take(i) =~= inputs.take(i));
            assert(shorter.take(i + 1) =~= inputs.take(i + 1));
            assert(!spec_changes_mode_at(start, inputs, i));
        }
        assert forall|i: int| 0 <= i < shorter.len() implies (#[trigger] shorter[i]).scene
            is Some by {
            assert(shorter[i] == inputs[i]);
        }
        lemma_speed_settles_while_mode_holds(start, shorter);
        lemma_run_keeps_wf(start, shorter);
        assert(inputs.take(last) =~= shorter);
        assert(inputs.take(last + 1) =~= inputs);
        assert(!spec_changes_mode_at(start, inputs, last));
        let before = spec_run(start, shorter);
        let input = inputs[last];
        lemma_mode_changes_only_when_guarded(
            before,
            input.scene->Some_0,
            input.now,
            input.draws,
        );
        lemma_speed_converges(
            start.current_speed as int,
            start.target_speed as int,
            shorter.len(),
        );
    }
}

} // verus!
