//! The forwarder that announces mode changes to the external bus.
//!
//! It reads the mode announcement every step and hands it on only when the
//! mode differs from the one it handed on last. It is the only place where
//! repeated announcements are suppressed.

use crate::messages::{CarData, DrivingMode};
use vstd::prelude::*;

verus! {

/// What the forwarder remembers between steps.
#[derive(Clone, Copy, Debug)]
pub struct PublisherDedupState {
    /// The mode handed on last, if any.
    pub last_published_mode: Option<DrivingMode>,
}

impl PublisherDedupState {
    /// Whether an announcement of `mode` is handed on from this state.
    pub open spec fn spec_forwards(self, mode: DrivingMode) -> bool {
        self.last_published_mode != Some(mode)
    }

    /// The state after one step: an available announcement becomes the mode
    /// handed on last, whether or not the hand-over succeeds; without one
    /// nothing changes.
    pub open spec fn spec_stepped(self, car_data: Option<CarData>) -> PublisherDedupState {
        match car_data {
            Some(announced) => PublisherDedupState {
                last_published_mode: Some(announced.driving_mode),
            },
            None => self,
        }
    }

    /// What one step hands on: the announcement when it is available and
    /// its mode is new, nothing otherwise.
    pub open spec fn spec_output(self, car_data: Option<CarData>) -> Option<CarData> {
        match car_data {
            Some(announced) if self.spec_forwards(announced.driving_mode) => Some(announced),
            _ => None,
        }
    }
}

/// The deduplicating forwarder of mode announcements.
#[derive(Clone, Copy, Debug)]
pub struct CarDataForwarder {
    state: PublisherDedupState,
}

impl View for CarDataForwarder {
    type V = PublisherDedupState;

    closed spec fn view(&self) -> PublisherDedupState {
        self.state
    }
}

impl CarDataForwarder {
    /// A forwarder that has handed nothing on yet.
    pub fn new() -> (forwarder: CarDataForwarder)
        ensures
            forwarder@.last_published_mode is None,
    {
        CarDataForwarder { state: PublisherDedupState { last_published_mode: None } }
    }

    /// The mode handed on last, if any.
    pub fn last_published_mode(&self) -> (mode: Option<DrivingMode>)
        ensures
            mode == self@.last_published_mode,
    {
        self.state.last_published_mode
    }

    /// One step: returns the announcement to publish, if any, and remembers
    /// its mode. The caller publishes what is returned; a failed publish
    /// changes nothing here.
    pub fn step(&mut self, car_data: Option<CarData>) -> (publish: Option<CarData>)
        ensures
            final(self)@ == old(self)@.spec_stepped(car_data),
            publish == old(self)@.spec_output(car_data),
            publish is Some <==> car_data is Some && old(self)@.last_published_mode != Some(
                car_data->Some_0.driving_mode,
            ),
    {
        match car_data {
            None => None,
            Some(announced) => {
                let is_new: bool = match self.state.last_published_mode {
                    Some(last) => last != announced.driving_mode,
                    None => true,
                };
                self.state.last_published_mode = Some(announced.driving_mode);
                if is_new {
                    Some(announced)
                } else {
                    None
                }
            },
        }
    }
}

/// The state after the forwarder has read every announcement in turn; an
/// entry of `None` is a step on which nothing could be read.
pub open spec fn spec_state_after(
    start: PublisherDedupState,
    reads: Seq<Option<CarData>>,
) -> PublisherDedupState
    decreases reads.len(),
{
    if reads.len() == 0 {
        start
    } else {
        spec_state_after(start, reads.drop_last()).spec_stepped(reads.last())
    }
}

/// How many announcements the forwarder hands on over the given reads.
pub open spec fn spec_publish_count(start: PublisherDedupState, reads: Seq<Option<CarData>>) -> nat
    decreases reads.len(),
{
    if reads.len() == 0 {
        0
    } else {
        let earlier = spec_publish_count(start, reads.drop_last());
        if spec_state_after(start, reads.drop_last()).spec_output(reads.last()) is Some {
            earlier + 1
        } else {
            earlier
        }
    }
}

/// The number of runs in a sequence of modes: stretches of equal
/// consecutive values, counted once each.
pub open spec fn spec_mode_runs(modes: Seq<DrivingMode>) -> nat
    decreases modes.len(),
{
    if modes.len() == 0 {
        0
    } else if modes.len() == 1 {
        1
    } else {
        let earlier = spec_mode_runs(modes.drop_last());
        if modes[modes.len() - 1] != modes[modes.len() - 2] {
            earlier + 1
        } else {
            earlier
        }
    }
}

/// The reads of a forwarder that finds an announcement at every step.
pub open spec fn spec_all_available(modes: Seq<DrivingMode>) -> Seq<Option<CarData>> {
    Seq::new(modes.len(), |i: int| Some(CarData { driving_mode: modes[i] }))
}

/// After a non-empty stretch of available announcements the forwarder
/// remembers the last of them.
proof fn lemma_remembers_last_mode(start: PublisherDedupState, modes: Seq<DrivingMode>)
    requires
        modes.len() > 0,
    ensures
        spec_state_after(start, spec_all_available(modes)).last_published_mode == Some(
            modes.last(),
        ),
{
    let reads = spec_all_available(modes);
    assert(reads.last() == Some(CarData { driving_mode: modes.last() }));
}

/// A fresh forwarder that finds an announcement at every step hands on
/// exactly one per run of equal consecutive modes, however long each run is.
pub proof fn lemma_one_publish_per_run(modes: Seq<DrivingMode>)
    ensures
        spec_publish_count(
            PublisherDedupState { last_published_mode: None },
            spec_all_available(modes),
        ) == spec_mode_runs(modes),
    decreases modes.len(),
{
    let start = PublisherDedupState { last_published_mode: None };
    let reads = spec_all_available(modes);
    if modes.len() > 0 {
        let shorter = modes.drop_last();
        assert(reads.drop_last() =~= spec_all_available(shorter));
        assert(reads.last() == Some(CarData { driving_mode: modes.last() }));
        lemma_one_publish_per_run(shorter);
        if shorter.len() > 0 {
            lemma_remembers_last_mode(start, shorter);
            assert(shorter.last() == modes[modes.len() - 2]);
        }
    }
}

/// A step on which nothing can be read hands nothing on and forgets nothing.
pub proof fn lemma_missing_read_changes_nothing(state: PublisherDedupState)
    ensures
        state.spec_stepped(None) == state,
        state.spec_output(None) is None,
{
}

/// Reading the same mode twice in a row hands it on at most once.
pub proof fn lemma_repeat_is_suppressed(state: PublisherDedupState, announced: CarData)
    ensures
        state.spec_stepped(Some(announced)).spec_output(Some(announced)) is None,
{
}

} // verus!
