//! Edge detection for an active-low push button.

use vstd::prelude::*;

verus! {

/// The last sampled level of one button. The wiring is active-low: the level
/// is `false` while the button is held down.
#[derive(Clone, Copy, Debug, PartialEq, Eq, Structural)]
pub struct ButtonState {
    pub last_level: bool,
}

/// A press is a sample that reads low directly after one that read high.
pub open spec fn is_press(previous: bool, level: bool) -> bool {
    previous && !level
}

/// The level that was stored before sample `i` of `levels` is taken, for a
/// detector that started out with `initial`.
pub open spec fn level_before(initial: bool, levels: Seq<bool>, i: int) -> bool {
    if i <= 0 {
        initial
    } else {
        levels[i - 1]
    }
}

/// The detector after it has taken all of `levels` in order.
pub open spec fn after_samples(start: ButtonState, levels: Seq<bool>) -> ButtonState
    decreases levels.len(),
{
    if levels.len() == 0 {
        start
    } else {
        after_samples(start, levels.drop_last()).sampled(levels.last()).0
    }
}

/// What each sample of `levels` reported, for a detector that began in `start`.
pub open spec fn edges(start: ButtonState, levels: Seq<bool>) -> Seq<bool>
    decreases levels.len(),
{
    if levels.len() == 0 {
        Seq::empty()
    } else {
        edges(start, levels.drop_last()).push(
            after_samples(start, levels.drop_last()).sampled(levels.last()).1,
        )
    }
}

impl ButtonState {
    /// The detector and the report after one sample: the new level is stored
    /// whether or not a press is reported.
    pub open spec fn sampled(self, level: bool) -> (ButtonState, bool) {
        (ButtonState { last_level: level }, is_press(self.last_level, level))
    }

    /// A detector for a button that is not held down.
    pub fn new() -> (state: ButtonState)
        ensures
            state.last_level,
    {
        ButtonState { last_level: true }
    }

    /// Takes one sample and tells whether it is a press.
    pub fn sample(&mut self, level: bool) -> (pressed: bool)
        ensures
            (*final(self), pressed) == old(self).sampled(level),
    {
        let pressed = self.last_level && !level;
        self.last_level = level;
        pressed
    }
}

/// Over any run of samples, a press is reported at a sample exactly when that
/// sample reads low and the one before it read high, the level that the
/// detector held at the start standing before the first sample. Two equal
/// samples in a row never report a second press, and the detector ends up
/// holding the last sample.
pub proof fn lemma_edges_are_transitions(start: ButtonState, levels: Seq<bool>)
    ensures
        edges(start, levels).len() == levels.len(),
        forall|i: int|
            0 <= i < levels.len() ==> (#[trigger] edges(start, levels)[i] <==> level_before(
                start.last_level,
                levels,
                i,
            ) && !levels[i]),
        forall|i: int|
            0 < i < levels.len() && levels[i] == levels[i - 1] ==> !#[trigger] edges(
                start,
                levels,
            )[i],
        after_samples(start, levels).last_level == level_before(
            start.last_level,
            levels,
            levels.len() as int,
        ),
    decreases levels.len(),
{
    if levels.len() > 0 {
        let front = levels.drop_last();
        lemma_edges_are_transitions(start, front);
        assert forall|i: int| 0 <= i < levels.len() implies (#[trigger] edges(start, levels)[i]
            <==> level_before(start.last_level, levels, i) && !levels[i]) by {
            if i < front.len() {
                assert(edges(start, levels)[i] == edges(start, front)[i]);
                assert(level_before(start.last_level, front, i) == level_before(
                    start.last_level,
                    levels,
                    i,
                ));
                assert(front[i] == levels[i]);
            }
        }
    }
}

/// Sample `i` of `levels` reads low directly after a high level.
pub open spec fn falls_at(initial: bool, levels: Seq<bool>, i: int) -> bool {
    0 <= i < levels.len() && is_press(level_before(initial, levels, i), levels[i])
}

/// Some press is reported over a run of samples exactly when the run holds a
/// low sample directly after a high level.
pub proof fn lemma_press_needs_a_fall(start: ButtonState, levels: Seq<bool>)
    ensures
        (exists|i: int| 0 <= i < levels.len() && #[trigger] edges(start, levels)[i]) <==> (exists|
            i: int,
        | #[trigger] falls_at(start.last_level, levels, i)),
{
    lemma_edges_are_transitions(start, levels);
    if exists|i: int| 0 <= i < levels.len() && #[trigger] edges(start, levels)[i] {
        let i = choose|i: int| 0 <= i < levels.len() && #[trigger] edges(start, levels)[i];
        assert(falls_at(start.last_level, levels, i));
    }
    if exists|i: int| #[trigger] falls_at(start.last_level, levels, i) {
        let i = choose|i: int| #[trigger] falls_at(start.last_level, levels, i);
        assert(edges(start, levels)[i]);
    }
}

} // verus!
