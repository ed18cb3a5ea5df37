//! The pointer gesture that one dispatch replays.
//!
//! A gesture is plain data: the id of the input source that performs it and
//! its steps in order. It names no element. "The target" in a step is the one
//! element that the run located before the loop; whoever sends the gesture to
//! the remote session binds it to that element.

use vstd::prelude::*;

verus! {

/// The button index of the primary (left) button.
pub const PRIMARY_BUTTON: u64 = 0;

/// One step of a pointer gesture.
#[derive(Clone, Copy, PartialEq, Eq, Debug, Structural)]
pub enum PointerStep {
    /// Move the pointer to an offset, in pixels, from the centre of the target.
    MoveToTarget { x: i64, y: i64 },
    /// Press the button with this index.
    Press { button: u64 },
    /// Release the button with this index.
    Release { button: u64 },
}

/// What a gesture is: its input source and its steps in order.
pub struct GestureView {
    pub source: Seq<char>,
    pub steps: Seq<PointerStep>,
}

/// An ordered pointer gesture. It never changes once built.
#[derive(Clone, PartialEq, Eq, Debug)]
pub struct Gesture {
    source: String,
    steps: Vec<PointerStep>,
}

impl View for Gesture {
    type V = GestureView;

    closed spec fn view(&self) -> GestureView {
        GestureView { source: self.source@, steps: self.steps@ }
    }
}

/// The steps of one click on the target: move onto its centre, press the
/// primary button, release it.
pub open spec fn click_steps() -> Seq<PointerStep> {
    seq![
        PointerStep::MoveToTarget { x: 0, y: 0 },
        PointerStep::Press { button: PRIMARY_BUTTON },
        PointerStep::Release { button: PRIMARY_BUTTON },
    ]
}

impl Gesture {
    /// The gesture that `source` performs by taking `steps` in order.
    pub fn new(source: String, steps: Vec<PointerStep>) -> (gesture: Gesture)
        ensures
            gesture@.source == source@,
            gesture@.steps == steps@,
    {
        Gesture { source, steps }
    }

    /// One click on the target, performed by the input source `"mouse"`.
    /// Building it has no effect on anything and cannot fail.
    pub fn click() -> (gesture: Gesture)
        ensures
            gesture@.source == "mouse"@,
            gesture@.steps == click_steps(),
    {
        let mut steps: Vec<PointerStep> = Vec::new();
        steps.push(PointerStep::MoveToTarget { x: 0, y: 0 });
        steps.push(PointerStep::Press { button: PRIMARY_BUTTON });
        steps.push(PointerStep::Release { button: PRIMARY_BUTTON });
        Gesture { source: "mouse".to_string(), steps }
    }

    /// The id of the input source that performs the gesture.
    pub fn source(&self) -> (source: &str)
        ensures
            source@ == self@.source,
    {
        self.source.as_str()
    }

    /// The steps, in the order they are taken.
    pub fn steps(&self) -> (steps: &Vec<PointerStep>)
        ensures
            steps@ == self@.steps,
    {
        &self.steps
    }
}

} // verus!
