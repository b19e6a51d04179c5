//! What the host lends to the engine for one tick.
use vstd::prelude::*;

use crate::bridge::{Input, InputEvent};
use crate::detect::Detector;
use crate::rng::Rng;

verus! {

/// The collaborators of a tick: the sink of key events, the detector's
/// answers, the random draws and the number of the tick.
#[derive(Debug)]
pub struct Resources {
    pub input: Input,
    pub detector: Detector,
    pub rng: Rng,
    pub tick: u64,
}

impl Resources {
    /// `self` is `before` with `events` sent after what was already waiting,
    /// and nothing else changed.
    pub open spec fn sent(self, before: Resources, events: Seq<InputEvent>) -> bool {
        &&& self.input@ == before.input@ + events
        &&& self.detector == before.detector
        &&& self.rng == before.rng
        &&& self.tick == before.tick
    }

    /// Resources at tick zero. A missing part is replaced by an empty sink or a
    /// detector that sees nothing.
    pub fn new(input: Option<Input>, detector: Option<Detector>) -> (resources: Resources)
        ensures
            resources.input@ == match input {
                Some(input) => input@,
                None => Seq::<InputEvent>::empty(),
            },
            resources.detector == match detector {
                Some(detector) => detector,
                None => Detector::spec_default(),
            },
            resources.rng == (Rng { coin: false, perlin: false }),
            resources.tick == 0,
    {
        let input = match input {
            Some(input) => input,
            None => Input::new(),
        };
        let detector = match detector {
            Some(detector) => detector,
            None => Detector::default(),
        };
        Resources { input, detector, rng: Rng::default(), tick: 0 }
    }
}

/// Sending nothing leaves the resources as they are, and sending in two
/// batches is sending the two batches joined.
pub proof fn lemma_sent_composes(
    before: Resources,
    middle: Resources,
    after: Resources,
    first: Seq<InputEvent>,
    second: Seq<InputEvent>,
)
    requires
        middle.sent(before, first),
        after.sent(middle, second),
    ensures
        before.sent(before, Seq::empty()),
        after.sent(before, first + second),
{
    assert(before.input@ + Seq::<InputEvent>::empty() =~= before.input@);
    assert(before.input@ + (first + second) =~= (before.input@ + first) + second);
}

} // verus!
