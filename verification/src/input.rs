//! User-input events gathered by the window layer and drained by the frame
//! loop.

use vstd::prelude::*;

verus! {

/// An event the frame loop reacts to.
#[derive(Clone, Copy, PartialEq, Eq, Structural, Debug)]
pub enum UserInput {
    CloseRequested,
}

/// A queue of pending input events. The window layer pushes events as it
/// polls them; the frame loop takes them all at once with [`Inputs::get_all`].
pub struct Inputs {
    inputs: Vec<UserInput>,
}

impl Inputs {
    /// The pending events, oldest first.
    pub closed spec fn view(&self) -> Seq<UserInput> {
        self.inputs@
    }

    /// An empty queue.
    pub fn new() -> (r: Inputs)
        ensures
            r@ == Seq::<UserInput>::empty(),
    {
        Inputs { inputs: Vec::new() }
    }

    /// Queues one event.
    pub fn push(&mut self, input: UserInput)
        ensures
            final(self)@ == old(self)@.push(input),
    {
        self.inputs.push(input);
    }

    /// Drains every pending event. The queue is emptied from the back, so the
    /// drained events come out newest first.
    pub fn get_all(&mut self) -> (r: Vec<UserInput>)
        ensures
            final(self)@ == Seq::<UserInput>::empty(),
            r@ == old(self)@.reverse(),
    {
        let mut result = Vec::new();
        while self.inputs.len() > 0
            invariant
                result@ + self.inputs@.reverse() == old(self)@.reverse(),
            decreases self.inputs.len(),
        {
            match self.inputs.pop() {
                Some(input) => result.push(input),
                _ => {},
            }
        }
        assert(result@ =~= old(self)@.reverse());
        result
    }
}

} // verus!
