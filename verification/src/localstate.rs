//! Application-local scene state: the clear colour and the models to draw
//! each frame.

use vstd::prelude::*;

use crate::context::Color;
use crate::model::Model;

verus! {

/// The encoding of the default clear colour's grey channel value (IEEE-754
/// binary32).
pub const CLEAR_GREY: u32 = 0x3DCC_CCCD;

pub struct LocalState {
    pub clear_color: Color,
    pub models: Vec<Model>,
}

impl LocalState {
    /// A scene with no models and the default dark-grey, fully opaque clear
    /// colour.
    pub fn new() -> (state: LocalState)
        ensures
            state.clear_color == (Color {
                r: CLEAR_GREY,
                g: CLEAR_GREY,
                b: CLEAR_GREY,
                a: crate::math::SCALAR_ONE,
            }),
            state.models@ == Seq::<Model>::empty(),
    {
        let state = LocalState {
            clear_color: Color {
                r: CLEAR_GREY,
                g: CLEAR_GREY,
                b: CLEAR_GREY,
                a: crate::math::SCALAR_ONE,
            },
            models: Vec::new(),
        };
        proof {
            assert(state.models@ =~= Seq::<Model>::empty());
        }
        state
    }

    /// Takes ownership of a model and adds it to the scene.
    pub fn add_model_moves(&mut self, model: Model)
        ensures
            final(self).models@ == old(self).models@.push(model),
            final(self).clear_color == old(self).clear_color,
    {
        self.models.push(model);
    }
}

} // verus!
