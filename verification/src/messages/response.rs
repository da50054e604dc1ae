//! What the emulator answers.

use vstd::prelude::*;
use crate::messages::{ActionResult, FrameDetails, Pong, SetStateResult, StateDetails};

verus! {

pub enum Contents {
    Pong(Pong),
    FrameDetails(FrameDetails),
    ActionResult(ActionResult),
    StateDetails(StateDetails),
    SetStateResult(SetStateResult),
}

} // verus!
