//! What a client asks of the emulator.

use vstd::prelude::*;
use crate::messages::{GetFrame, GetState, Ping, SetState, TakeAction};

verus! {

pub enum Contents {
    Ping(Ping),
    GetFrame(GetFrame),
    TakeAction(TakeAction),
    GetState(GetState),
    SetState(SetState),
}

} // verus!
