//! The messages of the emulator's network protocol, as plain values. Their
//! wire encoding lives with the server.

use vstd::prelude::*;
use crate::controller::ControllerFlags;

pub mod request;
pub mod response;

verus! {

pub struct Ping {
    pub content: String,
}

pub struct Pong {
    pub server: String,
    pub content: String,
}

pub struct GetFrame {
    /// Pairs a key of the client's choice with a memory address to read.
    pub memory_requests: Vec<(String, u32)>,
}

pub struct FrameContents {
    pub frame: Vec<u8>,
    /// Pairs each requested key with the byte read; a missing key means the
    /// read failed.
    pub memory_values: Vec<(String, u32)>,
}

pub struct FrameDetails {
    pub frame: Option<FrameContents>,
}

#[derive(Clone, Copy, Debug, PartialEq, Eq, Structural)]
pub struct ControllerInput {
    pub a: bool,
    pub b: bool,
    pub select: bool,
    pub start: bool,
    pub up: bool,
    pub down: bool,
    pub left: bool,
    pub right: bool,
}

pub struct TakeAction {
    /// The number of frames to hold the input for before answering.
    pub skip_frames: u64,
    pub input: Option<ControllerInput>,
    pub memory_requests: Vec<(String, u32)>,
}

pub struct ActionError {
    pub message: String,
}

pub struct ActionResult {
    pub frame: Option<FrameContents>,
    pub error: Option<ActionError>,
}

pub struct GetState {}

pub struct StateDetails {
    pub state: Vec<u8>,
}

pub struct SetState {
    pub state: Vec<u8>,
}

pub struct SetStateResult {
    pub parse_error: Option<String>,
}

pub struct Request {
    pub contents: Option<request::Contents>,
}

pub struct Response {
    pub contents: Option<response::Contents>,
}

#[derive(Clone, Copy, Debug, PartialEq, Eq, Structural)]
pub enum Renderer {
    Software,
    Hardware,
}

impl Renderer {
    /// The name of the variant in the protocol definition.
    pub fn as_str_name(&self) -> (r: &'static str)
        ensures
            r@ == match self {
                Renderer::Software => "RENDERER_SOFTWARE"@,
                Renderer::Hardware => "RENDERER_HARDWARE"@,
            },
    {
        match self {
            Renderer::Software => "RENDERER_SOFTWARE",
            Renderer::Hardware => "RENDERER_HARDWARE",
        }
    }

    /// The variant with the protocol name `value`.
    pub fn from_str_name(value: &str) -> (r: Option<Renderer>)
        ensures
            r == if value@ == "RENDERER_SOFTWARE"@ {
                Some(Renderer::Software)
            } else if value@ == "RENDERER_HARDWARE"@ {
                Some(Renderer::Hardware)
            } else {
                None
            },
    {
        let value = String::from_str(value);
        if value == String::from_str("RENDERER_SOFTWARE") {
            Some(Renderer::Software)
        } else if value == String::from_str("RENDERER_HARDWARE") {
            Some(Renderer::Hardware)
        } else {
            None
        }
    }
}

/// The joypad bits of `input`: one per held button.
pub open spec fn input_bits(input: ControllerInput) -> u8 {
    (if input.a { ControllerFlags::A } else { 0 }) | (if input.b { ControllerFlags::B } else { 0 }) | (if input.select {
        ControllerFlags::SELECT
    } else {
        0
    }) | (if input.start { ControllerFlags::START } else { 0 }) | (if input.up { ControllerFlags::UP } else { 0 }) | (
    if input.down {
        ControllerFlags::DOWN
    } else {
        0
    }) | (if input.left { ControllerFlags::LEFT } else { 0 }) | (if input.right { ControllerFlags::RIGHT } else { 0 })
}

impl ControllerFlags {
    /// The buttons held in `input`.
    pub fn from_input(input: &ControllerInput) -> (r: ControllerFlags)
        ensures
            r@ == input_bits(*input),
    {
        let bits = (if input.a { ControllerFlags::A } else { 0 }) | (if input.b { ControllerFlags::B } else { 0 }) | (
        if input.select {
            ControllerFlags::SELECT
        } else {
            0
        }) | (if input.start { ControllerFlags::START } else { 0 }) | (if input.up { ControllerFlags::UP } else { 0 })
            | (if input.down { ControllerFlags::DOWN } else { 0 }) | (if input.left { ControllerFlags::LEFT } else { 0 })
            | (if input.right { ControllerFlags::RIGHT } else { 0 });
        ControllerFlags::from_bits_retain(bits)
    }
}

/// Each button of the input is held in its flags exactly when it is pressed.
pub proof fn lemma_input_flags(input: ControllerInput)
    ensures
        (input_bits(input) & ControllerFlags::A != 0) == input.a,
        (input_bits(input) & ControllerFlags::B != 0) == input.b,
        (input_bits(input) & ControllerFlags::SELECT != 0) == input.select,
        (input_bits(input) & ControllerFlags::START != 0) == input.start,
        (input_bits(input) & ControllerFlags::UP != 0) == input.up,
        (input_bits(input) & ControllerFlags::DOWN != 0) == input.down,
        (input_bits(input) & ControllerFlags::LEFT != 0) == input.left,
        (input_bits(input) & ControllerFlags::RIGHT != 0) == input.right,
{
    let (a, b, select, start, up, down, left, right) = (
        input.a,
        input.b,
        input.select,
        input.start,
        input.up,
        input.down,
        input.left,
        input.right,
    );
    let bits = input_bits(input);
    assert({
        &&& (bits & 1u8 != 0) == a
        &&& (bits & 2u8 != 0) == b
        &&& (bits & 4u8 != 0) == select
        &&& (bits & 8u8 != 0) == start
        &&& (bits & 16u8 != 0) == up
        &&& (bits & 32u8 != 0) == down
        &&& (bits & 64u8 != 0) == left
        &&& (bits & 128u8 != 0) == right
    }) by (bit_vector)
        requires
            bits == (if a { 1u8 } else { 0u8 }) | (if b { 2u8 } else { 0u8 }) | (if select { 4u8 } else { 0u8 }) | (
            if start {
                8u8
            } else {
                0u8
            }) | (if up { 16u8 } else { 0u8 }) | (if down { 32u8 } else { 0u8 }) | (if left { 64u8 } else { 0u8 })
                | (if right { 128u8 } else { 0u8 }),
    ;
}

} // verus!
