//! One running machine as the server drives it: the CPU with a joypad in
//! port 1, the software renderer, and the last frame it finished.

use vstd::prelude::*;
use crate::controller::{ControllerFlags, GenericController, NoController};
use crate::messages::{
    input_bits, request, response, ActionError, ActionResult, ControllerInput, FrameContents, FrameDetails, Pong,
    SetStateResult,
};
use crate::cpu::Cpu;
use crate::interpreter::CpuError;
use crate::memory::{is_plain_read, Memory, MemoryError};
use crate::ppu::Ppu;
use crate::renderer::{RenderAction, RenderedFrame};
use crate::rom::Rom;
use crate::software::{only_hit_changed, RenderError, SoftwareRenderer};
use crate::state::{bytes_of, CpuState};

verus! {

/// Why frames could not be run: the CPU failed, or the renderer could not
/// follow the PPU.
#[derive(Clone, Copy, Debug, PartialEq, Eq, Structural)]
pub enum InstanceError {
    Cpu(CpuError),
    Render(RenderError),
}

impl InstanceError {
    /// The error in words.
    pub open spec fn spec_message(self) -> Seq<char> {
        match self {
            InstanceError::Cpu(error) => "CpuError: "@ + error.spec_message(),
            InstanceError::Render(_) => "RenderError: the picture cannot be drawn"@,
        }
    }

    pub fn message(&self) -> (r: String)
        ensures
            r@ == self.spec_message(),
    {
        match self {
            InstanceError::Cpu(error) => {
                let mut s = String::from_str("CpuError: ");
                let text = error.message();
                s.append(text.as_str());
                s
            },
            InstanceError::Render(_) => String::from_str("RenderError: the picture cannot be drawn"),
        }
    }
}

/// What the machine does about a request: the reply to send, or a save
/// state to encode and send, or the bytes of a save state to decode and load.
pub enum Handled {
    Reply(response::Contents),
    SaveState(CpuState),
    LoadState(Vec<u8>),
}

/// What the server does with one frame taken from the stream.
pub enum Served {
    /// The frame was not a request: no reply, and on to the next frame.
    Skip,
    /// The request had no contents: the connection ends.
    Close,
    /// The request was handled.
    Handled(Handled),
}

/// The joypad bits that an action's input holds (none without an input).
pub open spec fn input_flags(input: Option<ControllerInput>) -> u8 {
    match input {
        Some(input) => input_bits(input),
        None => 0,
    }
}

pub struct NesInstance<'a> {
    pub frame: Box<RenderedFrame>,
    pub renderer: SoftwareRenderer,
    pub cpu: Cpu<'a, GenericController, NoController>,
}

/// One turn of the frame loop that went through: the CPU stepped to
/// `stepped`, then the renderer followed its PPU, leaving `ppu` and `action`.
pub struct Turn<'a> {
    pub stepped: Cpu<'a, GenericController, NoController>,
    pub ppu: Ppu<'a>,
    pub action: RenderAction,
}

/// `stepped` with its PPU replaced by `ppu`.
pub open spec fn with_ppu<'a>(stepped: Cpu<'a, GenericController, NoController>, ppu: Ppu<'a>) -> Cpu<
    'a,
    GenericController,
    NoController,
> {
    Cpu { memory: Memory { ppu, ..stepped.memory }, ..stepped }
}

/// The memories between reads of the addresses of `requests`, each read
/// giving the matching entry of `results`.
pub open spec fn reads_chain<'a>(
    memories: Seq<Memory<'a, GenericController, NoController>>,
    requests: Seq<(String, u32)>,
    results: Seq<Result<u8, MemoryError>>,
) -> bool {
    &&& memories.len() == requests.len() + 1
    &&& results.len() == requests.len()
    &&& forall|i: int|
        #![trigger results[i]]
        0 <= i < requests.len() ==> memories[i].spec_pass_get(memories[i + 1], requests[i].1 as u16, results[i])
}

/// The requested keys whose reads succeeded, each with the byte read, in
/// the order of the requests.
pub open spec fn present(requests: Seq<(String, u32)>, results: Seq<Result<u8, MemoryError>>) -> Seq<(String, u32)>
    decreases requests.len(),
{
    if requests.len() == 0 || results.len() == 0 {
        Seq::empty()
    } else {
        let before = present(requests.drop_last(), results.drop_last());
        match results.last() {
            Ok(value) => before.push((requests.last().0, value as u32)),
            Err(_) => before,
        }
    }
}

/// The number of turns that finished a frame.
pub open spec fn frames_sent<'a>(turns: Seq<Turn<'a>>) -> nat
    decreases turns.len(),
{
    if turns.len() == 0 {
        0
    } else {
        frames_sent(turns.drop_last()) + if turns.last().action is SendFrame {
            1nat
        } else {
            0nat
        }
    }
}

/// `states` are the machines between the turns `turns`.
pub open spec fn is_run<'a>(states: Seq<NesInstance<'a>>, turns: Seq<Turn<'a>>) -> bool {
    &&& states.len() == turns.len() + 1
    &&& forall|i: int| #![trigger turns[i]] 0 <= i < turns.len() ==> states[i].turns_to(turns[i], states[i + 1])
}

impl<'a> NesInstance<'a> {
    pub open spec fn wf(self) -> bool {
        self.cpu.wf()
    }

    /// `after` is this machine after the turn `t`: the CPU steps without
    /// error and advances the clock, the renderer follows the PPU up to the
    /// new clock, and where it finishes a frame the NMI is taken and the
    /// frame kept.
    pub open spec fn turns_to(self, t: Turn<'a>, after: NesInstance<'a>) -> bool {
        let cycles = t.stepped.memory.cycles;
        &&& self.cpu.steps_to(t.stepped, Ok(()))
        &&& cycles > self.renderer.last_cycle
        &&& self.renderer.outcome(t.stepped.memory.ppu, cycles) is Some
        &&& self.renderer.renders_to(t.stepped.memory.ppu, cycles, after.renderer, t.ppu, t.action)
        &&& only_hit_changed(t.stepped.memory.ppu, t.ppu)
        &&& match t.action {
            RenderAction::SendFrame(frame) => {
                &&& with_ppu(t.stepped, t.ppu).interrupts_to(after.cpu, t.stepped.vectors.nmi)
                &&& *after.frame == frame
            },
            RenderAction::Idle => {
                &&& after.cpu == with_ppu(t.stepped, t.ppu)
                &&& after.frame == self.frame
            },
        }
    }

    /// `after` is this machine with `input` held on the joypad.
    pub open spec fn pressed(self, input: u8, after: NesInstance<'a>) -> bool {
        &&& after.cpu.memory.controllers.0@ == input
        &&& after.cpu == Cpu {
            memory: Memory { controllers: (after.cpu.memory.controllers.0, self.cpu.memory.controllers.1), ..self.cpu.memory },
            ..self.cpu
        }
        &&& after.renderer == self.renderer
        &&& after.frame == self.frame
    }

    /// `after` and `r` are what running until `skip_frames` frames are
    /// finished, with the joypad holding `input`, leaves and returns: the
    /// cartridge and vectors are kept, the joypad holds `input` in every
    /// state of the run, and the run of turns ends as `run_ends` says.
    pub open spec fn runs_frames(self, skip_frames: usize, input: u8, r: Result<(), InstanceError>, after: Self) -> bool {
        &&& after.wf()
        &&& after.cpu.memory.rom == self.cpu.memory.rom
        &&& after.cpu.vectors == self.cpu.vectors
        &&& after.cpu.memory.controllers.0@ == input
        &&& exists|states: Seq<NesInstance<'a>>, turns: Seq<Turn<'a>>|
            #[trigger] is_run(states, turns) && self.pressed(input, states[0]) && NesInstance::run_ends(
                states,
                turns,
                skip_frames,
                r,
                after,
            ) && forall|i: int| 0 <= i < states.len() ==> #[trigger] states[i].cpu.memory.controllers.0@ == input
    }

    /// How a run of `turns` through `states` ends in `last` with result `r`
    /// when `skip_frames` frames were asked for: all of them finished, the
    /// last turn finishing the last frame; or the next CPU step failed; or
    /// after the next step the renderer could not follow.
    pub open spec fn run_ends(
        states: Seq<NesInstance<'a>>,
        turns: Seq<Turn<'a>>,
        skip_frames: usize,
        r: Result<(), InstanceError>,
        last: NesInstance<'a>,
    ) -> bool {
        match r {
            Ok(()) => {
                &&& last == states.last()
                &&& skip_frames == 0 ==> turns.len() == 0
                &&& frames_sent(turns) == skip_frames
                &&& skip_frames > 0 ==> turns.last().action is SendFrame
            },
            Err(InstanceError::Cpu(e)) => {
                &&& frames_sent(turns) < skip_frames
                &&& states.last().cpu.steps_to(last.cpu, Err(e))
                &&& last.renderer == states.last().renderer
                &&& last.frame == states.last().frame
            },
            Err(InstanceError::Render(_)) => {
                &&& frames_sent(turns) < skip_frames
                &&& exists|stepped: Cpu<'a, GenericController, NoController>|
                    #[trigger] states.last().cpu.steps_to(stepped, Ok(())) && (stepped.memory.cycles
                        <= states.last().renderer.last_cycle || states.last().renderer.outcome(
                        stepped.memory.ppu,
                        stepped.memory.cycles,
                    ) is None)
            },
        }
    }

    /// A machine powered on with `rom`, a white frame and a fresh renderer.
    pub fn new(rom: &'a Rom) -> (r: NesInstance<'a>)
        requires
            rom.prg_rom@.len() > 0,
        ensures
            r.wf(),
            r.cpu.memory.rom == rom,
            r.cpu.registers.pc == r.cpu.vectors.reset,
            r.cpu.vectors.reset == crate::cpu::prg_word(r.cpu.memory, 0xFFFC),
            r.cpu.vectors.nmi == crate::cpu::prg_word(r.cpu.memory, 0xFFFA),
            r.cpu.vectors.interrupt == crate::cpu::prg_word(r.cpu.memory, 0xFFFE),
            r.cpu.registers.a == 0 && r.cpu.registers.x == 0 && r.cpu.registers.y == 0,
            r.cpu.registers.sp == 0xFD,
            r.cpu.registers.p@ == crate::cpu::StatusRegister::ENABLED | crate::cpu::StatusRegister::INTERUPT,
            r.cpu.memory.cycles == 7,
            r.cpu.memory.controllers.0@ == 0,
            r.renderer.scan_x == 0,
            r.renderer.scan_y == 0,
            r.renderer.last_cycle == 0,
            r.renderer.pre_rendered_sprites is None,
            forall|i: int| 0 <= i < crate::renderer::NES_FRAME_SIZE ==> #[trigger] r.frame.frame[i] == 255,
    {
        NesInstance {
            frame: Box::new(RenderedFrame::new()),
            cpu: Cpu::new(rom, None, (GenericController::default(), NoController)),
            renderer: SoftwareRenderer::new(),
        }
    }

    /// `after` is this machine after the addresses of `requests` are read in
    /// turn without spending cycles, and `values` pairs the key of each read
    /// that succeeded with the byte read: a key is there exactly when its read
    /// succeeds.
    pub open spec fn gets_values(self, requests: Seq<(String, u32)>, values: Seq<(String, u32)>, after: Self) -> bool {
        &&& exists|memories: Seq<Memory<'a, GenericController, NoController>>, results: Seq<Result<u8, MemoryError>>|
            #[trigger] reads_chain(memories, requests, results) && memories[0] == self.cpu.memory && memories.last()
                == after.cpu.memory && values == present(requests, results)
        &&& after.cpu.memory.cycles == self.cpu.memory.cycles
        &&& after.cpu.registers == self.cpu.registers
        &&& after.cpu.vectors == self.cpu.vectors
        &&& after.renderer == self.renderer
        &&& after.frame == self.frame
    }

    /// Reads the requested addresses (their low 16 bits) as the CPU would,
    /// without spending cycles; returns the key of each read that succeeded
    /// with the byte read.
    pub fn get_values(&mut self, requests: &Vec<(String, u32)>) -> (r: Vec<(String, u32)>)
        requires
            old(self).wf(),
        ensures
            final(self).wf(),
            old(self).gets_values(requests@, r@, *final(self)),
    {
        let mut values: Vec<(String, u32)> = Vec::new();
        let ghost mut memories = seq![self.cpu.memory];
        let ghost mut results: Seq<Result<u8, MemoryError>> = Seq::empty();
        let mut i: usize = 0;
        while i < requests.len()
            invariant
                self.wf(),
                i <= requests.len(),
                reads_chain(memories, requests@.subrange(0, i as int), results),
                memories[0] == old(self).cpu.memory,
                memories.last() == self.cpu.memory,
                values@ == present(requests@.subrange(0, i as int), results),
                self.cpu.memory.cycles == old(self).cpu.memory.cycles,
                self.cpu.registers == old(self).cpu.registers,
                self.cpu.vectors == old(self).cpu.vectors,
                self.renderer == old(self).renderer,
                self.frame == old(self).frame,
            decreases requests.len() - i,
        {
            let address = requests[i].1;
            let read = self.cpu.memory.pass_get(address as u16);
            match read {
                Ok(value) => {
                    let key = requests[i].0.clone();
                    values.push((key, value as u32));
                },
                Err(_) => {},
            }
            proof {
                let prefix = requests@.subrange(0, i as int);
                let next = requests@.subrange(0, i + 1);
                let old_memories = memories;
                let old_results = results;
                memories = memories.push(self.cpu.memory);
                results = results.push(read);
                assert(next.drop_last() =~= prefix);
                assert(results.drop_last() =~= old_results);
                assert forall|k: int|
                    #![trigger results[k]]
                    0 <= k < next.len() implies memories[k].spec_pass_get(
                    memories[k + 1],
                    next[k].1 as u16,
                    results[k],
                ) by {
                    if k < prefix.len() {
                        assert(old_results[k] == results[k]);
                        assert(memories[k] == old_memories[k]);
                        assert(memories[k + 1] == old_memories[k + 1]);
                        assert(next[k] == prefix[k]);
                    }
                }
            }
            i += 1;
        }
        proof {
            assert(requests@.subrange(0, requests@.len() as int) =~= requests@);
        }
        values
    }

    /// Reads `address` (its low 16 bits) as the CPU would, without spending
    /// a cycle.
    pub fn get_value(&mut self, address: u32) -> (r: Result<u8, MemoryError>)
        requires
            old(self).wf(),
        ensures
            final(self).wf(),
            old(self).cpu.memory.spec_pass_get(final(self).cpu.memory, address as u16, r),
            final(self).cpu.memory.cycles == old(self).cpu.memory.cycles,
            final(self).cpu.registers == old(self).cpu.registers,
            final(self).cpu.vectors == old(self).cpu.vectors,
            final(self).renderer == old(self).renderer,
            final(self).frame == old(self).frame,
    {
        self.cpu.memory.pass_get(address as u16)
    }

    /// Holds `input` on the joypad and runs the machine until the renderer
    /// has finished `skip_frames` frames, raising the NMI after each and
    /// keeping the last one.
    #[verifier::rlimit(60)]
    pub fn run_frames(&mut self, skip_frames: usize, input: ControllerFlags) -> (r: Result<(), InstanceError>)
        requires
            old(self).wf(),
        ensures
            old(self).runs_frames(skip_frames, input@, r, *final(self)),
    {
        let mut frame_count: usize = 0;
        self.cpu.memory.controllers.0.press(input);
        let ghost rom = self.cpu.memory.rom;
        let ghost vectors = self.cpu.vectors;
        let ghost mut states: Seq<NesInstance<'a>> = seq![*self];
        let ghost mut turns: Seq<Turn<'a>> = Seq::empty();
        while frame_count < skip_frames
            invariant
                self.wf(),
                self.cpu.memory.rom == rom,
                self.cpu.vectors == vectors,
                rom == old(self).cpu.memory.rom,
                vectors == old(self).cpu.vectors,
                frame_count <= skip_frames,
                is_run(states, turns),
                old(self).pressed(input@, states[0]),
                states.last() == *self,
                frames_sent(turns) == frame_count,
                skip_frames == 0 ==> turns.len() == 0,
                self.cpu.memory.controllers.0@ == input@,
                forall|i: int| 0 <= i < states.len() ==> #[trigger] states[i].cpu.memory.controllers.0@ == input@,
                frame_count == skip_frames && skip_frames > 0 ==> turns.last().action is SendFrame,
            decreases u64::MAX - self.renderer.last_cycle,
        {
            let ghost before = *self;
            match self.cpu.step() {
                Err(e) => {
                    return Err(InstanceError::Cpu(e));
                },
                Ok(()) => {},
            }
            let ghost stepped = self.cpu;
            assert(self.cpu.memory.controllers.0 == before.cpu.memory.controllers.0);
            let cycles = self.cpu.memory.cycles;
            if cycles <= self.renderer.last_cycle {
                assert(before.cpu.steps_to(stepped, Ok(())));
                return Err(InstanceError::Render(RenderError::Undrawable));
            }
            let rendered = self.renderer.try_render(&mut self.cpu.memory.ppu, cycles);
            let action = match rendered {
                Err(e) => {
                    assert(before.cpu.steps_to(stepped, Ok(())));
                    return Err(InstanceError::Render(e));
                },
                Ok(action) => action,
            };
            let ghost ppu_after = self.cpu.memory.ppu;
            let ghost turn = Turn { stepped, ppu: ppu_after, action };
            match action {
                RenderAction::Idle => {},
                RenderAction::SendFrame(frame) => {
                    frame_count += 1;
                    let nmi = self.cpu.vectors.nmi;
                    match self.cpu.interrupt(nmi) {
                        Err(e) => {
                            return Err(InstanceError::Cpu(CpuError::Memory(e)));
                        },
                        Ok(()) => {},
                    }
                    self.frame = Box::new(frame);
                },
            }
            proof {
                assert(self.cpu.memory.controllers.0 == before.cpu.memory.controllers.0);
                assert(self.cpu.memory.controllers.0@ == input@);
                assert(before.turns_to(turn, *self));
                let old_turns = turns;
                let old_states = states;
                states = states.push(*self);
                assert forall|i: int| 0 <= i < states.len() implies #[trigger] states[i].cpu.memory.controllers.0@
                    == input@ by {
                    if i < old_states.len() {
                        assert(states[i] == old_states[i]);
                        assert(old_states[i].cpu.memory.controllers.0@ == input@);
                    } else {
                        assert(states[i] == *self);
                    }
                }
                turns = turns.push(turn);
                assert(turns.drop_last() =~= old_turns);
                assert forall|i: int| #![trigger turns[i]] 0 <= i < turns.len() implies states[i].turns_to(
                    turns[i],
                    states[i + 1],
                ) by {
                    if i < old_turns.len() {
                        assert(old_turns[i] == turns[i]);
                    }
                }
            }
        }
        Ok(())
    }

    /// What handling `request` in this state returns (`r`) and leaves
    /// (`after`): a ping is answered by this server's name and the ping's
    /// content; a frame request by the last frame and the requested memory
    /// values; an action by running its frames with its input held, then
    /// either the error in words or the frame and the requested values; a
    /// state request by the save state of the CPU; a state by its bytes to load.
    pub open spec fn handles(self, request: request::Contents, r: Handled, after: Self) -> bool {
        match request {
            request::Contents::Ping(ping) => {
                &&& r matches Handled::Reply(response::Contents::Pong(pong)) && pong.server@ == "em-server-1"@
                    && pong.content == ping.content
                &&& after == self
            },
            request::Contents::GetFrame(get) => {
                match r {
                    Handled::Reply(response::Contents::FrameDetails(details)) => match details.frame {
                        Some(contents) => {
                            &&& contents.frame@ == self.frame.frame@
                            &&& self.gets_values(get.memory_requests@, contents.memory_values@, after)
                        },
                        None => false,
                    },
                    _ => false,
                }
            },
            request::Contents::TakeAction(action) => exists|middle: Self, ran: Result<(), InstanceError>|
                #[trigger] self.runs_frames(action.skip_frames as usize, input_flags(action.input), ran, middle)
                    && match ran {
                    Err(e) => {
                        &&& match r {
                            Handled::Reply(response::Contents::ActionResult(result)) => {
                                &&& result.frame is None
                                &&& result.error matches Some(error) && error.message@ == e.spec_message()
                            },
                            _ => false,
                        }
                        &&& after == middle
                    },
                    Ok(()) => match r {
                        Handled::Reply(response::Contents::ActionResult(result)) => {
                            &&& result.error is None
                            &&& match result.frame {
                                Some(contents) => {
                                    &&& contents.frame@ == middle.frame.frame@
                                    &&& middle.gets_values(action.memory_requests@, contents.memory_values@, after)
                                },
                                None => false,
                            }
                        },
                        _ => false,
                    },
                },
            request::Contents::GetState(_) => {
                &&& r matches Handled::SaveState(state) && state.saves(self.cpu)
                &&& after == self
            },
            request::Contents::SetState(set) => {
                &&& r matches Handled::LoadState(bytes) && bytes@ == set.state@
                &&& after == self
            },
        }
    }

    /// Handles one decoded request.
    pub fn handle(&mut self, request: request::Contents) -> (r: Handled)
        requires
            old(self).wf(),
        ensures
            final(self).wf(),
            old(self).handles(request, r, *final(self)),
    {
        match request {
            request::Contents::Ping(ping) => {
                let pong = Pong { server: String::from_str("em-server-1"), content: ping.content };
                Handled::Reply(response::Contents::Pong(pong))
            },
            request::Contents::GetFrame(get) => {
                let frame = bytes_of(&self.frame.frame);
                let memory_values = self.get_values(&get.memory_requests);
                let details = FrameDetails { frame: Some(FrameContents { frame, memory_values }) };
                Handled::Reply(response::Contents::FrameDetails(details))
            },
            request::Contents::TakeAction(action) => {
                let flags = match action.input {
                    Some(input) => ControllerFlags::from_input(&input),
                    None => ControllerFlags::empty(),
                };
                assert(flags@ == input_flags(action.input));
                let ghost before = *self;
                let ran = self.run_frames(action.skip_frames as usize, flags);
                let ghost middle = *self;
                let ghost outcome = ran;
                assert(before.runs_frames(action.skip_frames as usize, input_flags(action.input), outcome, middle));
                match ran {
                    Err(e) => {
                        let result = ActionResult { frame: None, error: Some(ActionError { message: e.message() }) };
                        Handled::Reply(response::Contents::ActionResult(result))
                    },
                    Ok(()) => {
                        let frame = bytes_of(&self.frame.frame);
                        let memory_values = self.get_values(&action.memory_requests);
                        let result = ActionResult { frame: Some(FrameContents { frame, memory_values }), error: None };
                        Handled::Reply(response::Contents::ActionResult(result))
                    },
                }
            },
            request::Contents::GetState(_) => Handled::SaveState(CpuState::from_cpu(&self.cpu)),
            request::Contents::SetState(set) => Handled::LoadState(set.state),
        }
    }

    /// Acts on one frame of the stream, as the server decoded it: `None` for
    /// a frame that is not a request, `Some(None)` for a request without
    /// contents, and `Some(Some(contents))` for a request to handle.
    pub fn serve_frame(&mut self, decoded: Option<Option<request::Contents>>) -> (r: Served)
        requires
            old(self).wf(),
        ensures
            final(self).wf(),
            match decoded {
                None => r is Skip && *final(self) == *old(self),
                Some(None) => r is Close && *final(self) == *old(self),
                Some(Some(request)) => r matches Served::Handled(handled) && old(self).handles(
                    request,
                    handled,
                    *final(self),
                ),
            },
    {
        match decoded {
            None => Served::Skip,
            Some(None) => Served::Close,
            Some(Some(request)) => Served::Handled(self.handle(request)),
        }
    }

    /// Loads a decoded save state, or reports why it could not be had: the
    /// decoding error, or that the state is incomplete (the machine stays as it
    /// was then).
    pub fn load_state(&mut self, decoded: Result<CpuState, String>) -> (r: response::Contents)
        requires
            old(self).wf(),
        ensures
            final(self).wf(),
            match r {
                response::Contents::SetStateResult(result) => match decoded {
                    Err(message) => result.parse_error == Some(message) && *final(self) == *old(self),
                    Ok(state) => if state.is_complete() {
                        &&& result.parse_error is None
                        &&& state.restores_to(old(self).cpu.memory.rom, final(self).cpu.memory.controllers, final(self).cpu)
                        &&& final(self).cpu.memory.controllers.0@ == 0
                        &&& final(self).renderer.scan_x == 0 && final(self).renderer.scan_y == 0
                        &&& final(self).renderer.last_cycle == 0
                    } else {
                        &&& result.parse_error matches Some(message)
                            && message@ == "Failed to create CPU instance from state."@
                        &&& *final(self) == *old(self)
                    },
                },
                _ => false,
            },
    {
        let parse_error = match decoded {
            Ok(state) => {
                if self.set_state(state) {
                    None
                } else {
                    Some(String::from_str("Failed to create CPU instance from state."))
                }
            },
            Err(message) => Some(message),
        };
        response::Contents::SetStateResult(SetStateResult { parse_error })
    }

    /// Replaces the machine with the one `state` describes, on the same
    /// cartridge with a released joypad, and starts a fresh renderer; leaves
    /// everything as it is where the state is incomplete.
    pub fn set_state(&mut self, state: CpuState) -> (r: bool)
        requires
            old(self).wf(),
        ensures
            final(self).wf(),
            r == state.is_complete(),
            r ==> state.restores_to(old(self).cpu.memory.rom, final(self).cpu.memory.controllers, final(self).cpu),
            r ==> final(self).cpu.memory.controllers.0@ == 0,
            r ==> final(self).renderer.scan_x == 0 && final(self).renderer.scan_y == 0 && final(self).renderer.last_cycle == 0,
            !r ==> *final(self) == *old(self),
    {
        let rom = self.cpu.memory.rom;
        match state.restore(rom, (GenericController::default(), NoController)) {
            Some(cpu) => {
                self.cpu = cpu;
                self.renderer = SoftwareRenderer::new();
                true
            },
            None => false,
        }
    }
}

/// A run that finished the frames asked for (at least one) ends on the turn
/// that finished the last of them: the machine holds that frame, and the NMI
/// was taken after it.
pub proof fn lemma_run_ends_on_a_frame<'a>(
    states: Seq<NesInstance<'a>>,
    turns: Seq<Turn<'a>>,
    skip_frames: usize,
    last: NesInstance<'a>,
)
    requires
        is_run(states, turns),
        NesInstance::run_ends(states, turns, skip_frames, Ok(()), last),
        skip_frames > 0,
    ensures
        turns.len() > 0,
        ({
            let t = turns.last();
            &&& t.action matches RenderAction::SendFrame(frame) && *last.frame == frame
            &&& with_ppu(t.stepped, t.ppu).interrupts_to(last.cpu, t.stepped.vectors.nmi)
        }),
{
    if turns.len() == 0 {
        assert(frames_sent(turns) == 0);
    }
    let k = turns.len() - 1;
    assert(states[k].turns_to(turns[k], states[k + 1]));
}

/// Reads of `address` leave the memory as it was (the cycle count aside).
pub open spec fn quiet_address(address: u16) -> bool {
    address != 0x2002 && address != 0x2007 && address != 0x4016 && address != 0x4017
}

/// What a read of `address`, one without effects, gives from `memory`.
pub open spec fn quiet_read<'a>(memory: Memory<'a, GenericController, NoController>, address: u16) -> Result<u8, MemoryError> {
    if is_plain_read(address) {
        Ok(memory.plain_byte(address))
    } else if address == 0x2004 {
        Ok(memory.ppu.spec_oam_byte())
    } else {
        Err(MemoryError::UnmappedRead(address))
    }
}

proof fn lemma_quiet_chain<'a>(
    memories: Seq<Memory<'a, GenericController, NoController>>,
    requests: Seq<(String, u32)>,
    results: Seq<Result<u8, MemoryError>>,
    k: int,
)
    requires
        reads_chain(memories, requests, results),
        forall|i: int| 0 <= i < requests.len() ==> #[trigger] quiet_address(requests[i].1 as u16),
        0 <= k <= requests.len(),
    ensures
        memories[0].same_but_cycles(memories[k]),
        forall|i: int| 0 <= i < k ==> #[trigger] results[i] == quiet_read(memories[0], requests[i].1 as u16),
    decreases k,
{
    if k > 0 {
        lemma_quiet_chain(memories, requests, results, k - 1);
        assert(quiet_address(requests[k - 1].1 as u16));
        assert(memories[k - 1].spec_pass_get(memories[k], requests[k - 1].1 as u16, results[k - 1]));
    }
}

/// Where no requested address is one whose reads have effects, each key
/// comes back, in the order asked, exactly where its read succeeds, with the
/// byte the memory held; a missing key is a read that failed. The machine is
/// left as it was.
pub proof fn lemma_quiet_values<'a>(
    before: NesInstance<'a>,
    requests: Seq<(String, u32)>,
    values: Seq<(String, u32)>,
    after: NesInstance<'a>,
)
    requires
        before.gets_values(requests, values, after),
        forall|i: int| 0 <= i < requests.len() ==> #[trigger] quiet_address(requests[i].1 as u16),
    ensures
        values == present(
            requests,
            Seq::new(requests.len(), |i: int| quiet_read(before.cpu.memory, requests[i].1 as u16)),
        ),
        after.cpu.memory == before.cpu.memory,
        after.cpu.registers == before.cpu.registers,
{
    let (memories, results) = choose|
        memories: Seq<Memory<'a, GenericController, NoController>>,
        results: Seq<Result<u8, MemoryError>>,
    |
        #[trigger] reads_chain(memories, requests, results) && memories[0] == before.cpu.memory
            && memories.last() == after.cpu.memory && values == present(requests, results);
    lemma_quiet_chain(memories, requests, results, requests.len() as int);
    assert(results =~= Seq::new(requests.len(), |i: int| quiet_read(before.cpu.memory, requests[i].1 as u16)));
}

} // verus!
