use emulateme::controller::{Controller, ControllerFlags};
use emulateme::instance::{Handled, InstanceError, NesInstance, Served};
use emulateme::messages::{request, response, ControllerInput, GetFrame, GetState, Ping, SetState, TakeAction};
use emulateme::interpreter::CpuError;
use emulateme::memory::MemoryError;
use emulateme::rom::{parse_rom, Rom};
use emulateme::software::RenderError;
use emulateme::state::CpuState;

/// Turns on the NMI and loops; the NMI handler at $9000 counts frames in $00.
fn rom() -> Rom {
    let mut prg = vec![0xEAu8; 16384];
    // LDA #$80; STA $2000; loop: JMP loop
    prg[..8].copy_from_slice(&[0xA9, 0x80, 0x8D, 0x00, 0x20, 0x4C, 0x05, 0x80]);
    // INC $00; RTI
    prg[0x1000..0x1003].copy_from_slice(&[0xE6, 0x00, 0x40]);
    prg[0x3FFA] = 0x00;
    prg[0x3FFB] = 0x90;
    prg[0x3FFC] = 0x00;
    prg[0x3FFD] = 0x80;
    let mut bytes = vec![0x4E, 0x45, 0x53, 0x1A, 1, 1, 0, 0, 0, 0, 0, 0, 0, 0, 0, 0];
    bytes.extend(prg);
    bytes.extend(std::iter::repeat(0).take(8192));
    parse_rom(&bytes).unwrap().1
}

#[test]
fn new_instance() {
    let rom = rom();
    let instance = NesInstance::new(&rom);
    assert_eq!(instance.cpu.registers.pc, 0x8000);
    assert_eq!(instance.cpu.memory.cycles, 7);
    assert_eq!(instance.renderer.scan_x, 0);
    assert!(instance.frame.frame.iter().all(|b| *b == 255));
}

#[test]
fn run_frames_raises_nmi_after_each_frame() {
    let rom = rom();
    let mut instance = NesInstance::new(&rom);
    instance.run_frames(2, ControllerFlags::from_bits_retain(ControllerFlags::A)).unwrap();
    // The handler ran after the first frame; the second NMI has just been taken.
    assert_eq!(instance.cpu.memory.ram[0], 1);
    assert_eq!(instance.cpu.registers.pc, 0x9000);
    assert_eq!(&instance.frame.frame[0..4], &[98, 98, 98, 255]);
    assert_eq!(instance.get_value(0x0000), Ok(1));
    assert_eq!(instance.get_value(0x1_0000), Ok(1));
    assert_eq!(instance.get_value(0x5000), Err(MemoryError::UnmappedRead(0x5000)));
}

#[test]
fn run_no_frames_only_presses_input() {
    let rom = rom();
    let mut instance = NesInstance::new(&rom);
    instance.run_frames(0, ControllerFlags::from_bits_retain(ControllerFlags::A)).unwrap();
    assert_eq!(instance.cpu.memory.cycles, 7);
    assert_eq!(instance.cpu.registers.pc, 0x8000);
    assert_eq!(instance.get_value(0x4016), Ok(1));
    assert_eq!(instance.get_value(0x4016), Ok(0));
}

#[test]
fn run_frames_reports_cpu_errors() {
    let mut rom = rom();
    rom.prg_rom[5] = 0x02;
    let mut instance = NesInstance::new(&rom);
    assert_eq!(instance.run_frames(1, ControllerFlags::empty()), Err(InstanceError::Cpu(CpuError::Stop)));
}

#[test]
fn run_frames_reports_render_errors() {
    let rom = rom();
    let mut instance = NesInstance::new(&rom);
    instance.cpu.memory.ppu.memory.palette.background_solid = 0x40;
    assert_eq!(
        instance.run_frames(1, ControllerFlags::empty()),
        Err(InstanceError::Render(RenderError::Undrawable))
    );
}

#[test]
fn set_state_restores_an_earlier_machine() {
    let rom = rom();
    let mut instance = NesInstance::new(&rom);
    instance.run_frames(1, ControllerFlags::empty()).unwrap();
    let state = CpuState::from_cpu(&instance.cpu);
    instance.run_frames(3, ControllerFlags::empty()).unwrap();
    assert_eq!(instance.cpu.memory.ram[0], 3);
    assert!(instance.set_state(state));
    assert_eq!(instance.cpu.memory.ram[0], 0);
    assert_eq!(instance.cpu.registers.pc, 0x9000);
    assert_eq!(instance.renderer.last_cycle, 0);
    instance.run_frames(1, ControllerFlags::empty()).unwrap();
    assert_eq!(instance.cpu.memory.ram[0], 1);

    let mut broken = CpuState::from_cpu(&instance.cpu);
    broken.ram.truncate(10);
    let pc = instance.cpu.registers.pc;
    assert!(!instance.set_state(broken));
    assert_eq!(instance.cpu.registers.pc, pc);
}

#[test]
fn instance_error_messages() {
    assert_eq!(InstanceError::Cpu(CpuError::Stop).message(), "CpuError: Hit stop instruction");
    assert_eq!(
        InstanceError::Render(RenderError::Undrawable).message(),
        "RenderError: the picture cannot be drawn"
    );
}

fn reply(handled: Handled) -> response::Contents {
    match handled {
        Handled::Reply(reply) => reply,
        _ => panic!("expected a reply"),
    }
}

#[test]
fn ping_is_answered_with_the_server_name() {
    let rom = rom();
    let mut instance = NesInstance::new(&rom);
    match reply(instance.handle(request::Contents::Ping(Ping { content: "hi".to_string() }))) {
        response::Contents::Pong(pong) => {
            assert_eq!(pong.server, "em-server-1");
            assert_eq!(pong.content, "hi");
        }
        _ => panic!("expected a pong"),
    }
}

#[test]
fn get_values_keeps_the_keys_that_read() {
    let rom = rom();
    let mut instance = NesInstance::new(&rom);
    instance.cpu.memory.ram[5] = 42;
    let requests = vec![("x".to_string(), 5), ("bad".to_string(), 0x5000), ("vector".to_string(), 0xFFFD)];
    let values = instance.get_values(&requests);
    assert_eq!(values, vec![("x".to_string(), 42), ("vector".to_string(), 0x80)]);
    assert_eq!(instance.cpu.memory.cycles, 7);
}

#[test]
fn frame_request_gives_frame_and_values() {
    let rom = rom();
    let mut instance = NesInstance::new(&rom);
    let get = GetFrame { memory_requests: vec![("zero".to_string(), 0)] };
    match reply(instance.handle(request::Contents::GetFrame(get))) {
        response::Contents::FrameDetails(details) => {
            let contents = details.frame.unwrap();
            assert_eq!(contents.frame.len(), 256 * 240 * 4);
            assert!(contents.frame.iter().all(|b| *b == 255));
            assert_eq!(contents.memory_values, vec![("zero".to_string(), 0)]);
        }
        _ => panic!("expected frame details"),
    }
}

#[test]
fn action_runs_frames_and_reports_errors() {
    let rom = rom();
    let mut instance = NesInstance::new(&rom);
    let input = ControllerInput { a: true, b: false, select: false, start: false, up: false, down: false, left: false, right: false };
    let action = TakeAction { skip_frames: 2, input: Some(input), memory_requests: vec![("count".to_string(), 0)] };
    match reply(instance.handle(request::Contents::TakeAction(action))) {
        response::Contents::ActionResult(result) => {
            assert!(result.error.is_none());
            let contents = result.frame.unwrap();
            assert_eq!(&contents.frame[0..4], &[98, 98, 98, 255]);
            assert_eq!(contents.memory_values, vec![("count".to_string(), 1)]);
        }
        _ => panic!("expected an action result"),
    }
    assert_eq!(instance.cpu.memory.controllers.0.read(0), 1);

    let mut broken = rom.clone();
    broken.prg_rom[5] = 0x02;
    let mut instance = NesInstance::new(&broken);
    let action = TakeAction { skip_frames: 1, input: None, memory_requests: vec![] };
    match reply(instance.handle(request::Contents::TakeAction(action))) {
        response::Contents::ActionResult(result) => {
            assert!(result.frame.is_none());
            assert_eq!(result.error.unwrap().message, "CpuError: Hit stop instruction");
        }
        _ => panic!("expected an action result"),
    }
}

#[test]
fn states_are_handed_out_and_loaded() {
    let rom = rom();
    let mut instance = NesInstance::new(&rom);
    let state = match instance.handle(request::Contents::GetState(GetState {})) {
        Handled::SaveState(state) => state,
        _ => panic!("expected a save state"),
    };
    assert_eq!(state.registers.pc, 0x8000);
    match instance.handle(request::Contents::SetState(SetState { state: vec![1, 2, 3] })) {
        Handled::LoadState(bytes) => assert_eq!(bytes, vec![1, 2, 3]),
        _ => panic!("expected bytes to load"),
    }
    instance.run_frames(1, ControllerFlags::empty()).unwrap();
    match instance.load_state(Ok(state)) {
        response::Contents::SetStateResult(result) => assert!(result.parse_error.is_none()),
        _ => panic!("expected a set state result"),
    }
    assert_eq!(instance.cpu.registers.pc, 0x8000);
    let mut broken = CpuState::from_cpu(&instance.cpu);
    broken.ram.clear();
    match instance.load_state(Ok(broken)) {
        response::Contents::SetStateResult(result) => {
            assert_eq!(result.parse_error.unwrap(), "Failed to create CPU instance from state.")
        }
        _ => panic!("expected a set state result"),
    }
    match instance.load_state(Err("bad bytes".to_string())) {
        response::Contents::SetStateResult(result) => assert_eq!(result.parse_error.unwrap(), "bad bytes"),
        _ => panic!("expected a set state result"),
    }
}

#[test]
fn serve_frame_skips_closes_or_handles() {
    let rom = rom();
    let mut instance = NesInstance::new(&rom);
    assert!(matches!(instance.serve_frame(None), Served::Skip));
    assert!(matches!(instance.serve_frame(Some(None)), Served::Close));
    assert_eq!(instance.cpu.memory.cycles, 7);
    let ping = request::Contents::Ping(Ping { content: "hi".to_string() });
    match instance.serve_frame(Some(Some(ping))) {
        Served::Handled(Handled::Reply(response::Contents::Pong(pong))) => {
            assert_eq!(pong.server, "em-server-1");
            assert_eq!(pong.content, "hi");
        }
        _ => panic!("expected a pong"),
    }
}
