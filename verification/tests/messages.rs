use emulateme::controller::ControllerFlags;
use emulateme::messages::{ControllerInput, Renderer};

fn input() -> ControllerInput {
    ControllerInput { a: false, b: false, select: false, start: false, up: false, down: false, left: false, right: false }
}

#[test]
fn controller_input_to_flags() {
    assert_eq!(ControllerFlags::from_input(&input()).bits(), 0);
    let pressed = ControllerInput { a: true, start: true, left: true, ..input() };
    let flags = ControllerFlags::from_input(&pressed);
    assert_eq!(flags.bits(), 0b0100_1001);
    assert!(flags.contains(ControllerFlags::A));
    assert!(flags.contains(ControllerFlags::START));
    assert!(flags.contains(ControllerFlags::LEFT));
    assert!(!flags.contains(ControllerFlags::B));
    let all = ControllerInput {
        a: true,
        b: true,
        select: true,
        start: true,
        up: true,
        down: true,
        left: true,
        right: true,
    };
    assert_eq!(ControllerFlags::from_input(&all).bits(), 0xFF);
    assert_eq!(ControllerFlags::from_input(&ControllerInput { down: true, ..input() }).bits(), ControllerFlags::DOWN);
}

#[test]
fn renderer_names() {
    assert_eq!(Renderer::Software.as_str_name(), "RENDERER_SOFTWARE");
    assert_eq!(Renderer::Hardware.as_str_name(), "RENDERER_HARDWARE");
    assert_eq!(Renderer::from_str_name("RENDERER_HARDWARE"), Some(Renderer::Hardware));
    assert_eq!(Renderer::from_str_name("RENDERER_SOFTWARE"), Some(Renderer::Software));
    assert_eq!(Renderer::from_str_name("SOFTWARE"), None);
}
