use emulateme::controller::{Controller, ControllerFlags, GenericController, NoController};

#[test]
fn controller_flags_insert_remove_contains() {
    let mut flags = ControllerFlags::empty();
    assert_eq!(flags.bits(), 0);
    flags.insert(ControllerFlags::A);
    flags.insert(ControllerFlags::START);
    assert_eq!(flags.bits(), 0b0000_1001);
    assert!(flags.contains(ControllerFlags::A));
    assert!(!flags.contains(ControllerFlags::B));
    flags.remove(ControllerFlags::A);
    assert_eq!(flags.bits(), 0b0000_1000);
    flags.set(ControllerFlags::RIGHT, true);
    flags.set(ControllerFlags::START, false);
    assert_eq!(flags.bits(), 0b1000_0000);
    assert_eq!(ControllerFlags::from_bits_retain(0x5A).bits(), 0x5A);
}

#[test]
fn joypad_reports_one_button_per_read() {
    let mut pad = GenericController::default();
    pad.press(ControllerFlags::from_bits_retain(ControllerFlags::A | ControllerFlags::UP | ControllerFlags::RIGHT));
    let reads: Vec<u8> = (0..8).map(|clock| pad.read(clock)).collect();
    assert_eq!(reads, vec![1, 0, 0, 0, 1, 0, 0, 1]);
    // The ninth read starts over with A.
    assert_eq!(pad.read(8), 1);
    assert_eq!(pad.read(9), 0);
}

#[test]
fn joypad_set_holds_and_releases() {
    let mut pad = GenericController::default();
    pad.set(ControllerFlags::B, true);
    assert_eq!(pad.read(1), 1);
    pad.set(ControllerFlags::B, false);
    assert_eq!(pad.read(1), 0);
}

#[test]
fn empty_port_reads_zero() {
    let mut port = NoController;
    for clock in 0..16 {
        assert_eq!(port.read(clock), 0);
    }
}

#[test]
fn press_matches_setting_each_button() {
    let wanted: u8 = ControllerFlags::A | ControllerFlags::DOWN | ControllerFlags::RIGHT;
    let mut pressed = GenericController::default();
    pressed.set(ControllerFlags::B, true);
    pressed.press(ControllerFlags::from_bits_retain(wanted));
    let mut stepped = GenericController::default();
    stepped.set(ControllerFlags::B, true);
    let buttons = [
        ControllerFlags::A,
        ControllerFlags::B,
        ControllerFlags::SELECT,
        ControllerFlags::START,
        ControllerFlags::UP,
        ControllerFlags::DOWN,
        ControllerFlags::LEFT,
        ControllerFlags::RIGHT,
    ];
    for button in buttons {
        stepped.set(button, wanted & button == button);
    }
    for clock in 0..8 {
        assert_eq!(pressed.read(clock), stepped.read(clock));
    }
    assert_eq!((0..8).map(|c| pressed.read(c)).collect::<Vec<u8>>(), vec![1, 0, 0, 0, 0, 1, 0, 1]);
}
