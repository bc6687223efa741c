//! Tests of the keymap resolver, the layer-switch state machine, the HID
//! report builder, the matrix scanner, and the whole orchestrated tick.

use keyboard_hal::keycodes::Keycode;
use keyboard_hal::layers::Layers;
use keyboard_hal::matrix::{Matrix, MatrixPins};
use keyboard_hal::usb_keyboard::{KeyboardReport, UsbKeyboard};
use keyboard_hal::usb::{EndpointType, UsbBus, UsbDirection};
use keyboard_hal::Keyboard;

#[test]
fn keycode_byte_values() {
    assert_eq!(Keycode::A.code(), 0x04);
    assert_eq!(Keycode::Num1.code(), 0x1E);
    assert_eq!(Keycode::Enter.code(), 0x28);
    assert_eq!(Keycode::F12.code(), 0x45);
    assert_eq!(Keycode::LCtrl.code(), 0xE0);
    assert_eq!(Keycode::RGui.code(), 0xE7);
    assert_eq!(Keycode::No.code(), 0x00);
    assert_eq!(Keycode::Trans.code(), 0x01);
    assert_eq!(Keycode::GraveEsc.code(), 0xF0);
    assert_eq!(Keycode::MomentaryLayer1.code(), 0xF1);
    assert_eq!(Keycode::MomentaryLayer2.code(), 0xF2);
    assert_eq!(Keycode::Reset.code(), 0xF3);
}

#[test]
fn hid_usage_range_split() {
    // Standard HID usage codes go to the host; extension codes are
    // interpreted by the firmware.
    assert!(Keycode::A.is_hid_usage());
    assert!(Keycode::Space.is_hid_usage());
    assert!(Keycode::LCtrl.is_hid_usage());
    assert!(Keycode::RGui.is_hid_usage());
    assert!(!Keycode::No.is_hid_usage());
    assert!(!Keycode::Trans.is_hid_usage());
    assert!(!Keycode::GraveEsc.is_hid_usage());
    assert!(!Keycode::MomentaryLayer1.is_hid_usage());
    assert!(!Keycode::MomentaryLayer2.is_hid_usage());
    assert!(!Keycode::Reset.is_hid_usage());
}

#[test]
fn resolve_returns_cell_verbatim() {
    let layers = Layers::new();
    assert_eq!(layers.get_keycode(0, 0, 0), Keycode::GraveEsc);
    assert_eq!(layers.get_keycode(0, 2, 1), Keycode::A);
    assert_eq!(layers.get_keycode(1, 0, 1), Keycode::F1);
    assert_eq!(layers.get_keycode(1, 4, 11), Keycode::MomentaryLayer2);
}

#[test]
fn resolve_transparent_falls_through_one_layer() {
    let layers = Layers::new();
    // The function layer is transparent at (1, 0); the base layer holds Tab.
    assert_eq!(layers.get_keycode(1, 1, 0), Keycode::Tab);
    // The control layer is transparent at (0, 0); the function layer holds
    // Grave there.
    assert_eq!(layers.get_keycode(2, 0, 0), Keycode::Grave);
}

#[test]
fn resolve_transparent_falls_through_to_base() {
    let layers = Layers::new();
    // Transparent on both overlays at (1, 1): resolution reaches the base
    // layer's Q.
    assert_eq!(layers.get_keycode(2, 1, 1), Keycode::Q);
}

#[test]
fn momentary_layer_press_and_release() {
    let mut layers = Layers::new();
    assert_eq!(layers.current_layer, 0);
    layers.handle_momentary_layer(Keycode::MomentaryLayer1, true);
    assert_eq!(layers.current_layer, 1);
    layers.handle_momentary_layer(Keycode::MomentaryLayer1, false);
    assert_eq!(layers.current_layer, 0);
    layers.handle_momentary_layer(Keycode::MomentaryLayer2, true);
    assert_eq!(layers.current_layer, 2);
    layers.handle_momentary_layer(Keycode::MomentaryLayer2, false);
    assert_eq!(layers.current_layer, 0);
}

#[test]
fn momentary_layers_do_not_stack() {
    let mut layers = Layers::new();
    // Hold layer key 1, then press and release layer key 2: control
    // returns to the base layer, not to overlay 1.
    layers.handle_momentary_layer(Keycode::MomentaryLayer1, true);
    assert_eq!(layers.current_layer, 1);
    layers.handle_momentary_layer(Keycode::MomentaryLayer2, true);
    assert_eq!(layers.current_layer, 2);
    layers.handle_momentary_layer(Keycode::MomentaryLayer2, false);
    assert_eq!(layers.current_layer, 0);
}

#[test]
fn ordinary_keycodes_leave_the_layer_alone() {
    let mut layers = Layers::new();
    layers.handle_momentary_layer(Keycode::MomentaryLayer1, true);
    layers.handle_momentary_layer(Keycode::A, true);
    layers.handle_momentary_layer(Keycode::Space, false);
    assert_eq!(layers.current_layer, 1);
}

#[test]
fn report_press_fills_first_empty_slot() {
    let mut report = KeyboardReport::new();
    report.press(0x04);
    report.press(0x05);
    assert_eq!(report.keycodes, [0x04, 0x05, 0, 0, 0, 0]);
    assert_eq!(report.modifier, 0);
    assert_eq!(report.reserved, 0);
}

#[test]
fn report_press_already_present_is_noop() {
    let mut report = KeyboardReport::new();
    report.press(0x04);
    report.press(0x04);
    assert_eq!(report.keycodes, [0x04, 0, 0, 0, 0, 0]);
}

#[test]
fn report_seventh_press_is_dropped() {
    let mut report = KeyboardReport::new();
    for code in 0x04..0x0A {
        report.press(code);
    }
    assert_eq!(report.keycodes, [0x04, 0x05, 0x06, 0x07, 0x08, 0x09]);
    // A seventh distinct code finds no free slot and is silently dropped.
    report.press(0x0A);
    assert_eq!(report.keycodes, [0x04, 0x05, 0x06, 0x07, 0x08, 0x09]);
    // Freeing a slot lets the next press land there.
    report.release(0x06);
    report.press(0x0A);
    assert_eq!(report.keycodes, [0x04, 0x05, 0x0A, 0x07, 0x08, 0x09]);
}

#[test]
fn report_release_absent_code_is_noop() {
    let mut report = KeyboardReport::new();
    report.press(0x04);
    report.press(0x2C);
    report.release(0x30);
    assert_eq!(report.keycodes, [0x04, 0x2C, 0, 0, 0, 0]);
}

#[test]
fn report_release_clears_every_matching_slot() {
    let mut report = KeyboardReport::new();
    // The clear is defensive against duplicate entries.
    report.keycodes = [0x04, 0x05, 0x04, 0, 0x04, 0];
    report.release(0x04);
    assert_eq!(report.keycodes, [0, 0x05, 0, 0, 0, 0]);
}

#[test]
fn report_wire_bytes() {
    let mut report = KeyboardReport::new();
    report.press(0x04);
    report.press(0xE1);
    // Modifiers sit in ordinary keycode slots; the modifier byte stays 0.
    assert_eq!(report.bytes(), [0, 0, 0x04, 0xE1, 0, 0, 0, 0]);
}

#[test]
fn scan_recovers_switch_grid_and_idles_rows() {
    let mut pins = MatrixPins::new();
    pins.set_switch(0, 0, true);
    pins.set_switch(2, 7, true);
    pins.set_switch(4, 14, true);
    let mut matrix = Matrix::new(pins);

    let state = matrix.scan();
    for r in 0..5 {
        for c in 0..15 {
            let expected = (r == 0 && c == 0) || (r == 2 && c == 7) || (r == 4 && c == 14);
            assert_eq!(state[r][c], expected, "cell ({}, {})", r, c);
        }
    }
    // No scan leaves a row pin active on return.
    assert!(matrix.pins.row_driven_low.iter().all(|low| !low));
    // The retained snapshot is only replaced by the orchestrator.
    assert!(matrix.last_state.iter().all(|row| row.iter().all(|b| !b)));
}

#[test]
fn handle_keypress_updates_report_and_attempts_transmit() {
    let mut bus = UsbBus::new();
    let endpoint = bus.alloc_ep(UsbDirection::In, None, EndpointType::Interrupt, 8, 1).unwrap();
    let mut keyboard = UsbKeyboard::new(bus, endpoint);

    // Bank busy: the update happens but the attempt is dropped.
    keyboard.handle_keypress(0x04, true);
    assert_eq!(keyboard.last_report.keycodes, [0x04, 0, 0, 0, 0, 0]);
    assert_eq!(&keyboard.bus.dpram[0..8], &[0u8; 8]);

    // Bank free: the next state change is delivered.
    keyboard.bus.hw_in_bank_free(0);
    keyboard.handle_keypress(0x05, true);
    assert_eq!(&keyboard.bus.dpram[0..8], &[0, 0, 0x04, 0x05, 0, 0, 0, 0]);
    assert!(!keyboard.bus.regs.txini[0]);
}

#[test]
fn tick_press_and_release_reach_the_report() {
    let mut keyboard = Keyboard::new();
    // Cell (2, 1) maps to keycode A (0x04) on the base layer.
    keyboard.matrix.pins.set_switch(2, 1, true);
    keyboard.poll();
    assert!(keyboard.matrix.last_state[2][1]);
    assert_eq!(keyboard.usb_keyboard.last_report.keycodes, [0x04, 0, 0, 0, 0, 0]);

    keyboard.matrix.pins.set_switch(2, 1, false);
    keyboard.poll();
    assert_eq!(keyboard.usb_keyboard.last_report.keycodes, [0, 0, 0, 0, 0, 0]);
}

#[test]
fn tick_release_clears_slot_and_transmits() {
    let mut keyboard = Keyboard::new();
    // Remap cell (0, 0) to keycode A for this scenario.
    keyboard.layers.keymaps[0][0][0] = Keycode::A;

    keyboard.matrix.pins.set_switch(0, 0, true);
    keyboard.usb_keyboard.bus.hw_in_bank_free(0);
    keyboard.poll();
    assert_eq!(keyboard.usb_keyboard.last_report.keycodes, [0x04, 0, 0, 0, 0, 0]);
    // The press found the bank free and was delivered.
    assert_eq!(&keyboard.usb_keyboard.bus.dpram[0..8], &[0, 0, 0x04, 0, 0, 0, 0, 0]);

    // The cell goes pressed -> released: the orchestrator emits a release
    // of 0x04, the builder clears the slot and attempts a transmit.
    keyboard.matrix.pins.set_switch(0, 0, false);
    keyboard.usb_keyboard.bus.hw_in_bank_free(0);
    keyboard.poll();
    assert_eq!(keyboard.usb_keyboard.last_report.keycodes, [0, 0, 0, 0, 0, 0]);
    assert_eq!(&keyboard.usb_keyboard.bus.dpram[0..8], &[0u8; 8]);
    assert!(!keyboard.usb_keyboard.bus.regs.txini[0]);
}

#[test]
fn tick_momentary_layer_switches_resolution() {
    let mut keyboard = Keyboard::new();
    // (3, 12) holds MomentaryLayer1 on the base layer.
    keyboard.matrix.pins.set_switch(3, 12, true);
    keyboard.poll();
    assert_eq!(keyboard.layers.current_layer, 1);
    // The layer key is an extension code and never reaches the report.
    assert_eq!(keyboard.usb_keyboard.last_report.keycodes, [0, 0, 0, 0, 0, 0]);

    // With the overlay active, (0, 0) now resolves to Grave (0x35).
    keyboard.matrix.pins.set_switch(0, 0, true);
    keyboard.poll();
    assert_eq!(keyboard.usb_keyboard.last_report.keycodes, [0x35, 0, 0, 0, 0, 0]);

    // Releasing the layer key returns to the base layer.
    keyboard.matrix.pins.set_switch(3, 12, false);
    keyboard.poll();
    assert_eq!(keyboard.layers.current_layer, 0);
}

#[test]
fn tick_extension_codes_stay_local() {
    let mut keyboard = Keyboard::new();
    // (1, 13) on the function layer holds Reset, an extension code.
    keyboard.matrix.pins.set_switch(3, 12, true);
    keyboard.poll();
    keyboard.matrix.pins.set_switch(1, 13, true);
    keyboard.poll();
    assert_eq!(keyboard.usb_keyboard.last_report.keycodes, [0, 0, 0, 0, 0, 0]);
}

#[test]
fn tick_processes_cells_in_row_major_order() {
    let mut keyboard = Keyboard::new();
    // Two keys change in the same tick: the layer key at (3, 12) is
    // processed before (4, 11), so (4, 11) is resolved on the overlay it
    // just activated, where it holds MomentaryLayer2 instead of RGui.
    keyboard.matrix.pins.set_switch(3, 12, true);
    keyboard.matrix.pins.set_switch(4, 11, true);
    keyboard.poll();
    assert_eq!(keyboard.layers.current_layer, 2);
    // Both keycodes were extension codes; nothing reached the report.
    assert_eq!(keyboard.usb_keyboard.last_report.keycodes, [0, 0, 0, 0, 0, 0]);
}

#[test]
fn tick_without_changes_is_quiet() {
    let mut keyboard = Keyboard::new();
    keyboard.usb_keyboard.bus.hw_in_bank_free(0);
    keyboard.poll();
    assert_eq!(keyboard.usb_keyboard.last_report.keycodes, [0, 0, 0, 0, 0, 0]);
    // No state change, no transmit attempt: the bank stays free.
    assert!(keyboard.usb_keyboard.bus.regs.txini[0]);
}
