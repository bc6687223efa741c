//! Core of a mechanical keyboard firmware: a layered keymap resolver, a
//! momentary layer-switch state machine, a HID boot-keyboard report builder,
//! a matrix scanner, and a USB device-controller driver, all specified and
//! verified over a plain-value model of the hardware register surface.
//!
//! Data flows one way per tick: the scanner produces a pressed/released
//! grid; the orchestrator diffs it against the previous grid cell by cell in
//! row-major order; each changed cell is resolved through the layered
//! keymap, fed to the layer-switch state machine, and — for standard HID
//! usage codes only — forwarded to the report builder, which attempts one
//! fire-and-forget transmit through the device-controller driver.

use vstd::prelude::*;

pub mod keyboard_config;
pub mod keycodes;
pub mod layers;
pub mod matrix;
pub mod usb;
pub mod usb_keyboard;

use keyboard_config::{MATRIX_COLS, MATRIX_ROWS};
use layers::{spec_momentary_next, Layers};
use matrix::{Matrix, MatrixPins};
use usb::{EndpointAddress, EndpointType, UsbBus, UsbDirection, DPRAM_SIZE};
use usb_keyboard::{endpoint_like_unchanged_on_send, spec_press, spec_release, UsbKeyboard};

verus! {

/// The number of keycode slots in a HID boot-keyboard report.
pub const REPORT_SLOTS: usize = 6;

/// The state a poll tick threads through the grid, cell by cell: the layer
/// state, the report's keycode slots, and the slot contents captured by the
/// one transmit that can land per tick, if any has yet.
pub struct TickState {
    pub layers: Layers,
    pub slots: Seq<u8>,
    pub delivered: Option<Seq<u8>>,
}

/// One cell of the tick: an unchanged cell does nothing; a changed cell is
/// resolved at the current layer, steps the layer-switch state machine, and
/// — only for a standard HID usage code — updates the report slots and
/// attempts a transmit, which delivers exactly when the IN bank was free at
/// the start of the tick and no earlier cell of this tick has delivered.
pub open spec fn spec_tick_cell(
    state: TickState,
    ready: bool,
    was_pressed: bool,
    is_pressed: bool,
    row: int,
    col: int,
) -> TickState {
    if is_pressed == was_pressed {
        state
    } else {
        let keycode = state.layers.spec_resolve(state.layers.current_layer as int, row, col);
        let layers = Layers {
            keymaps: state.layers.keymaps,
            current_layer: spec_momentary_next(state.layers.current_layer, keycode, is_pressed),
        };
        if keycode.spec_is_hid_usage() {
            let slots = if is_pressed {
                spec_press(state.slots, keycode.spec_code())
            } else {
                spec_release(state.slots, keycode.spec_code())
            };
            let delivered = if state.delivered is None && ready {
                Some(slots)
            } else {
                state.delivered
            };
            TickState { layers, slots, delivered }
        } else {
            TickState { layers, slots: state.slots, delivered: state.delivered }
        }
    }
}

/// The tick folded over the first `k` cells of the grid in row-major
/// order.
pub open spec fn spec_tick_fold(
    state: TickState,
    ready: bool,
    old_grid: [[bool; MATRIX_COLS]; MATRIX_ROWS],
    new_grid: [[bool; MATRIX_COLS]; MATRIX_ROWS],
    k: int,
) -> TickState
    decreases k,
{
    if k <= 0 {
        state
    } else {
        let prev = spec_tick_fold(state, ready, old_grid, new_grid, k - 1);
        let row = (k - 1) / (MATRIX_COLS as int);
        let col = (k - 1) % (MATRIX_COLS as int);
        spec_tick_cell(prev, ready, old_grid[row][col], new_grid[row][col], row, col)
    }
}

/// What a tick leaves in the driver: when no transmit landed, the driver
/// is exactly as it was; when one landed, the delivered report's wire
/// bytes sit in the endpoint's transmit buffer and the bank was handed to
/// the controller.
pub open spec fn tick_bus_state(
    old_keyboard: UsbKeyboard,
    new_bus: UsbBus,
    delivered: Option<Seq<u8>>,
) -> bool {
    let idx = old_keyboard.endpoint.index as int;
    let ep = old_keyboard.bus.endpoints[idx]->Some_0;
    match delivered {
        Option::None => new_bus == old_keyboard.bus,
        Option::Some(slots) => {
            let bytes = seq![
                old_keyboard.last_report.modifier,
                old_keyboard.last_report.reserved,
            ] + slots;
            &&& forall|j: int|
                0 <= j < DPRAM_SIZE ==> new_bus.dpram[j] == if ep.buffer_offset <= j
                    < ep.buffer_offset + 8 {
                    bytes[j - ep.buffer_offset]
                } else {
                    old_keyboard.bus.dpram[j]
                }
            &&& new_bus.regs.txini@ =~= old_keyboard.bus.regs.txini@.update(idx, false)
            &&& new_bus.regs.fifocon@ =~= old_keyboard.bus.regs.fifocon@.update(idx, false)
            &&& new_bus.regs.uenum == idx as u8
        },
    }
}

/// The firmware core: scanner, layered keymap, and the report accumulator
/// bound to the USB device-controller driver.
pub struct Keyboard {
    pub matrix: Matrix,
    pub layers: Layers,
    pub usb_keyboard: UsbKeyboard,
}

impl Keyboard {
    /// The layer index is inside the keymap, the report endpoint is
    /// allocated, and every row pin idles high between scans.
    pub open spec fn wf(self) -> bool {
        &&& self.layers.wf()
        &&& self.usb_keyboard.wf()
        &&& forall|r: int| 0 <= r < MATRIX_ROWS ==> !self.matrix.pins.row_driven_low[r]
    }

    /// Builds the whole core: idle pins, the board keymap on the base
    /// layer, a fresh driver with the report endpoint allocated as an
    /// 8-byte interrupt IN endpoint in slot 0, and an empty report.
    pub fn new() -> (keyboard: Keyboard)
        ensures
            keyboard.wf(),
            keyboard.layers.keymaps == layers::default_keymaps(),
            keyboard.layers.current_layer == 0,
            forall|r: int, c: int|
                0 <= r < MATRIX_ROWS && 0 <= c < MATRIX_COLS
                    ==> !keyboard.matrix.pins.switches[r][c],
            forall|r: int, c: int|
                0 <= r < MATRIX_ROWS && 0 <= c < MATRIX_COLS
                    ==> !keyboard.matrix.last_state[r][c],
            keyboard.usb_keyboard.endpoint == (EndpointAddress {
                index: 0,
                direction: UsbDirection::In,
            }),
            keyboard.usb_keyboard.last_report.modifier == 0,
            keyboard.usb_keyboard.last_report.reserved == 0,
            forall|i: int|
                0 <= i < REPORT_SLOTS ==> keyboard.usb_keyboard.last_report.keycodes[i] == 0,
            !keyboard.usb_keyboard.transport_ready(),
            !keyboard.usb_keyboard.bus.configured,
    {
        let pins = MatrixPins::new();
        let matrix = Matrix::new(pins);
        let layers = Layers::new();

        let mut bus = UsbBus::new();
        let result = bus.alloc_ep(UsbDirection::In, None, EndpointType::Interrupt, 8, 1);
        let endpoint = result.unwrap();

        let usb_keyboard = UsbKeyboard::new(bus, endpoint);

        Keyboard { matrix, layers, usb_keyboard }
    }

    /// One poll tick: scan the matrix, walk the grid in row-major order,
    /// process every cell whose state changed, and retain the fresh
    /// snapshot.  Layer-switch transitions take effect before later cells
    /// of the same tick are resolved, so the processing order is
    /// observable when two keys change in one tick.
    pub fn poll(&mut self)
        requires
            old(self).wf(),
        ensures
            final(self).wf(),
            final(self).matrix.pins == old(self).matrix.pins,
            forall|r: int, c: int|
                0 <= r < MATRIX_ROWS && 0 <= c < MATRIX_COLS
                    ==> final(self).matrix.last_state[r][c] == old(
                    self,
                ).matrix.pins.switches[r][c],
            ({
                let start = TickState {
                    layers: old(self).layers,
                    slots: old(self).usb_keyboard.last_report.keycodes@,
                    delivered: Option::None,
                };
                let end = spec_tick_fold(
                    start,
                    old(self).usb_keyboard.transport_ready(),
                    old(self).matrix.last_state,
                    old(self).matrix.pins.switches,
                    (MATRIX_ROWS * MATRIX_COLS) as int,
                );
                &&& final(self).layers == end.layers
                &&& final(self).usb_keyboard.last_report.keycodes@ == end.slots
                &&& tick_bus_state(
                    old(self).usb_keyboard,
                    final(self).usb_keyboard.bus,
                    end.delivered,
                )
            }),
            final(self).usb_keyboard.last_report.modifier == old(
                self,
            ).usb_keyboard.last_report.modifier,
            final(self).usb_keyboard.last_report.reserved == old(
                self,
            ).usb_keyboard.last_report.reserved,
            final(self).usb_keyboard.endpoint == old(self).usb_keyboard.endpoint,
            final(self).usb_keyboard.bus.endpoints == old(self).usb_keyboard.bus.endpoints,
            final(self).usb_keyboard.bus.next_buffer_offset == old(
                self,
            ).usb_keyboard.bus.next_buffer_offset,
            final(self).usb_keyboard.bus.configured == old(self).usb_keyboard.bus.configured,
            endpoint_like_unchanged_on_send(
                final(self).usb_keyboard.bus,
                old(self).usb_keyboard.bus,
            ),
    {
        let ghost start = TickState {
            layers: old(self).layers,
            slots: old(self).usb_keyboard.last_report.keycodes@,
            delivered: Option::None,
        };
        let ghost ready = old(self).usb_keyboard.transport_ready();
        let ghost old_grid = old(self).matrix.last_state;

        let new_state = self.matrix.scan();
        let ghost new_grid = new_state;
        proof {
            assert forall|r: int| 0 <= r < MATRIX_ROWS implies new_state[r] == old(
                self,
            ).matrix.pins.switches[r] by {
                assert(new_state[r] =~= old(self).matrix.pins.switches[r]);
            }
            assert(new_state =~= old(self).matrix.pins.switches);
        }

        let mut row: usize = 0;
        while row < MATRIX_ROWS
            invariant
                row <= MATRIX_ROWS,
                self.matrix.pins == old(self).matrix.pins,
                self.matrix.last_state == old(self).matrix.last_state,
                old_grid == old(self).matrix.last_state,
                new_grid == new_state,
                forall|r: int, c: int|
                    0 <= r < MATRIX_ROWS && 0 <= c < MATRIX_COLS ==> new_state[r][c] == old(
                        self,
                    ).matrix.pins.switches[r][c],
                start == (TickState {
                    layers: old(self).layers,
                    slots: old(self).usb_keyboard.last_report.keycodes@,
                    delivered: Option::None::<Seq<u8>>,
                }),
                ready == old(self).usb_keyboard.transport_ready(),
                ({
                    let cur = spec_tick_fold(
                        start,
                        ready,
                        old_grid,
                        new_grid,
                        row as int * MATRIX_COLS as int,
                    );
                    &&& self.layers == cur.layers
                    &&& self.usb_keyboard.last_report.keycodes@ == cur.slots
                    &&& tick_bus_state(
                        old(self).usb_keyboard,
                        self.usb_keyboard.bus,
                        cur.delivered,
                    )
                }),
                self.usb_keyboard.last_report.modifier == old(
                    self,
                ).usb_keyboard.last_report.modifier,
                self.usb_keyboard.last_report.reserved == old(
                    self,
                ).usb_keyboard.last_report.reserved,
                self.usb_keyboard.endpoint == old(self).usb_keyboard.endpoint,
                self.usb_keyboard.bus.endpoints == old(self).usb_keyboard.bus.endpoints,
                self.usb_keyboard.bus.next_buffer_offset == old(
                    self,
                ).usb_keyboard.bus.next_buffer_offset,
                self.usb_keyboard.bus.configured == old(self).usb_keyboard.bus.configured,
                endpoint_like_unchanged_on_send(
                    self.usb_keyboard.bus,
                    old(self).usb_keyboard.bus,
                ),
                self.layers.wf(),
                self.usb_keyboard.wf(),
            decreases MATRIX_ROWS - row,
        {
            let mut col: usize = 0;
            while col < MATRIX_COLS
                invariant
                    col <= MATRIX_COLS,
                    row < MATRIX_ROWS,
                    self.matrix.pins == old(self).matrix.pins,
                    self.matrix.last_state == old(self).matrix.last_state,
                    old_grid == old(self).matrix.last_state,
                    new_grid == new_state,
                    forall|r: int, c: int|
                        0 <= r < MATRIX_ROWS && 0 <= c < MATRIX_COLS ==> new_state[r][c] == old(
                            self,
                        ).matrix.pins.switches[r][c],
                    start == (TickState {
                        layers: old(self).layers,
                        slots: old(self).usb_keyboard.last_report.keycodes@,
                        delivered: Option::None::<Seq<u8>>,
                    }),
                    ready == old(self).usb_keyboard.transport_ready(),
                    ({
                        let cur = spec_tick_fold(
                            start,
                            ready,
                            old_grid,
                            new_grid,
                            row as int * MATRIX_COLS as int + col as int,
                        );
                        &&& self.layers == cur.layers
                        &&& self.usb_keyboard.last_report.keycodes@ == cur.slots
                        &&& tick_bus_state(
                            old(self).usb_keyboard,
                            self.usb_keyboard.bus,
                            cur.delivered,
                        )
                    }),
                    self.usb_keyboard.last_report.modifier == old(
                        self,
                    ).usb_keyboard.last_report.modifier,
                    self.usb_keyboard.last_report.reserved == old(
                        self,
                    ).usb_keyboard.last_report.reserved,
                    self.usb_keyboard.endpoint == old(self).usb_keyboard.endpoint,
                    self.usb_keyboard.bus.endpoints == old(self).usb_keyboard.bus.endpoints,
                    self.usb_keyboard.bus.next_buffer_offset == old(
                        self,
                    ).usb_keyboard.bus.next_buffer_offset,
                    self.usb_keyboard.bus.configured == old(self).usb_keyboard.bus.configured,
                    endpoint_like_unchanged_on_send(
                        self.usb_keyboard.bus,
                        old(self).usb_keyboard.bus,
                    ),
                    self.layers.wf(),
                    self.usb_keyboard.wf(),
                decreases MATRIX_COLS - col,
            {
                let ghost k: int = row as int * MATRIX_COLS as int + col as int;
                let ghost cur = spec_tick_fold(start, ready, old_grid, new_grid, k);
                proof {
                    assert((k + 1 - 1) / (MATRIX_COLS as int) == row as int && (k + 1 - 1) % (
                    MATRIX_COLS as int) == col as int) by (nonlinear_arith)
                        requires
                            k == row as int * MATRIX_COLS as int + col as int,
                            0 <= col < MATRIX_COLS,
                            0 <= row,
                    ;
                }

                if new_state[row][col] != self.matrix.last_state[row][col] {
                    let keycode = self.layers.get_keycode(self.layers.current_layer, row, col);

                    // A layer-switch transition takes effect before any
                    // later cell of the same tick is resolved.
                    self.layers.handle_momentary_layer(keycode, new_state[row][col]);

                    // Only standard HID usage codes reach the report;
                    // extension codes are consumed by the firmware.
                    if keycode.is_hid_usage() {
                        self.usb_keyboard.handle_keypress(keycode.code(), new_state[row][col]);
                    }
                }

                proof {
                    let next = spec_tick_fold(start, ready, old_grid, new_grid, k + 1);
                    assert(next == spec_tick_cell(
                        cur,
                        ready,
                        old_grid[row as int][col as int],
                        new_grid[row as int][col as int],
                        row as int,
                        col as int,
                    ));
                }

                col = col + 1;
            }

            row = row + 1;
        }

        self.matrix.last_state = new_state;
    }
}

} // verus!
