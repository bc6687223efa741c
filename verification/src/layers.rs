//! The layered keymap and its momentary layer-switch state machine.
//!
//! A keymap is an ordered list of layers; layer 0 is the base layer.  Each
//! layer is a fixed `MATRIX_ROWS x MATRIX_COLS` grid of keycodes.  Cells of
//! an overlay layer may hold [`Keycode::Trans`], which defers to the next
//! lower layer's mapping for that cell.  The current layer index is mutated
//! only by the momentary layer-switch state machine: pressing a
//! momentary-layer keycode activates its target layer, releasing any
//! momentary-layer keycode unconditionally returns to the base layer (a
//! deliberate non-stacking policy).

use vstd::prelude::*;
use crate::keyboard_config::{MATRIX_COLS, MATRIX_ROWS, NUM_LAYERS};
use crate::keycodes::Keycode;

verus! {

/// The layered keymap together with the active layer index.
pub struct Layers {
    /// The keycode grids, indexed `[layer][row][col]`; index 0 is the base
    /// layer.
    pub keymaps: [[[Keycode; MATRIX_COLS]; MATRIX_ROWS]; NUM_LAYERS],
    /// The active overlay selected by the layer-switch state machine; at
    /// most one layer is active at a time.
    pub current_layer: usize,
}

/// The board's keymap: a base layer, a function overlay reached through
/// [`Keycode::MomentaryLayer1`], and a control overlay reached through
/// [`Keycode::MomentaryLayer2`].
pub open spec fn default_keymaps() -> [[[Keycode; MATRIX_COLS]; MATRIX_ROWS]; NUM_LAYERS] {
    [
        [
            [Keycode::GraveEsc, Keycode::Num1, Keycode::Num2, Keycode::Num3, Keycode::Num4,
                Keycode::Num5, Keycode::Num6, Keycode::Num7, Keycode::Num8, Keycode::Num9,
                Keycode::Num0, Keycode::Minus, Keycode::Equal, Keycode::BSpace, Keycode::No],
            [Keycode::Tab, Keycode::Q, Keycode::W, Keycode::E, Keycode::R, Keycode::T, Keycode::Y,
                Keycode::U, Keycode::I, Keycode::O, Keycode::P, Keycode::LBracket,
                Keycode::RBracket, Keycode::BSlash, Keycode::No],
            [Keycode::Caps, Keycode::A, Keycode::S, Keycode::D, Keycode::F, Keycode::G, Keycode::H,
                Keycode::J, Keycode::K, Keycode::L, Keycode::Semicolon, Keycode::Quote,
                Keycode::Enter, Keycode::No, Keycode::No],
            [Keycode::LShift, Keycode::Z, Keycode::X, Keycode::C, Keycode::V, Keycode::B,
                Keycode::N, Keycode::M, Keycode::Comma, Keycode::Dot, Keycode::Slash,
                Keycode::RShift, Keycode::MomentaryLayer1, Keycode::No, Keycode::No],
            [Keycode::LCtrl, Keycode::LGui, Keycode::LAlt, Keycode::Space, Keycode::No,
                Keycode::No, Keycode::No, Keycode::No, Keycode::No, Keycode::No, Keycode::RAlt,
                Keycode::RGui, Keycode::RCtrl, Keycode::No, Keycode::No],
        ],
        [
            [Keycode::Grave, Keycode::F1, Keycode::F2, Keycode::F3, Keycode::F4, Keycode::F5,
                Keycode::F6, Keycode::F7, Keycode::F8, Keycode::F9, Keycode::F10, Keycode::F11,
                Keycode::F12, Keycode::Delete, Keycode::No],
            [Keycode::Trans, Keycode::Trans, Keycode::Up, Keycode::Trans, Keycode::Trans,
                Keycode::Trans, Keycode::Trans, Keycode::Trans, Keycode::Trans, Keycode::Trans,
                Keycode::PScreen, Keycode::ScrollLock, Keycode::Pause, Keycode::Reset,
                Keycode::No],
            [Keycode::Trans, Keycode::Left, Keycode::Down, Keycode::Right, Keycode::Trans,
                Keycode::Trans, Keycode::Trans, Keycode::Trans, Keycode::Trans, Keycode::Insert,
                Keycode::Home, Keycode::PgUp, Keycode::Trans, Keycode::No, Keycode::No],
            [Keycode::Trans, Keycode::Trans, Keycode::Trans, Keycode::Trans, Keycode::Trans,
                Keycode::Trans, Keycode::Trans, Keycode::Trans, Keycode::Trans, Keycode::End,
                Keycode::PgDown, Keycode::Trans, Keycode::Trans, Keycode::No, Keycode::No],
            [Keycode::Trans, Keycode::Trans, Keycode::Trans, Keycode::Trans, Keycode::No,
                Keycode::No, Keycode::No, Keycode::No, Keycode::No, Keycode::No, Keycode::Trans,
                Keycode::MomentaryLayer2, Keycode::Trans, Keycode::No, Keycode::No],
        ],
        [
            [Keycode::Trans, Keycode::Trans, Keycode::Trans, Keycode::Trans, Keycode::Trans,
                Keycode::Trans, Keycode::Trans, Keycode::Trans, Keycode::Trans, Keycode::Trans,
                Keycode::Trans, Keycode::Trans, Keycode::Trans, Keycode::Trans, Keycode::No],
            [Keycode::Trans, Keycode::Trans, Keycode::Trans, Keycode::Trans, Keycode::Trans,
                Keycode::Trans, Keycode::Trans, Keycode::Trans, Keycode::Trans, Keycode::Trans,
                Keycode::Trans, Keycode::Trans, Keycode::Trans, Keycode::Trans, Keycode::No],
            [Keycode::Trans, Keycode::Trans, Keycode::Trans, Keycode::Trans, Keycode::Trans,
                Keycode::Trans, Keycode::Trans, Keycode::Trans, Keycode::Trans, Keycode::Trans,
                Keycode::Trans, Keycode::Trans, Keycode::Trans, Keycode::No, Keycode::No],
            [Keycode::Trans, Keycode::Trans, Keycode::Trans, Keycode::Trans, Keycode::Trans,
                Keycode::Trans, Keycode::Trans, Keycode::Trans, Keycode::Trans, Keycode::Trans,
                Keycode::Trans, Keycode::Trans, Keycode::Trans, Keycode::No, Keycode::No],
            [Keycode::Trans, Keycode::Trans, Keycode::Trans, Keycode::Trans, Keycode::No,
                Keycode::No, Keycode::No, Keycode::No, Keycode::No, Keycode::No, Keycode::Trans,
                Keycode::Trans, Keycode::Trans, Keycode::No, Keycode::No],
        ],
    ]
}

/// The layer a momentary-layer keycode activates while held, or `None` for
/// every other keycode.
pub open spec fn spec_momentary_target(keycode: Keycode) -> Option<usize> {
    match keycode {
        Keycode::MomentaryLayer1 => Some(1usize),
        Keycode::MomentaryLayer2 => Some(2usize),
        _ => None,
    }
}

/// One transition of the layer-switch state machine: pressing a
/// momentary-layer keycode activates its target layer, releasing one
/// unconditionally returns to the base layer, and every other keycode leaves
/// the current layer alone.
pub open spec fn spec_momentary_next(current: usize, keycode: Keycode, pressed: bool) -> usize {
    match spec_momentary_target(keycode) {
        Some(target) => if pressed {
            target
        } else {
            0
        },
        None => current,
    }
}

impl Layers {
    /// The keycode stored at a single keymap cell, before transparent
    /// fallthrough.
    pub open spec fn cell(self, layer: int, row: int, col: int) -> Keycode {
        self.keymaps[layer][row][col]
    }

    /// Resolution of a cell with transparent fallthrough: a transparent cell
    /// above the base layer defers to the next lower layer, any other cell is
    /// returned verbatim (a transparent base-layer cell too, which by
    /// construction of the keymap stands for "no key").
    pub open spec fn spec_resolve(self, layer: int, row: int, col: int) -> Keycode
        decreases layer,
    {
        if self.cell(layer, row, col) == Keycode::Trans && layer > 0 {
            self.spec_resolve(layer - 1, row, col)
        } else {
            self.cell(layer, row, col)
        }
    }

    /// A well-formed layer state keeps the active layer index inside the
    /// keymap.
    pub open spec fn wf(self) -> bool {
        self.current_layer < NUM_LAYERS
    }

    /// Builds the board's keymap with the base layer active.
    pub fn new() -> (layers: Layers)
        ensures
            layers.keymaps == default_keymaps(),
            layers.current_layer == 0,
            layers.wf(),
    {
        let base_layer: [[Keycode; MATRIX_COLS]; MATRIX_ROWS] = [
            [Keycode::GraveEsc, Keycode::Num1, Keycode::Num2, Keycode::Num3, Keycode::Num4,
                Keycode::Num5, Keycode::Num6, Keycode::Num7, Keycode::Num8, Keycode::Num9,
                Keycode::Num0, Keycode::Minus, Keycode::Equal, Keycode::BSpace, Keycode::No],
            [Keycode::Tab, Keycode::Q, Keycode::W, Keycode::E, Keycode::R, Keycode::T, Keycode::Y,
                Keycode::U, Keycode::I, Keycode::O, Keycode::P, Keycode::LBracket,
                Keycode::RBracket, Keycode::BSlash, Keycode::No],
            [Keycode::Caps, Keycode::A, Keycode::S, Keycode::D, Keycode::F, Keycode::G, Keycode::H,
                Keycode::J, Keycode::K, Keycode::L, Keycode::Semicolon, Keycode::Quote,
                Keycode::Enter, Keycode::No, Keycode::No],
            [Keycode::LShift, Keycode::Z, Keycode::X, Keycode::C, Keycode::V, Keycode::B,
                Keycode::N, Keycode::M, Keycode::Comma, Keycode::Dot, Keycode::Slash,
                Keycode::RShift, Keycode::MomentaryLayer1, Keycode::No, Keycode::No],
            [Keycode::LCtrl, Keycode::LGui, Keycode::LAlt, Keycode::Space, Keycode::No,
                Keycode::No, Keycode::No, Keycode::No, Keycode::No, Keycode::No, Keycode::RAlt,
                Keycode::RGui, Keycode::RCtrl, Keycode::No, Keycode::No],
        ];

        let fn_layer: [[Keycode; MATRIX_COLS]; MATRIX_ROWS] = [
            [Keycode::Grave, Keycode::F1, Keycode::F2, Keycode::F3, Keycode::F4, Keycode::F5,
                Keycode::F6, Keycode::F7, Keycode::F8, Keycode::F9, Keycode::F10, Keycode::F11,
                Keycode::F12, Keycode::Delete, Keycode::No],
            [Keycode::Trans, Keycode::Trans, Keycode::Up, Keycode::Trans, Keycode::Trans,
                Keycode::Trans, Keycode::Trans, Keycode::Trans, Keycode::Trans, Keycode::Trans,
                Keycode::PScreen, Keycode::ScrollLock, Keycode::Pause, Keycode::Reset,
                Keycode::No],
            [Keycode::Trans, Keycode::Left, Keycode::Down, Keycode::Right, Keycode::Trans,
                Keycode::Trans, Keycode::Trans, Keycode::Trans, Keycode::Trans, Keycode::Insert,
                Keycode::Home, Keycode::PgUp, Keycode::Trans, Keycode::No, Keycode::No],
            [Keycode::Trans, Keycode::Trans, Keycode::Trans, Keycode::Trans, Keycode::Trans,
                Keycode::Trans, Keycode::Trans, Keycode::Trans, Keycode::Trans, Keycode::End,
                Keycode::PgDown, Keycode::Trans, Keycode::Trans, Keycode::No, Keycode::No],
            [Keycode::Trans, Keycode::Trans, Keycode::Trans, Keycode::Trans, Keycode::No,
                Keycode::No, Keycode::No, Keycode::No, Keycode::No, Keycode::No, Keycode::Trans,
                Keycode::MomentaryLayer2, Keycode::Trans, Keycode::No, Keycode::No],
        ];

        let ctrl_layer: [[Keycode; MATRIX_COLS]; MATRIX_ROWS] = [
            [Keycode::Trans, Keycode::Trans, Keycode::Trans, Keycode::Trans, Keycode::Trans,
                Keycode::Trans, Keycode::Trans, Keycode::Trans, Keycode::Trans, Keycode::Trans,
                Keycode::Trans, Keycode::Trans, Keycode::Trans, Keycode::Trans, Keycode::No],
            [Keycode::Trans, Keycode::Trans, Keycode::Trans, Keycode::Trans, Keycode::Trans,
                Keycode::Trans, Keycode::Trans, Keycode::Trans, Keycode::Trans, Keycode::Trans,
                Keycode::Trans, Keycode::Trans, Keycode::Trans, Keycode::Trans, Keycode::No],
            [Keycode::Trans, Keycode::Trans, Keycode::Trans, Keycode::Trans, Keycode::Trans,
                Keycode::Trans, Keycode::Trans, Keycode::Trans, Keycode::Trans, Keycode::Trans,
                Keycode::Trans, Keycode::Trans, Keycode::Trans, Keycode::No, Keycode::No],
            [Keycode::Trans, Keycode::Trans, Keycode::Trans, Keycode::Trans, Keycode::Trans,
                Keycode::Trans, Keycode::Trans, Keycode::Trans, Keycode::Trans, Keycode::Trans,
                Keycode::Trans, Keycode::Trans, Keycode::Trans, Keycode::No, Keycode::No],
            [Keycode::Trans, Keycode::Trans, Keycode::Trans, Keycode::Trans, Keycode::No,
                Keycode::No, Keycode::No, Keycode::No, Keycode::No, Keycode::No, Keycode::Trans,
                Keycode::Trans, Keycode::Trans, Keycode::No, Keycode::No],
        ];

        let keymaps = [base_layer, fn_layer, ctrl_layer];

        Layers { keymaps, current_layer: 0 }
    }

    /// Resolves the keycode for a cell at the given layer, following
    /// transparent cells down towards the base layer.
    pub fn get_keycode(&self, layer: usize, row: usize, col: usize) -> (keycode: Keycode)
        requires
            layer < NUM_LAYERS,
            row < MATRIX_ROWS,
            col < MATRIX_COLS,
        ensures
            keycode == self.spec_resolve(layer as int, row as int, col as int),
        decreases layer,
    {
        let keycode = self.keymaps[layer][row][col];
        if keycode == Keycode::Trans && layer > 0 {
            // A transparent cell defers to the layer below.
            self.get_keycode(layer - 1, row, col)
        } else {
            keycode
        }
    }

    /// Feeds one press or release transition to the layer-switch state
    /// machine.  Only momentary-layer keycodes change the current layer.
    pub fn handle_momentary_layer(&mut self, keycode: Keycode, pressed: bool)
        requires
            old(self).wf(),
        ensures
            final(self).current_layer == spec_momentary_next(
                old(self).current_layer,
                keycode,
                pressed,
            ),
            final(self).keymaps == old(self).keymaps,
            final(self).wf(),
    {
        match keycode {
            Keycode::MomentaryLayer1 => {
                if pressed {
                    self.current_layer = 1;
                } else {
                    self.current_layer = 0;
                }
            },
            Keycode::MomentaryLayer2 => {
                if pressed {
                    self.current_layer = 2;
                } else {
                    self.current_layer = 0;
                }
            },
            _ => {},
        }
    }
}

/// Transparency law: above the base layer, a transparent cell resolves to
/// whatever the next lower layer resolves to for the same position.
pub proof fn lemma_transparent_resolves_lower(layers: Layers, layer: int, row: int, col: int)
    requires
        0 < layer,
        layers.cell(layer, row, col) == Keycode::Trans,
    ensures
        layers.spec_resolve(layer, row, col) == layers.spec_resolve(layer - 1, row, col),
{
}

/// Non-stacking law for momentary layers: pressing a momentary-layer keycode
/// activates its target layer, and releasing a momentary-layer keycode
/// returns to the base layer even when a different momentary-layer keycode
/// is still physically held.
pub proof fn lemma_momentary_non_stacking(
    start: usize,
    first_held: Keycode,
    second_held: Keycode,
)
    requires
        spec_momentary_target(first_held) is Some,
        spec_momentary_target(second_held) is Some,
    ensures
        spec_momentary_next(start, first_held, true) == spec_momentary_target(
            first_held,
        )->Some_0,
        spec_momentary_next(
            spec_momentary_next(start, first_held, true),
            second_held,
            true,
        ) == spec_momentary_target(second_held)->Some_0,
        spec_momentary_next(
            spec_momentary_next(
                spec_momentary_next(start, first_held, true),
                second_held,
                true,
            ),
            second_held,
            false,
        ) == 0,
{
}

} // verus!
