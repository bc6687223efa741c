//! The HID report accumulator and its fire-and-forget transmit path.
//!
//! The report follows the USB HID boot-keyboard wire format: one modifier
//! byte, one reserved byte, and six keycode slots, zero-padded.  In this
//! design modifier keycodes are not packed into the modifier bitmask; they
//! occupy ordinary keycode slots like any other key, and the modifier byte
//! stays zero.  That deviates from the canonical boot-keyboard report and is
//! preserved deliberately for host compatibility testing.
//!
//! After every press or release the builder attempts one transmit: if the
//! endpoint's IN bank is free the updated report is written, otherwise the
//! attempt is dropped with no retry and no queuing, so an individual
//! transient state has no delivery guarantee — only the next state change
//! that finds the bank free is delivered.

use vstd::prelude::*;
use crate::REPORT_SLOTS;
use crate::usb::{EndpointAddress, UsbBus, MAX_ENDPOINTS};

verus! {

/// The 8-byte HID boot-keyboard report: modifier bitmask (unused here),
/// reserved byte, and six keycode slots holding the currently pressed
/// keys in arbitrary order, with 0 marking an empty slot.
#[derive(Clone, Copy, PartialEq, Eq, Debug)]
pub struct KeyboardReport {
    pub modifier: u8,
    pub reserved: u8,
    pub keycodes: [u8; REPORT_SLOTS],
}

/// True when some slot holds `code`.
pub open spec fn slots_contain(slots: Seq<u8>, code: u8) -> bool {
    exists|i: int| 0 <= i < slots.len() && slots[i] == code
}

/// The first slot at or after `start` holding `value`, if any.
pub open spec fn first_slot_from(slots: Seq<u8>, start: int, value: u8) -> Option<int>
    decreases slots.len() - start,
{
    if start < 0 || start >= slots.len() {
        None
    } else if slots[start] == value {
        Some(start)
    } else {
        first_slot_from(slots, start + 1, value)
    }
}

/// The slot contents after a press: unchanged when the code is already
/// present, else the first empty slot takes the code, and when no slot is
/// empty the press is silently dropped (the rollover limitation of the
/// fixed-capacity report).
pub open spec fn spec_press(slots: Seq<u8>, code: u8) -> Seq<u8> {
    if slots_contain(slots, code) {
        slots
    } else {
        match first_slot_from(slots, 0, 0) {
            Some(i) => slots.update(i, code),
            None => slots,
        }
    }
}

/// The slot contents after a release: every slot matching the code is
/// cleared (defensive against duplicates), every other slot is untouched.
pub open spec fn spec_release(slots: Seq<u8>, code: u8) -> Seq<u8> {
    Seq::new(slots.len(), |i: int| if slots[i] == code {
        0u8
    } else {
        slots[i]
    })
}

/// The wire format of a report: modifier byte, reserved byte, then the six
/// keycode slots.
pub open spec fn spec_report_bytes(report: KeyboardReport) -> Seq<u8> {
    seq![report.modifier, report.reserved] + report.keycodes@
}

impl KeyboardReport {
    /// The empty report: nothing pressed.
    pub fn new() -> (report: KeyboardReport)
        ensures
            report.modifier == 0,
            report.reserved == 0,
            forall|i: int| 0 <= i < REPORT_SLOTS ==> report.keycodes[i] == 0,
    {
        KeyboardReport { modifier: 0, reserved: 0, keycodes: [0, 0, 0, 0, 0, 0] }
    }

    /// Records a key press: a no-op when the code is already present,
    /// otherwise the first empty slot takes the code; with all six slots
    /// taken the press is dropped.
    pub fn press(&mut self, code: u8)
        ensures
            final(self).keycodes@ == spec_press(old(self).keycodes@, code),
            final(self).modifier == old(self).modifier,
            final(self).reserved == old(self).reserved,
    {
        let mut i: usize = 0;
        let mut present: bool = false;
        while i < REPORT_SLOTS
            invariant
                i <= REPORT_SLOTS,
                present == exists|j: int| 0 <= j < i && self.keycodes[j] == code,
                *self == *old(self),
            decreases REPORT_SLOTS - i,
        {
            if self.keycodes[i] == code {
                present = true;
            }
            i = i + 1;
        }
        if present {
            return ;
        }

        let mut k: usize = 0;
        while k < REPORT_SLOTS
            invariant
                k <= REPORT_SLOTS,
                !slots_contain(self.keycodes@, code),
                first_slot_from(self.keycodes@, 0, 0) == first_slot_from(
                    self.keycodes@,
                    k as int,
                    0,
                ),
                forall|j: int| 0 <= j < k ==> self.keycodes[j] != 0,
                *self == *old(self),
            decreases REPORT_SLOTS - k,
        {
            if self.keycodes[k] == 0 {
                self.keycodes[k] = code;
                assert(self.keycodes@ =~= spec_press(old(self).keycodes@, code));
                return ;
            }
            k = k + 1;
        }
    }

    /// Records a key release: clears every slot matching the code; a code
    /// that is not present leaves the report unchanged.
    pub fn release(&mut self, code: u8)
        ensures
            final(self).keycodes@ == spec_release(old(self).keycodes@, code),
            final(self).modifier == old(self).modifier,
            final(self).reserved == old(self).reserved,
    {
        let mut i: usize = 0;
        while i < REPORT_SLOTS
            invariant
                i <= REPORT_SLOTS,
                self.keycodes@.len() == REPORT_SLOTS,
                forall|j: int|
                    0 <= j < REPORT_SLOTS ==> self.keycodes[j] == if j < i && old(
                        self,
                    ).keycodes[j] == code {
                        0u8
                    } else {
                        old(self).keycodes[j]
                    },
                self.modifier == old(self).modifier,
                self.reserved == old(self).reserved,
            decreases REPORT_SLOTS - i,
        {
            if self.keycodes[i] == code {
                self.keycodes[i] = 0;
            }
            i = i + 1;
        }
        assert(self.keycodes@ =~= spec_release(old(self).keycodes@, code));
    }

    /// The 8 wire bytes of this report.
    pub fn bytes(&self) -> (bytes: [u8; 8])
        ensures
            bytes@ =~= spec_report_bytes(*self),
    {
        [
            self.modifier,
            self.reserved,
            self.keycodes[0],
            self.keycodes[1],
            self.keycodes[2],
            self.keycodes[3],
            self.keycodes[4],
            self.keycodes[5],
        ]
    }
}

/// Capacity law: six simultaneously pressed codes are the most the report
/// ever holds; pressing a further distinct code while every slot is taken
/// leaves the report unchanged until a slot is freed.
pub proof fn lemma_press_full_report_dropped(slots: Seq<u8>, code: u8)
    requires
        forall|i: int| 0 <= i < slots.len() ==> slots[i] != 0,
        !slots_contain(slots, code),
    ensures
        spec_press(slots, code) == slots,
{
    lemma_first_slot_from_none(slots, 0, 0);
}

/// Releasing a code that no slot holds is a no-op, and a release never
/// touches slots holding other codes.
pub proof fn lemma_release_absent_noop(slots: Seq<u8>, code: u8)
    requires
        !slots_contain(slots, code),
    ensures
        spec_release(slots, code) =~= slots,
        forall|i: int|
            0 <= i < slots.len() && slots[i] != code ==> spec_release(slots, code)[i] == slots[i],
{
}

/// When no slot at or after `start` holds `value`, the search reports
/// `None`.
proof fn lemma_first_slot_from_none(slots: Seq<u8>, start: int, value: u8)
    requires
        forall|i: int| start <= i < slots.len() ==> slots[i] != value,
    ensures
        first_slot_from(slots, start, value) is None,
    decreases slots.len() - start,
{
    if 0 <= start < slots.len() {
        lemma_first_slot_from_none(slots, start + 1, value);
    }
}

/// The report accumulator bound to its interrupt IN endpoint on the USB
/// device-controller driver.
pub struct UsbKeyboard {
    pub bus: UsbBus,
    /// The IN endpoint carrying HID reports to the host.
    pub endpoint: EndpointAddress,
    /// The report describing the keys pressed right now.
    pub last_report: KeyboardReport,
}

impl UsbKeyboard {
    /// The driver is well formed and the report endpoint is an allocated
    /// slot of its pool.
    pub open spec fn wf(self) -> bool {
        &&& self.bus.wf()
        &&& self.endpoint.index < MAX_ENDPOINTS
        &&& self.bus.allocated(self.endpoint.index as int)
    }

    /// Binds a report accumulator to an endpoint already allocated on the
    /// driver, starting from the empty report.
    pub fn new(bus: UsbBus, endpoint: EndpointAddress) -> (keyboard: UsbKeyboard)
        requires
            bus.wf(),
            endpoint.index < MAX_ENDPOINTS,
            bus.allocated(endpoint.index as int),
        ensures
            keyboard.wf(),
            keyboard.bus == bus,
            keyboard.endpoint == endpoint,
            keyboard.last_report.modifier == 0,
            keyboard.last_report.reserved == 0,
            forall|i: int| 0 <= i < REPORT_SLOTS ==> keyboard.last_report.keycodes[i] == 0,
    {
        UsbKeyboard { bus, endpoint, last_report: KeyboardReport::new() }
    }

    /// True when the endpoint's IN bank is free, so that a transmit
    /// attempt would deliver the report.
    pub open spec fn transport_ready(self) -> bool {
        self.bus.regs.txini[self.endpoint.index as int]
    }

    /// What one fire-and-forget transmit attempt leaves in the driver:
    /// with the IN bank free, the report's wire bytes land in the
    /// endpoint's transmit buffer and the bank is handed to the
    /// controller; otherwise the attempt is dropped and the driver is
    /// untouched.
    pub open spec fn attempt_delivers(
        old_bus: UsbBus,
        new_bus: UsbBus,
        endpoint: EndpointAddress,
        report: KeyboardReport,
    ) -> bool {
        let idx = endpoint.index as int;
        let ep = old_bus.endpoints[idx]->Some_0;
        if old_bus.regs.txini[idx] {
            &&& forall|j: int|
                0 <= j < crate::usb::DPRAM_SIZE ==> new_bus.dpram[j] == if ep.buffer_offset <= j
                    < ep.buffer_offset + 8 {
                    spec_report_bytes(report)[j - ep.buffer_offset]
                } else {
                    old_bus.dpram[j]
                }
            &&& new_bus.regs.txini@ =~= old_bus.regs.txini@.update(idx, false)
            &&& new_bus.regs.fifocon@ =~= old_bus.regs.fifocon@.update(idx, false)
            &&& new_bus.regs.uenum == idx as u8
        } else {
            new_bus == old_bus
        }
    }

    /// Attempts to transmit the current report, dropping the attempt when
    /// the endpoint's IN bank is busy.
    pub fn send_report(&mut self)
        requires
            old(self).wf(),
        ensures
            final(self).wf(),
            final(self).last_report == old(self).last_report,
            final(self).endpoint == old(self).endpoint,
            UsbKeyboard::attempt_delivers(
                old(self).bus,
                final(self).bus,
                old(self).endpoint,
                old(self).last_report,
            ),
            final(self).bus.endpoints == old(self).bus.endpoints,
            final(self).bus.next_buffer_offset == old(self).bus.next_buffer_offset,
            final(self).bus.configured == old(self).bus.configured,
            endpoint_like_unchanged_on_send(final(self).bus, old(self).bus),
    {
        if self.bus.regs.txini[self.endpoint.index] {
            let bytes = self.last_report.bytes();
            let _ = self.bus.write(self.endpoint, bytes.as_slice());
        }
    }

    /// Feeds one press or release of a HID usage code into the report and
    /// attempts one transmit of the updated report.
    pub fn handle_keypress(&mut self, keycode: u8, pressed: bool)
        requires
            old(self).wf(),
        ensures
            final(self).wf(),
            final(self).endpoint == old(self).endpoint,
            final(self).last_report.keycodes@ == if pressed {
                spec_press(old(self).last_report.keycodes@, keycode)
            } else {
                spec_release(old(self).last_report.keycodes@, keycode)
            },
            final(self).last_report.modifier == old(self).last_report.modifier,
            final(self).last_report.reserved == old(self).last_report.reserved,
            UsbKeyboard::attempt_delivers(
                old(self).bus,
                final(self).bus,
                old(self).endpoint,
                final(self).last_report,
            ),
            final(self).bus.endpoints == old(self).bus.endpoints,
            final(self).bus.next_buffer_offset == old(self).bus.next_buffer_offset,
            final(self).bus.configured == old(self).bus.configured,
            endpoint_like_unchanged_on_send(final(self).bus, old(self).bus),
    {
        if pressed {
            self.last_report.press(keycode);
        } else {
            self.last_report.release(keycode);
        }
        self.send_report();
    }
}

/// The driver state a transmit attempt can never touch: every register
/// except the endpoint select, the IN-bank and FIFO flags of the report
/// endpoint, and the packet memory it writes.
pub open spec fn endpoint_like_unchanged_on_send(new_bus: UsbBus, old_bus: UsbBus) -> bool {
    &&& new_bus.regs.epen == old_bus.regs.epen
    &&& new_bus.regs.stallrq == old_bus.regs.stallrq
    &&& new_bus.regs.eptype == old_bus.regs.eptype
    &&& new_bus.regs.epdir_in == old_bus.regs.epdir_in
    &&& new_bus.regs.epsize == old_bus.regs.epsize
    &&& new_bus.regs.rxouti == old_bus.regs.rxouti
    &&& crate::usb::device_regs_unchanged(new_bus.regs, old_bus.regs)
}

} // verus!
