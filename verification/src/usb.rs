//! The USB device-controller driver, verified over a plain-value model of
//! the controller's register surface.
//!
//! The driver owns the register image and the shared packet buffer and
//! reimplements the behavioural contract a generic USB peripheral
//! abstraction requires: endpoint allocation over a bounded pool and a
//! shared packet buffer, transfer I/O, protocol handshakes (reset, address
//! assignment, stall) and device-state polling.  On silicon every register
//! access is a volatile read or write of the memory-mapped peripheral; the
//! model holds the same fields as plain values, and the `hw_` methods stand
//! for the transitions the hardware itself performs (a bus reset raising an
//! interrupt flag, the controller freeing an IN bank, a packet arriving).
//! The hardware binding performs the real accesses outside this library.
//!
//! Blocking hazard: on silicon, `write` and `read` busy-wait with no timeout
//! until the controller reports the selected bank ready, which can stall the
//! firmware indefinitely.  In this model that wait stands in each function's
//! precondition: the caller loops until the ready flag is up (as the
//! unverified binding does) or checks it first and drops the transfer (as
//! the report pipeline does).

use vstd::prelude::*;

verus! {

/// Number of endpoint slots the controller offers.
pub const MAX_ENDPOINTS: usize = 7;

/// Bytes of on-device packet memory shared by all endpoint buffers.
pub const DPRAM_SIZE: usize = 1024;

/// The transfer type of an endpoint.
#[derive(Clone, Copy, PartialEq, Eq, Structural, Debug)]
pub enum EndpointType {
    Control,
    Isochronous,
    Bulk,
    Interrupt,
}

/// Direction of USB traffic, named from the host's point of view: `In`
/// carries data to the host, `Out` carries data to the device.
#[derive(Clone, Copy, PartialEq, Eq, Structural, Debug)]
pub enum UsbDirection {
    Out,
    In,
}

/// A logical endpoint address: a slot index in the endpoint pool together
/// with the transfer direction.
#[derive(Clone, Copy, PartialEq, Eq, Structural, Debug)]
pub struct EndpointAddress {
    pub index: usize,
    pub direction: UsbDirection,
}

/// Errors the driver reports to its immediate caller; none is retried
/// internally.
#[derive(Clone, Copy, PartialEq, Eq, Structural, Debug)]
pub enum UsbError {
    /// The requested packet size is outside the supported discrete set.
    Unsupported,
    /// No free endpoint slot remains.
    EndpointOverflow,
    /// The shared packet buffer is exhausted.
    EndpointMemoryOverflow,
    /// The operation addressed an endpoint that was never allocated.
    InvalidEndpoint,
}

/// The device-state event classes `poll` reports, in decreasing priority.
#[derive(Clone, Copy, PartialEq, Eq, Structural, Debug)]
pub enum PollResult {
    Reset,
    Suspend,
    Resume,
    /// No device-state condition is pending.
    NoEvent,
}

/// The controller's register surface, held as plain values.
///
/// Per-endpoint registers are banked behind the endpoint-select register on
/// the hardware; the model keeps one cell per endpoint and the driver still
/// writes the select register before every banked access, as the silicon
/// requires.
#[derive(Clone, Copy, Debug)]
pub struct UsbRegisters {
    /// Endpoint-select register: which endpoint the banked registers
    /// currently address.
    pub uenum: u8,
    /// Endpoint-control register, enable bit.
    pub epen: [bool; MAX_ENDPOINTS],
    /// Endpoint-control register, STALL request bit.
    pub stallrq: [bool; MAX_ENDPOINTS],
    /// Endpoint-configuration register, encoded transfer type.
    pub eptype: [u8; MAX_ENDPOINTS],
    /// Endpoint-configuration register, direction bit (set for IN).
    pub epdir_in: [bool; MAX_ENDPOINTS],
    /// Endpoint-configuration register, encoded size class.
    pub epsize: [u8; MAX_ENDPOINTS],
    /// Endpoint-interrupt-status register: IN bank free, ready to be filled.
    pub txini: [bool; MAX_ENDPOINTS],
    /// Endpoint-interrupt-status register: OUT data received, ready to be
    /// drained.
    pub rxouti: [bool; MAX_ENDPOINTS],
    /// Endpoint-interrupt-status register: FIFO control bit, released to
    /// hand a bank back to the controller.
    pub fifocon: [bool; MAX_ENDPOINTS],
    /// Device-interrupt-status register: end of bus reset.
    pub eorsti: bool,
    /// Device-interrupt-status register: suspend condition detected.
    pub suspi: bool,
    /// Device-interrupt-status register: wakeup condition detected.
    pub wakeupi: bool,
    /// Device-address register: assigned address.
    pub uadd: u8,
    /// Device-address register: address enable bit.
    pub adden: bool,
    /// Device-control register: electrical detach bit, set while the device
    /// hides from the host.
    pub detach: bool,
}

impl UsbRegisters {
    /// The register image at power-up: nothing pending, no endpoint
    /// configured, and the device electrically detached.
    pub open spec fn spec_initial() -> UsbRegisters {
        UsbRegisters {
            uenum: 0,
            epen: [false, false, false, false, false, false, false],
            stallrq: [false, false, false, false, false, false, false],
            eptype: [0, 0, 0, 0, 0, 0, 0],
            epdir_in: [false, false, false, false, false, false, false],
            epsize: [0, 0, 0, 0, 0, 0, 0],
            txini: [false, false, false, false, false, false, false],
            rxouti: [false, false, false, false, false, false, false],
            fifocon: [false, false, false, false, false, false, false],
            eorsti: false,
            suspi: false,
            wakeupi: false,
            uadd: 0,
            adden: false,
            detach: true,
        }
    }

    /// Builds the power-up register image.
    pub fn initial() -> (regs: UsbRegisters)
        ensures
            regs == UsbRegisters::spec_initial(),
    {
        UsbRegisters {
            uenum: 0,
            epen: [false, false, false, false, false, false, false],
            stallrq: [false, false, false, false, false, false, false],
            eptype: [0, 0, 0, 0, 0, 0, 0],
            epdir_in: [false, false, false, false, false, false, false],
            epsize: [0, 0, 0, 0, 0, 0, 0],
            txini: [false, false, false, false, false, false, false],
            rxouti: [false, false, false, false, false, false, false],
            fifocon: [false, false, false, false, false, false, false],
            eorsti: false,
            suspi: false,
            wakeupi: false,
            uadd: 0,
            adden: false,
            detach: true,
        }
    }
}

/// True for the endpoint-interrupt and endpoint-configuration registers
/// being equal between two register images; used by contracts that change
/// only device-level registers.
pub open spec fn endpoint_regs_unchanged(new: UsbRegisters, old: UsbRegisters) -> bool {
    &&& new.epen == old.epen
    &&& new.stallrq == old.stallrq
    &&& new.eptype == old.eptype
    &&& new.epdir_in == old.epdir_in
    &&& new.epsize == old.epsize
    &&& new.txini == old.txini
    &&& new.rxouti == old.rxouti
    &&& new.fifocon == old.fifocon
}

/// True for the device-level registers being equal between two register
/// images; used by contracts that change only endpoint-level registers.
pub open spec fn device_regs_unchanged(new: UsbRegisters, old: UsbRegisters) -> bool {
    &&& new.eorsti == old.eorsti
    &&& new.suspi == old.suspi
    &&& new.wakeupi == old.wakeupi
    &&& new.uadd == old.uadd
    &&& new.adden == old.adden
    &&& new.detach == old.detach
}

/// True for the packet sizes the controller supports.
pub open spec fn valid_packet_size(max_packet_size: u16) -> bool {
    max_packet_size == 8 || max_packet_size == 16 || max_packet_size == 32 || max_packet_size
        == 64
}

/// What the driver records about an allocated endpoint for later I/O.
#[derive(Clone, Copy, PartialEq, Eq, Structural, Debug)]
pub struct Endpoint {
    pub ep_type: EndpointType,
    pub max_size: u16,
    /// Byte offset of this endpoint's buffer inside the shared packet
    /// memory.
    pub buffer_offset: usize,
}

/// The USB device-controller driver: the register image, the shared packet
/// memory, and the endpoint allocation table.
pub struct UsbBus {
    pub regs: UsbRegisters,
    /// The shared on-device packet memory all endpoint buffers live in.
    pub dpram: [u8; DPRAM_SIZE],
    /// The bounded endpoint pool; slots are allocated once and never freed.
    pub endpoints: [Option<Endpoint>; MAX_ENDPOINTS],
    /// Bytes of packet memory handed out so far; monotonic for the life of
    /// the device instance.
    pub next_buffer_offset: usize,
    /// Whether the host has configured the device.  On silicon this one
    /// field is shared with interrupt context and lives behind an atomic;
    /// in this single-context model it is a plain value.
    pub configured: bool,
}

impl UsbBus {
    /// Every allocated endpoint has a supported packet size and a buffer
    /// that lies below the allocation watermark, which itself lies inside
    /// the packet memory; the buffers of distinct endpoints never overlap.
    pub open spec fn wf(self) -> bool {
        &&& self.next_buffer_offset <= DPRAM_SIZE
        &&& forall|i: int|
            0 <= i < MAX_ENDPOINTS ==> ((#[trigger] self.endpoints[i]) matches Some(ep) ==> {
                &&& valid_packet_size(ep.max_size)
                &&& ep.buffer_offset + ep.max_size <= self.next_buffer_offset
            })
        &&& forall|i: int, j: int|
            0 <= i < MAX_ENDPOINTS && 0 <= j < MAX_ENDPOINTS && i != j ==> ((
            #[trigger] self.endpoints[i]) matches Some(a) ==> ((#[trigger] self.endpoints[j])
                matches Some(b) ==> (a.buffer_offset + a.max_size <= b.buffer_offset
                || b.buffer_offset + b.max_size <= a.buffer_offset)))
    }

    /// True when slot `index` holds an allocated endpoint.
    pub open spec fn allocated(self, index: int) -> bool {
        self.endpoints[index] is Some
    }

    /// Builds a driver over a power-up register image: no endpoint
    /// allocated, packet memory untouched, device not configured.
    pub fn new() -> (bus: UsbBus)
        ensures
            bus.wf(),
            bus.regs == UsbRegisters::spec_initial(),
            forall|i: int| 0 <= i < DPRAM_SIZE ==> bus.dpram[i] == 0,
            forall|i: int| 0 <= i < MAX_ENDPOINTS ==> !bus.allocated(i),
            bus.next_buffer_offset == 0,
            !bus.configured,
    {
        UsbBus {
            regs: UsbRegisters::initial(),
            dpram: [0; DPRAM_SIZE],
            endpoints: [None, None, None, None, None, None, None],
            next_buffer_offset: 0,
            configured: false,
        }
    }

    /// Marks the device configured and releases it from electrical
    /// disconnect, so the host can see it.
    pub fn enable(&mut self)
        requires
            old(self).wf(),
        ensures
            final(self).wf(),
            final(self).configured,
            !final(self).regs.detach,
            endpoint_regs_unchanged(final(self).regs, old(self).regs),
            final(self).regs.uenum == old(self).regs.uenum,
            final(self).regs.eorsti == old(self).regs.eorsti,
            final(self).regs.suspi == old(self).regs.suspi,
            final(self).regs.wakeupi == old(self).regs.wakeupi,
            final(self).regs.uadd == old(self).regs.uadd,
            final(self).regs.adden == old(self).regs.adden,
            final(self).dpram == old(self).dpram,
            final(self).endpoints == old(self).endpoints,
            final(self).next_buffer_offset == old(self).next_buffer_offset,
    {
        self.configured = true;
        self.regs.detach = false;
    }

    /// Handles a host-issued bus reset: clears the configured flag,
    /// disables every endpoint's hardware enable bit, and clears all
    /// pending device-interrupt flags.  Safe to call at any time; the
    /// allocation table survives, as the pool is never reclaimed.
    pub fn reset(&mut self)
        requires
            old(self).wf(),
        ensures
            final(self).wf(),
            !final(self).configured,
            forall|i: int| 0 <= i < MAX_ENDPOINTS ==> !final(self).regs.epen[i],
            !final(self).regs.eorsti,
            !final(self).regs.suspi,
            !final(self).regs.wakeupi,
            final(self).regs.uenum == (MAX_ENDPOINTS - 1) as u8,
            final(self).regs.stallrq == old(self).regs.stallrq,
            final(self).regs.eptype == old(self).regs.eptype,
            final(self).regs.epdir_in == old(self).regs.epdir_in,
            final(self).regs.epsize == old(self).regs.epsize,
            final(self).regs.txini == old(self).regs.txini,
            final(self).regs.rxouti == old(self).regs.rxouti,
            final(self).regs.fifocon == old(self).regs.fifocon,
            final(self).regs.uadd == old(self).regs.uadd,
            final(self).regs.adden == old(self).regs.adden,
            final(self).regs.detach == old(self).regs.detach,
            final(self).dpram == old(self).dpram,
            final(self).endpoints == old(self).endpoints,
            final(self).next_buffer_offset == old(self).next_buffer_offset,
    {
        self.configured = false;

        let mut i: usize = 0;
        while i < MAX_ENDPOINTS
            invariant
                i <= MAX_ENDPOINTS,
                forall|j: int| 0 <= j < i ==> !self.regs.epen[j],
                i > 0 ==> self.regs.uenum == (i - 1) as u8,
                self.regs.stallrq == old(self).regs.stallrq,
                self.regs.eptype == old(self).regs.eptype,
                self.regs.epdir_in == old(self).regs.epdir_in,
                self.regs.epsize == old(self).regs.epsize,
                self.regs.txini == old(self).regs.txini,
                self.regs.rxouti == old(self).regs.rxouti,
                self.regs.fifocon == old(self).regs.fifocon,
                device_regs_unchanged(self.regs, old(self).regs),
                self.dpram == old(self).dpram,
                self.endpoints == old(self).endpoints,
                self.next_buffer_offset == old(self).next_buffer_offset,
                self.configured == false,
                self.wf(),
            decreases MAX_ENDPOINTS - i,
        {
            self.regs.uenum = i as u8;
            self.regs.epen[i] = false;
            i = i + 1;
        }

        self.regs.eorsti = false;
        self.regs.suspi = false;
        self.regs.wakeupi = false;
    }

    /// Programs the device-address register and its enable bit together.
    /// Per the USB enumeration protocol the address takes effect only after
    /// the status stage of the Set-Address transfer; sequencing that is the
    /// caller's responsibility.
    pub fn set_device_address(&mut self, addr: u8)
        requires
            old(self).wf(),
            addr < 128,
        ensures
            final(self).wf(),
            final(self).regs.uadd == addr,
            final(self).regs.adden,
            endpoint_regs_unchanged(final(self).regs, old(self).regs),
            final(self).regs.uenum == old(self).regs.uenum,
            final(self).regs.eorsti == old(self).regs.eorsti,
            final(self).regs.suspi == old(self).regs.suspi,
            final(self).regs.wakeupi == old(self).regs.wakeupi,
            final(self).regs.detach == old(self).regs.detach,
            final(self).dpram == old(self).dpram,
            final(self).endpoints == old(self).endpoints,
            final(self).next_buffer_offset == old(self).next_buffer_offset,
            final(self).configured == old(self).configured,
    {
        self.regs.uadd = addr;
        self.regs.adden = true;
    }

    /// Electrically detaches the device for low-power handling.
    pub fn suspend(&mut self)
        requires
            old(self).wf(),
        ensures
            final(self).wf(),
            final(self).regs.detach,
            endpoint_regs_unchanged(final(self).regs, old(self).regs),
            final(self).regs.uenum == old(self).regs.uenum,
            final(self).regs.eorsti == old(self).regs.eorsti,
            final(self).regs.suspi == old(self).regs.suspi,
            final(self).regs.wakeupi == old(self).regs.wakeupi,
            final(self).regs.uadd == old(self).regs.uadd,
            final(self).regs.adden == old(self).regs.adden,
            final(self).dpram == old(self).dpram,
            final(self).endpoints == old(self).endpoints,
            final(self).next_buffer_offset == old(self).next_buffer_offset,
            final(self).configured == old(self).configured,
    {
        self.regs.detach = true;
    }

    /// Reattaches the device electrically after a suspend.
    pub fn resume(&mut self)
        requires
            old(self).wf(),
        ensures
            final(self).wf(),
            !final(self).regs.detach,
            endpoint_regs_unchanged(final(self).regs, old(self).regs),
            final(self).regs.uenum == old(self).regs.uenum,
            final(self).regs.eorsti == old(self).regs.eorsti,
            final(self).regs.suspi == old(self).regs.suspi,
            final(self).regs.wakeupi == old(self).regs.wakeupi,
            final(self).regs.uadd == old(self).regs.uadd,
            final(self).regs.adden == old(self).regs.adden,
            final(self).dpram == old(self).dpram,
            final(self).endpoints == old(self).endpoints,
            final(self).next_buffer_offset == old(self).next_buffer_offset,
            final(self).configured == old(self).configured,
    {
        self.regs.detach = false;
    }

    /// The controller's encoding of an endpoint transfer type.
    pub open spec fn spec_endpoint_type_bits(ep_type: EndpointType) -> u8 {
        match ep_type {
            EndpointType::Control => 0,
            EndpointType::Isochronous => 1,
            EndpointType::Bulk => 2,
            EndpointType::Interrupt => 3,
        }
    }

    /// Encodes an endpoint transfer type into the controller's
    /// configuration bits.
    pub fn get_endpoint_type_bits(ep_type: EndpointType) -> (bits: u8)
        ensures
            bits == UsbBus::spec_endpoint_type_bits(ep_type),
    {
        match ep_type {
            EndpointType::Control => 0,
            EndpointType::Bulk => 2,
            EndpointType::Interrupt => 3,
            _ => 1,  // Isochronous
        }
    }

    /// The controller's encoding of a supported packet size.
    pub open spec fn spec_endpoint_size_bits(max_packet_size: u16) -> u8 {
        if max_packet_size == 8 {
            0
        } else if max_packet_size == 16 {
            1
        } else if max_packet_size == 32 {
            2
        } else {
            3
        }
    }

    /// Encodes a packet size into the controller's size-class bits;
    /// rejects any size outside the supported discrete set.
    pub fn get_endpoint_size_bits(max_packet_size: u16) -> (r: Result<u8, UsbError>)
        ensures
            valid_packet_size(max_packet_size) ==> r == Ok::<u8, UsbError>(
                UsbBus::spec_endpoint_size_bits(max_packet_size),
            ),
            !valid_packet_size(max_packet_size) ==> r == Err::<u8, UsbError>(
                UsbError::Unsupported,
            ),
    {
        match max_packet_size {
            8 => Ok(0),
            16 => Ok(1),
            32 => Ok(2),
            64 => Ok(3),
            _ => Err(UsbError::Unsupported),
        }
    }

    /// The first unallocated slot at or after `start`, if any.
    pub open spec fn first_free_slot_from(
        endpoints: [Option<Endpoint>; MAX_ENDPOINTS],
        start: int,
    ) -> Option<int>
        decreases MAX_ENDPOINTS - start,
    {
        if start < 0 || start >= MAX_ENDPOINTS {
            None
        } else if endpoints[start] is None {
            Some(start)
        } else {
            UsbBus::first_free_slot_from(endpoints, start + 1)
        }
    }

    /// The slot an allocation targets: the requested index when an address
    /// is given, otherwise the first free slot of the pool.
    pub open spec fn spec_alloc_slot(
        endpoints: [Option<Endpoint>; MAX_ENDPOINTS],
        ep_addr: Option<EndpointAddress>,
    ) -> Option<int> {
        match ep_addr {
            Some(addr) => Some(addr.index as int),
            None => UsbBus::first_free_slot_from(endpoints, 0),
        }
    }

    /// Allocates an endpoint: picks the requested slot or the first free
    /// one, carves its buffer out of the shared packet memory (monotonic,
    /// never reclaimed), records it for later I/O, and programs the
    /// endpoint's control and configuration registers.
    ///
    /// Rejects an unsupported packet size with `Unsupported`, a full pool
    /// with `EndpointOverflow`, and an allocation past the packet-memory
    /// capacity with `EndpointMemoryOverflow`; a rejected call leaves the
    /// driver untouched.
    pub fn alloc_ep(
        &mut self,
        ep_dir: UsbDirection,
        ep_addr: Option<EndpointAddress>,
        ep_type: EndpointType,
        max_packet_size: u16,
        _interval: u8,
    ) -> (r: Result<EndpointAddress, UsbError>)
        requires
            old(self).wf(),
            ep_addr matches Some(addr) ==> addr.index < MAX_ENDPOINTS,
        ensures
            final(self).wf(),
            !valid_packet_size(max_packet_size) ==> r == Err::<EndpointAddress, UsbError>(
                UsbError::Unsupported,
            ),
            valid_packet_size(max_packet_size) && UsbBus::spec_alloc_slot(
                old(self).endpoints,
                ep_addr,
            ) is None ==> r == Err::<EndpointAddress, UsbError>(UsbError::EndpointOverflow),
            valid_packet_size(max_packet_size) && UsbBus::spec_alloc_slot(
                old(self).endpoints,
                ep_addr,
            ) is Some && old(self).next_buffer_offset + max_packet_size > DPRAM_SIZE ==> r
                == Err::<EndpointAddress, UsbError>(UsbError::EndpointMemoryOverflow),
            r is Err ==> *final(self) == *old(self),
            r is Ok <==> valid_packet_size(max_packet_size) && UsbBus::spec_alloc_slot(
                old(self).endpoints,
                ep_addr,
            ) is Some && old(self).next_buffer_offset + max_packet_size <= DPRAM_SIZE,
            r matches Ok(addr) ==> {
                let idx = UsbBus::spec_alloc_slot(old(self).endpoints, ep_addr)->Some_0;
                &&& addr == (EndpointAddress { index: idx as usize, direction: ep_dir })
                &&& final(self).endpoints@ =~= old(self).endpoints@.update(
                    idx,
                    Some(
                        Endpoint {
                            ep_type,
                            max_size: max_packet_size,
                            buffer_offset: old(self).next_buffer_offset,
                        },
                    ),
                )
                &&& final(self).next_buffer_offset == old(self).next_buffer_offset
                    + max_packet_size
                &&& final(self).regs.uenum == idx as u8
                &&& final(self).regs.epen@ =~= old(self).regs.epen@.update(idx, true)
                &&& final(self).regs.eptype@ =~= old(self).regs.eptype@.update(
                    idx,
                    UsbBus::spec_endpoint_type_bits(ep_type),
                )
                &&& final(self).regs.epdir_in@ =~= old(self).regs.epdir_in@.update(
                    idx,
                    ep_dir == UsbDirection::In,
                )
                &&& final(self).regs.epsize@ =~= old(self).regs.epsize@.update(
                    idx,
                    UsbBus::spec_endpoint_size_bits(max_packet_size),
                )
                &&& final(self).regs.stallrq == old(self).regs.stallrq
                &&& final(self).regs.txini == old(self).regs.txini
                &&& final(self).regs.rxouti == old(self).regs.rxouti
                &&& final(self).regs.fifocon == old(self).regs.fifocon
                &&& device_regs_unchanged(final(self).regs, old(self).regs)
                &&& final(self).dpram == old(self).dpram
                &&& final(self).configured == old(self).configured
            },
    {
        let size_bits = match Self::get_endpoint_size_bits(max_packet_size) {
            Ok(bits) => bits,
            Err(e) => {
                return Err(e);
            },
        };

        let idx: usize = match ep_addr {
            Some(addr) => addr.index,
            None => {
                let mut i: usize = 0;
                let mut found: Option<usize> = None;
                while i < MAX_ENDPOINTS
                    invariant
                        i <= MAX_ENDPOINTS,
                        found matches Some(f) ==> UsbBus::first_free_slot_from(self.endpoints, 0)
                            == Some(f as int) && f < MAX_ENDPOINTS,
                        found is None ==> UsbBus::first_free_slot_from(self.endpoints, 0)
                            == UsbBus::first_free_slot_from(self.endpoints, i as int),
                        found is None ==> forall|j: int|
                            0 <= j < i ==> self.endpoints[j] is Some,
                    decreases MAX_ENDPOINTS - i,
                {
                    if found.is_none() && self.endpoints[i].is_none() {
                        found = Some(i);
                    }
                    i = i + 1;
                }
                match found {
                    Some(f) => f,
                    None => {
                        return Err(UsbError::EndpointOverflow);
                    },
                }
            },
        };

        if self.next_buffer_offset + max_packet_size as usize > DPRAM_SIZE {
            return Err(UsbError::EndpointMemoryOverflow);
        }

        let ep = Endpoint {
            ep_type,
            max_size: max_packet_size,
            buffer_offset: self.next_buffer_offset,
        };

        self.next_buffer_offset = self.next_buffer_offset + max_packet_size as usize;
        self.endpoints[idx] = Some(ep);

        let ep_type_bits = Self::get_endpoint_type_bits(ep_type);

        self.regs.uenum = idx as u8;
        self.regs.epen[idx] = true;
        self.regs.eptype[idx] = ep_type_bits;
        match ep_dir {
            UsbDirection::Out => {
                self.regs.epdir_in[idx] = false;
            },
            UsbDirection::In => {
                self.regs.epdir_in[idx] = true;
            },
        }
        self.regs.epsize[idx] = size_bits;

        Ok(EndpointAddress { index: idx, direction: ep_dir })
    }

    /// The event `poll` reports for a given device-interrupt image: the
    /// highest-priority pending condition, reset before suspend before
    /// resume.
    pub open spec fn spec_poll_event(regs: UsbRegisters) -> PollResult {
        if regs.eorsti {
            PollResult::Reset
        } else if regs.suspi {
            PollResult::Suspend
        } else if regs.wakeupi {
            PollResult::Resume
        } else {
            PollResult::NoEvent
        }
    }

    /// Inspects the device-interrupt-status register and reports exactly
    /// one pending condition, in fixed priority order, clearing only the
    /// condition it reports.  Callers that need every pending condition
    /// call `poll` repeatedly until it returns `NoEvent`.
    pub fn poll(&mut self) -> (event: PollResult)
        requires
            old(self).wf(),
        ensures
            final(self).wf(),
            event == UsbBus::spec_poll_event(old(self).regs),
            final(self).regs.eorsti == (old(self).regs.eorsti && event != PollResult::Reset),
            final(self).regs.suspi == (old(self).regs.suspi && event != PollResult::Suspend),
            final(self).regs.wakeupi == (old(self).regs.wakeupi && event != PollResult::Resume),
            endpoint_regs_unchanged(final(self).regs, old(self).regs),
            final(self).regs.uenum == old(self).regs.uenum,
            final(self).regs.uadd == old(self).regs.uadd,
            final(self).regs.adden == old(self).regs.adden,
            final(self).regs.detach == old(self).regs.detach,
            final(self).dpram == old(self).dpram,
            final(self).endpoints == old(self).endpoints,
            final(self).next_buffer_offset == old(self).next_buffer_offset,
            final(self).configured == old(self).configured,
    {
        if self.regs.eorsti {
            self.regs.eorsti = false;
            PollResult::Reset
        } else if self.regs.suspi {
            self.regs.suspi = false;
            PollResult::Suspend
        } else if self.regs.wakeupi {
            self.regs.wakeupi = false;
            PollResult::Resume
        } else {
            PollResult::NoEvent
        }
    }

    /// Sends bytes to the host through an IN endpoint: copies
    /// `min(buf.len(), max_size)` bytes into the endpoint's transmit
    /// buffer, then clears the bank-free and FIFO-control flags to hand the
    /// bank to the controller.  Fails with `InvalidEndpoint` on a slot that
    /// was never allocated.
    ///
    /// On silicon this call busy-waits, possibly forever, until the
    /// controller reports the IN bank free; here that wait is the
    /// precondition on the bank-free flag, which the unverified binding
    /// establishes by polling.
    pub fn write(&mut self, ep_addr: EndpointAddress, buf: &[u8]) -> (r: Result<usize, UsbError>)
        requires
            old(self).wf(),
            ep_addr.index < MAX_ENDPOINTS,
            old(self).allocated(ep_addr.index as int) ==> old(self).regs.txini[ep_addr.index as int],
        ensures
            final(self).wf(),
            !old(self).allocated(ep_addr.index as int) ==> r == Err::<usize, UsbError>(
                UsbError::InvalidEndpoint,
            ) && *final(self) == *old(self),
            old(self).endpoints[ep_addr.index as int] matches Some(ep) ==> {
                let idx = ep_addr.index as int;
                let count = if buf@.len() <= ep.max_size {
                    buf@.len() as int
                } else {
                    ep.max_size as int
                };
                &&& r == Ok::<usize, UsbError>(count as usize)
                &&& forall|j: int|
                    0 <= j < DPRAM_SIZE ==> final(self).dpram[j] == if ep.buffer_offset <= j
                        < ep.buffer_offset + count {
                        buf@[j - ep.buffer_offset]
                    } else {
                        old(self).dpram[j]
                    }
                &&& final(self).regs.uenum == idx as u8
                &&& final(self).regs.txini@ =~= old(self).regs.txini@.update(idx, false)
                &&& final(self).regs.fifocon@ =~= old(self).regs.fifocon@.update(idx, false)
                &&& final(self).regs.epen == old(self).regs.epen
                &&& final(self).regs.stallrq == old(self).regs.stallrq
                &&& final(self).regs.eptype == old(self).regs.eptype
                &&& final(self).regs.epdir_in == old(self).regs.epdir_in
                &&& final(self).regs.epsize == old(self).regs.epsize
                &&& final(self).regs.rxouti == old(self).regs.rxouti
                &&& device_regs_unchanged(final(self).regs, old(self).regs)
                &&& final(self).endpoints == old(self).endpoints
                &&& final(self).next_buffer_offset == old(self).next_buffer_offset
                &&& final(self).configured == old(self).configured
            },
    {
        let idx = ep_addr.index;
        let ep = match self.endpoints[idx] {
            Some(ep) => ep,
            None => {
                return Err(UsbError::InvalidEndpoint);
            },
        };

        self.regs.uenum = idx as u8;

        let count = if buf.len() <= ep.max_size as usize {
            buf.len()
        } else {
            ep.max_size as usize
        };

        let mut j: usize = 0;
        while j < count
            invariant
                j <= count,
                count <= buf@.len(),
                self.endpoints[idx as int] == Some(ep),
                ep.buffer_offset + count <= DPRAM_SIZE,
                idx < MAX_ENDPOINTS,
                forall|k: int|
                    0 <= k < DPRAM_SIZE ==> self.dpram[k] == if ep.buffer_offset <= k
                        < ep.buffer_offset + j {
                        buf@[k - ep.buffer_offset]
                    } else {
                        old(self).dpram[k]
                    },
                self.regs.uenum == idx as u8,
                self.regs.epen == old(self).regs.epen,
                self.regs.stallrq == old(self).regs.stallrq,
                self.regs.eptype == old(self).regs.eptype,
                self.regs.epdir_in == old(self).regs.epdir_in,
                self.regs.epsize == old(self).regs.epsize,
                self.regs.txini == old(self).regs.txini,
                self.regs.rxouti == old(self).regs.rxouti,
                self.regs.fifocon == old(self).regs.fifocon,
                device_regs_unchanged(self.regs, old(self).regs),
                self.endpoints == old(self).endpoints,
                self.next_buffer_offset == old(self).next_buffer_offset,
                self.configured == old(self).configured,
                self.wf(),
            decreases count - j,
        {
            self.dpram[ep.buffer_offset + j] = buf[j];
            j = j + 1;
        }

        self.regs.txini[idx] = false;
        self.regs.fifocon[idx] = false;

        Ok(count)
    }

    /// Receives bytes from the host through an OUT endpoint: copies up to
    /// `min(buf.len(), max_size)` bytes out of the endpoint's receive
    /// buffer into the front of `buf` (the rest of `buf` is untouched),
    /// then clears the data-ready and FIFO-control flags to hand the bank
    /// back to the controller.  Fails with `InvalidEndpoint` on a slot that
    /// was never allocated.
    ///
    /// On silicon this call busy-waits, possibly forever, until the
    /// controller reports OUT data ready; here that wait is the
    /// precondition on the data-ready flag, which the unverified binding
    /// establishes by polling.
    pub fn read(&mut self, ep_addr: EndpointAddress, buf: &mut Vec<u8>) -> (r: Result<
        usize,
        UsbError,
    >)
        requires
            old(self).wf(),
            ep_addr.index < MAX_ENDPOINTS,
            old(self).allocated(ep_addr.index as int) ==> old(self).regs.rxouti[ep_addr.index as int],
        ensures
            final(self).wf(),
            !old(self).allocated(ep_addr.index as int) ==> r == Err::<usize, UsbError>(
                UsbError::InvalidEndpoint,
            ) && *final(self) == *old(self) && *final(buf) == *old(buf),
            old(self).endpoints[ep_addr.index as int] matches Some(ep) ==> {
                let idx = ep_addr.index as int;
                let count = if old(buf)@.len() <= ep.max_size {
                    old(buf)@.len() as int
                } else {
                    ep.max_size as int
                };
                &&& r == Ok::<usize, UsbError>(count as usize)
                &&& final(buf)@.len() == old(buf)@.len()
                &&& forall|j: int|
                    0 <= j < old(buf)@.len() ==> final(buf)@[j] == if j < count {
                        old(self).dpram[ep.buffer_offset + j]
                    } else {
                        old(buf)@[j]
                    }
                &&& final(self).regs.uenum == idx as u8
                &&& final(self).regs.rxouti@ =~= old(self).regs.rxouti@.update(idx, false)
                &&& final(self).regs.fifocon@ =~= old(self).regs.fifocon@.update(idx, false)
                &&& final(self).regs.epen == old(self).regs.epen
                &&& final(self).regs.stallrq == old(self).regs.stallrq
                &&& final(self).regs.eptype == old(self).regs.eptype
                &&& final(self).regs.epdir_in == old(self).regs.epdir_in
                &&& final(self).regs.epsize == old(self).regs.epsize
                &&& final(self).regs.txini == old(self).regs.txini
                &&& device_regs_unchanged(final(self).regs, old(self).regs)
                &&& final(self).dpram == old(self).dpram
                &&& final(self).endpoints == old(self).endpoints
                &&& final(self).next_buffer_offset == old(self).next_buffer_offset
                &&& final(self).configured == old(self).configured
            },
    {
        let idx = ep_addr.index;
        let ep = match self.endpoints[idx] {
            Some(ep) => ep,
            None => {
                return Err(UsbError::InvalidEndpoint);
            },
        };

        self.regs.uenum = idx as u8;

        let count = if buf.len() <= ep.max_size as usize {
            buf.len()
        } else {
            ep.max_size as usize
        };

        let mut j: usize = 0;
        while j < count
            invariant
                j <= count,
                count <= buf@.len(),
                buf@.len() == old(buf)@.len(),
                self.endpoints[idx as int] == Some(ep),
                ep.buffer_offset + count <= DPRAM_SIZE,
                idx < MAX_ENDPOINTS,
                forall|k: int|
                    0 <= k < buf@.len() ==> buf@[k] == if k < j {
                        old(self).dpram[ep.buffer_offset + k]
                    } else {
                        old(buf)@[k]
                    },
                self.regs.uenum == idx as u8,
                self.regs.epen == old(self).regs.epen,
                self.regs.stallrq == old(self).regs.stallrq,
                self.regs.eptype == old(self).regs.eptype,
                self.regs.epdir_in == old(self).regs.epdir_in,
                self.regs.epsize == old(self).regs.epsize,
                self.regs.txini == old(self).regs.txini,
                self.regs.rxouti == old(self).regs.rxouti,
                self.regs.fifocon == old(self).regs.fifocon,
                device_regs_unchanged(self.regs, old(self).regs),
                self.dpram == old(self).dpram,
                self.endpoints == old(self).endpoints,
                self.next_buffer_offset == old(self).next_buffer_offset,
                self.configured == old(self).configured,
                self.wf(),
            decreases count - j,
        {
            let byte = self.dpram[ep.buffer_offset + j];
            buf.set(j, byte);
            j = j + 1;
        }

        self.regs.rxouti[idx] = false;
        self.regs.fifocon[idx] = false;

        Ok(count)
    }

    /// Sets or clears the STALL request bit for the addressed endpoint,
    /// used for USB-level error and flow-control signalling.
    pub fn set_stalled(&mut self, ep_addr: EndpointAddress, stalled: bool)
        requires
            old(self).wf(),
            ep_addr.index < MAX_ENDPOINTS,
        ensures
            final(self).wf(),
            final(self).regs.uenum == ep_addr.index as u8,
            final(self).regs.stallrq@ =~= old(self).regs.stallrq@.update(
                ep_addr.index as int,
                stalled,
            ),
            final(self).regs.epen == old(self).regs.epen,
            final(self).regs.eptype == old(self).regs.eptype,
            final(self).regs.epdir_in == old(self).regs.epdir_in,
            final(self).regs.epsize == old(self).regs.epsize,
            final(self).regs.txini == old(self).regs.txini,
            final(self).regs.rxouti == old(self).regs.rxouti,
            final(self).regs.fifocon == old(self).regs.fifocon,
            device_regs_unchanged(final(self).regs, old(self).regs),
            final(self).dpram == old(self).dpram,
            final(self).endpoints == old(self).endpoints,
            final(self).next_buffer_offset == old(self).next_buffer_offset,
            final(self).configured == old(self).configured,
    {
        self.regs.uenum = ep_addr.index as u8;
        self.regs.stallrq[ep_addr.index] = stalled;
    }

    /// Queries the STALL request bit for the addressed endpoint.  Selecting
    /// the endpoint writes the endpoint-select register, so the register
    /// image changes in that one field.
    pub fn is_stalled(&mut self, ep_addr: EndpointAddress) -> (stalled: bool)
        requires
            old(self).wf(),
            ep_addr.index < MAX_ENDPOINTS,
        ensures
            final(self).wf(),
            stalled == old(self).regs.stallrq[ep_addr.index as int],
            final(self).regs.uenum == ep_addr.index as u8,
            endpoint_regs_unchanged(final(self).regs, old(self).regs),
            device_regs_unchanged(final(self).regs, old(self).regs),
            final(self).dpram == old(self).dpram,
            final(self).endpoints == old(self).endpoints,
            final(self).next_buffer_offset == old(self).next_buffer_offset,
            final(self).configured == old(self).configured,
    {
        self.regs.uenum = ep_addr.index as u8;
        self.regs.stallrq[ep_addr.index]
    }

    /// True when slot `index` holds an allocated endpoint.
    pub fn allocated_at(&self, index: usize) -> (r: bool)
        requires
            index < MAX_ENDPOINTS,
        ensures
            r == self.allocated(index as int),
    {
        self.endpoints[index].is_some()
    }

    /// Reads the IN bank-free flag of an endpoint: the non-blocking probe
    /// a caller uses before `write`, either to busy-wait or to drop a
    /// fire-and-forget transmit.
    pub fn tx_ready(&self, index: usize) -> (r: bool)
        requires
            index < MAX_ENDPOINTS,
        ensures
            r == self.regs.txini[index as int],
    {
        self.regs.txini[index]
    }

    /// Reads the OUT data-ready flag of an endpoint: the non-blocking
    /// probe a caller uses before `read`.
    pub fn rx_ready(&self, index: usize) -> (r: bool)
        requires
            index < MAX_ENDPOINTS,
        ensures
            r == self.regs.rxouti[index as int],
    {
        self.regs.rxouti[index]
    }

    /// Hardware transition: the controller signals the end of a host-issued
    /// bus reset by raising the end-of-reset interrupt flag.
    pub fn hw_end_of_reset(&mut self)
        requires
            old(self).wf(),
        ensures
            final(self).wf(),
            *final(self) == (UsbBus {
                regs: UsbRegisters { eorsti: true, ..old(self).regs },
                ..*old(self)
            }),
    {
        self.regs.eorsti = true;
    }

    /// Hardware transition: the controller detects a suspend condition on
    /// the bus and raises the suspend interrupt flag.
    pub fn hw_suspend_detected(&mut self)
        requires
            old(self).wf(),
        ensures
            final(self).wf(),
            *final(self) == (UsbBus {
                regs: UsbRegisters { suspi: true, ..old(self).regs },
                ..*old(self)
            }),
    {
        self.regs.suspi = true;
    }

    /// Hardware transition: the controller detects a wakeup condition on
    /// the bus and raises the wakeup interrupt flag.
    pub fn hw_wakeup_detected(&mut self)
        requires
            old(self).wf(),
        ensures
            final(self).wf(),
            *final(self) == (UsbBus {
                regs: UsbRegisters { wakeupi: true, ..old(self).regs },
                ..*old(self)
            }),
    {
        self.regs.wakeupi = true;
    }

    /// Hardware transition: the controller reports the IN bank of an
    /// endpoint free, ready to accept the next transmit.
    pub fn hw_in_bank_free(&mut self, index: usize)
        requires
            old(self).wf(),
            index < MAX_ENDPOINTS,
        ensures
            final(self).wf(),
            final(self).regs.txini@ =~= old(self).regs.txini@.update(index as int, true),
            final(self).regs.uenum == old(self).regs.uenum,
            final(self).regs.epen == old(self).regs.epen,
            final(self).regs.stallrq == old(self).regs.stallrq,
            final(self).regs.eptype == old(self).regs.eptype,
            final(self).regs.epdir_in == old(self).regs.epdir_in,
            final(self).regs.epsize == old(self).regs.epsize,
            final(self).regs.rxouti == old(self).regs.rxouti,
            final(self).regs.fifocon == old(self).regs.fifocon,
            device_regs_unchanged(final(self).regs, old(self).regs),
            final(self).dpram == old(self).dpram,
            final(self).endpoints == old(self).endpoints,
            final(self).next_buffer_offset == old(self).next_buffer_offset,
            final(self).configured == old(self).configured,
    {
        self.regs.txini[index] = true;
    }

    /// Hardware transition: a packet from the host lands in an allocated
    /// OUT endpoint's receive buffer and the data-ready flag rises.
    pub fn hw_out_data_received(&mut self, index: usize, data: &[u8])
        requires
            old(self).wf(),
            index < MAX_ENDPOINTS,
            old(self).allocated(index as int),
            data@.len() <= old(self).endpoints[index as int]->Some_0.max_size,
        ensures
            final(self).wf(),
            final(self).regs.rxouti@ =~= old(self).regs.rxouti@.update(index as int, true),
            final(self).regs.uenum == old(self).regs.uenum,
            final(self).regs.epen == old(self).regs.epen,
            final(self).regs.stallrq == old(self).regs.stallrq,
            final(self).regs.eptype == old(self).regs.eptype,
            final(self).regs.epdir_in == old(self).regs.epdir_in,
            final(self).regs.epsize == old(self).regs.epsize,
            final(self).regs.txini == old(self).regs.txini,
            final(self).regs.fifocon == old(self).regs.fifocon,
            device_regs_unchanged(final(self).regs, old(self).regs),
            ({
                let off = old(self).endpoints[index as int]->Some_0.buffer_offset;
                forall|j: int|
                    0 <= j < DPRAM_SIZE ==> final(self).dpram[j] == if off <= j < off
                        + data@.len() {
                        data@[j - off]
                    } else {
                        old(self).dpram[j]
                    }
            }),
            final(self).endpoints == old(self).endpoints,
            final(self).next_buffer_offset == old(self).next_buffer_offset,
            final(self).configured == old(self).configured,
    {
        let ep = self.endpoints[index].unwrap();

        let mut j: usize = 0;
        while j < data.len()
            invariant
                j <= data@.len(),
                self.endpoints[index as int] == Some(ep),
                data@.len() <= ep.max_size,
                ep.buffer_offset + ep.max_size <= DPRAM_SIZE,
                index < MAX_ENDPOINTS,
                forall|k: int|
                    0 <= k < DPRAM_SIZE ==> self.dpram[k] == if ep.buffer_offset <= k
                        < ep.buffer_offset + j {
                        data@[k - ep.buffer_offset]
                    } else {
                        old(self).dpram[k]
                    },
                self.regs == old(self).regs,
                self.endpoints == old(self).endpoints,
                self.next_buffer_offset == old(self).next_buffer_offset,
                self.configured == old(self).configured,
                self.wf(),
            decreases data@.len() - j,
        {
            self.dpram[ep.buffer_offset + j] = data[j];
            j = j + 1;
        }

        self.regs.rxouti[index] = true;
    }
}

} // verus!
