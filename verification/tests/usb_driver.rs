//! Tests of the USB device-controller driver: endpoint allocation and its
//! error cases, transfer I/O, handshakes, and device-state polling.

use keyboard_hal::usb::{
    EndpointAddress, EndpointType, PollResult, UsbBus, UsbDirection, UsbError, DPRAM_SIZE,
    MAX_ENDPOINTS,
};

fn in_addr(index: usize) -> EndpointAddress {
    EndpointAddress { index, direction: UsbDirection::In }
}

#[test]
fn alloc_rejects_unsupported_packet_size() {
    let mut bus = UsbBus::new();
    let r = bus.alloc_ep(UsbDirection::In, None, EndpointType::Bulk, 17, 0);
    assert_eq!(r, Err(UsbError::Unsupported));
    // A rejected allocation consumes nothing.
    assert_eq!(bus.next_buffer_offset, 0);
    assert!(bus.endpoints.iter().all(|ep| ep.is_none()));
}

#[test]
fn alloc_accepts_each_supported_size() {
    let mut bus = UsbBus::new();
    for (i, size) in [8u16, 16, 32, 64].iter().enumerate() {
        let r = bus.alloc_ep(UsbDirection::Out, None, EndpointType::Bulk, *size, 0);
        assert_eq!(r, Ok(EndpointAddress { index: i, direction: UsbDirection::Out }));
    }
    assert_eq!(bus.next_buffer_offset, 8 + 16 + 32 + 64);
}

#[test]
fn alloc_exhausts_packet_memory() {
    let mut bus = UsbBus::new();
    // Re-allocating the same requested slot keeps consuming buffer space:
    // the allocation offset is monotonic and never reclaimed.
    for i in 0..16 {
        let r = bus.alloc_ep(
            UsbDirection::In,
            Some(in_addr(0)),
            EndpointType::Bulk,
            64,
            0,
        );
        assert_eq!(r, Ok(in_addr(0)), "allocation {} should fit", i);
    }
    assert_eq!(bus.next_buffer_offset, DPRAM_SIZE);
    let r = bus.alloc_ep(UsbDirection::In, Some(in_addr(0)), EndpointType::Bulk, 64, 0);
    assert_eq!(r, Err(UsbError::EndpointMemoryOverflow));
}

#[test]
fn alloc_exhausts_endpoint_pool() {
    let mut bus = UsbBus::new();
    for i in 0..MAX_ENDPOINTS {
        let r = bus.alloc_ep(UsbDirection::In, None, EndpointType::Interrupt, 8, 1);
        assert_eq!(r, Ok(in_addr(i)));
    }
    let r = bus.alloc_ep(UsbDirection::In, None, EndpointType::Interrupt, 8, 1);
    assert_eq!(r, Err(UsbError::EndpointOverflow));
}

#[test]
fn alloc_programs_endpoint_registers() {
    let mut bus = UsbBus::new();
    let r = bus.alloc_ep(UsbDirection::In, None, EndpointType::Interrupt, 32, 1);
    assert_eq!(r, Ok(in_addr(0)));
    assert!(bus.regs.epen[0]);
    assert_eq!(bus.regs.eptype[0], 3); // interrupt
    assert!(bus.regs.epdir_in[0]);
    assert_eq!(bus.regs.epsize[0], 2); // 32 bytes
    assert_eq!(bus.regs.uenum, 0);

    let r = bus.alloc_ep(UsbDirection::Out, None, EndpointType::Isochronous, 8, 0);
    assert_eq!(r, Ok(EndpointAddress { index: 1, direction: UsbDirection::Out }));
    assert_eq!(bus.regs.eptype[1], 1); // isochronous
    assert!(!bus.regs.epdir_in[1]);
    assert_eq!(bus.regs.epsize[1], 0); // 8 bytes

    let r = bus.alloc_ep(UsbDirection::Out, None, EndpointType::Control, 64, 0);
    assert_eq!(r, Ok(EndpointAddress { index: 2, direction: UsbDirection::Out }));
    assert_eq!(bus.regs.eptype[2], 0); // control
    assert_eq!(bus.regs.epsize[2], 3); // 64 bytes
}

#[test]
fn write_on_unallocated_endpoint_fails() {
    let mut bus = UsbBus::new();
    let r = bus.write(in_addr(3), &[1, 2, 3]);
    assert_eq!(r, Err(UsbError::InvalidEndpoint));
}

#[test]
fn read_on_unallocated_endpoint_fails() {
    let mut bus = UsbBus::new();
    let mut buf = vec![0u8; 8];
    let r = bus.read(in_addr(5), &mut buf);
    assert_eq!(r, Err(UsbError::InvalidEndpoint));
    assert_eq!(buf, vec![0u8; 8]);
}

#[test]
fn write_copies_into_packet_memory_and_hands_off_bank() {
    let mut bus = UsbBus::new();
    // Two endpoints so the written one sits at a non-zero buffer offset.
    bus.alloc_ep(UsbDirection::Out, None, EndpointType::Bulk, 16, 0).unwrap();
    let ep = bus.alloc_ep(UsbDirection::In, None, EndpointType::Interrupt, 8, 1).unwrap();
    assert_eq!(ep.index, 1);

    bus.hw_in_bank_free(1);
    let r = bus.write(ep, &[0xAA, 0xBB, 0xCC]);
    assert_eq!(r, Ok(3));
    assert_eq!(&bus.dpram[16..19], &[0xAA, 0xBB, 0xCC]);
    assert!(!bus.regs.txini[1]);
    assert!(!bus.regs.fifocon[1]);
    assert_eq!(bus.regs.uenum, 1);
}

#[test]
fn write_truncates_to_max_packet_size() {
    let mut bus = UsbBus::new();
    let ep = bus.alloc_ep(UsbDirection::In, None, EndpointType::Interrupt, 8, 1).unwrap();
    bus.hw_in_bank_free(0);
    let data: Vec<u8> = (0..12).collect();
    let r = bus.write(ep, &data);
    assert_eq!(r, Ok(8));
    assert_eq!(&bus.dpram[0..8], &data[0..8]);
}

#[test]
fn read_drains_received_packet() {
    let mut bus = UsbBus::new();
    let ep = bus.alloc_ep(UsbDirection::Out, None, EndpointType::Bulk, 8, 0).unwrap();
    bus.hw_out_data_received(0, &[9, 8, 7, 6]);
    assert!(bus.regs.rxouti[0]);

    let mut buf = vec![0u8; 8];
    let r = bus.read(ep, &mut buf);
    assert_eq!(r, Ok(8));
    assert_eq!(&buf[0..4], &[9, 8, 7, 6]);
    assert!(!bus.regs.rxouti[0]);
    assert!(!bus.regs.fifocon[0]);
}

#[test]
fn read_truncates_to_caller_buffer() {
    let mut bus = UsbBus::new();
    let ep = bus.alloc_ep(UsbDirection::Out, None, EndpointType::Bulk, 8, 0).unwrap();
    bus.hw_out_data_received(0, &[1, 2, 3, 4, 5]);
    let mut buf = vec![0u8; 2];
    let r = bus.read(ep, &mut buf);
    assert_eq!(r, Ok(2));
    assert_eq!(buf, vec![1, 2]);
}

#[test]
fn poll_reports_reset_before_suspend() {
    let mut bus = UsbBus::new();
    bus.hw_end_of_reset();
    bus.hw_suspend_detected();
    // Both pending: only the highest-priority condition is reported and
    // cleared per call.
    assert_eq!(bus.poll(), PollResult::Reset);
    assert_eq!(bus.poll(), PollResult::Suspend);
    assert_eq!(bus.poll(), PollResult::NoEvent);
}

#[test]
fn poll_reports_all_three_in_priority_order() {
    let mut bus = UsbBus::new();
    bus.hw_wakeup_detected();
    bus.hw_suspend_detected();
    bus.hw_end_of_reset();
    assert_eq!(bus.poll(), PollResult::Reset);
    assert_eq!(bus.poll(), PollResult::Suspend);
    assert_eq!(bus.poll(), PollResult::Resume);
    assert_eq!(bus.poll(), PollResult::NoEvent);
}

#[test]
fn enable_attaches_and_marks_configured() {
    let mut bus = UsbBus::new();
    assert!(bus.regs.detach);
    assert!(!bus.configured);
    bus.enable();
    assert!(bus.configured);
    assert!(!bus.regs.detach);
}

#[test]
fn reset_disables_endpoints_and_clears_interrupts() {
    let mut bus = UsbBus::new();
    bus.alloc_ep(UsbDirection::In, None, EndpointType::Interrupt, 8, 1).unwrap();
    bus.enable();
    bus.hw_end_of_reset();
    bus.hw_suspend_detected();
    bus.hw_wakeup_detected();

    bus.reset();
    assert!(!bus.configured);
    assert!(bus.regs.epen.iter().all(|b| !b));
    assert!(!bus.regs.eorsti);
    assert!(!bus.regs.suspi);
    assert!(!bus.regs.wakeupi);
    // The allocation table survives a bus reset.
    assert!(bus.endpoints[0].is_some());
}

#[test]
fn set_device_address_programs_address_and_enable_together() {
    let mut bus = UsbBus::new();
    bus.set_device_address(42);
    assert_eq!(bus.regs.uadd, 42);
    assert!(bus.regs.adden);
}

#[test]
fn suspend_and_resume_toggle_detach() {
    let mut bus = UsbBus::new();
    bus.enable();
    bus.suspend();
    assert!(bus.regs.detach);
    bus.resume();
    assert!(!bus.regs.detach);
}

#[test]
fn stall_bit_set_and_queried() {
    let mut bus = UsbBus::new();
    let ep = bus.alloc_ep(UsbDirection::In, None, EndpointType::Control, 8, 0).unwrap();
    assert!(!bus.is_stalled(ep));
    bus.set_stalled(ep, true);
    assert!(bus.is_stalled(ep));
    bus.set_stalled(ep, false);
    assert!(!bus.is_stalled(ep));
}
