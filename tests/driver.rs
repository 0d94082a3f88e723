use nucleof7::phy::{
    phy_init, phy_poll_link, phy_reset, phy_reset_pending, smi_command, SmiWrite, ANLPAR_100_FULL, BCR,
    BCR_AUTONEG, BSR_AUTONEG_COMPLETE, BSR_LINK_UP, BSR_REMOTE_FAULT,
};
use nucleof7::ring::{
    dma_resume_needed, frame_fits, EthernetDevice, WriteBack, Exhausted, BUFFER_SIZE, OWN, RX_CONTROL, TX_CHAINED,
    TX_READY,
};
use nucleof7::serial::{timer_time, usart_send_string};
use nucleof7::wait::{BoundedWait, WaitStep};

#[test]
fn mtu_is_1536() {
    let dev = EthernetDevice::new();
    assert_eq!(dev.mtu(), 1536);
}

#[test]
fn new_device_layout() {
    let dev = EthernetDevice::new();
    for i in 0..2usize {
        let r = dev.rx.descriptors[i];
        assert_eq!(r.status, OWN);
        assert_eq!(r.control, RX_CONTROL);
        assert_eq!(r.control, 2048 | (1 << 14));
        assert_eq!(r.buffer, i);
        let t = dev.tx.descriptors[i];
        assert_eq!(t.status, 1 << 20);
        assert_eq!(t.status, TX_CHAINED);
        assert_eq!(t.control, 2048);
        assert_eq!(t.buffer, i);
    }
    assert_eq!(dev.rx.cursor, 0);
    assert_eq!(dev.tx.cursor, 0);
    assert_eq!(dev.rx.buffers.len(), 2 * BUFFER_SIZE);
}

#[test]
fn descriptor_cycle_closes_after_two_steps() {
    let dev = EthernetDevice::new();
    for ring in [&dev.rx, &dev.tx] {
        for i in 0..2usize {
            let n = ring.descriptors[i].next;
            assert_ne!(n, i);
            assert_eq!(ring.descriptors[n].next, i);
        }
    }
}

#[test]
fn receive_exhausted_when_both_hardware_owned() {
    let mut dev = EthernetDevice::new();
    assert!(matches!(dev.receive(), Err(Exhausted)));
    assert!(matches!(dev.receive(), Err(Exhausted)));
    assert!(matches!(dev.receive(), Err(Exhausted)));
}

#[test]
fn receive_sixty_four_byte_frame_from_slot_zero() {
    let mut dev = EthernetDevice::new();
    dev.store_rx_status(0, 64 << 16);
    // The cursor moves before each check: the first call looks at descriptor 1.
    assert!(matches!(dev.receive(), Err(Exhausted)));
    let buf = dev.receive().unwrap();
    assert_eq!(buf.slot, 0);
    assert_eq!(buf.len, 64);
    assert_eq!(dev.rx_data(&buf).len(), 64);
    assert_eq!(dev.rx.cursor, 0);
}

#[test]
fn frame_length_field_ignores_other_status_bits() {
    let mut dev = EthernetDevice::new();
    // Length 0x3FFF would not fit: use 1514 with the low status bits set.
    dev.store_rx_status(1, (1514 << 16) | 0x0000_0300);
    let buf = dev.receive().unwrap();
    assert_eq!(buf.slot, 1);
    assert_eq!(buf.len, 1514);
}

#[test]
fn successive_receives_lend_both_slots() {
    let mut dev = EthernetDevice::new();
    dev.store_rx_status(0, 60 << 16);
    dev.store_rx_status(1, 70 << 16);
    let a = dev.receive().unwrap();
    let b = dev.receive().unwrap();
    assert_eq!((a.slot, a.len), (1, 70));
    assert_eq!((b.slot, b.len), (0, 60));
    dev.release_packet(a);
    dev.release_packet(b);
    assert!(matches!(dev.receive(), Err(Exhausted)));
    assert!(matches!(dev.receive(), Err(Exhausted)));
}

#[test]
fn third_receive_before_release_is_exhausted() {
    let mut dev = EthernetDevice::new();
    dev.store_rx_status(0, 60 << 16);
    dev.store_rx_status(1, 70 << 16);
    let a = dev.receive().unwrap();
    let b = dev.receive().unwrap();
    assert_ne!(a.slot, b.slot);
    assert_eq!(dev.rx_lent, vec![true, true]);
    assert!(matches!(dev.receive(), Err(Exhausted)));
    assert!(matches!(dev.receive(), Err(Exhausted)));
    // Releasing one frame frees only that slot.
    let slot = a.slot;
    dev.release_packet(a);
    assert!(!dev.rx_lent[slot]);
    assert!(dev.rx_lent[b.slot]);
}

#[test]
fn lent_slot_is_not_lent_again_after_hardware_refill() {
    let mut dev = EthernetDevice::new();
    dev.store_rx_status(1, 70 << 16);
    let a = dev.receive().unwrap();
    assert_eq!(a.slot, 1);
    assert!(matches!(dev.receive(), Err(Exhausted)));
    // Descriptor 1 is still software-owned and lent: not handed out twice.
    assert!(matches!(dev.receive(), Err(Exhausted)));
    dev.release_packet(a);
    assert_eq!(dev.rx_lent, vec![false, false]);
}

#[test]
fn release_hands_descriptor_back_to_hardware() {
    let mut dev = EthernetDevice::new();
    dev.store_rx_status(0, 64 << 16);
    let _ = dev.receive();
    let buf = dev.receive().unwrap();
    let other = dev.rx.descriptors[1];
    dev.release_packet(buf);
    assert_eq!(dev.rx.descriptors[0].status, OWN);
    assert_eq!(dev.rx.descriptors[0].status & (1 << 31), 1 << 31);
    assert_eq!(dev.rx.descriptors[1], other);
    assert_eq!(dev.rx.cursor, 0);
}

#[test]
fn resume_only_when_suspended() {
    assert!(dma_resume_needed(0b110));
    for state in 0u8..8 {
        assert_eq!(dma_resume_needed(state), state == 6);
    }
}

#[test]
fn reserve_twelve_then_release_arms_descriptor() {
    let mut dev = EthernetDevice::new();
    let buf = dev.transmit(12).unwrap();
    assert_eq!(buf.len, 12);
    assert_eq!(buf.slot, 1);
    dev.transmit_packet(buf);
    let d = dev.tx.descriptors[1];
    assert_eq!(d.control, 12);
    assert_eq!(d.status, TX_READY);
    assert_eq!(d.status & (1 << 31), 1 << 31);
    assert_eq!(d.status & (1 << 29), 1 << 29);
    assert_eq!(d.status & (1 << 28), 1 << 28);
    assert_eq!((d.status >> 22) & 3, 3);
    assert_eq!(
        d.status,
        (1 << 31) | (1 << 30) | (1 << 29) | (1 << 28) | (3 << 22) | (1 << 20)
    );
    assert_eq!(dev.tx.descriptors[0].status, TX_CHAINED);
}

#[test]
fn commit_uses_reserved_length_not_written_length() {
    let mut dev = EthernetDevice::new();
    let buf = dev.transmit(40).unwrap();
    dev.write_tx(&buf, 0, &[1, 2, 3, 4, 5]);
    let slot = buf.slot;
    dev.transmit_packet(buf);
    assert_eq!(dev.tx.descriptors[slot].control, 40);
}

#[test]
fn write_tx_places_bytes_in_slot() {
    let mut dev = EthernetDevice::new();
    let buf = dev.transmit(8).unwrap();
    dev.write_tx(&buf, 2, &[0xAA, 0xBB, 0xCC]);
    assert_eq!(dev.tx_data(&buf), &[0, 0, 0xAA, 0xBB, 0xCC, 0, 0, 0]);
    let start = buf.slot * BUFFER_SIZE;
    assert_eq!(dev.tx.buffers[start + 2], 0xAA);
    let other = (1 - buf.slot) * BUFFER_SIZE;
    assert!(dev.tx.buffers[other..other + BUFFER_SIZE].iter().all(|b| *b == 0));
}

#[test]
fn transmit_exhausted_while_hardware_owns_descriptor() {
    let mut dev = EthernetDevice::new();
    let a = dev.transmit(10).unwrap();
    dev.transmit_packet(a);
    let b = dev.transmit(10).unwrap();
    dev.transmit_packet(b);
    assert!(matches!(dev.transmit(10), Err(Exhausted)));
    assert!(matches!(dev.transmit(10), Err(Exhausted)));
    // The DMA engine sends the frame of descriptor 1 and hands it back.
    dev.store_tx_status(1, TX_CHAINED);
    let c = dev.transmit(10).unwrap();
    assert_eq!(c.slot, 1);
}

#[test]
fn link_up_scenario() {
    assert!(phy_poll_link(0x0024, 0x1000, 0x0100));
}

#[test]
fn link_truth_table() {
    let conds = [
        (BCR_AUTONEG, 0u16, 0u16),
        (0, BSR_LINK_UP, 0),
        (0, BSR_AUTONEG_COMPLETE, 0),
        (0, 0, ANLPAR_100_FULL),
    ];
    for mask in 0u32..32 {
        let mut bcr = 0u16;
        let mut bsr = 0u16;
        let mut lpa = 0u16;
        for (k, (c, s, l)) in conds.iter().enumerate() {
            if mask & (1 << k) != 0 {
                bcr |= c;
                bsr |= s;
                lpa |= l;
            }
        }
        let fault = mask & 16 != 0;
        if fault {
            bsr |= BSR_REMOTE_FAULT;
        }
        let expected = mask & 15 == 15 && !fault;
        assert_eq!(phy_poll_link(bsr, bcr, lpa), expected, "mask {}", mask);
    }
}

#[test]
fn link_single_flip_fails() {
    let (bsr, bcr, lpa) = (0x782Du16, 0x3100u16, 0x45E1u16);
    assert!(phy_poll_link(bsr, bcr, lpa));
    assert!(!phy_poll_link(bsr, bcr ^ BCR_AUTONEG, lpa));
    assert!(!phy_poll_link(bsr ^ BSR_LINK_UP, bcr, lpa));
    assert!(!phy_poll_link(bsr ^ BSR_REMOTE_FAULT, bcr, lpa));
    assert!(!phy_poll_link(bsr ^ BSR_AUTONEG_COMPLETE, bcr, lpa));
    assert!(!phy_poll_link(bsr, bcr, lpa ^ ANLPAR_100_FULL));
}

#[test]
fn phy_requests() {
    assert_eq!(phy_reset(), SmiWrite { reg: BCR, value: 1 << 15 });
    assert_eq!(phy_init(), SmiWrite { reg: 0x00, value: 1 << 12 });
    assert!(phy_reset_pending(0x8000));
    assert!(phy_reset_pending(0xB100));
    assert!(!phy_reset_pending(0x3100));
}

#[test]
fn serial_words_follow_bytes() {
    let words = usart_send_string("Link established.\r\n");
    assert_eq!(words.len(), 19);
    assert_eq!(words[0], 'L' as u32);
    assert_eq!(words[17], 13);
    assert_eq!(words[18], 10);
    assert!(usart_send_string("").is_empty());
    assert_eq!(usart_send_string("\u{e9}"), vec![0xC3, 0xA9]);
}

#[test]
fn timer_combines_halves() {
    assert_eq!(timer_time(0x0001, 0x0002), 0x0001_0002);
    assert_eq!(timer_time(0xFFFF, 0xFFFF), 0xFFFF_FFFF);
    assert_eq!(timer_time(0, 0), 0);
}

#[test]
fn bounded_wait_faults_after_limit() {
    let mut w = BoundedWait::new(3);
    assert_eq!(w.step(false), WaitStep::Poll);
    assert_eq!(w.step(false), WaitStep::Poll);
    assert_eq!(w.step(false), WaitStep::Poll);
    assert_eq!(w.step(false), WaitStep::Fault);
    assert_eq!(w.step(true), WaitStep::Ready);
    let mut z = BoundedWait::new(0);
    assert_eq!(z.step(false), WaitStep::Fault);
    assert_eq!(z.polls, 0);
}

#[test]
fn smi_command_words() {
    // Busy, clock range HCLK/102, register 1.
    assert_eq!(smi_command(0x01, false), 0x0000_0051);
    // Busy, write, clock range HCLK/102, register 0.
    assert_eq!(smi_command(0x00, true), 0x0000_0013);
    assert_eq!(smi_command(0x05, false), 1 | (4 << 2) | (5 << 6));
    assert_eq!(smi_command(0x1F, true), 1 | 2 | (4 << 2) | (31 << 6));
}

#[test]
fn frame_fit_check() {
    assert!(frame_fits(OWN | (0x3FFF << 16)));
    assert!(frame_fits(2048 << 16));
    assert!(!frame_fits(2049 << 16));
    assert!(!frame_fits(0x3FFF << 16));
    assert!(frame_fits(0));
}

#[test]
fn receive_write_back_decisions() {
    let mut dev = EthernetDevice::new();
    // Still with hardware: nothing new.
    assert_eq!(dev.take_rx_word(0, OWN), WriteBack::Unchanged);
    // A frame that fits is recorded.
    assert_eq!(dev.take_rx_word(0, 100 << 16), WriteBack::Taken);
    assert_eq!(dev.rx.descriptors[0].status, 100 << 16);
    // Software holds it now: a second read changes nothing.
    assert_eq!(dev.take_rx_word(0, 200 << 16), WriteBack::Unchanged);
    assert_eq!(dev.rx.descriptors[0].status, 100 << 16);
    // Too long for its slot: handed straight back, not recorded.
    assert_eq!(dev.take_rx_word(1, 0x3FFF << 16), WriteBack::Returned);
    assert_eq!(dev.rx.descriptors[1].status, OWN);
}

#[test]
fn transmit_write_back_and_availability() {
    let mut dev = EthernetDevice::new();
    assert!(dev.transmit_available());
    // Idle descriptors are software-owned already.
    assert!(!dev.take_tx_word(1, TX_CHAINED));
    let a = dev.transmit(10).unwrap();
    dev.transmit_packet(a);
    let b = dev.transmit(10).unwrap();
    dev.transmit_packet(b);
    assert!(!dev.transmit_available());
    // Hardware still sending: nothing new.
    assert!(!dev.take_tx_word(1, TX_READY));
    assert!(dev.take_tx_word(1, TX_CHAINED));
    assert_eq!(dev.tx.descriptors[1].status, TX_CHAINED);
    assert!(dev.transmit_available());
    assert_eq!(dev.transmit(10).unwrap().slot, 1);
}
