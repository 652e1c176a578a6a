use pc_at_pic8259a::raw::{
    ICW1Bits, ICW4Bits, ICW4BufferedMode, OCW2Commands, OCW2IRLevel, OCW3Bits,
    OCW3ReadRegisterCommand, OCW3SpecialMaskMode,
};
use pc_at_pic8259a::{
    ChangeRegisterReadMode, InterruptTriggerMode, LockedReadRegister, Pic, PicAEOI, PicInit,
    PicMask, PortIO, PortIOAvailable, RecordingPortIO, SendEOI,
};

fn manual_eoi_pic() -> Pic<RecordingPortIO> {
    PicInit::send_icw1(RecordingPortIO::new(), InterruptTriggerMode::EdgeTriggered)
        .send_icw2_and_icw3(32, 40)
        .send_icw4()
}

fn automatic_eoi_pic() -> PicAEOI<RecordingPortIO> {
    PicInit::send_icw1(RecordingPortIO::new(), InterruptTriggerMode::EdgeTriggered)
        .send_icw2_and_icw3(32, 40)
        .send_icw4_aeoi()
}

/// The writes made after initialization.
fn writes_after_init<P: PortIOAvailable<RecordingPortIO>>(pic: &P) -> Vec<(u16, u8)> {
    pic.port_io().log()[8..].to_vec()
}

#[test]
fn master_mask_loops_back() {
    let mut pic = automatic_eoi_pic();
    pic.set_master_mask(0xFF);
    assert_eq!(pic.master_mask(), 0xFF);
}

#[test]
fn slave_mask_loops_back() {
    let mut pic = manual_eoi_pic();
    pic.set_slave_mask(0b1010_0101);
    assert_eq!(pic.slave_mask(), 0b1010_0101);
    assert_eq!(pic.master_mask(), 0x01);
}

#[test]
fn mask_writes_go_to_data_ports() {
    let mut pic = manual_eoi_pic();
    pic.set_master_mask(0xFB);
    pic.set_slave_mask(0xFF);
    pic.set_master_mask(0x00);
    assert_eq!(writes_after_init(&pic), vec![(0x21, 0xFB), (0xA1, 0xFF), (0x21, 0x00)]);
}

#[test]
fn eoi_to_master_only() {
    let mut pic = manual_eoi_pic();
    pic.send_eoi_to_master();
    assert_eq!(writes_after_init(&pic), vec![(0x20, 0b0010_0000)]);
}

#[test]
fn eoi_to_slave_only() {
    let mut pic = manual_eoi_pic();
    pic.send_eoi_to_slave();
    assert_eq!(writes_after_init(&pic), vec![(0xA0, 0b0010_0000)]);
}

#[test]
fn eoi_acknowledges_slave_before_master() {
    let mut pic = manual_eoi_pic();
    pic.send_eoi_to_slave_and_master();
    assert_eq!(writes_after_init(&pic), vec![(0xA0, 0x20), (0x20, 0x20)]);
}

#[test]
fn irr_mode_writes_select_byte_to_both_command_ports() {
    let pic = automatic_eoi_pic();
    let irr = pic.read_irr_mode();
    assert_eq!(writes_after_init(&irr), vec![(0x20, 0b0000_1010), (0xA0, 0b0000_1010)]);
}

#[test]
fn isr_mode_writes_select_byte_to_both_command_ports() {
    let pic = manual_eoi_pic();
    let isr = pic.read_isr_mode();
    assert_eq!(writes_after_init(&isr), vec![(0x20, 0b0000_1011), (0xA0, 0b0000_1011)]);
}

#[test]
fn switching_modes_twice_selects_four_times() {
    let pic = manual_eoi_pic();
    let isr = pic.read_irr_mode().exit().read_isr_mode();
    assert_eq!(
        writes_after_init(&isr),
        vec![(0x20, 0x0A), (0xA0, 0x0A), (0x20, 0x0B), (0xA0, 0x0B)]
    );
}

#[test]
fn reentering_the_same_mode_selects_again() {
    let pic = automatic_eoi_pic();
    let irr = pic.read_irr_mode().exit().read_irr_mode();
    assert_eq!(
        writes_after_init(&irr),
        vec![(0x20, 0x0A), (0xA0, 0x0A), (0x20, 0x0A), (0xA0, 0x0A)]
    );
}

#[test]
fn exit_writes_nothing() {
    let pic = manual_eoi_pic();
    let back = pic.read_isr_mode().exit();
    assert_eq!(writes_after_init(&back).len(), 2);
}

#[test]
fn read_mode_reads_command_ports() {
    let pic = manual_eoi_pic();
    let irr = pic.read_irr_mode();
    // The loopback port answers with the last byte written to each command port.
    assert_eq!(irr.read_master(), 0x0A);
    assert_eq!(irr.read_slave(), 0x0A);
}

#[test]
fn read_mode_keeps_masking() {
    let pic = manual_eoi_pic();
    let mut isr = pic.read_isr_mode();
    isr.set_master_mask(0x7F);
    isr.set_slave_mask(0xFE);
    assert_eq!(isr.master_mask(), 0x7F);
    assert_eq!(isr.slave_mask(), 0xFE);
    // Mask writes leave the selection in place on both command ports.
    assert_eq!(isr.read_master(), 0x0B);
    assert_eq!(isr.read_slave(), 0x0B);
    let mut back = isr.exit();
    back.send_eoi_to_slave_and_master();
    assert_eq!(
        writes_after_init(&back),
        vec![(0x20, 0x0B), (0xA0, 0x0B), (0x21, 0x7F), (0xA1, 0xFE), (0xA0, 0x20), (0x20, 0x20)]
    );
}

#[test]
fn recording_port_reads_zero_before_any_write() {
    let port = RecordingPortIO::new();
    assert_eq!(port.read(0x21), 0);
    assert!(port.log().is_empty());
}

#[test]
fn recording_port_reads_last_write_of_that_port() {
    let mut port = RecordingPortIO::new();
    port.write(0x21, 1);
    port.write(0xA1, 2);
    port.write(0x21, 3);
    assert_eq!(port.read(0x21), 3);
    assert_eq!(port.read(0xA1), 2);
    assert_eq!(port.read(0x20), 0);
    assert_eq!(port.log(), &vec![(0x21, 1), (0xA1, 2), (0x21, 3)]);
}

#[test]
fn command_word_encodings() {
    assert_eq!(ICW1Bits::ICW1_IDENTIFIER_BIT, 0b0001_0000);
    assert_eq!(ICW1Bits::ICW4_NEEDED, 0b0001_0001);
    assert_eq!(ICW1Bits::LEVEL_TRIGGERED_MODE | ICW1Bits::ICW4_NEEDED, 0b0001_1001);
    assert_eq!(ICW4Bits::ENABLE_8068_MODE, 0b0000_0001);
    assert_eq!(
        ICW4Bits::ENABLE_8068_MODE | ICW4Bits::AUTOMATIC_END_OF_INTERRUPT,
        0b0000_0011
    );
    assert_eq!(OCW3Bits::POLL_COMMAND, 0b0000_1100);
    assert_eq!(OCW2Commands::NonSpecificEOI.bits(), 0b0010_0000);
    assert_eq!(OCW2Commands::SpecificEOI.bits(), 0b0110_0000);
    assert_eq!(OCW2Commands::RotateOnNonSpecificEOI.bits(), 0b1010_0000);
    assert_eq!(OCW2Commands::RotateInAEOIModeSet.bits(), 0b1000_0000);
    assert_eq!(OCW2Commands::RotateInAEOIModeClear.bits(), 0b0000_0000);
    assert_eq!(OCW2Commands::RotateOnSpecificEOI.bits(), 0b1110_0000);
    assert_eq!(OCW2Commands::SetPriority.bits(), 0b1100_0000);
    assert_eq!(OCW2Commands::NoOperation.bits(), 0b0100_0000);
    assert_eq!(OCW3ReadRegisterCommand::InterruptRequest.bits(), 0b0000_1010);
    assert_eq!(OCW3ReadRegisterCommand::InService.bits(), 0b0000_1011);
    assert_eq!(OCW3SpecialMaskMode::NoAction.bits(), 0b0000_1000);
    assert_eq!(OCW3SpecialMaskMode::Reset.bits(), 0b0100_1000);
    assert_eq!(OCW3SpecialMaskMode::SetMode.bits(), 0b0110_1000);
    assert_eq!(ICW4BufferedMode::Slave.bits(), 0b0000_1000);
    assert_eq!(ICW4BufferedMode::Master.bits(), 0b0000_1100);
    assert_eq!(OCW2IRLevel::Zero.bits(), 0);
    assert_eq!(OCW2IRLevel::Three.bits(), 3);
    assert_eq!(OCW2IRLevel::Seven.bits(), 7);
}
