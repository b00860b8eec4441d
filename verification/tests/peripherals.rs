use rsx_redux::cpu::bus::peripherals::controller::Controller;
use rsx_redux::cpu::bus::peripherals::memory_card::{CardState, MemoryCard, MEMORY_SIZE};
use rsx_redux::cpu::bus::peripherals::{PeripheralState, Peripherals, SelectedPeripheral};
use rsx_redux::cpu::bus::registers::interrupt_register::InterruptRegister;
use rsx_redux::cpu::bus::scheduler::Scheduler;

/// Sends `bytes` to the card and collects its answers.
fn exchange(card: &mut MemoryCard, bytes: &[u8]) -> Vec<u8> {
    bytes.iter().map(|b| card.reply(*b)).collect()
}

#[test]
fn memory_card_answers_get_id() {
    let mut card = MemoryCard::new();
    let answers = exchange(&mut card, &[0x81, 0x53, 0, 0, 0, 0, 0, 0, 0, 0]);
    assert_eq!(answers, vec![0xff, 0x08, 0x5a, 0x5d, 0x5c, 0x5d, 0x04, 0x00, 0x00, 0x80]);
    assert!(!card.in_ack());
}

#[test]
fn memory_card_unknown_command_ends_transfer() {
    let mut card = MemoryCard::new();
    assert_eq!(exchange(&mut card, &[0x81, 0x99]), vec![0xff, 0x08]);
    assert_eq!(card.card_state, CardState::Idle);
}

#[test]
fn memory_card_reads_back_a_written_sector() {
    let mut card = MemoryCard::new();
    card.set_memory_bytes(vec![0; MEMORY_SIZE]);
    let sector: u16 = 0x012;
    let data: Vec<u8> = (0..128).map(|i| (i * 3 + 1) as u8).collect();
    let checksum = data.iter().fold(0u8 ^ (sector >> 8) as u8 ^ sector as u8, |c, b| c ^ b);

    let mut write = vec![0x81, 0x57, 0, 0, (sector >> 8) as u8, sector as u8];
    write.extend_from_slice(&data);
    write.extend_from_slice(&[checksum, 0, 0, 0]);
    let answers = exchange(&mut card, &write);
    assert_eq!(&answers[..6], &[0xff, 0x08, 0x5a, 0x5d, 0x00, 0x00]);
    assert_eq!(answers[6], sector as u8);
    assert_eq!(&answers[7..134], &data[..127]);
    assert_eq!(&answers[134..], &[checksum, 0x5c, 0x5d, 0x47]);
    assert_eq!(card.card_state, CardState::Idle);
    let stored = card.memory_file.as_ref().unwrap();
    assert_eq!(&stored[128 * 0x12..128 * 0x13], &data[..]);

    let mut read = vec![0x81, 0x52, 0, 0, (sector >> 8) as u8, sector as u8, 0, 0, 0, 0];
    read.extend_from_slice(&[0; 128]);
    read.extend_from_slice(&[0, 0]);
    let answers = exchange(&mut card, &read);
    // The "not yet written" flag was cleared by the write.
    assert_eq!(&answers[..10], &[0xff, 0x00, 0x5a, 0x5d, 0x00, 0x00, 0x5c, 0x5d, 0x00, 0x12]);
    assert_eq!(&answers[10..138], &data[..]);
    assert_eq!(&answers[138..], &[checksum, 0x47]);
}

#[test]
fn memory_card_write_with_bad_checksum_answers_n() {
    let mut card = MemoryCard::new();
    card.set_memory_bytes(vec![0; MEMORY_SIZE]);
    let mut write = vec![0x81, 0x57, 0, 0, 0, 1];
    write.extend_from_slice(&[0xaa; 128]);
    write.extend_from_slice(&[0x13, 0, 0, 0]);
    let answers = exchange(&mut card, &write);
    assert_eq!(answers[answers.len() - 1], 0x4e);
}

#[test]
fn memory_card_read_past_the_end_stops() {
    let mut card = MemoryCard::new();
    card.set_memory_bytes(vec![0; MEMORY_SIZE]);
    let answers = exchange(&mut card, &[0x81, 0x52, 0, 0, 0x04, 0x00, 0, 0, 0, 0]);
    assert_eq!(&answers[8..], &[0x04, 0x00]);
    assert_eq!(card.card_state, CardState::Idle);
}

#[test]
fn memory_card_without_contents_reads_ff() {
    let mut card = MemoryCard::new();
    let answers = exchange(&mut card, &[0x81, 0x52, 0, 0, 0, 0, 0, 0, 0, 0, 0]);
    assert_eq!(answers[10], 0xff);
}

#[test]
fn controller_digital_poll() {
    let mut pad = Controller::new();
    pad.update_input(0, true);
    pad.update_input(12, true);
    let answers: Vec<u8> = [0x01, 0x42, 0, 0, 0].iter().map(|b| pad.reply(*b)).collect();
    assert_eq!(answers, vec![0xff, 0x41, 0x5a, 0xfe, 0xef]);
    assert!(!pad.in_ack());
}

#[test]
fn controller_unknown_command_ends_transfer() {
    let mut pad = Controller::new();
    assert_eq!(pad.reply(0x01), 0xff);
    assert_eq!(pad.reply(0x99), 0xff);
    assert!(!pad.in_ack());
}

#[test]
fn peripherals_send_a_byte_to_the_pad() {
    let mut port = Peripherals::new();
    let mut scheduler = Scheduler::new();
    let mut interrupt = InterruptRegister::from_bits_retain(0);
    port.write_ctrl(0x0002, &mut scheduler);
    port.write_reload_rate(0x88);
    port.write_byte(0x01, &mut scheduler);
    assert_eq!(port.state, PeripheralState::Transferring);
    port.handle_peripherals(&mut interrupt, &mut scheduler);
    assert_eq!(port.selected_peripheral, SelectedPeripheral::Controller);
    assert_eq!(port.state, PeripheralState::Acknowledge);
    assert_eq!(port.read_byte(), 0xff);
    assert_eq!(port.read_byte(), 0);
    port.handle_peripherals(&mut interrupt, &mut scheduler);
    assert_eq!(port.state, PeripheralState::Idle);
    assert_eq!(interrupt.bits(), InterruptRegister::PERIPHERAL);
    assert_eq!(port.read_stat(), 0x4205);
}

#[test]
fn peripherals_port_two_answers_ff() {
    let mut port = Peripherals::new();
    let mut scheduler = Scheduler::new();
    let mut interrupt = InterruptRegister::from_bits_retain(0);
    port.write_ctrl(0x2002, &mut scheduler);
    port.write_byte(0x01, &mut scheduler);
    port.handle_peripherals(&mut interrupt, &mut scheduler);
    assert_eq!(port.read_byte(), 0xff);
    assert_eq!(port.selected_peripheral, SelectedPeripheral::NoDevice);
}

#[test]
fn peripherals_reset_clears_the_port() {
    let mut port = Peripherals::new();
    let mut scheduler = Scheduler::new();
    port.write_reload_rate(0x88);
    port.write_mode(0x0d);
    port.write_ctrl(0x0040, &mut scheduler);
    assert_eq!(port.read_ctrl(), 0);
    assert_eq!(port.baudrate_timer, 0);
    assert_eq!(port.mode.value, 0);
    assert!(port.tx_idle && port.tx_ready);
    assert_eq!(port.read_stat(), 0x5);
}
