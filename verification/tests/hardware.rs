use rsx_redux::cpu::bus::dma::dma_channel::{Dma, DmaChannel};
use rsx_redux::cpu::bus::dma::dma_channel_control_register::DmaChannelControlRegister;
use rsx_redux::cpu::bus::dma::dma_control_register::DmaControlRegister;
use rsx_redux::cpu::bus::dma::transfers::DmaFault;
use rsx_redux::cpu::bus::gpu::GPU;
use rsx_redux::cpu::bus::mdec::{Mdec, MdecStep};
use rsx_redux::cpu::bus::registers::interrupt_register::InterruptRegister;
use rsx_redux::cpu::bus::scheduler::{EventType, Scheduler};
use rsx_redux::cpu::bus::spu::voice::Adsr;
use rsx_redux::cpu::bus::timer::Timer;

#[test]
fn dpcr_priorities_are_three_bit_fields() {
    let r = DmaControlRegister::from_bits_retain(0x0765_4321);
    assert_eq!(r.dma0_priority(), 1);
    assert_eq!(r.dma1_priority(), 2);
    assert_eq!(r.dma2_priority(), 3);
    assert_eq!(r.dma3_priority(), 4);
    assert_eq!(r.dma4_priority(), 5);
    assert_eq!(r.dma5_priority(), 6);
    assert_eq!(r.dma6_priority(), 7);
    assert_eq!(DmaControlRegister::from_bits_retain(0x7).dma0_priority(), 7);
    assert_eq!(DmaControlRegister::from_bits_retain(0x60).dma1_priority(), 6);
    assert_eq!(DmaControlRegister::from_bits_retain(0x500).dma2_priority(), 5);
}

#[test]
fn adsr_low_half_sets_decay_shift() {
    let mut adsr = Adsr::new();
    adsr.write_lower(0x8f5a);
    assert_eq!(adsr.decay_shift, 5);
    assert_eq!(adsr.sustain_level, 0xb * 0x800);
    assert_eq!(adsr.attack_shift, 3);
    assert_eq!(adsr.value & 0xffff, 0x8f5a);
}

#[test]
fn timer_sync_mode_three_pauses_until_blank() {
    let mut t = Timer::new(0);
    t.write_counter_register(0x0007);
    assert!(!t.is_active);
    let mut t2 = Timer::new(1);
    t2.write_counter_register(0x0003);
    assert!(t2.is_active);
}

#[test]
fn timer_two_divided_clock_counts_every_eight_cycles() {
    let mut t = Timer::new(2);
    t.write_counter_register(0x0200);
    let mut stat = InterruptRegister::from_bits_retain(0);
    t.tick(16, &mut stat);
    assert_eq!(t.counter, 2);
    assert_eq!(stat.bits(), 0);
    t.tick(5, &mut stat);
    assert_eq!(t.counter, 2);
    t.tick(3, &mut stat);
    assert_eq!(t.counter, 3);
}

#[test]
fn gpu_starts_non_interlaced_320_by_240() {
    let gpu = GPU::new();
    assert_eq!(gpu.get_dimensions(), (320, 240));
    assert!(!gpu.display.interlaced);
}

#[test]
fn mdec_status_after_power_on() {
    let m = Mdec::new();
    assert_eq!(m.read(0x1f801824), 0x8004_ffff);
    assert!(!m.is_signed && !m.output_bit15);
}

#[test]
fn mdec_control_reset_and_enables() {
    let mut m = Mdec::new();
    m.write(0x1f801824, 0x6000_0000);
    assert!(m.dma_in_enable && m.dma_out_enable);
    m.write(0x1f801820, 0x4000_0000);
    assert_eq!(m.command, Some(2));
    m.write(0x1f801824, 0x8000_0000);
    assert!(!m.dma_in_enable && !m.dma_out_enable);
    assert_eq!(m.command, None);
    assert_eq!(m.in_fifo.len(), 0);
}

#[test]
fn mdec_loads_the_scale_table() {
    let mut m = Mdec::new();
    m.write(0x1f801820, 0x6000_0000);
    assert_eq!(m.words_remaining, 32);
    let mut last = MdecStep::MissingData;
    for i in 0..32u32 {
        last = m.write(0x1f801820, (2 * i + 1) << 16 | 2 * i);
    }
    assert!(matches!(last, MdecStep::Status(_)));
    assert_eq!(m.scale_table[0], 0);
    assert_eq!(m.scale_table[1], 1);
    assert_eq!(m.scale_table[63], 63);
    assert_eq!(m.command, None);
}

#[test]
fn mdec_rejects_an_unknown_command() {
    let mut m = Mdec::new();
    let r = m.write(0x1f801820, 0xe000_0000);
    assert!(matches!(r, MdecStep::InvalidCommand(7)));
}

#[test]
fn scheduler_saves_and_restores_events() {
    let mut s = Scheduler::new();
    s.schedule(EventType::TickSpu, 100);
    s.schedule(EventType::DmaFinished(2), 40);
    let saved = s.serialize_scheduler();
    assert_eq!(saved.len(), 2);
    assert!(saved.iter().any(|e| e.0 == EventType::TickSpu && e.1 == 100));
    assert!(saved.iter().any(|e| e.0 == EventType::DmaFinished(2) && e.1 == 40));
    let mut t = Scheduler::new();
    t.deserialize_scheduler(&saved);
    assert_eq!(t.get_cycles_to_next_event(), 40);
}

#[test]
fn dma_burst_hands_ram_words_to_gp0() {
    let mut gpu = GPU::new();
    let mut ram = vec![0u8; 0x200000];
    ram[0x200..0x204].copy_from_slice(&0xe100_000fu32.to_le_bytes());
    let mut channel = DmaChannel::new();
    channel.base_address = 0x200;
    channel.block_size = 1;
    channel.control = DmaChannelControlRegister::from_bits_retain(DmaChannelControlRegister::TRANSFER_DIR);
    assert_eq!(channel.start_gpu_transfer(&mut ram, &mut gpu), Ok(()));
    assert_eq!(gpu.read_stat() & 0xf, 0xf);
}

#[test]
fn dma_transfer_outside_ram_is_refused() {
    let mut gpu = GPU::new();
    let mut ram = vec![0u8; 0x100];
    let mut channel = DmaChannel::new();
    channel.base_address = 0x200;
    channel.block_size = 1;
    channel.control = DmaChannelControlRegister::from_bits_retain(DmaChannelControlRegister::TRANSFER_DIR);
    assert_eq!(channel.start_gpu_transfer(&mut ram, &mut gpu), Err(DmaFault::AddressOutOfRange));
}

#[test]
fn dma_linked_list_runs_to_the_end_marker() {
    let mut dma = Dma::new();
    let mut gpu = GPU::new();
    let mut ram = vec![0u8; 0x200000];
    let mut scheduler = Scheduler::new();
    let mut ir = InterruptRegister::from_bits_retain(0);
    ram[0x100..0x104].copy_from_slice(&0x0100_0200u32.to_le_bytes());
    ram[0x104..0x108].copy_from_slice(&0xe100_0003u32.to_le_bytes());
    ram[0x200..0x204].copy_from_slice(&0x00ff_ffffu32.to_le_bytes());
    dma.channels[2].current_address = 0x100;
    assert_eq!(dma.process_linked_list(&mut ram, &mut gpu, &mut ir, &mut scheduler), Ok(()));
    assert_eq!(dma.channels[2].current_address, 0xffffff);
    assert!(!dma.channels[2].halted);
    assert_eq!(gpu.read_stat() & 0xf, 0x3);
}
