use rsx_redux::cpu::bus::registers::interrupt_register::InterruptRegister;
use rsx_redux::cpu::bus::Bus;
use rsx_redux::cpu::bus::scheduler::Scheduler;
use rsx_redux::cpu::bus::spu::reverb::Reverb;
use rsx_redux::cpu::bus::spu::voice::AdsrPhase;
use rsx_redux::cpu::bus::spu::SPU;

const SPUCNT: usize = 0x1f801daa;
const SPUSTAT: usize = 0x1f801dae;
const TRANSFER_ADDRESS: usize = 0x1f801da6;
const DATA_PORT: usize = 0x1f801da8;
const IRQ_ADDRESS: usize = 0x1f801da4;

fn new_spu() -> SPU {
    let mut scheduler = Scheduler::new();
    SPU::new(&mut scheduler)
}

#[test]
fn spu_starts_silent() {
    let spu = new_spu();
    assert_eq!(spu.voices.len(), 24);
    assert_eq!(spu.read16(SPUSTAT), 0);
    assert_eq!(spu.read16(SPUCNT), 0);
    assert!(spu.voices.iter().all(|v| v.adsr.phase == AdsrPhase::Idle));
}

#[test]
fn spu_key_on_halves_combine() {
    let mut spu = new_spu();
    let mut ir = InterruptRegister::from_bits_retain(0);
    spu.write16(0x1f801d88, 0x1234, &mut ir);
    spu.write16(0x1f801d8a, 0x00ab, &mut ir);
    assert_eq!(spu.keyon, 0x00ab_1234);
    assert_eq!(spu.read16(0x1f801d88), 0x1234);
    assert_eq!(spu.read16(0x1f801d8a), 0x00ab);
    assert_eq!(ir.bits(), 0);
}

#[test]
fn spu_modulation_low_half_keeps_bits_twelve_to_fifteen() {
    let mut spu = new_spu();
    let mut ir = InterruptRegister::from_bits_retain(0);
    spu.write16(0x1f801d92, 0x0001, &mut ir);
    spu.sound_modulation |= 0xf000;
    spu.write16(0x1f801d90, 0x0002, &mut ir);
    assert_eq!(spu.sound_modulation, 0x0001_f002);
    assert_eq!(spu.read16(0x1f801d90), 0xf002);
}

#[test]
fn spu_voice_registers_round_trip() {
    let mut spu = new_spu();
    let mut ir = InterruptRegister::from_bits_retain(0);
    // Voice 3, pitch and start address.
    spu.write16(0x1f801c34, 0x1000, &mut ir);
    spu.write16(0x1f801c36, 0x0200, &mut ir);
    assert_eq!(spu.read16(0x1f801c34), 0x1000);
    assert_eq!(spu.read16(0x1f801c36), 0x0200);
    assert_eq!(spu.voices[3].start_address, 0x1000);
    assert_eq!(spu.voices[3].sample_rate, 0x1000);
    assert_eq!(spu.voices[2].sample_rate, 0);
}

#[test]
fn spu_key_on_starts_voice_and_clears_endx() {
    let mut spu = new_spu();
    let mut ir = InterruptRegister::from_bits_retain(0);
    spu.write16(0x1f801c16, 0x0010, &mut ir);
    spu.endx = 0x3;
    spu.write16(0x1f801d88, 0x0002, &mut ir);
    spu.update_keystatus();
    assert_eq!(spu.keyon, 0);
    assert_eq!(spu.endx, 0x1);
    assert!(spu.voices[1].adsr.phase == AdsrPhase::Attack);
    assert_eq!(spu.voices[1].current_address, 0x80);
    assert!(spu.voices[0].adsr.phase == AdsrPhase::Idle);
}

#[test]
fn spu_key_off_releases_voice() {
    let mut spu = new_spu();
    let mut ir = InterruptRegister::from_bits_retain(0);
    spu.write16(0x1f801d88, 0x0001, &mut ir);
    spu.update_keystatus();
    spu.write16(0x1f801d8c, 0x0001, &mut ir);
    spu.update_keystatus();
    assert!(spu.voices[0].adsr.phase == AdsrPhase::Release);
    assert_eq!(spu.keyoff, 0);
}

#[test]
fn spu_data_port_writes_sound_ram() {
    let mut spu = new_spu();
    let mut ir = InterruptRegister::from_bits_retain(0);
    spu.write16(TRANSFER_ADDRESS, 0x0010, &mut ir);
    assert_eq!(spu.current_ram_address, 0x80);
    spu.write16(DATA_PORT, 0xbeef, &mut ir);
    spu.write16(DATA_PORT, 0x1234, &mut ir);
    assert_eq!(spu.current_ram_address, 0x84);
    assert_eq!(spu.sound_ram.read16(0x80), 0xbeef);
    assert_eq!(spu.sound_ram.read16(0x82), 0x1234);
    assert_eq!(spu.read16(TRANSFER_ADDRESS), 0x0010);
}

#[test]
fn spu_data_port_raises_irq_at_irq_address() {
    let mut spu = new_spu();
    let mut ir = InterruptRegister::from_bits_retain(0);
    spu.write16(IRQ_ADDRESS, 0x0001, &mut ir);
    spu.write16(TRANSFER_ADDRESS, 0x0000, &mut ir);
    spu.write16(SPUCNT, 0x0040, &mut ir);
    assert_eq!(ir.bits(), 0);
    for _ in 0..4 {
        spu.write16(DATA_PORT, 0x5555, &mut ir);
    }
    assert_eq!(ir.bits(), InterruptRegister::SPU);
    assert_eq!(spu.read16(SPUSTAT) & 0x40, 0x40);
    // Disabling the interrupt clears its flag.
    spu.write16(SPUCNT, 0x0000, &mut ir);
    assert_eq!(spu.read16(SPUSTAT) & 0x40, 0);
}

#[test]
fn spu_manual_write_mode_flushes_fifo_in_order() {
    let mut spu = new_spu();
    let mut ir = InterruptRegister::from_bits_retain(0);
    spu.write16(TRANSFER_ADDRESS, 0x0002, &mut ir);
    spu.dma_write(0x2222_1111);
    spu.dma_write(0x4444_3333);
    spu.write16(SPUCNT, 0x0010, &mut ir);
    assert_eq!(spu.sample_fifo.len(), 0);
    assert_eq!(spu.sound_ram.read16(0x10), 0x1111);
    assert_eq!(spu.sound_ram.read16(0x12), 0x2222);
    assert_eq!(spu.sound_ram.read16(0x14), 0x3333);
    assert_eq!(spu.sound_ram.read16(0x16), 0x4444);
    assert_eq!(spu.current_ram_address, 0x18);
    assert_eq!(spu.read16(SPUSTAT) & 0x3f, 0x10);
}

#[test]
fn spu_dma_write_transfer_drains_fifo_last_first() {
    let mut spu = new_spu();
    let mut ir = InterruptRegister::from_bits_retain(0);
    spu.write16(TRANSFER_ADDRESS, 0x0000, &mut ir);
    spu.write16(SPUCNT, 0x0020, &mut ir);
    // An empty FIFO in DMA write mode requests data.
    assert_eq!(spu.read16(SPUSTAT) & 0x380, 0x180);
    spu.dma_write(0xbbbb_aaaa);
    spu.execute_transfer(&mut ir);
    assert_eq!(spu.sound_ram.read16(0), 0xbbbb);
    assert_eq!(spu.sound_ram.read16(2), 0xaaaa);
    assert_eq!(spu.current_ram_address, 4);
    assert_eq!(spu.read16(SPUSTAT) & 0x780, 0x180);
}

#[test]
fn spu_dma_read_transfer_fills_fifo() {
    let mut spu = new_spu();
    let mut ir = InterruptRegister::from_bits_retain(0);
    spu.write16(TRANSFER_ADDRESS, 0x0000, &mut ir);
    spu.write16(DATA_PORT, 0x0102, &mut ir);
    spu.write16(DATA_PORT, 0x0304, &mut ir);
    spu.write16(TRANSFER_ADDRESS, 0x0000, &mut ir);
    spu.write16(SPUCNT, 0x0030, &mut ir);
    spu.execute_transfer(&mut ir);
    assert_eq!(spu.sample_fifo.len(), 32);
    assert_eq!(spu.sample_fifo[0], 0x0102);
    assert_eq!(spu.sample_fifo[1], 0x0304);
    assert_eq!(spu.sample_fifo[2], 0);
    assert_eq!(spu.current_ram_address, 64);
    assert_eq!(spu.read16(SPUSTAT) & 0x780, 0x280);
}

#[test]
fn spu_capture_position_wraps_and_reports_half() {
    let mut spu = new_spu();
    for _ in 0..0x100 {
        spu.increment_capture_buffer_address();
    }
    assert_eq!(spu.capture_buffer_pos, 0x200);
    assert_eq!(spu.read_stat() & 0x800, 0x800);
    for _ in 0..0x100 {
        spu.increment_capture_buffer_address();
    }
    assert_eq!(spu.capture_buffer_pos, 0);
    assert_eq!(spu.read_stat() & 0x800, 0);
}

#[test]
fn spu_capture_write_goes_to_its_buffer() {
    let mut spu = new_spu();
    let mut ir = InterruptRegister::from_bits_retain(0);
    spu.increment_capture_buffer_address();
    spu.write_to_capture(2, 0x7777, &mut ir);
    assert_eq!(spu.sound_ram.read16(0x802), 0x7777);
}

#[test]
fn spu_audio_buffer_is_bounded() {
    let mut spu = new_spu();
    for i in 0..16385 {
        spu.push_sample(i as i16);
    }
    assert_eq!(spu.audio_buffer.len(), 16384);
    assert_eq!(spu.audio_buffer[16383], 16383);
}

#[test]
fn reverb_registers_scale_addresses() {
    let mut reverb = Reverb::new();
    reverb.write16(0x1f801da2, 0x1000);
    reverb.write16(0x1f801dd4, 0x0010);
    reverb.write16(0x1f801dfc, 0x8000);
    assert_eq!(reverb.m_base, 0x8000);
    assert_eq!(reverb.buffer_address, 0x8000);
    assert_eq!(reverb.ml_same, 0x80);
    assert_eq!(reverb.v_lin, -0x8000);
    assert_eq!(reverb.calculate_address(0x10), 0x8010);
    reverb.buffer_address = 0x7fffe;
    assert_eq!(reverb.calculate_address(0x4), 0x8000);
}

#[test]
fn bus_routes_spu_registers() {
    let mut bus = Bus::new();
    assert!(bus.check_write16(0x1f801d88, 0x00ff));
    bus.mem_write16(0x1f801d88, 0x00ff);
    assert!(bus.check_read16(0x1f801d88));
    assert_eq!(bus.mem_read16(0x1f801d88), 0x00ff);
    assert_eq!(bus.spu.keyon, 0x00ff);
    assert!(!bus.check_write16(0x1f801e00, 0));
}

#[test]
fn bus_routes_joypad_registers() {
    let mut bus = Bus::new();
    assert!(bus.check_write16(0x1f80104a, 0x0002));
    bus.mem_write16(0x1f80104a, 0x0002);
    assert_eq!(bus.mem_read16(0x1f80104a), 0x0002);
    assert!(bus.check_read8(0x1f801040));
    assert_eq!(bus.mem_read8(0x1f801040), 0);
    bus.mem_write16(0x1f80104e, 0x0088);
    assert_eq!(bus.peripherals.baudrate_timer, 0x0088);
}
