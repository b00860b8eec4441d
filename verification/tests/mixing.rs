use rsx_redux::cpu::bus::gpu::{CYCLES_PER_SCANLINE, GPU, HBLANK_END, HBLANK_START};
use rsx_redux::cpu::bus::registers::interrupt_register::InterruptRegister;
use rsx_redux::cpu::bus::scheduler::{EventType, Scheduler};
use rsx_redux::cpu::bus::spu::SPU;
use rsx_redux::cpu::bus::timer::{ClockSource, Timer};

fn timers() -> [Timer; 3] {
    [Timer::new(0), Timer::new(1), Timer::new(2)]
}

#[test]
fn hblank_start_enters_timer0_blank() {
    let mut gpu = GPU::new();
    let mut ts = timers();
    ts[1].in_xblank = true;
    let mut stat = InterruptRegister::from_bits_retain(0);
    let r = gpu.handle_video_event(EventType::HblankStart, &mut ts, &mut stat, CYCLES_PER_SCANLINE);
    assert!(r == (EventType::HblankEnd, HBLANK_END));
    assert!(ts[0].in_xblank);
    assert!(!ts[1].in_xblank);
    assert_eq!(stat.bits(), 0);
}

#[test]
fn hblank_end_counts_dots_and_lines() {
    let mut gpu = GPU::new();
    let mut ts = timers();
    ts[0].clock_source = ClockSource::DotClock;
    ts[1].clock_source = ClockSource::Hblank;
    let mut stat = InterruptRegister::from_bits_retain(0);
    // 320 dots wide: 8 GPU cycles to a dot
    let r = gpu.handle_video_event(EventType::HblankEnd, &mut ts, &mut stat, 3413);
    assert!(r == (EventType::HblankStart, HBLANK_START));
    assert_eq!(ts[0].counter, 3413 / 8);
    assert_eq!(gpu.dotclock_cycles, 3413 % 8);
    assert_eq!(ts[1].counter, 1);
    assert_eq!(gpu.current_line, 1);
    assert!(!gpu.frame_finished);
}

#[test]
fn last_visible_line_starts_vblank() {
    let mut gpu = GPU::new();
    gpu.current_line = 240;
    let mut ts = timers();
    let mut stat = InterruptRegister::from_bits_retain(0);
    let r = gpu.handle_video_event(EventType::HblankEnd, &mut ts, &mut stat, CYCLES_PER_SCANLINE);
    assert!(r == (EventType::Vblank, CYCLES_PER_SCANLINE));
    assert!(gpu.frame_finished);
    assert!(ts[1].in_xblank);
    assert_eq!(stat.bits(), InterruptRegister::VBLANK);
    assert_eq!(gpu.current_line, 241);
}

#[test]
fn last_blank_line_wraps_the_frame() {
    let mut gpu = GPU::new();
    gpu.current_line = 262;
    let mut ts = timers();
    let mut stat = InterruptRegister::from_bits_retain(0);
    let r = gpu.handle_video_event(EventType::Vblank, &mut ts, &mut stat, CYCLES_PER_SCANLINE);
    assert!(r == (EventType::HblankStart, HBLANK_START));
    assert_eq!(gpu.current_line, 0);
    let r = gpu.handle_video_event(EventType::Vblank, &mut ts, &mut stat, CYCLES_PER_SCANLINE);
    assert!(r == (EventType::Vblank, CYCLES_PER_SCANLINE));
    assert_eq!(gpu.current_line, 1);
}

#[test]
fn silent_spu_mixes_zero() {
    let mut scheduler = Scheduler::new();
    let mut spu = SPU::new(&mut scheduler);
    let mut stat = InterruptRegister::from_bits_retain(0);
    let r = spu.mix_sample(&mut stat, (0, 0));
    assert_eq!(r, (0, 0, 0, 0));
    assert_eq!(spu.audio_buffer, vec![0, 0]);
    assert_eq!(spu.capture_buffer_pos, 2);
}

#[test]
fn cd_audio_is_mixed_and_captured() {
    let mut scheduler = Scheduler::new();
    let mut spu = SPU::new(&mut scheduler);
    spu.spucnt.bits = 0x1 | 0x4;
    spu.cd_volume = (0x8000, 0x4000);
    spu.main_volume_left = 0x4000;
    spu.main_volume_right = 0x4000;
    spu.cd_left_samples.push_back(0x4000);
    spu.cd_right_samples.push_back(0x2000);
    let mut stat = InterruptRegister::from_bits_retain(0);
    let r = spu.mix_sample(&mut stat, (0, 0));
    // left: 0x4000 at CD volume 0x8000 is 0x4000, at main volume 0x4000 it is 0x2000
    // right: 0x2000 at CD volume 0x4000 is 0x1000, at main volume 0x4000 it is 0x800
    assert_eq!(r, (0x2000, 0x800, 0x4000, 0x1000));
    assert!(spu.cd_left_samples.is_empty() && spu.cd_right_samples.is_empty());
    assert_eq!(spu.sound_ram.ram[0], 0x00);
    assert_eq!(spu.sound_ram.ram[1], 0x40);
    assert_eq!(spu.sound_ram.ram[0x400], 0x00);
    assert_eq!(spu.sound_ram.ram[0x401], 0x20);
    assert_eq!(spu.audio_buffer, vec![0x2000, 0x800]);
}

#[test]
fn mute_keeps_cd_audio() {
    let mut scheduler = Scheduler::new();
    let mut spu = SPU::new(&mut scheduler);
    spu.spucnt.bits = 0x4000 | 0x1;
    spu.cd_volume = (0x8000, 0x8000);
    spu.main_volume_left = 0x8000;
    spu.cd_left_samples.push_back(0x100);
    let mut stat = InterruptRegister::from_bits_retain(0);
    let r = spu.mix_sample(&mut stat, (0x10, 0x10));
    // main volume 0x8000 reads as -1.0
    assert_eq!(r.0, -0x100);
    assert_eq!(r.2, 0);
}

#[test]
fn capture_write_at_irq_address_raises_spu_interrupt() {
    let mut scheduler = Scheduler::new();
    let mut spu = SPU::new(&mut scheduler);
    spu.spucnt.bits = 0x40;
    spu.irq_address = 0x800;
    let mut stat = InterruptRegister::from_bits_retain(0);
    spu.mix_sample(&mut stat, (0, 0));
    assert_eq!(stat.bits(), InterruptRegister::SPU);
    assert_eq!(spu.spustat.bits & 0x40, 0x40);
}
