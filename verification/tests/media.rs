use std::collections::VecDeque;

use rsx_redux::cpu::bus::cdrom::{bcd_to_u8, u8_to_bcd, CDRom, ControllerMode};
use rsx_redux::cpu::bus::mdec::{Mdec, MdecStep};
use rsx_redux::cpu::bus::registers::interrupt_register::InterruptRegister;
use rsx_redux::cpu::bus::scheduler::Scheduler;
use rsx_redux::cpu::bus::spu::voice::{AdsrPhase, Voice};
use rsx_redux::cpu::bus::spu::{clamp, SoundRam};

const MDEC_COMMAND: usize = 0x1f801820;
const MDEC_CONTROL: usize = 0x1f801824;

#[test]
fn mdec_status_after_reset() {
    let mdec = Mdec::new();
    assert_eq!(mdec.read(MDEC_CONTROL), 0x8004_ffff);
}

#[test]
fn mdec_control_enables_dma_requests() {
    let mut mdec = Mdec::new();
    match mdec.write(MDEC_CONTROL, 0x6000_0000) {
        MdecStep::Status(dma) => {
            assert!(dma.dma_in);
            assert!(!dma.dma_out);
        }
        other => panic!("unexpected step {:?}", other),
    }
    mdec.write(MDEC_CONTROL, 0x8000_0000);
    assert!(!mdec.dma_in_enable && !mdec.dma_out_enable);
}

#[test]
fn mdec_rejects_unknown_command() {
    let mut mdec = Mdec::new();
    assert_eq!(mdec.write(MDEC_COMMAND, 0x0000_0000), MdecStep::InvalidCommand(0));
}

#[test]
fn mdec_loads_quant_table() {
    let mut mdec = Mdec::new();
    mdec.write(MDEC_COMMAND, 0x4000_0000);
    for i in 0..16u32 {
        mdec.write(MDEC_COMMAND, (4 * i) | (4 * i + 1) << 8 | (4 * i + 2) << 16 | (4 * i + 3) << 24);
    }
    let expected: Vec<u8> = (0..64).collect();
    assert_eq!(mdec.luminance_quant_table, expected);
    assert!(mdec.command.is_none());
}

#[test]
fn mdec_decodes_a_macroblock() {
    let mut mdec = Mdec::new();
    mdec.write(MDEC_COMMAND, 0x6000_0000);
    for _ in 0..32 {
        mdec.write(MDEC_COMMAND, 0x7fff_7fff);
    }
    assert_eq!(mdec.scale_table, vec![0x7fff; 64]);
    // Decode one macroblock at 15 bits per pixel: six blocks of a DC value and an end code.
    mdec.write(MDEC_COMMAND, 0x3800_0006);
    let mut conversions = Vec::new();
    for _ in 0..6 {
        let mut step = mdec.write(MDEC_COMMAND, 0xfe00_01ff);
        while let MdecStep::Convert(xx, yy) = step {
            conversions.push((xx, yy));
            step = mdec.execute();
        }
    }
    assert_eq!(conversions, vec![(0, 0), (8, 0), (0, 8), (8, 8)]);
    assert_eq!(mdec.cr_block, vec![255; 64]);
    assert_eq!(mdec.cb_block, vec![255; 64]);
    assert_eq!(mdec.y_block, vec![255; 64]);
    assert_eq!(mdec.out_fifo.len(), 512);
    assert!(mdec.command.is_none());
    assert_eq!(mdec.read_out_fifo(), 0);
    assert_eq!(mdec.out_fifo.len(), 508);
}

#[test]
fn sound_ram_reads_back_halfwords() {
    let mut ram = SoundRam::new();
    ram.write16(0x100, 0xbeef);
    assert_eq!(ram.read16(0x100), 0xbeef);
    assert_eq!(ram.read8(0x100), 0xef);
    assert_eq!(ram.read8(0x101), 0xbe);
}

#[test]
fn clamp_limits_samples() {
    assert_eq!(clamp(40000, -0x8000, 0x7fff), 0x7fff);
    assert_eq!(clamp(-40000, -0x8000, 0x7fff), -0x8000);
    assert_eq!(clamp(123, -0x8000, 0x7fff), 123);
}

#[test]
fn voice_decodes_an_adpcm_block() {
    let mut ram = SoundRam::new();
    // Shift 0, filter 0, loop end; every sample byte holds nibbles 1 and 2.
    ram.write16(0x1000, 0x0100);
    for i in 0..7 {
        ram.write16(0x1002 + 2 * i, 0x2121);
    }
    let mut voice = Voice::new();
    voice.write(6, 0x1000 / 8);
    voice.write(4, 0x1000);
    voice.update_keyon();
    assert!(voice.adsr.phase == AdsrPhase::Attack);
    let mut interrupt = InterruptRegister::from_bits_retain(0);
    let (left, right, endx) = voice.generate_samples(&ram, 0x1000, true, &mut interrupt, false, 0, false);
    assert_eq!((left, right, endx), (0, 0, false));
    assert_eq!(voice.current_samples[0], 4096);
    assert_eq!(voice.current_samples[1], 8192);
    assert_eq!(voice.current_samples[27], 8192);
    assert_eq!(voice.current_address, 0x1010);
    assert_eq!(voice.pitch_counter, 0x1000);
    assert!(voice.current_block.loop_end);
    assert_eq!(interrupt.bits(), InterruptRegister::SPU);
}

#[test]
fn idle_voice_is_silent() {
    let ram = SoundRam::new();
    let mut voice = Voice::new();
    let mut interrupt = InterruptRegister::from_bits_retain(0);
    assert_eq!(voice.generate_samples(&ram, 0, false, &mut interrupt, false, 0, false), (0, 0, false));
    assert_eq!(voice.current_address, 0);
}

#[test]
fn bcd_conversions() {
    assert_eq!(bcd_to_u8(0x59), 59);
    assert_eq!(u8_to_bcd(74), 0x74);
    for v in 0..100u8 {
        assert_eq!(bcd_to_u8(u8_to_bcd(v)), v);
    }
}

fn run_ticks(cd: &mut CDRom, scheduler: &mut Scheduler, interrupt: &mut InterruptRegister, n: usize) {
    let mut left = VecDeque::new();
    let mut right = VecDeque::new();
    for _ in 0..n {
        cd.tick(scheduler, &mut left, &mut right, interrupt, 0).unwrap();
    }
}

#[test]
fn cdrom_status_after_reset() {
    let mut scheduler = Scheduler::new();
    let mut cd = CDRom::new(&mut scheduler);
    assert_eq!(cd.read(0x1f801800), 0x58);
}

#[test]
fn cdrom_getstat_answers_with_interrupt_3() {
    let mut scheduler = Scheduler::new();
    let mut interrupt = InterruptRegister::from_bits_retain(0);
    let mut cd = CDRom::new(&mut scheduler);
    cd.write_bank(1);
    cd.write(0x1f801802, 0x1f, &mut interrupt);
    cd.write_bank(0);
    cd.write(0x1f801801, 0x01, &mut interrupt);
    run_ticks(&mut cd, &mut scheduler, &mut interrupt, 7);
    assert_eq!(cd.controller_mode, ControllerMode::Idle);
    assert_eq!(cd.irqs, 3);
    assert_eq!(interrupt.bits(), InterruptRegister::CDROM);
    assert_eq!(cd.read(0x1f801801), 0x02);
    assert_eq!(cd.read(0x1f801801), 0x00);
    cd.write_bank(1);
    assert_eq!(cd.read(0x1f801803), 0xe3);
    cd.write(0x1f801803, 0x07, &mut interrupt);
    assert_eq!(cd.irqs, 0);
}

#[test]
fn cdrom_setloc_then_seek_reaches_the_position() {
    let mut scheduler = Scheduler::new();
    let mut interrupt = InterruptRegister::from_bits_retain(0);
    let mut cd = CDRom::new(&mut scheduler);
    cd.write(0x1f801802, 0x00, &mut interrupt);
    cd.write(0x1f801802, 0x02, &mut interrupt);
    cd.write(0x1f801802, 0x16, &mut interrupt);
    cd.write(0x1f801801, 0x02, &mut interrupt);
    run_ticks(&mut cd, &mut scheduler, &mut interrupt, 12);
    assert_eq!((cd.msf.amm, cd.msf.ass, cd.msf.asect), (0, 2, 16));
    assert!(cd.pre_seek);
    cd.write_bank(1);
    cd.write(0x1f801803, 0x1f, &mut interrupt);
    cd.write_bank(0);
    cd.write(0x1f801801, 0x15, &mut interrupt);
    run_ticks(&mut cd, &mut scheduler, &mut interrupt, 60);
    assert_eq!((cd.current_msf.amm, cd.current_msf.ass, cd.current_msf.asect), (0, 2, 16));
    assert!(!cd.pre_seek && !cd.is_seeking);
    assert_eq!(cd.subchannel_q.ss, 0);
}

#[test]
fn cdrom_open_shell_reports_an_error() {
    let mut scheduler = Scheduler::new();
    let mut interrupt = InterruptRegister::from_bits_retain(0);
    let mut cd = CDRom::new(&mut scheduler);
    cd.open_shell(&mut interrupt);
    assert_eq!(cd.controller_response_fifo, VecDeque::from(vec![0x13, 0x08]));
    assert_eq!(cd.irqs, 5);
    assert_eq!(interrupt.bits(), 0);
}
