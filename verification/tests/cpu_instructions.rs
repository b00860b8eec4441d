use rsx_redux::cpu::bus::Bus;
use rsx_redux::cpu::instructions::Instruction;
use rsx_redux::cpu::{CpuError, ExceptionType, CPU};

/// Encodes an I-type instruction.
fn itype(op: u32, rs: u32, rt: u32, imm: u32) -> u32 {
    (op << 26) | (rs << 21) | (rt << 16) | (imm & 0xffff)
}

/// Encodes an R-type (opcode 0) instruction.
fn rtype(funct: u32, rs: u32, rt: u32, rd: u32, shamt: u32) -> u32 {
    (rs << 21) | (rt << 16) | (rd << 11) | (shamt << 6) | funct
}

fn cpu() -> CPU {
    CPU::new(None)
}

#[test]
fn instruction_fields() {
    let i = Instruction(0x2508_fffe);
    assert_eq!(i.immediate16(), 0xfffe);
    assert_eq!(i.signed_immediate16(), -2);
    assert_eq!(i.rs(), 8);
    assert_eq!(i.rt(), 8);
    assert_eq!(Instruction(0x0001_1080).rd(), 2);
    assert_eq!(Instruction(0x0001_1080).immediate5(), 2);
    assert_eq!(Instruction(0x0bf0_0054).immediate26(), 0x3f0_0054);
    assert_eq!(Instruction(0x4080_6000).cop_code(), 4);
    assert_eq!(Instruction(0x0401_0003).bcond(), 1);
}

#[test]
fn new_cpu_starts_at_reset_vector() {
    let c = cpu();
    assert_eq!(c.pc, 0xbfc0_0000);
    assert_eq!(c.next_pc, 0xbfc0_0004);
    assert!(c.r.0.iter().all(|&r| r == 0));
}

#[test]
fn addiu_wraps_and_sign_extends() {
    let mut c = cpu();
    c.r.0[8] = 1;
    let cycles = c.decode_opcode(itype(0x09, 8, 9, 0xffff)).unwrap();
    assert_eq!(cycles, 2);
    assert_eq!(c.r.0[9], 0);
    assert_eq!(c.ignored_load_delay, Some(9));
}

#[test]
fn addi_overflow_raises_exception() {
    let mut c = cpu();
    c.r.0[8] = 0x7fff_ffff;
    c.previous_pc = 0x8000_1000;
    c.decode_opcode(itype(0x08, 8, 9, 1)).unwrap();
    assert_eq!(c.r.0[9], 0);
    // Cause holds exception code 0xc in bits 2..6
    assert_eq!((c.cop0.cause.bits >> 2) & 0x1f, 0xc);
    assert_eq!(c.cop0.epc, 0x8000_1000);
    assert_eq!(c.pc, 0x8000_0080);
}

#[test]
fn logic_and_shifts() {
    let mut c = cpu();
    c.r.0[1] = 0xf0f0_0000;
    c.r.0[2] = 0x0ff0_00ff;
    c.decode_opcode(rtype(0x24, 1, 2, 3, 0)).unwrap();
    assert_eq!(c.r.0[3], 0x00f0_0000);
    c.decode_opcode(rtype(0x25, 1, 2, 3, 0)).unwrap();
    assert_eq!(c.r.0[3], 0xfff0_00ff);
    c.decode_opcode(rtype(0x27, 1, 2, 3, 0)).unwrap();
    assert_eq!(c.r.0[3], 0x000f_ff00);
    c.decode_opcode(rtype(0x03, 0, 1, 4, 4)).unwrap();
    assert_eq!(c.r.0[4], 0xff0f_0000);
    c.decode_opcode(rtype(0x02, 0, 1, 4, 4)).unwrap();
    assert_eq!(c.r.0[4], 0x0f0f_0000);
    c.decode_opcode(itype(0x0f, 0, 5, 0x1234)).unwrap();
    assert_eq!(c.r.0[5], 0x1234_0000);
}

#[test]
fn set_less_than_signed_and_unsigned() {
    let mut c = cpu();
    c.r.0[1] = 0xffff_ffff;
    c.r.0[2] = 1;
    c.decode_opcode(rtype(0x2a, 1, 2, 3, 0)).unwrap();
    assert_eq!(c.r.0[3], 1);
    c.decode_opcode(rtype(0x2b, 1, 2, 3, 0)).unwrap();
    assert_eq!(c.r.0[3], 0);
}

#[test]
fn mult_and_div() {
    let mut c = cpu();
    c.r.0[1] = (-3i32) as u32;
    c.r.0[2] = 7;
    c.decode_opcode(rtype(0x18, 1, 2, 0, 0)).unwrap();
    assert_eq!(c.lo, (-21i32) as u32);
    assert_eq!(c.hi, 0xffff_ffff);
    c.decode_opcode(rtype(0x1a, 2, 1, 0, 0)).unwrap();
    // 7 / -3 rounds toward zero
    assert_eq!(c.lo, (-2i32) as u32);
    assert_eq!(c.hi, 1);
    c.r.0[2] = (-7i32) as u32;
    c.r.0[1] = 2;
    c.decode_opcode(rtype(0x1a, 2, 1, 0, 0)).unwrap();
    assert_eq!(c.lo, (-3i32) as u32);
    assert_eq!(c.hi, (-1i32) as u32);
    c.r.0[1] = 0;
    c.decode_opcode(rtype(0x1a, 2, 1, 0, 0)).unwrap();
    assert_eq!(c.lo, 1);
    assert_eq!(c.hi, (-7i32) as u32);
    c.r.0[2] = 0x8000_0000;
    c.r.0[1] = 0xffff_ffff;
    c.decode_opcode(rtype(0x1a, 2, 1, 0, 0)).unwrap();
    assert_eq!(c.lo, 0x8000_0000);
    assert_eq!(c.hi, 0);
    c.r.0[2] = 10;
    c.r.0[1] = 0;
    c.decode_opcode(rtype(0x1b, 2, 1, 0, 0)).unwrap();
    assert_eq!(c.lo, 0xffff_ffff);
    assert_eq!(c.hi, 10);
    c.r.0[1] = 0xffff_ffff;
    c.r.0[2] = 0xffff_ffff;
    c.decode_opcode(rtype(0x19, 1, 2, 0, 0)).unwrap();
    assert_eq!(c.lo, 1);
    assert_eq!(c.hi, 0xffff_fffe);
}

#[test]
fn branch_sets_next_pc() {
    let mut c = cpu();
    c.pc = 0x8000_0104;
    c.next_pc = 0x8000_0108;
    c.r.0[1] = 5;
    c.r.0[2] = 5;
    c.decode_opcode(itype(0x04, 1, 2, 0xfffe)).unwrap();
    assert!(c.branch_taken);
    assert_eq!(c.next_pc, 0x8000_00fc);
}

#[test]
fn jal_links() {
    let mut c = cpu();
    c.pc = 0x8000_0104;
    c.next_pc = 0x8000_0108;
    c.decode_opcode((0x03 << 26) | 0x40).unwrap();
    assert_eq!(c.r.0[31], 0x8000_0108);
    assert_eq!(c.next_pc, 0x8000_0100);
}

#[test]
fn store_then_load_word_through_ram() {
    let mut c = cpu();
    c.r.0[1] = 0x8000_0100;
    c.r.0[2] = 0xdead_beef;
    c.decode_opcode(itype(0x2b, 1, 2, 4)).unwrap();
    assert_eq!(&c.bus.main_ram[0x104..0x108], &[0xef, 0xbe, 0xad, 0xde]);
    c.decode_opcode(itype(0x23, 1, 3, 4)).unwrap();
    // the load lands after the next instruction
    assert_eq!(c.r.0[3], 0);
    assert_eq!(c.delayed_load, Some((3, 0xdead_beef)));
    c.decode_opcode(itype(0x20, 1, 4, 7)).unwrap();
    assert_eq!(c.r.0[3], 0xdead_beef);
    assert_eq!(c.delayed_load, Some((4, 0xffff_ffde)));
}

#[test]
fn unaligned_load_raises_address_error() {
    let mut c = cpu();
    c.r.0[1] = 0x8000_0101;
    c.decode_opcode(itype(0x23, 1, 3, 0)).unwrap();
    assert_eq!(c.cop0.bad_addr, 0x8000_0101);
    assert_eq!((c.cop0.cause.bits >> 2) & 0x1f, 4);
}

#[test]
fn unaligned_store_raises_address_error() {
    let mut c = cpu();
    c.r.0[1] = 0x8000_0102;
    c.decode_opcode(itype(0x2b, 1, 3, 0)).unwrap();
    assert_eq!(c.cop0.bad_addr, 0x8000_0102);
    assert_eq!((c.cop0.cause.bits >> 2) & 0x1f, 5);
}

#[test]
fn isolated_cache_drops_stores() {
    let mut c = cpu();
    c.cop0.sr.bits = 1 << 16;
    c.r.0[1] = 0x8000_0100;
    c.r.0[2] = 0x1234_5678;
    c.decode_opcode(itype(0x2b, 1, 2, 0)).unwrap();
    assert_eq!(&c.bus.main_ram[0x100..0x104], &[0, 0, 0, 0]);
}

#[test]
fn lwl_lwr_merge() {
    let mut c = cpu();
    c.bus.main_ram[0x100..0x104].copy_from_slice(&[0x11, 0x22, 0x33, 0x44]);
    c.r.0[1] = 0x8000_0100;
    c.r.0[2] = 0xaabb_ccdd;
    c.decode_opcode(itype(0x22, 1, 2, 1)).unwrap();
    assert_eq!(c.delayed_load, Some((2, 0x2211_ccdd)));
    c.decode_opcode(itype(0x26, 1, 2, 1)).unwrap();
    assert_eq!(c.delayed_load, Some((2, 0x2244_3322)));
}

#[test]
fn swl_swr_merge() {
    let mut c = cpu();
    c.bus.main_ram[0x100..0x104].copy_from_slice(&[0x11, 0x22, 0x33, 0x44]);
    c.r.0[1] = 0x8000_0100;
    c.r.0[2] = 0xaabb_ccdd;
    c.decode_opcode(itype(0x2a, 1, 2, 1)).unwrap();
    assert_eq!(&c.bus.main_ram[0x100..0x104], &[0xbb, 0xaa, 0x33, 0x44]);
    c.decode_opcode(itype(0x2e, 1, 2, 2)).unwrap();
    assert_eq!(&c.bus.main_ram[0x100..0x104], &[0xbb, 0xaa, 0xdd, 0xcc]);
}

#[test]
fn cop0_moves_and_rfe() {
    let mut c = cpu();
    c.r.0[2] = 0x0000_003c;
    // mtc0 $2, $12
    c.decode_opcode(0x4082_6000).unwrap();
    assert_eq!(c.cop0.sr.bits, 0x3c);
    // rfe
    c.decode_opcode(0x4200_0010).unwrap();
    assert_eq!(c.cop0.sr.bits, 0x3f);
    // mfc0 $3, $12
    c.decode_opcode(0x4003_6000).unwrap();
    assert_eq!(c.delayed_load, Some((3, 0x3f)));
    // mfc0 from a register that cannot be read
    assert_eq!(c.decode_opcode(0x4003_0000), Err(CpuError::Cop0(0x4003_0000)));
}

#[test]
fn reserved_and_gte_instructions_stop() {
    let mut c = cpu();
    assert_eq!(c.decode_opcode(0xfc00_0000), Err(CpuError::ReservedInstruction(0xfc00_0000)));
    assert_eq!(c.decode_opcode(0x4a00_0000), Err(CpuError::Gte(0x4a00_0000)));
    assert_eq!(c.decode_opcode(0x0000_0001), Err(CpuError::ReservedInstruction(1)));
}

#[test]
fn syscall_enters_handler_in_bios_when_bev() {
    let mut c = cpu();
    c.cop0.sr.bits = 1 << 22;
    c.previous_pc = 0xbfc0_0010;
    c.decode_opcode(0x0000_000c).unwrap();
    assert_eq!(c.pc, 0xbfc0_0180);
    assert_eq!(c.cop0.epc, 0xbfc0_0010);
    assert_eq!((c.cop0.cause.bits >> 2) & 0x1f, 8);
}

#[test]
fn exception_in_delay_slot_points_epc_at_branch() {
    let mut c = cpu();
    c.in_delay_slot = true;
    c.previous_pc = 0x8000_0204;
    c.pc = 0x8000_0300;
    c.enter_exception(ExceptionType::Break);
    assert_eq!(c.cop0.epc, 0x8000_0200);
    assert_eq!(c.cop0.cause.bits >> 31, 1);
    assert_eq!(c.cop0.tar, 0x8000_0300);
}

#[test]
fn step_runs_bios_code() {
    let mut c = cpu();
    let mut bios = vec![0u8; 0x80000];
    let program = [itype(0x0f, 0, 1, 0x1234), itype(0x0d, 1, 1, 0x5678), 0, 0];
    for (i, w) in program.iter().enumerate() {
        bios[i * 4..i * 4 + 4].copy_from_slice(&w.to_le_bytes());
    }
    c.bus.load_bios(bios);
    c.step().unwrap();
    assert_eq!(c.r.0[1], 0x1234_0000);
    assert_eq!(c.pc, 0xbfc0_0004);
    c.step().unwrap();
    assert_eq!(c.r.0[1], 0x1234_5678);
    assert_eq!(c.pc, 0xbfc0_0008);
    // BIOS reads cost 4 cycles each unless cached, instructions 2
    assert_eq!(c.bus.scheduler.cycles, 12);
}

#[test]
fn step_without_bios_stops() {
    let mut c = cpu();
    assert_eq!(c.step(), Err(CpuError::UnmappedAddress(0xbfc0_0000)));
}

#[test]
fn load_exe_places_body_and_registers() {
    let mut c = cpu();
    let mut exe = vec![0u8; 0x804];
    exe[0x10..0x14].copy_from_slice(&0x8001_0000u32.to_le_bytes());
    exe[0x14..0x18].copy_from_slice(&0x1111_0000u32.to_le_bytes());
    exe[0x18..0x1c].copy_from_slice(&0x8001_0000u32.to_le_bytes());
    exe[0x1c..0x20].copy_from_slice(&4u32.to_le_bytes());
    exe[0x30..0x34].copy_from_slice(&0x801f_fff0u32.to_le_bytes());
    exe[0x34..0x38].copy_from_slice(&0x10u32.to_le_bytes());
    exe[0x800..0x804].copy_from_slice(&[1, 2, 3, 4]);
    c.load_exe(&exe).unwrap();
    assert_eq!(c.pc, 0x8001_0000);
    assert_eq!(c.next_pc, 0x8001_0004);
    assert_eq!(c.r.0[28], 0x1111_0000);
    assert_eq!(c.r.0[29], 0x8020_0000);
    assert_eq!(c.r.0[30], 0x8020_0000);
    assert_eq!(&c.bus.main_ram[0x10000..0x10004], &[1, 2, 3, 4]);
    assert_eq!(c.load_exe(&vec![0u8; 0x20]), Err(CpuError::InvalidExe));
}

#[test]
fn bus_translates_segments() {
    assert_eq!(Bus::translate_address(0x8000_1234), 0x1234);
    assert_eq!(Bus::translate_address(0xa000_1234), 0x1234);
    assert_eq!(Bus::translate_address(0xbfc0_0000), 0x1fc0_0000);
    assert_eq!(Bus::translate_address(0xfffe_0130), 0xfffe_0130);
    assert_eq!(Bus::translate_address(0x1f80_1070), 0x1f80_1070);
}
