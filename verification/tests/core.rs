use rv64emu::cpu::RISCV64;
use rv64emu::csr::CSRName;
use rv64emu::device::DeviceId;
use rv64emu::inst::alu64;
use rv64emu::inst::patterns;
use rv64emu::inst::AluOp;
use rv64emu::inst::AmoOp;
use rv64emu::inst::Decode;
use rv64emu::inst::InstOp;
use rv64emu::inst::InstType;
use rv64emu::mem::MemOperationSize;
use rv64emu::mem::Memory;
use rv64emu::mstatus::MStatus;
use rv64emu::mstatus::RISCV64Privilege;
use rv64emu::paddr::PAddr;
use rv64emu::vaddr::VAddr;

fn small_machine() -> RISCV64 {
    // 64 KiB of RAM at the architectural base is plenty for these runs.
    let mem = Memory::new_with_size(0x10000);
    RISCV64::new(mem, &PAddr::new(0x80000000), true)
}

fn store_inst(cpu: &mut RISCV64, pa: u64, inst: u32) {
    let ok = cpu.state.memory.mem.write_n(pa, inst as u64, 4);
    assert!(ok.is_some());
}

#[test]
fn csr_it_works() {
    let i = 0xa00001800u64;
    let tt = MStatus(i);
    println!("{:?}", tt);
    let t = MStatus::new().with_SIE(true);
    println!("{:#x}", t.0);
}

#[test]
fn mstatus_it_works() {
    println!("{:#x}", 0b10u64 << 62 | 0b101000001000100101001);
    let tt: MStatus = MStatus::create();
    println!("{:?}", tt);
    let t = MStatus::new().with_SIE(true);
    println!("{:#x}", t.0);
}

#[test]
fn decode_j_test() {
    let pat = rv64emu::inst::make_pattern(
        "??????? ????? ????? ??? ????? 1101111",
        InstType::J,
        "jal",
        InstOp::Jal,
    );
    let res = pat.decode(&0xc000efu64);
    println!("{:#x}", res.imm);
    let res = pat.decode(&0b011111111111_00001_1101111u64);
    println!("{:#x}", res.imm);
}

#[test]
fn inst_it_works() {
    assert_eq!(patterns().len(), 87);
}

#[test]
fn register_zero_stays_zero() {
    let mut regs = rv64emu::reg::Registers::new();
    regs.write(0, 0x1234);
    assert_eq!(regs.read(0), 0);
    regs.write(5, 7);
    assert_eq!(regs.read(5), 7);
}

#[test]
fn csr_write_is_masked() {
    let mut csrs = rv64emu::csr::CSRs::new();
    // mepc takes every bit; misa takes none.
    let r = csrs.set(0x341, 0xdeadbeef, false).unwrap();
    assert_eq!(r.new, 0xdeadbeef);
    let misa_before = csrs.get_by_addr(0x301);
    let r2 = csrs.set(0x301, 0, false).unwrap();
    assert_eq!(r2.new, misa_before);
    // mstatus: only masked bits move.
    let pre = csrs.get_by_addr(0x300);
    let r3 = csrs.set(0x300, 0xffff_ffff_ffff_ffff, false).unwrap();
    let mask = rv64emu::csr::csr_mask(0x300);
    assert_eq!(r3.new, (0xffff_ffff_ffff_ffffu64 & mask) | (pre & !mask));
}

#[test]
fn csrrw_round_trip_restores() {
    let mut csrs = rv64emu::csr::CSRs::new();
    csrs.set(0x340, 0x55aa, false).unwrap();
    let v0 = csrs.get_by_addr(0x340);
    // csrrw rd, csr, x0: rd takes the old value, the CSR takes 0.
    let first = csrs.set(0x340, 0, false).unwrap();
    assert_eq!(first.old, v0);
    // csrrw x0, csr, rd: writing the saved value back restores the CSR.
    csrs.set(0x340, first.old, false).unwrap();
    assert_eq!(csrs.get_by_addr(0x340), v0);
}

#[test]
fn division_by_zero_results() {
    assert_eq!(rv64emu::inst::div64(123, 0), u64::MAX);
    assert_eq!(rv64emu::inst::divu64(123, 0), u64::MAX);
    assert_eq!(rv64emu::inst::rem64(123, 0), 123);
    assert_eq!(rv64emu::inst::remu64(123, 0), 123);
    // Signed overflow case wraps to itself.
    assert_eq!(
        rv64emu::inst::div64(0x8000_0000_0000_0000, u64::MAX),
        0x8000_0000_0000_0000
    );
    assert_eq!(rv64emu::inst::rem64(0x8000_0000_0000_0000, u64::MAX), 0);
    // Truncating division: -1 / 2 is 0.
    assert_eq!(rv64emu::inst::div64(u64::MAX, 2), 0);
}

#[test]
fn shift_amounts_are_masked() {
    assert_eq!(alu64(AluOp::Sll, 1, 67), 1 << 3);
    assert_eq!(alu64(AluOp::Srl, 0x100, 68), 0x10);
    let mut cpu = small_machine();
    cpu.state.regs.write(5, 1);
    cpu.state.regs.write(6, 35);
    let d = Decode { rd: 7, rs1: 5, rs2: 6, imm: 0, inst: 0 };
    cpu.state.exec_alu_rw(rv64emu::inst::AluOp::Sll, d);
    assert_eq!(cpu.state.regs.read(7), 8); // only the low five bits of 35
}

#[test]
fn signed_arithmetic_matches_two_complement() {
    let minus_one = u64::MAX;
    assert_eq!(alu64(AluOp::Div, 7u64.wrapping_neg(), 2), 3u64.wrapping_neg());
    assert_eq!(alu64(AluOp::Rem, 7u64.wrapping_neg(), 2), 1u64.wrapping_neg());
    assert_eq!(alu64(AluOp::Mulh, minus_one, minus_one), 0);
    assert_eq!(alu64(AluOp::Sra, minus_one, 17), minus_one);
    assert_eq!(alu64(AluOp::Slt, minus_one, 0), 1);
    assert_eq!(alu64(AluOp::Sltu, minus_one, 0), 0);
}

#[test]
fn boot_stub_reaches_reset_vector_again() {
    let mut cpu = small_machine();
    // addi x5, x0, 1 ; slli x5, x5, 31 ; jr x5 -- from the firmware-less
    // default boot path.
    store_inst(&mut cpu, 0x80000000, 0x00100293);
    store_inst(&mut cpu, 0x80000004, 0x01f29293);
    store_inst(&mut cpu, 0x80000008, 0x00028067);
    assert!(cpu.isa_exec_once());
    assert!(cpu.isa_exec_once());
    assert!(cpu.isa_exec_once());
    assert_eq!(cpu.isa_get_pc(), 0x80000000);
    assert_eq!(cpu.state.regs.read(5), 0x80000000);
}

#[test]
fn ecall_from_machine_mode_traps() {
    let mut cpu = small_machine();
    let p = 0x80000010u64;
    cpu.state.pc = VAddr::new(p);
    let res = cpu.state.csrs.set_n(CSRName::mtvec, 0x80000400).unwrap();
    res.call_hook(&mut cpu.state);
    assert_eq!(cpu.state.csrs.get(CSRName::mstatus), 0xa00001800);
    store_inst(&mut cpu, p, 0x00000073); // ecall
    assert!(cpu.isa_exec_once());
    assert_eq!(cpu.state.csrs.get(CSRName::mcause), 11);
    assert_eq!(cpu.state.csrs.get(CSRName::mepc), p);
    let mst = MStatus(cpu.state.csrs.get(CSRName::mstatus));
    // MPIE takes the MIE the hart had, which is clear at reset.
    assert_eq!(mst.MPIE(), MStatus(0xa00001800).MIE());
    assert!(!mst.MIE());
    assert_eq!(mst.MPP(), 3);
    assert_eq!(cpu.isa_get_pc(), 0x80000400);
}

#[test]
fn sv39_gigapage_maps_identity() {
    let mem = Memory::new_with_size(0x100000); // 1 MiB
    let mut cpu = RISCV64::new(mem, &PAddr::new(0x80000000), true);
    // Root table at PA 0x80001000; VPN2 of 0x80000000 is 2; a 1 GiB leaf
    // with R=W=X=1, U=0 mapping VA 0x8000_0000 to PA 0x8000_0000.
    let pte = (0x80000u64 << 10) | 0xf;
    assert!(cpu.state.memory.mem.write_n(0x80001000 + 2 * 8, pte, 8).is_some());
    assert!(cpu.state.memory.mem.write_n(0x80000040, 0xab, 1).is_some());
    let satp_val = (8u64 << 60) | 0x80001;
    let res = cpu.state.csrs.set_n(CSRName::satp, satp_val).unwrap();
    res.call_hook(&mut cpu.state);
    cpu.state.set_priv(RISCV64Privilege::S);
    let got = cpu.state.memory.read(&VAddr::new(0x80000040), MemOperationSize::Byte);
    assert_eq!(got, Ok(0xab));
    // The leaf's A bit was set by the walk.
    let stored = cpu.state.memory.mem.read_mem(&PAddr::new(0x80001010), MemOperationSize::QWORD);
    assert_eq!(stored.unwrap() & 0x40, 0x40);
}

#[test]
fn sv39_leaf_without_read_faults() {
    let mem = Memory::new_with_size(0x100000);
    let mut cpu = RISCV64::new(mem, &PAddr::new(0x80000000), true);
    // Leaf valid but R=W=0, X only: loads must take a load page fault.
    let pte = (0x80000u64 << 10) | 0b1001; // V + X
    assert!(cpu.state.memory.mem.write_n(0x80001000 + 2 * 8, pte, 8).is_some());
    let satp_val = (8u64 << 60) | 0x80001;
    let res = cpu.state.csrs.set_n(CSRName::satp, satp_val).unwrap();
    res.call_hook(&mut cpu.state);
    cpu.state.set_priv(RISCV64Privilege::S);
    let got = cpu.state.memory.read(&VAddr::new(0x80000040), MemOperationSize::Byte);
    assert_eq!(got, Err(rv64emu::csr::MCauseCode::LoadPageFault));
}

#[test]
fn load_straddling_unmapped_page_faults() {
    let mem = Memory::new_with_size(0x100000);
    let mut cpu = RISCV64::new(mem, &PAddr::new(0x80000000), true);
    // Map only the 4 KiB page at VA 0x8000_0000 (through a full walk):
    // level-2 pointer -> level-1 pointer -> level-0 leaf.
    let root = 0x80001000u64;
    let l1 = 0x80002000u64;
    let l0 = 0x80003000u64;
    let ptr_to = |pa: u64| ((pa >> 12) << 10) | 1;
    assert!(cpu.state.memory.mem.write_n(root + 2 * 8, ptr_to(l1), 8).is_some());
    assert!(cpu.state.memory.mem.write_n(l1 + 0 * 8, ptr_to(l0), 8).is_some());
    let leaf = (0x80000u64 << 10) | 0xf;
    assert!(cpu.state.memory.mem.write_n(l0 + 0 * 8, leaf, 8).is_some());
    let res = cpu.state.csrs.set_n(CSRName::satp, (8u64 << 60) | (root >> 12)).unwrap();
    res.call_hook(&mut cpu.state);
    cpu.state.set_priv(RISCV64Privilege::S);
    // A word read that straddles into the unmapped second page.
    let got = cpu.state.memory.read(&VAddr::new(0x80000ffe), MemOperationSize::DWORD);
    assert_eq!(got, Err(rv64emu::csr::MCauseCode::LoadPageFault));
    // Within the mapped page the same load works.
    let got2 = cpu.state.memory.read(&VAddr::new(0x80000ff0), MemOperationSize::DWORD);
    assert!(got2.is_ok());
}

#[test]
fn bare_mode_translation_is_identity() {
    let mut cpu = small_machine();
    let va = VAddr::new(0x80000123);
    let pa = cpu
        .state
        .memory
        .translate(&va, rv64emu::vaddr::MemoryAccessType::R)
        .unwrap();
    assert_eq!(pa.0, 0x80000123);
}

#[test]
fn sfence_vma_clears_the_tlb() {
    let mem = Memory::new_with_size(0x100000);
    let mut cpu = RISCV64::new(mem, &PAddr::new(0x80000000), true);
    let pte = (0x80000u64 << 10) | 0xf;
    assert!(cpu.state.memory.mem.write_n(0x80001000 + 2 * 8, pte, 8).is_some());
    let res = cpu.state.csrs.set_n(CSRName::satp, (8u64 << 60) | 0x80001).unwrap();
    res.call_hook(&mut cpu.state);
    cpu.state.set_priv(RISCV64Privilege::S);
    assert!(cpu.state.memory.read(&VAddr::new(0x80000040), MemOperationSize::Byte).is_ok());
    // Break the mapping in memory; the stale TLB still answers.
    assert!(cpu.state.memory.mem.write_n(0x80001000 + 2 * 8, 0, 8).is_some());
    assert!(cpu.state.memory.read(&VAddr::new(0x80000040), MemOperationSize::Byte).is_ok());
    // After the flush the next access walks the table and faults.
    cpu.state.memory.sfence_vma();
    let got = cpu.state.memory.read(&VAddr::new(0x80000040), MemOperationSize::Byte);
    assert_eq!(got, Err(rv64emu::csr::MCauseCode::LoadPageFault));
}

#[test]
fn amoadd_w_preserves_upper_half() {
    let mut cpu = small_machine();
    let a = 0x80000100u64;
    assert!(cpu.state.memory.mem.write_n(a, 0x0000_0003_0000_0005, 8).is_some());
    cpu.state.regs.write(6, a);
    cpu.state.regs.write(7, 0xFFFF_FFFF_0000_0002);
    let d = Decode { rd: 5, rs1: 6, rs2: 7, imm: 0, inst: 0 };
    cpu.state.exec_amo(AmoOp::Add, MemOperationSize::DWORD, d);
    let word = cpu.state.memory.mem.read_mem(&PAddr::new(a), MemOperationSize::QWORD).unwrap();
    assert_eq!(word, 0x0000_0003_0000_0007);
    assert_eq!(cpu.state.regs.read(5), 0x0000_0000_0000_0005);
}

#[test]
fn amoswap_twice_restores_memory() {
    let mut cpu = small_machine();
    let a = 0x80000200u64;
    assert!(cpu.state.memory.mem.write_n(a, 0x1111_2222_3333_4444, 8).is_some());
    cpu.state.regs.write(6, a);
    cpu.state.regs.write(7, 0x5555_6666_7777_8888);
    let d1 = Decode { rd: 5, rs1: 6, rs2: 7, imm: 0, inst: 0 };
    cpu.state.exec_amo(AmoOp::Swap, MemOperationSize::QWORD, d1);
    assert_eq!(cpu.state.regs.read(5), 0x1111_2222_3333_4444);
    let d2 = Decode { rd: 8, rs1: 6, rs2: 7, imm: 0, inst: 0 };
    cpu.state.exec_amo(AmoOp::Swap, MemOperationSize::QWORD, d2);
    // The second rd sees rs2, and memory holds rs2 again; swapping the
    // same rs2 twice leaves memory as after the first swap.
    assert_eq!(cpu.state.regs.read(8), 0x5555_6666_7777_8888);
    let word = cpu.state.memory.mem.read_mem(&PAddr::new(a), MemOperationSize::QWORD).unwrap();
    assert_eq!(word, 0x5555_6666_7777_8888);
}

#[test]
fn misaligned_amo_traps_before_memory_changes() {
    let mut cpu = small_machine();
    let a = 0x80000301u64; // misaligned for a 4-byte AMO
    assert!(cpu.state.memory.mem.write_n(0x80000300, 0xdeadbeef, 8).is_some());
    cpu.state.regs.write(6, a);
    cpu.state.regs.write(7, 1);
    let d = Decode { rd: 5, rs1: 6, rs2: 7, imm: 0, inst: 0 };
    cpu.state.exec_amo(AmoOp::Add, MemOperationSize::DWORD, d);
    assert_eq!(cpu.state.csrs.get(CSRName::mcause), 6);
    assert_eq!(cpu.state.csrs.get(CSRName::mtval), a);
    let word = cpu.state.memory.mem.read_mem(&PAddr::new(0x80000300), MemOperationSize::QWORD);
    assert_eq!(word.unwrap(), 0xdeadbeef);
}

#[test]
fn clint_mtimecmp_write_settles_mtip() {
    let mut mem = Memory::new_with_size(0x10000);
    mem.add_mmio(PAddr::new(0x2000000), DeviceId::ClintDev);
    mem.devices.advance_time(5000);
    // Arm the timer in the past: MTIP rises at once.
    assert!(mem.write_n(0x2004000, 1000, 8).is_some());
    assert_ne!(mem.devices.intr & 0x80, 0);
    // Push the compare register to the far future: MTIP clears at once.
    assert!(mem.write_n(0x2004000, 0xFFFF_FFFF_FFFF_FFFF, 8).is_some());
    assert_eq!(mem.devices.intr & 0x80, 0);
    // MTIME reads the current microsecond count.
    assert_eq!(mem.read_n(0x200bff8, 8), Some(5000));
}

#[test]
fn uart16550_dlab_and_lsr() {
    let mut mem = Memory::new_with_size(0x10000);
    mem.add_mmio(PAddr::new(0x10000000), DeviceId::UartDev);
    // LCR <- 0x80 sets DLAB; the next write to +0 goes to the divisor
    // latch, not the transmitter.
    assert!(mem.write_n(0x10000003, 0x80, 1).is_some());
    assert!(mem.write_n(0x10000000, 0x01, 1).is_some());
    assert_eq!(mem.devices.uart.tx.len(), 0);
    // LSR: transmit ready (bit 5), no data pending (bit 0 clear).
    assert_eq!(mem.read_n(0x10000005, 1), Some(0x20));
    // Clear DLAB and transmit a byte; receive a byte and read it back.
    assert!(mem.write_n(0x10000003, 0x00, 1).is_some());
    assert!(mem.write_n(0x10000000, 0x41, 1).is_some());
    assert_eq!(mem.devices.uart_take_output(), vec![0x41]);
    mem.devices.uart_receive(0x42);
    assert_eq!(mem.read_n(0x10000005, 1), Some(0x21));
    assert_eq!(mem.read_n(0x10000000, 1), Some(0x42));
}

#[test]
fn rtc_fields_stay_in_range() {
    let mut mem = Memory::new_with_size(0x10000);
    mem.add_mmio(PAddr::new(0xa0000070), DeviceId::RtcDev);
    mem.devices.rtc_sync_host_clock();
    let sec = mem.read_n(0xa0000070, 4).unwrap();
    let min = mem.read_n(0xa0000074, 4).unwrap();
    let hour = mem.read_n(0xa0000078, 4).unwrap();
    let day = mem.read_n(0xa000007c, 4).unwrap();
    let month = mem.read_n(0xa0000080, 4).unwrap();
    assert!(sec < 60);
    assert!(min < 60);
    assert!(hour < 24);
    assert!((1..=31).contains(&day));
    assert!((1..=12).contains(&month));
}

#[test]
fn wfi_wakes_on_timer_interrupt() {
    let mut cpu = small_machine();
    cpu.state.memory.mem.add_mmio(PAddr::new(0x2000000), DeviceId::ClintDev);
    let res = cpu.state.csrs.set_n(CSRName::mtvec, 0x80000400).unwrap();
    res.call_hook(&mut cpu.state);
    // Enable the machine timer interrupt (mie.MTIE).
    let res = cpu.state.csrs.set_n(CSRName::mie, 0x80).unwrap();
    res.call_hook(&mut cpu.state);
    store_inst(&mut cpu, 0x80000000, 0x10500073); // wfi
    assert!(cpu.isa_exec_once());
    assert!(cpu.is_waiting());
    // Arm the timer in the past and advance time: the pending word rises.
    assert!(cpu.state.memory.mem.write_n(0x2004000, 1, 8).is_some());
    cpu.state.memory.mem.devices.advance_time(10);
    cpu.state.handle_interrupt();
    assert!(!cpu.is_waiting());
    assert_eq!(cpu.state.csrs.get(CSRName::mcause), 0x8000000000000007);
}

#[test]
fn gdb_hex_decoding() {
    assert_eq!(rv64emu::monitor::gdb_decode_hex(b'4', b'1'), Some(0x41));
    assert_eq!(rv64emu::monitor::gdb_decode_hex(b'f', b'F'), Some(0xff));
    assert_eq!(rv64emu::monitor::gdb_decode_hex(b'g', b'0'), None);
    assert_eq!(rv64emu::monitor::hex_nibble(b'a'), 10);
}

#[test]
fn ibuf_hit_requires_matching_pc_and_bits() {
    let mut ibuf = rv64emu::ibuf::SetAssociativeIBuf::new();
    let d = Decode { rd: 5, rs1: 1, rs2: 2, imm: 0, inst: 0x33 };
    ibuf.set(0x80000000, 0x33, 14, d);
    assert!(ibuf.get(0x80000000, 0x33).is_some());
    // Same row, different bits: self-modified code misses.
    assert!(ibuf.get(0x80000000, 0x34).is_none());
    // Same low bits, different PC: aliased row misses.
    assert!(ibuf.get(0x80010000, 0x33).is_none());
}

#[test]
fn mret_restores_privilege_and_enables() {
    let mut cpu = small_machine();
    // mstatus at reset has MPP = M, MPIE = 0.
    let res = cpu.state.csrs.set_n(CSRName::mepc, 0x80000040).unwrap();
    res.call_hook(&mut cpu.state);
    cpu.state.ret(RISCV64Privilege::M);
    let mst = MStatus(cpu.state.csrs.get(CSRName::mstatus));
    assert!(mst.MPIE());
    assert_eq!(mst.MIE(), false);
    assert_eq!(mst.MPP(), 0);
    assert_eq!(cpu.state.privilege, RISCV64Privilege::M);
    assert_eq!(cpu.state.dyn_pc, Some(VAddr::new(0x80000040)));
}

#[test]
fn sret_below_supervisor_is_illegal() {
    let mut cpu = small_machine();
    let res = cpu.state.csrs.set_n(CSRName::mtvec, 0x80000400).unwrap();
    res.call_hook(&mut cpu.state);
    cpu.state.set_priv(RISCV64Privilege::U);
    cpu.state.ret(RISCV64Privilege::S);
    assert_eq!(cpu.state.csrs.get(CSRName::mcause), 2);
    assert_eq!(cpu.state.privilege, RISCV64Privilege::M);
}

#[test]
fn unknown_csr_raises_illegal_instruction() {
    let mut cpu = small_machine();
    let res = cpu.state.csrs.set_n(CSRName::mtvec, 0x80000400).unwrap();
    res.call_hook(&mut cpu.state);
    // csrrw x5, 0x3b1, x0: 0x3b1 is unimplemented here.
    let d = Decode { rd: 5, rs1: 0, rs2: 0, imm: 0x3b1, inst: 0x3b1012f3 };
    cpu.state.exec_csr(rv64emu::inst::CsrOp::Rw, false, d);
    assert_eq!(cpu.state.csrs.get(CSRName::mcause), 2);
    assert_eq!(cpu.state.csrs.get(CSRName::mtval), 0x3b1012f3);
}

#[test]
fn sstatus_mirrors_mstatus() {
    let mut cpu = small_machine();
    // Set SIE through sstatus; mstatus follows.
    let res = cpu.state.csrs.set(0x100, 0x2, false).unwrap();
    res.call_hook(&mut cpu.state);
    assert_eq!(cpu.state.csrs.get(CSRName::mstatus) & 0x2, 0x2);
    // Clear it through mstatus; sstatus follows.
    let res = cpu.state.csrs.clear_bits(0x300, 0x2, false).unwrap();
    res.call_hook(&mut cpu.state);
    assert_eq!(cpu.state.csrs.get(CSRName::sstatus) & 0x2, 0);
}

#[test]
fn serial_and_liteuart_collect_output() {
    let mut mem = Memory::new_with_size(0x10000);
    mem.add_mmio(PAddr::new(0xa00003f8), DeviceId::SerialDev);
    mem.add_mmio(PAddr::new(0xa0000200), DeviceId::LiteUartDev);
    assert!(mem.write_n(0xa00003f8, b'h' as u64, 1).is_some());
    assert!(mem.write_n(0xa0000200, b'i' as u64, 1).is_some());
    assert_eq!(mem.devices.serial_take_output(), vec![b'h']);
    assert_eq!(mem.devices.liteuart_take_output(), vec![b'i']);
    // LiteUART RXEMPTY register reads one.
    assert_eq!(mem.read_n(0xa0000208, 4), Some(1));
}

#[test]
fn interrupt_eligibility_is_judged_per_cause() {
    // STI and SEI both pending, but only SEI delegated and enabled: the
    // hart must take the supervisor external interrupt, not the timer.
    let mut cpu = small_machine();
    let res = cpu.state.csrs.set_n(CSRName::mtvec, 0x80000400).unwrap();
    res.call_hook(&mut cpu.state);
    let res = cpu.state.csrs.set_n(CSRName::stvec, 0x80000500).unwrap();
    res.call_hook(&mut cpu.state);
    let res = cpu.state.csrs.set_n(CSRName::mideleg, 0x200).unwrap();
    res.call_hook(&mut cpu.state);
    let res = cpu.state.csrs.set(0x104, 0x200, false).unwrap(); // sie.SEIE
    res.call_hook(&mut cpu.state);
    let res = cpu.state.csrs.set_n(CSRName::mstatus, 0xa00001802).unwrap(); // SIE
    res.call_hook(&mut cpu.state);
    cpu.state.set_priv(RISCV64Privilege::S);
    cpu.state.memory.mem.devices.intr = 0x220; // STI | SEI
    cpu.state.set_interrupt_cond_dirty();
    cpu.state.handle_interrupt();
    assert_eq!(cpu.state.csrs.get(CSRName::scause), 0x8000000000000009);
    assert_eq!(cpu.state.privilege, RISCV64Privilege::S);
}

#[test]
fn pending_delegated_bit_does_not_mask_machine_interrupt() {
    // A delegated but disabled supervisor cause must not suppress an
    // enabled machine timer interrupt.
    let mut cpu = small_machine();
    let res = cpu.state.csrs.set_n(CSRName::mtvec, 0x80000400).unwrap();
    res.call_hook(&mut cpu.state);
    let res = cpu.state.csrs.set_n(CSRName::mideleg, 0x200).unwrap();
    res.call_hook(&mut cpu.state);
    let res = cpu.state.csrs.set_n(CSRName::mie, 0x80).unwrap(); // MTIE
    res.call_hook(&mut cpu.state);
    cpu.state.set_priv(RISCV64Privilege::U);
    cpu.state.memory.mem.devices.intr = 0x280; // MTI | SEI
    cpu.state.set_interrupt_cond_dirty();
    cpu.state.handle_interrupt();
    assert_eq!(cpu.state.csrs.get(CSRName::mcause), 0x8000000000000007);
    assert_eq!(cpu.state.privilege, RISCV64Privilege::M);
}

#[test]
fn uart_receive_with_interrupt_enabled_raises_plic_line() {
    let mut mem = Memory::new_with_size(0x10000);
    mem.add_mmio(PAddr::new(0x10000000), DeviceId::UartDev);
    mem.add_mmio(PAddr::new(0x0c000000), DeviceId::PlicDev);
    // Enable the UART line for the S context and the data-ready interrupt.
    assert!(mem.write_n(0x0c002080, 1 << 10, 8).is_some());
    assert!(mem.write_n(0x10000001, 0x01, 1).is_some());
    mem.devices.uart_receive(0x55);
    assert_eq!(mem.devices.uart.isr, 0b0100);
    assert_ne!(mem.devices.plic.pending_s & (1 << 10), 0);
    assert_ne!(mem.devices.intr & 0x200, 0); // SEI raised
    assert_eq!(mem.devices.intr & 0x800, 0); // M context not enabled
}

#[test]
fn jalr_clears_bit_zero_of_target() {
    let mut cpu = small_machine();
    // jalr x1, x6, 0 with an odd target: the jump lands on the even
    // neighbour, and x1 links pc + 4.
    cpu.state.pc = VAddr::new(0x80000020);
    cpu.state.regs.write(6, 0x80000105);
    let d = Decode { rd: 1, rs1: 6, rs2: 0, imm: 0, inst: 0 };
    cpu.state.exec_jalr(d);
    assert_eq!(cpu.state.dyn_pc, Some(VAddr::new(0x80000104)));
    assert_eq!(cpu.state.regs.read(1), 0x80000024);
}

#[test]
fn uart_status_register_writes_are_ignored() {
    let mut mem = Memory::new_with_size(0x10000);
    mem.add_mmio(PAddr::new(0x10000000), DeviceId::UartDev);
    // Writing LSR or MSR is accepted and changes nothing observable.
    assert!(mem.write_n(0x10000005, 0xff, 1).is_some());
    assert!(mem.write_n(0x10000006, 0xff, 1).is_some());
    assert_eq!(mem.read_n(0x10000005, 1), Some(0x20));
    assert_eq!(mem.read_n(0x10000006, 1), Some(0b11110000));
    assert_eq!(mem.devices.uart.tx.len(), 0);
}

#[test]
fn satp_unsupported_mode_is_written_back() {
    let mut cpu = small_machine();
    // Set a valid Sv39 satp first.
    let good = (8u64 << 60) | 0x80001;
    let res = cpu.state.csrs.set_n(CSRName::satp, good).unwrap();
    res.call_hook(&mut cpu.state);
    assert_eq!(cpu.state.csrs.get(CSRName::satp), good);
    // A write with an unsupported mode nibble is discarded (WARL).
    let res = cpu.state.csrs.set_n(CSRName::satp, (5u64 << 60) | 0x99999).unwrap();
    res.call_hook(&mut cpu.state);
    assert_eq!(cpu.state.csrs.get(CSRName::satp), good);
    assert!(!cpu.state.memory.translation_ctrl.is_bare);
}
