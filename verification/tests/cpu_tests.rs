use arm7_core::cpu::{Cpu, Reg};

fn bios_words(w0: u32, w1: u32) -> Vec<u8> {
    let mut v = Vec::new();
    for w in [w0, w1] {
        v.push((w & 0xFF) as u8);
        v.push(((w >> 8) & 0xFF) as u8);
        v.push(((w >> 16) & 0xFF) as u8);
        v.push(((w >> 24) & 0xFF) as u8);
    }
    v
}

#[test]
fn reset_state() {
    let mut cpu = Cpu::new();
    cpu.load(0, &bios_words(0x1234_5678, 0x9ABC_DEF0));
    cpu.reset();
    assert_eq!(cpu.arm_mode, 0x13);
    assert!(!cpu.arm_irq_enable);
    assert!(cpu.arm_state);
    assert!(!cpu.n_flag && !cpu.z_flag && !cpu.c_flag && !cpu.v_flag);
    assert_eq!(cpu.get_reg_i(16), 0xD3);
    assert_eq!(cpu.get_reg_i(15), 8);
    assert_eq!(cpu.cpu_prefetch[0], 0x1234_5678);
    assert_eq!(cpu.cpu_prefetch[1], 0x9ABC_DEF0);
}

#[test]
fn mode_switch_round_trip_banks_r13_r14_spsr() {
    let mut cpu = Cpu::new();
    cpu.reset();
    // in SVC: give the banked registers recognizable values
    cpu.set_reg_i(13, 0xAAAA_0001);
    cpu.set_reg_i(14, 0xAAAA_0002);
    cpu.set_reg_i(17, 0xAAAA_0003);
    assert!(cpu.cpu_switch_mode(0x12, false, false));
    cpu.set_reg_i(13, 0xBBBB_0001);
    cpu.set_reg_i(14, 0xBBBB_0002);
    assert!(cpu.cpu_switch_mode(0x13, false, false));
    assert_eq!(cpu.get_reg_i(13), 0xAAAA_0001);
    assert_eq!(cpu.get_reg_i(14), 0xAAAA_0002);
    assert_eq!(cpu.get_reg_i(17), 0xAAAA_0003);
    // and IRQ's own bank was kept while we were away
    assert!(cpu.cpu_switch_mode(0x12, false, false));
    assert_eq!(cpu.get_reg_i(13), 0xBBBB_0001);
    assert_eq!(cpu.get_reg_i(14), 0xBBBB_0002);
}

#[test]
fn mode_switch_round_trip_fiq_banks_r8_r12() {
    let mut cpu = Cpu::new();
    cpu.reset();
    cpu.set_reg_i(8, 0x1111_1111);
    cpu.set_reg_i(12, 0x2222_2222);
    cpu.set_reg_i(13, 0x3333_3333);
    assert!(cpu.cpu_switch_mode(0x11, false, false));
    cpu.set_reg_i(8, 0x4444_4444);
    cpu.set_reg_i(13, 0x5555_5555);
    assert!(cpu.cpu_switch_mode(0x13, false, false));
    assert_eq!(cpu.get_reg_i(8), 0x1111_1111);
    assert_eq!(cpu.get_reg_i(12), 0x2222_2222);
    assert_eq!(cpu.get_reg_i(13), 0x3333_3333);
    assert!(cpu.cpu_switch_mode(0x11, false, false));
    assert_eq!(cpu.get_reg_i(8), 0x4444_4444);
    assert_eq!(cpu.get_reg_i(13), 0x5555_5555);
}

#[test]
fn mode_switch_round_trip_all_modes() {
    // for each mode: bank r13/r14 (and SPSR where the mode has one), leave
    // for a different mode, disturb the live registers there, return, and
    // find the banked values intact
    let modes = [0x10, 0x1F, 0x11, 0x12, 0x13, 0x17, 0x1B];
    for &m in &modes {
        let away = if m == 0x12 { 0x17 } else { 0x12 };
        let mut cpu = Cpu::new();
        cpu.reset();
        assert!(cpu.cpu_switch_mode(m, false, false));
        cpu.set_reg_i(13, 0xD00D_0001);
        cpu.set_reg_i(14, 0xD00D_0002);
        cpu.set_reg_i(17, 0xD00D_0003);
        assert!(cpu.cpu_switch_mode(away, false, false));
        cpu.set_reg_i(13, 0xFFFF_FFFF);
        cpu.set_reg_i(14, 0xFFFF_FFFF);
        cpu.set_reg_i(17, 0xFFFF_FFFF);
        assert!(cpu.cpu_switch_mode(m, false, false));
        assert_eq!(cpu.get_reg_i(13), 0xD00D_0001, "r13 of mode {:#x}", m);
        assert_eq!(cpu.get_reg_i(14), 0xD00D_0002, "r14 of mode {:#x}", m);
        if m != 0x10 && m != 0x1F {
            assert_eq!(cpu.get_reg_i(17), 0xD00D_0003, "spsr of mode {:#x}", m);
        }
    }
}

#[test]
fn usr_and_sys_alias_one_bank() {
    let mut cpu = Cpu::new();
    cpu.reset();
    assert!(cpu.cpu_switch_mode(0x10, false, false));
    cpu.set_reg_i(13, 0x1111_0001);
    // a write in USR is visible after switching to SYS ...
    assert!(cpu.cpu_switch_mode(0x1F, false, false));
    assert_eq!(cpu.get_reg_i(13), 0x1111_0001);
    cpu.set_reg_i(13, 0x2222_0002);
    // ... and back
    assert!(cpu.cpu_switch_mode(0x10, false, false));
    assert_eq!(cpu.get_reg_i(13), 0x2222_0002);
}

#[test]
fn unsupported_mode_is_a_no_op() {
    let mut cpu = Cpu::new();
    cpu.reset();
    cpu.set_reg_i(13, 0x1234);
    let before_r13 = cpu.get_reg_i(13);
    let before_cpsr = cpu.get_reg_i(16);
    assert!(!cpu.cpu_switch_mode(0x05, true, true));
    assert_eq!(cpu.arm_mode, 0x13);
    assert_eq!(cpu.get_reg_i(13), before_r13);
    assert_eq!(cpu.get_reg_i(16), before_cpsr);
}

#[test]
fn undefined_exception_from_32_bit_width() {
    let mut cpu = Cpu::new();
    cpu.reset();
    cpu.set_reg_i(15, 0x100);
    cpu.cpu_undefined_exception();
    assert_eq!(cpu.get_reg_i(14), 0x100 - 4);
    assert_eq!(cpu.get_reg_i(15), 0x0C);
    assert_eq!(cpu.arm_mode, 0x1B);
    assert!(cpu.arm_state);
    assert!(!cpu.arm_irq_enable);
}

#[test]
fn undefined_exception_from_16_bit_width() {
    let mut cpu = Cpu::new();
    cpu.reset();
    // force 16-bit instruction width through the CPSR and re-derive flags
    cpu.set_reg_i(16, 0x20);
    cpu.cpu_update_flags(false);
    assert!(!cpu.arm_state);
    cpu.set_reg_i(15, 0x100);
    cpu.cpu_undefined_exception();
    assert_eq!(cpu.get_reg_i(14), 0x100 - 2);
    assert_eq!(cpu.get_reg_i(15), 0x0C);
    assert_eq!(cpu.arm_mode, 0x1B);
    assert!(cpu.arm_state);
    assert!(!cpu.arm_irq_enable);
}

#[test]
fn exception_entry_captures_cpsr_into_spsr() {
    let mut cpu = Cpu::new();
    cpu.reset();
    cpu.n_flag = true;
    cpu.cpu_update_cpsr();
    let cpsr = cpu.get_reg_i(16);
    cpu.set_reg_i(15, 0x100);
    cpu.cpu_undefined_exception();
    assert_eq!(cpu.get_reg_i(17), cpsr);
    // the captured SPSR records the pre-exception mode in its low bits,
    // so a handler can learn the mode to return to
    assert_eq!(cpu.get_reg_i(17) & 0x1F, 0x13);
    // while the live CPSR now carries the UND mode bits
    assert_eq!(cpu.get_reg_i(16) & 0x1F, 0x1B);
}

#[test]
fn first_access_wait_states_per_region() {
    let n16 = [0u8, 0, 2, 0, 0, 0, 0, 0, 4, 4, 4, 4, 4, 4, 4, 0];
    let n32 = [0u8, 0, 5, 0, 0, 1, 1, 0, 7, 7, 9, 9, 13, 13, 4, 0];
    let s16 = [0u8, 0, 2, 0, 0, 0, 0, 0, 2, 2, 4, 4, 8, 8, 4, 0];
    let s32 = [0u8, 0, 5, 0, 0, 1, 1, 0, 5, 5, 9, 9, 17, 17, 4, 0];
    for r in 0..16usize {
        let address = r * 0x100_0000;
        let mut cpu = Cpu::new();
        assert_eq!(cpu.data_ticks_access_16(address), n16[r]);
        let mut cpu = Cpu::new();
        assert_eq!(cpu.data_ticks_access_32(address), n32[r]);
        let mut cpu = Cpu::new();
        assert_eq!(cpu.data_ticks_access_seq_16(address), s16[r]);
        let mut cpu = Cpu::new();
        assert_eq!(cpu.data_ticks_access_seq_32(address), s32[r]);
        let mut cpu = Cpu::new();
        let code_n16 = cpu.code_ticks_access_16(address);
        assert_eq!(code_n16, n16[r]);
        let mut cpu = Cpu::new();
        assert_eq!(cpu.code_ticks_access_32(address), n32[r]);
        let mut cpu = Cpu::new();
        assert_eq!(cpu.code_ticks_access_seq_16(address), s16[r]);
        let mut cpu = Cpu::new();
        assert_eq!(cpu.code_ticks_access_seq_32(address), s32[r]);
    }
}

#[test]
fn burst_advance_races_counter_ahead() {
    let mut cpu = Cpu::new();
    cpu.bus_prefetch = true;
    assert_eq!(cpu.data_ticks_access_16(0x0200_0000), 2);
    assert_eq!(cpu.bus_prefetch_count, 3);
    assert_eq!(cpu.data_ticks_access_16(0x0200_0000), 2);
    assert_eq!(cpu.bus_prefetch_count, 15);
    // a zero wait state still consumes one cycle of headway
    assert_eq!(cpu.data_ticks_access_16(0x0300_0000), 0);
    assert_eq!(cpu.bus_prefetch_count, 31);
}

#[test]
fn data_access_outside_window_resets_bookkeeping() {
    let mut cpu = Cpu::new();
    cpu.bus_prefetch = true;
    cpu.bus_prefetch_enable = true;
    cpu.bus_prefetch_count = 77;
    assert_eq!(cpu.data_ticks_access_16(0x0800_0000), 4);
    assert_eq!(cpu.bus_prefetch_count, 0);
    assert!(!cpu.bus_prefetch_enable);
    assert!(cpu.bus_prefetch);
    // the 32-bit boundary is strict: region 8 still counts as cartridge
    let mut cpu = Cpu::new();
    cpu.bus_prefetch = true;
    cpu.bus_prefetch_count = 1;
    assert_eq!(cpu.data_ticks_access_32(0x0800_0000), 7);
    assert_eq!(cpu.bus_prefetch_count, ((1 + 1) << 7) - 1);
    // while region 9 is past it and deactivates the prefetch unit
    let mut cpu = Cpu::new();
    cpu.bus_prefetch = true;
    cpu.bus_prefetch_count = 5;
    assert_eq!(cpu.data_ticks_access_32(0x0900_0000), 7);
    assert_eq!(cpu.bus_prefetch_count, 0);
    assert!(!cpu.bus_prefetch);
}

#[test]
fn code_fetch_consumes_prefetched_words() {
    // bit 0 and bit 1 set: fully prefetched, free, low byte shifted by 2
    let mut cpu = Cpu::new();
    cpu.bus_prefetch_count = 0x107;
    assert_eq!(cpu.code_ticks_access_16(0x0800_0000), 0);
    assert_eq!(cpu.bus_prefetch_count, 0x101);
    // bit 0 only: discounted to the sequential cost minus one
    let mut cpu = Cpu::new();
    cpu.bus_prefetch_count = 0x1;
    assert_eq!(cpu.code_ticks_access_16(0x0800_0000), 2 - 1);
    assert_eq!(cpu.bus_prefetch_count, 0);
    // bit 0 clear: the full non-sequential cost recurs
    let mut cpu = Cpu::new();
    cpu.bus_prefetch_count = 0x4;
    assert_eq!(cpu.code_ticks_access_16(0x0800_0000), 4);
    assert_eq!(cpu.bus_prefetch_count, 0);
}

#[test]
fn sequential_code_fetch_burst_exhaustion() {
    // counter past 0xFF with bit 0 clear: burst exhausted, full cost
    let mut cpu = Cpu::new();
    cpu.bus_prefetch_count = 0x100;
    assert_eq!(cpu.code_ticks_access_seq_16(0x0800_0000), 4);
    assert_eq!(cpu.bus_prefetch_count, 0);
    // small counter with bit 0 clear: plain sequential cost
    let mut cpu = Cpu::new();
    cpu.bus_prefetch_count = 0x4;
    assert_eq!(cpu.code_ticks_access_seq_16(0x0800_0000), 2);
    assert_eq!(cpu.bus_prefetch_count, 0x4);
    // bit 0 set: free, low byte shifted down by one
    let mut cpu = Cpu::new();
    cpu.bus_prefetch_count = 0x103;
    assert_eq!(cpu.code_ticks_access_seq_16(0x0800_0000), 0);
    assert_eq!(cpu.bus_prefetch_count, 0x101);
    // 32-bit: bit 1 is consulted as on a non-sequential fetch
    let mut cpu = Cpu::new();
    cpu.bus_prefetch_count = 0x3;
    assert_eq!(cpu.code_ticks_access_seq_32(0x0800_0000), 0);
    assert_eq!(cpu.bus_prefetch_count, 0);
    let mut cpu = Cpu::new();
    cpu.bus_prefetch_count = 0x1;
    assert_eq!(cpu.code_ticks_access_seq_32(0x0800_0000), 2 - 1);
    assert_eq!(cpu.bus_prefetch_count, 0);
}

#[test]
fn fetch_cycles_dispatches_by_access_kind() {
    let mut cpu = Cpu::new();
    assert_eq!(cpu.fetch_cycles(0x0800_0000, false, false, false), 4);
    assert_eq!(cpu.fetch_cycles(0x0800_0000, true, false, false), 7);
    assert_eq!(cpu.fetch_cycles(0x0800_0000, false, true, false), 2);
    assert_eq!(cpu.fetch_cycles(0x0800_0000, true, true, false), 5);
    assert_eq!(cpu.fetch_cycles(0x0800_0000, false, false, true), 4);
    assert_eq!(cpu.fetch_cycles(0x0800_0000, true, true, true), 5);
}

#[test]
fn interrupt_signal_on_mode_switch() {
    let mut cpu = Cpu::new();
    cpu.reset();
    cpu.cpu_total_ticks = 42;
    cpu.cpu_next_event = 0;
    cpu.g_ie = 0x0008;
    cpu.g_if = 0x0008;
    cpu.g_ime = 0x0001;
    // switching with save_state clear into USR leaves irq enabled (the
    // reset SPSR is zero, so bit 7 of the restored CPSR is clear)
    assert!(cpu.cpu_switch_mode(0x10, false, true));
    assert!(cpu.arm_irq_enable);
    assert_eq!(cpu.cpu_next_event, 42);
    // without break_loop the event is left alone
    let mut cpu = Cpu::new();
    cpu.reset();
    cpu.cpu_total_ticks = 42;
    cpu.g_ie = 0x0008;
    cpu.g_if = 0x0008;
    cpu.g_ime = 0x0001;
    assert!(cpu.cpu_switch_mode(0x10, false, false));
    assert_eq!(cpu.cpu_next_event, 0);
}

#[test]
fn cpu_read_write_address_space() {
    let mut cpu = Cpu::new();
    cpu.load(0, &bios_words(0xCAFE_BABE, 0x0BAD_F00D));
    assert_eq!(cpu.read_32(0), 0xCAFE_BABE);
    cpu.write_32(0x0200_0040, 0x1357_9BDF);
    assert_eq!(cpu.read_32(0x0200_0040), 0x1357_9BDF);
    // with the program counter outside the BIOS, protected reads decoy
    cpu.set_reg_i(15, 0x0800_0000);
    assert_eq!(cpu.read_32(0x0000_5000), 0xE129_F000);
    assert_eq!(cpu.read_32(0x0000_0000), 0);
}

#[test]
fn width_tagged_register_slots() {
    let mut cpu = Cpu::new();
    cpu.regs[20] = Reg::B((1, 2, 3, 4));
    cpu.regs[21] = Reg::W((0x1234, 0x5678));
    assert_eq!(cpu.get_reg_b(20), (1, 2, 3, 4));
    assert_eq!(cpu.get_reg_w(21), (0x1234, 0x5678));
    assert_eq!(cpu.get_reg_i(0), 0);
}

#[test]
fn population_count_table() {
    let cpu = Cpu::new();
    assert_eq!(cpu.cpu_bits_set[0], 0);
    assert_eq!(cpu.cpu_bits_set[1], 1);
    assert_eq!(cpu.cpu_bits_set[3], 2);
    assert_eq!(cpu.cpu_bits_set[0x55], 4);
    assert_eq!(cpu.cpu_bits_set[0xFF], 8);
}
