use eighty_eighty::{ConditionCodes, Cpu, Error, Instruction, Parity, Reg};

fn cpu_with_program(program: &[u8]) -> Cpu<impl FnMut(u8, u8)> {
    let mut cpu = Cpu::new(|_, _| {});
    cpu.load_into_memory(program.to_vec()).unwrap();
    cpu
}

fn steps<T: FnMut(u8, u8)>(cpu: &mut Cpu<T>, n: usize) {
    for _ in 0..n {
        cpu.step().unwrap();
    }
}

#[test]
fn parity_matches_population_count_for_every_byte() {
    for b in 0..=255u8 {
        assert_eq!(b.parity(), b.count_ones() % 2 == 0, "byte {:#04x}", b);
    }
}

#[test]
fn status_word_round_trips_every_flag_state() {
    for bits in 0..32u8 {
        let flags = ConditionCodes {
            z: bits & 1 != 0,
            s: bits & 2 != 0,
            p: bits & 4 != 0,
            cy: bits & 8 != 0,
            ac: bits & 16 != 0,
        };
        let mut cpu = Cpu::new(|_, _| {});
        cpu.set_condition_codes(flags);
        let word = cpu.processor_status_word();
        assert_eq!(word & 0b0010_1010, 0b0000_0010);
        cpu.set_condition_codes(ConditionCodes::new());
        cpu.write_processor_status_word(word);
        assert_eq!(cpu.condition_codes(), flags);
    }
}

#[test]
fn register_pairs_read_back_what_was_written() -> Result<(), Error> {
    for &v in &[0x0000u16, 0x0001, 0x00ff, 0x0100, 0x1234, 0xabcd, 0xffff] {
        let mut cpu = Cpu::new(|_, _| {});
        for &rp in &[Reg::B, Reg::D, Reg::H] {
            cpu.set_register_pair(rp, v);
            assert_eq!(cpu.load_register_pair(rp), v);
        }
        assert_eq!((cpu.b(), cpu.c()), ((v >> 8) as u8, (v & 0xff) as u8));
        assert_eq!((cpu.d(), cpu.e()), ((v >> 8) as u8, (v & 0xff) as u8));
        assert_eq!((cpu.h(), cpu.l()), ((v >> 8) as u8, (v & 0xff) as u8));
    }
    Ok(())
}

#[test]
fn push_then_pop_restores_pairs_and_stack_pointer() -> Result<(), Error> {
    for &rp in &[Reg::B, Reg::D, Reg::H] {
        let mut cpu = Cpu::new(|_, _| {});
        cpu.execute_instruction(Instruction::LXI { register: rp, value: 0xbeef })?;
        cpu.execute_instruction(Instruction::LXI { register: Reg::SP, value: 0x4000 })?;
        cpu.execute_instruction(Instruction::PUSH { register: rp })?;
        assert_eq!(cpu.sp(), 0x3ffe);
        cpu.execute_instruction(Instruction::LXI { register: rp, value: 0 })?;
        cpu.execute_instruction(Instruction::POP { register: rp })?;
        assert_eq!(cpu.load_register_pair(rp), 0xbeef);
        assert_eq!(cpu.sp(), 0x4000);
    }
    Ok(())
}

#[test]
fn jump_then_fetch_reads_from_target() -> Result<(), Error> {
    let mut program = vec![0xC3, 0x34, 0x12];
    program.resize(0x1235, 0);
    program[0x1234] = 0x3C; // INR A
    let mut cpu = cpu_with_program(&program);
    cpu.step()?;
    assert_eq!(cpu.pc(), 0x1234);
    cpu.step()?;
    assert_eq!(cpu.a(), 1);
    assert_eq!(cpu.pc(), 0x1235);
    Ok(())
}

#[test]
fn call_then_return_comes_back_after_the_call() -> Result<(), Error> {
    let mut program = vec![0x31, 0x00, 0x20, 0xCD, 0x00, 0x01];
    program.resize(0x101, 0);
    program[0x100] = 0xC9; // RET
    let mut cpu = cpu_with_program(&program);
    cpu.step()?;
    assert_eq!(cpu.sp(), 0x2000);
    cpu.step()?;
    assert_eq!(cpu.pc(), 0x0100);
    assert_eq!(cpu.sp(), 0x1ffe);
    assert_eq!(cpu.memory()[0x1ffe], 0x06);
    assert_eq!(cpu.memory()[0x1fff], 0x00);
    cpu.step()?;
    assert_eq!(cpu.pc(), 0x0006);
    assert_eq!(cpu.sp(), 0x2000);
    Ok(())
}

#[test]
fn load_places_each_byte_at_its_index() -> Result<(), Error> {
    let rom: Vec<u8> = (0..65536usize).map(|i| (i * 7 % 256) as u8).collect();
    let mut cpu = Cpu::new(|_, _| {});
    cpu.load_into_memory(rom.clone())?;
    assert_eq!(cpu.memory(), &rom[..]);
    Ok(())
}

#[test]
fn load_keeps_the_tail_of_memory() -> Result<(), Error> {
    let mut cpu = Cpu::new(|_, _| {});
    cpu.write_to_memory_at(5, 0x55);
    cpu.load_into_memory(vec![1, 2, 3])?;
    assert_eq!(&cpu.memory()[..6], &[1, 2, 3, 0, 0, 0x55]);
    assert_eq!(cpu.pc(), 0);
    Ok(())
}

#[test]
fn load_one_byte_too_many_is_out_of_memory() {
    let mut cpu = Cpu::new(|_, _| {});
    let result = cpu.load_into_memory(vec![0xAA; 65537]);
    assert_eq!(result, Err(Error::OutOfMemory));
    assert!(cpu.memory().iter().all(|&b| b == 0));
}

#[test]
fn scenario_mvi_then_add() {
    let mut cpu = cpu_with_program(&[0x06, 0x14, 0x80]);
    steps(&mut cpu, 2);
    let f = cpu.condition_codes();
    assert_eq!(cpu.a(), 0x14);
    assert_eq!(cpu.pc(), 3);
    assert!(!f.z && !f.s && f.p && !f.cy);
}

#[test]
fn scenario_carry_on_add() {
    let mut cpu = cpu_with_program(&[0x3E, 0x01, 0x06, 0xFF, 0x80]);
    steps(&mut cpu, 3);
    let f = cpu.condition_codes();
    assert_eq!(cpu.a(), 0x00);
    assert!(f.z && !f.s && f.p && f.cy);
}

#[test]
fn scenario_lxi_then_stax() {
    let mut cpu = cpu_with_program(&[0x01, 0xCD, 0xAB, 0x3E, 0x34, 0x02]);
    steps(&mut cpu, 3);
    assert_eq!(cpu.memory()[0xABCD], 0x34);
    assert_eq!(cpu.b(), 0xAB);
    assert_eq!(cpu.c(), 0xCD);
    assert_eq!(cpu.a(), 0x34);
}

#[test]
fn scenario_push_psw_round_trip() -> Result<(), Error> {
    let mut cpu = Cpu::new(|_, _| {});
    cpu.execute_instruction(Instruction::SBI { data: 1 })?;
    let f = cpu.condition_codes();
    assert_eq!(cpu.a(), 0xFF);
    assert!(f.s && f.p && f.cy && !f.z);
    cpu.execute_instruction(Instruction::PUSH { register: Reg::Psw })?;
    assert_eq!(cpu.memory()[0xFFFF], 0xFF);
    assert_eq!(cpu.memory()[0xFFFE], 0x87);
    cpu.execute_instruction(Instruction::ADI { data: 1 })?;
    assert_eq!(cpu.a(), 0);
    assert!(cpu.condition_codes().z);
    cpu.execute_instruction(Instruction::POP { register: Reg::Psw })?;
    let f = cpu.condition_codes();
    assert!(f.s && !f.z && f.p && f.cy);
    assert_eq!(cpu.a(), 0xFF);
    assert_eq!(cpu.sp(), 0);
    Ok(())
}

#[test]
fn scenario_conditional_jump_taken() {
    let mut cpu = cpu_with_program(&[0x3E, 0x01, 0x06, 0xFF, 0x80, 0xDA, 0x82, 0x00]);
    steps(&mut cpu, 4);
    assert_eq!(cpu.pc(), 0x0082);
}

#[test]
fn conditional_jump_not_taken_moves_past_it() {
    let mut cpu = cpu_with_program(&[0xDA, 0x82, 0x00]);
    cpu.step().unwrap();
    assert_eq!(cpu.pc(), 3);
}

#[test]
fn scenario_interrupt_on_fresh_cpu() -> Result<(), Error> {
    let mut cpu = Cpu::new(|_, _| {});
    cpu.generate_interrupt(2)?;
    assert_eq!(cpu.pc(), 0x0010);
    assert_eq!(cpu.sp(), 0xFFFE);
    assert_eq!(cpu.memory()[0xFFFE], 0x00);
    assert_eq!(cpu.memory()[0xFFFF], 0x00);
    Ok(())
}

#[test]
fn interrupt_pushes_the_current_pc_and_releases_halt() -> Result<(), Error> {
    let mut cpu = cpu_with_program(&[0x00, 0x76]);
    steps(&mut cpu, 2);
    assert!(cpu.halted());
    assert_eq!(cpu.pc(), 2);
    cpu.generate_interrupt(7)?;
    assert!(!cpu.halted());
    assert_eq!(cpu.pc(), 0x38);
    assert_eq!(cpu.memory()[0xFFFE], 0x02);
    assert_eq!(cpu.memory()[0xFFFF], 0x00);
    Ok(())
}

#[test]
fn interrupt_is_ignored_while_disabled() -> Result<(), Error> {
    let mut cpu = cpu_with_program(&[0xF3]);
    cpu.step()?;
    assert!(!cpu.int_enabled());
    cpu.generate_interrupt(1)?;
    assert_eq!(cpu.pc(), 1);
    assert_eq!(cpu.sp(), 0);
    cpu.execute_instruction(Instruction::EI)?;
    assert!(cpu.int_enabled());
    Ok(())
}

#[test]
fn interrupt_vector_above_seven_is_refused() {
    let mut cpu = Cpu::new(|_, _| {});
    assert_eq!(cpu.generate_interrupt(8), Err(Error::IllegalOperand));
    assert_eq!(cpu.pc(), 0);
    assert_eq!(cpu.sp(), 0);
}

#[test]
fn illegal_operand_is_refused_and_changes_nothing() {
    let mut cpu = Cpu::new(|_, _| {});
    let bad = [
        Instruction::LXI { register: Reg::A, value: 1 },
        Instruction::STAX { register: Reg::H },
        Instruction::PUSH { register: Reg::SP },
        Instruction::MOV { source: Reg::M, destination: Reg::M },
        Instruction::ADD { register: Reg::Psw },
        Instruction::RST { data: 8 },
    ];
    for i in bad.iter() {
        assert_eq!(cpu.execute_instruction(*i), Err(Error::IllegalOperand));
    }
    assert_eq!(cpu.pc(), 0);
    assert_eq!(cpu.a(), 0);
}

#[test]
fn inx_wraps_and_keeps_flags() -> Result<(), Error> {
    let mut cpu = Cpu::new(|_, _| {});
    cpu.execute_instruction(Instruction::LXI { register: Reg::D, value: 0xFFFF })?;
    cpu.execute_instruction(Instruction::INX { register: Reg::D })?;
    assert_eq!(cpu.load_register_pair(Reg::D), 0x0000);
    assert_eq!(cpu.condition_codes(), ConditionCodes::new());
    Ok(())
}

#[test]
fn dcx_wraps_and_keeps_flags() -> Result<(), Error> {
    let mut cpu = Cpu::new(|_, _| {});
    let flags = ConditionCodes { z: true, s: false, p: true, cy: false, ac: true };
    cpu.set_condition_codes(flags);
    cpu.execute_instruction(Instruction::DCX { register: Reg::H })?;
    assert_eq!(cpu.load_register_pair(Reg::H), 0xFFFF);
    cpu.execute_instruction(Instruction::DCX { register: Reg::SP })?;
    assert_eq!(cpu.sp(), 0xFFFF);
    assert_eq!(cpu.condition_codes(), flags);
    Ok(())
}

#[test]
fn dad_carries_out_and_keeps_other_flags() -> Result<(), Error> {
    let mut cpu = Cpu::new(|_, _| {});
    cpu.set_condition_codes(ConditionCodes { z: true, s: true, p: true, cy: false, ac: false });
    cpu.execute_instruction(Instruction::LXI { register: Reg::B, value: 0x0001 })?;
    cpu.execute_instruction(Instruction::LXI { register: Reg::H, value: 0xFFFF })?;
    cpu.execute_instruction(Instruction::DAD { register: Reg::B })?;
    let f = cpu.condition_codes();
    assert_eq!(cpu.load_register_pair(Reg::H), 0x0000);
    assert!(f.cy && f.z && f.s && f.p);
    Ok(())
}

#[test]
fn rrc_moves_bit_zero_into_carry() -> Result<(), Error> {
    let mut cpu = Cpu::new(|_, _| {});
    cpu.execute_instruction(Instruction::MVI { register: Reg::A, value: 0x0D })?;
    cpu.execute_instruction(Instruction::RRC)?;
    assert_eq!(cpu.a(), 0x86);
    assert!(cpu.condition_codes().cy);
    Ok(())
}

#[test]
fn rotates_through_carry() -> Result<(), Error> {
    let mut cpu = Cpu::new(|_, _| {});
    cpu.execute_instruction(Instruction::MVI { register: Reg::A, value: 0x85 })?;
    cpu.execute_instruction(Instruction::RAL)?;
    assert_eq!(cpu.a(), 0x0A);
    assert!(cpu.condition_codes().cy);
    cpu.execute_instruction(Instruction::RAR)?;
    assert_eq!(cpu.a(), 0x85);
    assert!(!cpu.condition_codes().cy);
    Ok(())
}

#[test]
fn decimal_adjust_after_bcd_addition() -> Result<(), Error> {
    let mut cpu = Cpu::new(|_, _| {});
    cpu.execute_instruction(Instruction::MVI { register: Reg::A, value: 0x9B })?;
    cpu.execute_instruction(Instruction::DAA)?;
    let f = cpu.condition_codes();
    assert_eq!(cpu.a(), 0x01);
    assert!(f.cy && f.ac && !f.z);

    let mut cpu = Cpu::new(|_, _| {});
    cpu.execute_instruction(Instruction::MVI { register: Reg::A, value: 0x38 })?;
    cpu.execute_instruction(Instruction::ADI { data: 0x45 })?;
    cpu.execute_instruction(Instruction::DAA)?;
    assert_eq!(cpu.a(), 0x83);
    assert!(!cpu.condition_codes().cy);
    Ok(())
}

#[test]
fn logical_operations_clear_carry() -> Result<(), Error> {
    let mut cpu = Cpu::new(|_, _| {});
    cpu.set_condition_codes(ConditionCodes { z: false, s: false, p: false, cy: true, ac: false });
    cpu.execute_instruction(Instruction::MVI { register: Reg::A, value: 0x0F })?;
    cpu.execute_instruction(Instruction::ANI { data: 0x08 })?;
    let f = cpu.condition_codes();
    assert_eq!(cpu.a(), 0x08);
    assert!(!f.cy && f.ac && !f.z && !f.p);
    cpu.execute_instruction(Instruction::ORI { data: 0xF0 })?;
    assert_eq!(cpu.a(), 0xF8);
    assert!(cpu.condition_codes().s && !cpu.condition_codes().ac);
    cpu.execute_instruction(Instruction::XRA { register: Reg::A })?;
    let f = cpu.condition_codes();
    assert_eq!(cpu.a(), 0);
    assert!(f.z && f.p && !f.cy);
    Ok(())
}

#[test]
fn compare_sets_flags_without_changing_a() -> Result<(), Error> {
    let mut cpu = Cpu::new(|_, _| {});
    cpu.execute_instruction(Instruction::MVI { register: Reg::A, value: 0x10 })?;
    cpu.execute_instruction(Instruction::CPI { data: 0x20 })?;
    assert_eq!(cpu.a(), 0x10);
    assert!(cpu.condition_codes().cy && !cpu.condition_codes().z);
    cpu.execute_instruction(Instruction::MVI { register: Reg::E, value: 0x10 })?;
    cpu.execute_instruction(Instruction::CMP { register: Reg::E })?;
    assert!(cpu.condition_codes().z && !cpu.condition_codes().cy);
    Ok(())
}

#[test]
fn subtraction_with_borrow() -> Result<(), Error> {
    let mut cpu = Cpu::new(|_, _| {});
    cpu.set_condition_codes(ConditionCodes { z: false, s: false, p: false, cy: true, ac: false });
    cpu.execute_instruction(Instruction::MVI { register: Reg::A, value: 0x04 })?;
    cpu.execute_instruction(Instruction::MVI { register: Reg::L, value: 0x02 })?;
    cpu.execute_instruction(Instruction::SBB { register: Reg::L })?;
    assert_eq!(cpu.a(), 0x01);
    assert!(!cpu.condition_codes().cy);
    cpu.execute_instruction(Instruction::SUB { register: Reg::L })?;
    assert_eq!(cpu.a(), 0xFF);
    assert!(cpu.condition_codes().cy);
    cpu.execute_instruction(Instruction::ACI { data: 0x00 })?;
    assert_eq!(cpu.a(), 0x00);
    assert!(cpu.condition_codes().cy && cpu.condition_codes().z);
    Ok(())
}

#[test]
fn accumulator_and_carry_instructions() -> Result<(), Error> {
    let mut cpu = Cpu::new(|_, _| {});
    cpu.execute_instruction(Instruction::MVI { register: Reg::A, value: 0x51 })?;
    cpu.execute_instruction(Instruction::CMA)?;
    assert_eq!(cpu.a(), 0xAE);
    cpu.execute_instruction(Instruction::STC)?;
    assert!(cpu.condition_codes().cy);
    cpu.execute_instruction(Instruction::CMC)?;
    assert!(!cpu.condition_codes().cy);
    Ok(())
}

#[test]
fn direct_loads_and_stores() -> Result<(), Error> {
    let mut cpu = Cpu::new(|_, _| {});
    cpu.execute_instruction(Instruction::LXI { register: Reg::H, value: 0x1234 })?;
    cpu.execute_instruction(Instruction::SHLD { address: 0x2000 })?;
    assert_eq!(cpu.memory()[0x2000], 0x34);
    assert_eq!(cpu.memory()[0x2001], 0x12);
    cpu.execute_instruction(Instruction::LXI { register: Reg::H, value: 0 })?;
    cpu.execute_instruction(Instruction::LHLD { address: 0x2000 })?;
    assert_eq!(cpu.load_register_pair(Reg::H), 0x1234);
    cpu.execute_instruction(Instruction::MVI { register: Reg::A, value: 0x77 })?;
    cpu.execute_instruction(Instruction::STA { address: 0xFFFF })?;
    assert_eq!(cpu.memory()[0xFFFF], 0x77);
    cpu.execute_instruction(Instruction::MVI { register: Reg::A, value: 0 })?;
    cpu.execute_instruction(Instruction::LDA { address: 0xFFFF })?;
    assert_eq!(cpu.a(), 0x77);
    Ok(())
}

#[test]
fn stack_pointer_and_program_counter_from_hl() -> Result<(), Error> {
    let mut cpu = Cpu::new(|_, _| {});
    cpu.execute_instruction(Instruction::LXI { register: Reg::SP, value: 0x3000 })?;
    cpu.write_to_memory_at(0x3000, 0xCD);
    cpu.write_to_memory_at(0x3001, 0xAB);
    cpu.execute_instruction(Instruction::LXI { register: Reg::H, value: 0x1234 })?;
    cpu.execute_instruction(Instruction::XTHL)?;
    assert_eq!(cpu.load_register_pair(Reg::H), 0xABCD);
    assert_eq!(cpu.memory()[0x3000], 0x34);
    assert_eq!(cpu.memory()[0x3001], 0x12);
    cpu.execute_instruction(Instruction::SPHL)?;
    assert_eq!(cpu.sp(), 0xABCD);
    let mut cpu = cpu_with_program(&[0x21, 0x00, 0x40, 0xE9]);
    steps(&mut cpu, 2);
    assert_eq!(cpu.pc(), 0x4000);
    Ok(())
}

#[test]
fn moves_between_registers_and_memory() -> Result<(), Error> {
    let mut cpu = Cpu::new(|_, _| {});
    cpu.execute_instruction(Instruction::LXI { register: Reg::H, value: 0x0800 })?;
    cpu.execute_instruction(Instruction::MVI { register: Reg::C, value: 0x5A })?;
    cpu.execute_instruction(Instruction::MOV { source: Reg::C, destination: Reg::M })?;
    assert_eq!(cpu.memory()[0x0800], 0x5A);
    cpu.execute_instruction(Instruction::MOV { source: Reg::M, destination: Reg::E })?;
    assert_eq!(cpu.e(), 0x5A);
    assert_eq!(cpu.get_register_val(Reg::E), 0x5A);
    Ok(())
}

#[test]
fn input_reads_the_bus() -> Result<(), Error> {
    let mut cpu = Cpu::new(|_, _| {});
    cpu.write_to_bus(0x42);
    cpu.execute_instruction(Instruction::IN { data: 3 })?;
    assert_eq!(cpu.a(), 0x42);
    Ok(())
}

#[test]
fn output_hands_port_and_accumulator_to_the_sink() -> Result<(), Error> {
    let mut seen = Vec::new();
    let mut cpu = Cpu::new(|port: u8, value: u8| seen.push((port, value)));
    cpu.load_into_memory(vec![0x3E, 0x99, 0xD3, 0x07])?;
    cpu.step()?;
    cpu.step()?;
    assert_eq!(cpu.pc(), 4);
    drop(cpu);
    assert_eq!(seen, vec![(0x07, 0x99)]);
    Ok(())
}

#[test]
fn conditional_calls_and_returns() -> Result<(), Error> {
    let mut program = vec![0x31, 0x00, 0x10, 0xCC, 0x00, 0x02, 0xC4, 0x00, 0x02, 0x76];
    program.resize(0x203, 0);
    program[0x200] = 0xC8; // RZ, not taken: Z is clear
    program[0x201] = 0xE0; // RPO, taken: P is clear
    let mut cpu = cpu_with_program(&program);
    steps(&mut cpu, 2);
    assert_eq!(cpu.pc(), 6);
    assert_eq!(cpu.sp(), 0x1000);
    cpu.step()?;
    assert_eq!(cpu.pc(), 0x200);
    assert_eq!(cpu.sp(), 0x0FFE);
    cpu.step()?;
    assert_eq!(cpu.pc(), 0x201);
    cpu.step()?;
    assert_eq!(cpu.pc(), 9);
    assert_eq!(cpu.sp(), 0x1000);
    cpu.step()?;
    assert!(cpu.halted());
    cpu.step()?;
    assert_eq!(cpu.pc(), 10);
    Ok(())
}

#[test]
fn restart_instruction_returns_past_itself() -> Result<(), Error> {
    let mut program = vec![0x31, 0x00, 0x10, 0xCF];
    program.resize(0x09, 0);
    program[0x08] = 0xC9;
    let mut cpu = cpu_with_program(&program);
    steps(&mut cpu, 2);
    assert_eq!(cpu.pc(), 0x08);
    cpu.step()?;
    assert_eq!(cpu.pc(), 0x04);
    Ok(())
}

#[test]
fn undefined_opcode_passes_as_one_byte() -> Result<(), Error> {
    let mut cpu = cpu_with_program(&[0x08, 0xCB, 0x3C]);
    steps(&mut cpu, 3);
    assert_eq!(cpu.pc(), 3);
    assert_eq!(cpu.a(), 1);
    Ok(())
}

#[test]
fn truncated_instruction_at_the_end_of_memory_passes_as_one_byte() -> Result<(), Error> {
    let mut cpu = Cpu::new(|_, _| {});
    cpu.write_to_memory_at(0xFFFF, 0xC3);
    cpu.set_pc(0xFFFF);
    cpu.step()?;
    assert_eq!(cpu.pc(), 0x0000);
    Ok(())
}

#[test]
fn decode_reads_operands_little_endian() {
    assert_eq!(
        Instruction::decode(&[0x01, 0xCD, 0xAB]),
        Some(Instruction::LXI { register: Reg::B, value: 0xABCD })
    );
    assert_eq!(
        Instruction::decode(&[0xC3, 0x34, 0x12, 0xFF]),
        Some(Instruction::JMP { address: 0x1234 })
    );
    assert_eq!(
        Instruction::decode(&[0x36, 0x12]),
        Some(Instruction::MVI { register: Reg::M, value: 0x12 })
    );
    assert_eq!(Instruction::decode(&[0xFE, 0x01]), Some(Instruction::CPI { data: 0x01 }));
}

#[test]
fn decode_register_fields() {
    assert_eq!(Instruction::decode(&[0x76]), Some(Instruction::HLT));
    assert_eq!(Instruction::decode(&[0x7E]), Some(Instruction::MOV { source: Reg::M, destination: Reg::A }));
    assert_eq!(Instruction::decode(&[0x41]), Some(Instruction::MOV { source: Reg::C, destination: Reg::B }));
    assert_eq!(Instruction::decode(&[0xBD]), Some(Instruction::CMP { register: Reg::L }));
    assert_eq!(Instruction::decode(&[0xF5]), Some(Instruction::PUSH { register: Reg::Psw }));
    assert_eq!(Instruction::decode(&[0x39]), Some(Instruction::DAD { register: Reg::SP }));
    assert_eq!(Instruction::decode(&[0xFF]), Some(Instruction::RST { data: 7 }));
}

#[test]
fn decode_fails_on_undefined_or_truncated_input() {
    assert_eq!(Instruction::decode(&[]), None);
    assert_eq!(Instruction::decode(&[0x08]), None);
    assert_eq!(Instruction::decode(&[0xDD, 0x00, 0x00]), None);
    assert_eq!(Instruction::decode(&[0xC3, 0x00]), None);
    assert_eq!(Instruction::decode(&[0x06]), None);
}

#[test]
fn every_defined_opcode_decodes_with_its_length() {
    let undefined = [0x08, 0x10, 0x18, 0x20, 0x28, 0x30, 0x38, 0xCB, 0xD9, 0xDD, 0xED, 0xFD];
    let mut count = 0;
    for op in 0..=255u8 {
        let decoded = Instruction::decode(&[op, 0x11, 0x22]);
        if undefined.contains(&op) {
            assert_eq!(decoded, None);
        } else {
            let i = decoded.unwrap();
            assert!(i.has_legal_operands());
            assert_eq!(Instruction::decode_at(&[0, op, 0x11, 0x22], 1), Some(i));
            let short = Instruction::decode(&[op, 0x11]);
            assert_eq!(short.is_some(), i.op_bytes() <= 2);
            count += 1;
        }
    }
    assert_eq!(count, 244);
}

#[test]
fn op_bytes_by_shape() {
    assert_eq!(Instruction::NoOp.op_bytes(), 1);
    assert_eq!(Instruction::MVI { register: Reg::A, value: 0 }.op_bytes(), 2);
    assert_eq!(Instruction::OUT { data: 0 }.op_bytes(), 2);
    assert_eq!(Instruction::CALL { address: 0 }.op_bytes(), 3);
    assert_eq!(Instruction::RST { data: 3 }.op_bytes(), 1);
}

#[test]
fn halted_cpu_does_not_step() -> Result<(), Error> {
    let mut cpu = cpu_with_program(&[0x76, 0x3C]);
    cpu.step()?;
    assert!(cpu.halted());
    assert_eq!(cpu.pc(), 1);
    cpu.step()?;
    assert_eq!(cpu.pc(), 1);
    assert_eq!(cpu.a(), 0);
    Ok(())
}

#[test]
fn parity_of_wider_values() {
    assert!(eighty_eighty::parity_impl(0b1011, 4) == false);
    assert!(eighty_eighty::parity_impl(0xFFFF, 16));
    assert!(eighty_eighty::parity_impl(0x0100, 8));
}

#[test]
fn mnemonic_text_with_hex_operands() {
    assert_eq!(Instruction::MVI { register: Reg::B, value: 0x12 }.mnemonic(), "MVI B, 0x12");
    assert_eq!(Instruction::JMP { address: 0x1234 }.mnemonic(), "JMP 0x1234");
    assert_eq!(Instruction::LXI { register: Reg::SP, value: 0xabcd }.mnemonic(), "LXI SP, 0xabcd");
    assert_eq!(Instruction::MOV { source: Reg::M, destination: Reg::A }.mnemonic(), "MOV A, M");
    assert_eq!(Instruction::PUSH { register: Reg::Psw }.mnemonic(), "PUSH PSW");
    assert_eq!(Instruction::NoOp.mnemonic(), "NOP");
    assert_eq!(Instruction::OUT { data: 0xfe }.mnemonic(), "OUT 0xfe");
    assert_eq!(Instruction::RST { data: 2 }.mnemonic(), "RST 0x02");
    assert_eq!(Instruction::HLT.name(), "HLT");
}

#[test]
fn disassembly_lists_each_instruction_with_its_address() {
    let lines = eighty_eighty::disassemble(&[0x06, 0x14, 0x80, 0x08, 0xC3, 0x00, 0x01, 0xC3]);
    assert_eq!(
        lines,
        vec![
            "0x0000 MVI B, 0x14".to_string(),
            "0x0002 ADD B".to_string(),
            "0x0003 NOP".to_string(),
            "0x0004 JMP 0x0100".to_string(),
            "0x0007 NOP".to_string(),
        ]
    );
    assert!(eighty_eighty::disassemble(&[]).is_empty());
}

#[test]
fn register_summary_text() -> Result<(), Error> {
    let mut cpu = cpu_with_program(&[0x21, 0xCD, 0xAB, 0x3E, 0x5F, 0x06, 0x07]);
    cpu.step()?;
    cpu.step()?;
    cpu.step()?;
    assert_eq!(
        cpu.to_string(),
        "pc: 0x0007, sp: 0x0000, a: 0x5f, h: 0x00ab, l: 0x00cd, b: 0x07"
    );
    Ok(())
}
