use eighty_eighty::{ConditionCodes, Cpu, Error, Instruction, Parity, Reg};

fn all_flags_set() -> ConditionCodes {
    ConditionCodes { z: true, s: true, p: true, cy: true, ac: true }
}

#[test]
fn parity() {
    assert!(0b00_u8.parity());
    assert!(!0b01_u8.parity());
    assert!(0b11_u8.parity());
    assert!(!0b10_u8.parity());

    assert!(0b101_u8.parity());
    assert!(!0b111_u8.parity());
    assert!(0b110_u8.parity());

    assert!(0b0000000000000000_u16.parity());
    assert!(!0b1000000000000000_u16.parity());
    assert!(!0b0000000000000001_u16.parity());
    assert!(0b0000100000000001_u16.parity());
    assert!(0b0000111100000000_u16.parity());
}

// The status word holds S in bit 7, Z in bit 6, AC in bit 4, P in bit 2,
// a fixed one in bit 1 and CY in bit 0.
#[test]
fn processor_status_word() {
    let mut cpu = Cpu::new(|_, _| {});

    assert_eq!(cpu.processor_status_word(), 0b00000010);

    let mut flags = cpu.condition_codes();
    flags.z = true;
    cpu.set_condition_codes(flags);

    assert_eq!(cpu.processor_status_word(), 0b01000010);

    flags.s = true;
    cpu.set_condition_codes(flags);

    assert_eq!(cpu.processor_status_word(), 0b11000010);

    flags.z = false;
    cpu.set_condition_codes(flags);

    assert_eq!(cpu.processor_status_word(), 0b10000010);

    flags.s = false;
    flags.cy = true;
    cpu.set_condition_codes(flags);

    assert_eq!(cpu.processor_status_word(), 0b00000011);
}

#[test]
fn mvi_and_add() -> Result<(), Error> {
    let mut cpu = Cpu::new(|_, _| {});

    assert_eq!(cpu.a(), 0);

    cpu.execute_instruction(Instruction::MVI { register: Reg::B, value: 20 })?;

    cpu.execute_instruction(Instruction::ADD { register: Reg::B })?;

    assert_eq!(cpu.a(), 20);

    Ok(())
}

// [LXI] - Load Register Pair Immediate
#[test]
fn lxi() -> Result<(), Error> {
    let mut cpu = Cpu::new(|_, _| {});

    cpu.execute_instruction(Instruction::LXI { register: Reg::B, value: 0x0055 })?;

    assert_eq!(cpu.b(), 0x00);
    assert_eq!(cpu.c(), 0x55);

    cpu.execute_instruction(Instruction::LXI { register: Reg::B, value: 0x1200 })?;

    assert_eq!(cpu.b(), 0x12);
    assert_eq!(cpu.c(), 0x00);

    cpu.execute_instruction(Instruction::LXI { register: Reg::D, value: 0x1234 })?;

    assert_eq!(cpu.b(), 0x12);
    assert_eq!(cpu.c(), 0x00);
    assert_eq!(cpu.d(), 0x12);
    assert_eq!(cpu.e(), 0x34);

    Ok(())
}

// [STAX] - Store Accumulator Indirect
#[test]
fn stax() -> Result<(), Error> {
    let mut cpu = Cpu::new(|_, _| {});

    cpu.assign_value(Reg::A, 0x34);

    cpu.execute_instruction(Instruction::LXI { register: Reg::B, value: 0xabcd })?;

    cpu.execute_instruction(Instruction::STAX { register: Reg::B })?;

    assert_eq!(cpu.memory()[0xabcd], 0x34);

    cpu.assign_value(Reg::A, 0x12);

    cpu.execute_instruction(Instruction::LXI { register: Reg::D, value: 0x7831 })?;

    cpu.execute_instruction(Instruction::STAX { register: Reg::D })?;

    assert_eq!(cpu.memory()[0xabcd], 0x34);
    assert_eq!(cpu.memory()[0x7831], 0x12);

    Ok(())
}

// [INX] - Increment Register Pair
#[test]
fn inx() -> Result<(), Error> {
    let mut cpu = Cpu::new(|_, _| {});

    cpu.set_condition_codes(all_flags_set());

    // Test for proper wrapping
    cpu.execute_instruction(Instruction::LXI { register: Reg::B, value: 0xffff })?;

    cpu.execute_instruction(Instruction::INX { register: Reg::B })?;

    assert_eq!(cpu.b(), 0x00);
    assert_eq!(cpu.c(), 0x00);

    assert_eq!(cpu.condition_codes(), all_flags_set());

    cpu.execute_instruction(Instruction::LXI { register: Reg::B, value: 0xfffe })?;

    cpu.execute_instruction(Instruction::INX { register: Reg::B })?;

    assert_eq!(cpu.b(), 0xff);
    assert_eq!(cpu.c(), 0xff);

    assert_eq!(cpu.condition_codes(), all_flags_set());

    Ok(())
}

// [INR] - Increment Register
#[test]
fn inr_register() -> Result<(), Error> {
    let mut cpu = Cpu::new(|_, _| {});

    cpu.execute_instruction(Instruction::INR { register: Reg::A })?;

    assert_eq!(cpu.a(), 0x01);
    assert!(!cpu.condition_codes().cy);

    cpu.execute_instruction(Instruction::MVI { register: Reg::A, value: 0xff })?;

    assert_eq!(cpu.a(), 0xff);
    assert!(!cpu.condition_codes().cy);

    cpu.execute_instruction(Instruction::INR { register: Reg::A })?;

    assert_eq!(cpu.a(), 0x00);
    assert!(!cpu.condition_codes().cy);

    Ok(())
}

// [INR] - Increment Memory
#[test]
fn inr_memory() -> Result<(), Error> {
    let mut cpu = Cpu::new(|_, _| {});

    cpu.execute_instruction(Instruction::INR { register: Reg::M })?;

    assert_eq!(cpu.memory()[0], 1);

    cpu.execute_instruction(Instruction::LXI { register: Reg::H, value: 0x1234 })?;

    assert_eq!(cpu.h(), 0x12);
    assert_eq!(cpu.l(), 0x34);

    cpu.execute_instruction(Instruction::INR { register: Reg::M })?;

    assert_eq!(cpu.memory()[0x1234], 1);

    Ok(())
}

// [DCR] - Decrement Register
#[test]
fn dcr_register() -> Result<(), Error> {
    let mut cpu = Cpu::new(|_, _| {});

    cpu.execute_instruction(Instruction::DCR { register: Reg::B })?;

    assert_eq!(cpu.b(), 0xff);
    assert!(!cpu.condition_codes().cy);
    assert!(cpu.condition_codes().s);
    assert!(cpu.condition_codes().p);

    cpu.execute_instruction(Instruction::DCR { register: Reg::B })?;

    assert_eq!(cpu.b(), 0xfe);
    assert!(!cpu.condition_codes().cy);
    assert!(cpu.condition_codes().s);
    assert!(!cpu.condition_codes().p);

    Ok(())
}

// [DCR] - Decrement Memory
#[test]
fn dcr_memory() -> Result<(), Error> {
    let mut cpu = Cpu::new(|_, _| {});

    cpu.load_into_memory(vec![0x35])?;

    assert_eq!(cpu.memory()[0], 0x35);
    assert_eq!(cpu.pc(), 0);

    cpu.step()?;

    assert_eq!(cpu.memory()[0], 0x34);
    assert_eq!(cpu.pc(), 1);

    Ok(())
}

// [MVI] - Move Immediate Register
#[test]
fn mvi_reg() -> Result<(), Error> {
    let mut cpu = Cpu::new(|_, _| {});

    cpu.execute_instruction(Instruction::MVI { register: Reg::B, value: 0x12 })?;

    assert_eq!(cpu.b(), 0x12);

    Ok(())
}

// [MVI] - Move Immediate Memory
#[test]
fn mvi_mem() -> Result<(), Error> {
    let mut cpu = Cpu::new(|_, _| {});

    cpu.execute_instruction(Instruction::LXI { register: Reg::H, value: 0x1234 })?;

    cpu.execute_instruction(Instruction::MVI { register: Reg::M, value: 0x12 })?;

    assert_eq!(cpu.memory()[0x1234], 0x12);

    Ok(())
}

// [RLC] - Rotate Left
#[test]
fn rlc() -> Result<(), Error> {
    let mut cpu = Cpu::new(|_, _| {});

    cpu.execute_instruction(Instruction::MVI { register: Reg::A, value: 0xff })?;

    assert_eq!(cpu.a(), 0xff);
    assert!(!cpu.condition_codes().cy);

    cpu.execute_instruction(Instruction::RLC)?;

    assert_eq!(cpu.a(), 0xff);
    assert!(cpu.condition_codes().cy);

    cpu.execute_instruction(Instruction::MVI { register: Reg::A, value: 2 })?;

    assert_eq!(cpu.a(), 2);
    assert!(cpu.condition_codes().cy);

    cpu.execute_instruction(Instruction::RLC)?;

    assert_eq!(cpu.a(), 4);
    assert!(!cpu.condition_codes().cy);

    Ok(())
}

// [DAD] - Add Register Pair to H and L
#[test]
fn dad() -> Result<(), Error> {
    let mut cpu = Cpu::new(|_, _| {});

    cpu.execute_instruction(Instruction::LXI { register: Reg::B, value: 0x1234 })?;
    cpu.execute_instruction(Instruction::LXI { register: Reg::H, value: 0x4321 })?;
    cpu.execute_instruction(Instruction::DAD { register: Reg::B })?;

    assert_eq!(cpu.h(), 0x55);
    assert_eq!(cpu.l(), 0x55);

    let mut cpu = Cpu::new(|_, _| {});

    cpu.execute_instruction(Instruction::LXI { register: Reg::B, value: 0x1200 })?;
    cpu.execute_instruction(Instruction::LXI { register: Reg::H, value: 0x0034 })?;
    let mut flags = cpu.condition_codes();
    flags.cy = true;
    cpu.set_condition_codes(flags);
    cpu.execute_instruction(Instruction::DAD { register: Reg::B })?;

    assert_eq!(cpu.h(), 0x12);
    assert_eq!(cpu.l(), 0x34);
    assert!(!cpu.condition_codes().cy);

    let mut cpu = Cpu::new(|_, _| {});

    cpu.execute_instruction(Instruction::LXI { register: Reg::B, value: 1 })?;

    assert_eq!(cpu.c(), 0x01);

    cpu.execute_instruction(Instruction::LXI { register: Reg::H, value: 0xffff })?;

    assert_eq!(cpu.h(), 0xff);
    assert_eq!(cpu.l(), 0xff);

    cpu.execute_instruction(Instruction::DAD { register: Reg::B })?;

    assert_eq!(cpu.h(), 0x00);
    assert_eq!(cpu.l(), 0x00);
    assert!(cpu.condition_codes().cy);

    Ok(())
}

// [LDAX] - Load Accumulator Indirect
#[test]
fn ldax() -> Result<(), Error> {
    let mut cpu = Cpu::new(|_, _| {});

    cpu.execute_instruction(Instruction::LXI { register: Reg::B, value: 0x1234 })?;

    cpu.write_to_memory_at(0x1234, 0x11);

    cpu.execute_instruction(Instruction::LDAX { register: Reg::B })?;

    assert_eq!(cpu.a(), 0x11);

    Ok(())
}

// [DCX] - Decrement Register Pair
#[test]
fn dcx() -> Result<(), Error> {
    let mut cpu = Cpu::new(|_, _| {});

    cpu.execute_instruction(Instruction::LXI { register: Reg::B, value: 0x1234 })?;

    assert_eq!(cpu.b(), 0x12);
    assert_eq!(cpu.c(), 0x34);

    cpu.execute_instruction(Instruction::DCX { register: Reg::B })?;

    assert_eq!(cpu.b(), 0x12);
    assert_eq!(cpu.c(), 0x33);

    cpu.execute_instruction(Instruction::LXI { register: Reg::D, value: 0x0000 })?;

    cpu.execute_instruction(Instruction::DCX { register: Reg::D })?;

    assert_eq!(cpu.d(), 0xff);
    assert_eq!(cpu.d(), 0xff);
    assert!(!cpu.condition_codes().cy);

    Ok(())
}

// [PUSH] - Push
#[test]
fn push() -> Result<(), Error> {
    let mut cpu = Cpu::new(|_, _| {});

    cpu.execute_instruction(Instruction::LXI { register: Reg::B, value: 0x1234 })?;
    cpu.execute_instruction(Instruction::LXI { register: Reg::SP, value: 0x0012 })?;
    cpu.execute_instruction(Instruction::PUSH { register: Reg::B })?;

    assert_eq!(cpu.memory()[0x10], 0x34);
    assert_eq!(cpu.memory()[0x11], 0x12);
    assert_eq!(cpu.sp(), 0x10);

    Ok(())
}

// [XCHG] - Exchange H and L with D and E
#[test]
fn xchg() -> Result<(), Error> {
    let mut cpu = Cpu::new(|_, _| {});

    cpu.execute_instruction(Instruction::LXI { register: Reg::H, value: 0x1234 })?;

    cpu.execute_instruction(Instruction::LXI { register: Reg::D, value: 0x1111 })?;

    cpu.execute_instruction(Instruction::XCHG)?;

    assert_eq!(cpu.d(), 0x12);
    assert_eq!(cpu.e(), 0x34);
    assert_eq!(cpu.h(), 0x11);
    assert_eq!(cpu.l(), 0x11);

    Ok(())
}

// [POP] - Pop
#[test]
fn pop() -> Result<(), Error> {
    let mut cpu = Cpu::new(|_, _| {});

    cpu.execute_instruction(Instruction::LXI { register: Reg::B, value: 0x1234 })?;
    cpu.execute_instruction(Instruction::LXI { register: Reg::SP, value: 0x12 })?;
    cpu.execute_instruction(Instruction::PUSH { register: Reg::B })?;
    cpu.execute_instruction(Instruction::POP { register: Reg::D })?;

    assert_eq!(cpu.d(), 0x12);
    assert_eq!(cpu.e(), 0x34);
    assert_eq!(cpu.sp(), 0x12);

    Ok(())
}

// [OUT] - Output: the sink receives the port and the accumulator.
#[test]
fn out() -> Result<(), Error> {
    let mut i = 0;

    let mut cpu = Cpu::new(|port: u8, _value: u8| i = port);

    cpu.execute_instruction(Instruction::OUT { data: 0x12 })?;

    assert_eq!(i, 0x12);

    Ok(())
}

// [ADD] - Add Register
#[test]
fn add_register() -> Result<(), Error> {
    let mut cpu = Cpu::new(|_, _| {});

    cpu.execute_instruction(Instruction::MVI { register: Reg::B, value: 0xFF })?;

    cpu.execute_instruction(Instruction::MVI { register: Reg::A, value: 0x01 })?;

    cpu.execute_instruction(Instruction::ADD { register: Reg::B })?;

    assert_eq!(cpu.a(), 0);
    assert_eq!(cpu.b(), 0xff);
    assert!(!cpu.condition_codes().s);
    assert!(cpu.condition_codes().z);
    assert!(cpu.condition_codes().p);
    assert!(cpu.condition_codes().cy);

    Ok(())
}

// [ADD] - Add Memory
#[test]
fn add_memory() -> Result<(), Error> {
    let mut cpu = Cpu::new(|_, _| {});

    cpu.execute_instruction(Instruction::LXI { register: Reg::H, value: 0x3456 })?;
    cpu.execute_instruction(Instruction::MVI { register: Reg::M, value: 0xff })?;

    cpu.execute_instruction(Instruction::MVI { register: Reg::A, value: 1 })?;
    cpu.execute_instruction(Instruction::ADD { register: Reg::M })?;

    assert_eq!(cpu.a(), 0);
    assert_eq!(cpu.memory()[0x3456], 0xff);
    assert!(!cpu.condition_codes().s);
    assert!(cpu.condition_codes().z);
    assert!(cpu.condition_codes().p);
    assert!(cpu.condition_codes().cy);

    Ok(())
}

// [JZ] - Jump Zero
#[test]
fn jz() -> Result<(), Error> {
    let mut cpu = Cpu::new(|_, _| {});

    cpu.execute_instruction(Instruction::ADD { register: Reg::B })?;

    let jump_instruction = Instruction::JZ { address: 0x12 };
    cpu.execute_instruction(jump_instruction)?;

    assert_eq!(cpu.pc(), 0x12 - jump_instruction.op_bytes() as u16);

    Ok(())
}

// [JC] - Jump Carry
#[test]
fn jc() -> Result<(), Error> {
    let mut cpu = Cpu::new(|_, _| {});

    cpu.execute_instruction(Instruction::MVI { register: Reg::B, value: 0xff })?;
    cpu.execute_instruction(Instruction::MVI { register: Reg::A, value: 1 })?;
    cpu.execute_instruction(Instruction::ADD { register: Reg::B })?;
    let jump_instruction = Instruction::JC { address: 0x82 };
    cpu.execute_instruction(jump_instruction)?;

    assert_eq!(cpu.pc(), 0x82 - jump_instruction.op_bytes() as u16);

    cpu.set_pc(1);
    cpu.execute_instruction(Instruction::ADD { register: Reg::B })?;
    cpu.execute_instruction(jump_instruction)?;
    assert_eq!(cpu.pc(), 1);

    Ok(())
}

// [JNC] - Jump Not Carry
#[test]
fn jnc() -> Result<(), Error> {
    let mut cpu = Cpu::new(|_, _| {});

    cpu.execute_instruction(Instruction::MVI { register: Reg::B, value: 0xff })?;
    cpu.execute_instruction(Instruction::MVI { register: Reg::A, value: 1 })?;
    cpu.execute_instruction(Instruction::ADD { register: Reg::B })?;
    let jump_instruction = Instruction::JNC { address: 0x82 };
    cpu.execute_instruction(jump_instruction)?;

    assert_eq!(cpu.pc(), 0);

    cpu.execute_instruction(Instruction::ADD { register: Reg::B })?;
    cpu.execute_instruction(jump_instruction)?;
    assert_eq!(cpu.pc(), 0x82 - jump_instruction.op_bytes() as u16);

    Ok(())
}
