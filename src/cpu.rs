//! The executor: processor state and what each instruction does to it.
use vstd::prelude::*;
use crate::flags::{flags_of_psw, psw_of, ConditionCodes};
use crate::instruction::{decoded, is_operand8, is_pair, Instruction, Reg};
use crate::machine::{
    code_at_pc, condition, execute, interrupt, result_flags, run, run_adjust, run_arithmetic,
    run_call, run_jump, run_machine, run_ret, run_transfer, step, wrap16, CpuView,
};
use crate::mnemonic::{append_hex16, append_hex8, hex16_text, hex8_text};
use crate::parity::{even_ones, Parity};
use vstd::string::StringExecFns;

verus! {

/// Errors that the processor reports to its host.
#[derive(Clone, Copy, Debug, PartialEq, Eq, Structural)]
pub enum Error {
    /// A ROM larger than the 65,536-byte memory.
    OutOfMemory,
    /// A memory access outside the address space. Addresses are 16-bit and
    /// memory holds every one of them, so this is never reported.
    BadMemoryAccess(u16),
    /// An instruction with an operand that it does not accept, such as
    /// `LXI` on register A or `RST` with a vector above 7.
    IllegalOperand,
}

pub const MEMORY_SIZE: usize = 65536;

/// An 8-bit register proper: A, B, C, D, E, H or L.
pub open spec fn is_register8(r: Reg) -> bool {
    is_operand8(r) && !(r is M)
}

/// A one-line summary of the registers: PC, SP, A, H, L and B in hex.
pub open spec fn state_text(s: CpuView) -> Seq<char> {
    seq!['p', 'c', ':', ' '] + hex16_text(s.pc) + seq![',', ' ', 's', 'p', ':', ' '] + hex16_text(s.sp)
        + seq![',', ' ', 'a', ':', ' '] + hex8_text(s.a) + seq![',', ' ', 'h', ':', ' '] + hex16_text(
        s.h as u16,
    ) + seq![',', ' ', 'l', ':', ' '] + hex16_text(s.l as u16) + seq![',', ' ', 'b', ':', ' ']
        + hex8_text(s.b)
}

/// An 8080 processor with its 64 KiB memory. `BusWriteCallBack` receives
/// the port and the accumulator whenever an `OUT` instruction runs.
#[derive(Clone, Copy)]
pub struct Cpu<BusWriteCallBack> where BusWriteCallBack: FnMut(u8, u8) {
    a: u8,
    b: u8,
    c: u8,
    d: u8,
    e: u8,
    h: u8,
    l: u8,
    pc: u16,
    sp: u16,
    memory: [u8; MEMORY_SIZE],
    condition_codes: ConditionCodes,
    int_enable: bool,
    on_bus_write: BusWriteCallBack,
    bus: u8,
    halted: bool,
}

impl<T: FnMut(u8, u8)> View for Cpu<T> {
    type V = CpuView;

    closed spec fn view(&self) -> CpuView {
        CpuView {
            a: self.a,
            b: self.b,
            c: self.c,
            d: self.d,
            e: self.e,
            h: self.h,
            l: self.l,
            pc: self.pc,
            sp: self.sp,
            memory: self.memory@,
            flags: self.condition_codes,
            int_enable: self.int_enable,
            halted: self.halted,
            bus: self.bus,
        }
    }
}

/// `x + k` modulo 2^16.
fn add16(x: u16, k: u16) -> (r: u16)
    ensures
        r == wrap16(x + k),
{
    ((x as u32 + k as u32) % 65536) as u16
}

/// `x - k` modulo 2^16.
fn sub16(x: u16, k: u16) -> (r: u16)
    ensures
        r == wrap16(x - k),
{
    let r = ((x as u32 + 65536 - k as u32) % 65536) as u16;
    assert((x + 65536 - k) % 65536 == (x - k) % 65536) by {
        vstd::arithmetic::div_mod::lemma_mod_add_multiples_vanish(x - k, 65536);
    }
    r
}

impl<T: FnMut(u8, u8)> Cpu<T> {
    /// The callable that receives `OUT` writes.
    pub closed spec fn sink(&self) -> T {
        self.on_bus_write
    }

    /// The bus sink may be called with any port and value.
    pub open spec fn sink_accepts_all(&self) -> bool {
        forall|port: u8, value: u8| #[trigger] self.sink().requires((port, value))
    }

    /// A processor with registers, flags, PC, SP and memory all zero,
    /// interrupts enabled and not halted.
    pub fn new(on_bus_write: T) -> (r: Self)
        requires
            forall|port: u8, value: u8| #[trigger] on_bus_write.requires((port, value)),
        ensures
            r@.a == 0 && r@.b == 0 && r@.c == 0 && r@.d == 0 && r@.e == 0 && r@.h == 0 && r@.l
                == 0,
            r@.pc == 0 && r@.sp == 0,
            r@.memory == Seq::new(65536, |i: int| 0u8),
            r@.flags == ConditionCodes::new_spec(),
            r@.int_enable,
            !r@.halted,
            r@.bus == 0,
            r.sink() == on_bus_write,
            r.sink_accepts_all(),
    {
        let r = Self {
            a: 0,
            b: 0,
            c: 0,
            d: 0,
            e: 0,
            h: 0,
            l: 0,
            pc: 0,
            sp: 0,
            memory: [0; MEMORY_SIZE],
            condition_codes: ConditionCodes::new(),
            int_enable: true,
            on_bus_write,
            bus: 0,
            halted: false,
        };
        assert(r@.memory =~= Seq::new(65536, |i: int| 0u8));
        r
    }

    /// The whole memory, address 0 first.
    pub fn memory(&self) -> (r: &[u8])
        ensures
            r@ == self@.memory,
            r@.len() == 65536,
    {
        &self.memory
    }

    pub fn a(&self) -> (r: u8)
        ensures
            r == self@.a,
    {
        self.a
    }

    pub fn b(&self) -> (r: u8)
        ensures
            r == self@.b,
    {
        self.b
    }

    pub fn c(&self) -> (r: u8)
        ensures
            r == self@.c,
    {
        self.c
    }

    pub fn d(&self) -> (r: u8)
        ensures
            r == self@.d,
    {
        self.d
    }

    pub fn e(&self) -> (r: u8)
        ensures
            r == self@.e,
    {
        self.e
    }

    pub fn h(&self) -> (r: u8)
        ensures
            r == self@.h,
    {
        self.h
    }

    pub fn l(&self) -> (r: u8)
        ensures
            r == self@.l,
    {
        self.l
    }

    pub fn pc(&self) -> (r: u16)
        ensures
            r == self@.pc,
    {
        self.pc
    }

    pub fn sp(&self) -> (r: u16)
        ensures
            r == self@.sp,
    {
        self.sp
    }

    pub fn halted(&self) -> (r: bool)
        ensures
            r == self@.halted,
    {
        self.halted
    }

    /// The memory cell at `address`.
    pub fn load_from_memory_at(&self, address: u16) -> (r: u8)
        ensures
            r == self@.byte_at(address as int),
    {
        self.memory[address as usize]
    }

    /// Writes the memory cell at `address`.
    pub fn write_to_memory_at(&mut self, address: u16, val: u8)
        ensures
            final(self)@ == old(self)@.store(address as int, val),
            final(self).sink() == old(self).sink(),
    {
        self.memory[address as usize] = val;
    }

    /// The cell M, at the address in (H, L).
    fn load_from_memory(&self) -> (r: u8)
        ensures
            r == self@.reg(Reg::M),
    {
        self.load_from_memory_at(self.hl())
    }

    /// Writes the cell M, at the address in (H, L).
    fn write_to_memory(&mut self, val: u8)
        ensures
            final(self)@ == old(self)@.set_reg(Reg::M, val),
            final(self).sink() == old(self).sink(),
    {
        let address = self.hl();
        self.write_to_memory_at(address, val);
    }

    fn hl(&self) -> (r: u16)
        ensures
            r == self@.hl(),
    {
        self.h as u16 * 256 + self.l as u16
    }

    /// Reads one of the registers A, B, C, D, E, H, L.
    pub fn get_register_val(&self, reg: Reg) -> (r: u8)
        requires
            is_register8(reg),
        ensures
            r == self@.reg(reg),
    {
        match reg {
            Reg::A => self.a,
            Reg::B => self.b,
            Reg::C => self.c,
            Reg::D => self.d,
            Reg::E => self.e,
            Reg::H => self.h,
            _ => self.l,
        }
    }

    /// Writes one of the registers A, B, C, D, E, H, L.
    pub fn assign_value(&mut self, reg: Reg, val: u8)
        requires
            is_register8(reg),
        ensures
            final(self)@ == old(self)@.set_reg(reg, val),
            final(self).sink() == old(self).sink(),
    {
        match reg {
            Reg::A => self.a = val,
            Reg::B => self.b = val,
            Reg::C => self.c = val,
            Reg::D => self.d = val,
            Reg::E => self.e = val,
            Reg::H => self.h = val,
            _ => self.l = val,
        }
    }

    /// An 8-bit operand: a register, or M.
    fn load_from_memory_or_register(&self, memory_or_register: Reg) -> (r: u8)
        requires
            is_operand8(memory_or_register),
        ensures
            r == self@.reg(memory_or_register),
    {
        if memory_or_register == Reg::M {
            self.load_from_memory()
        } else {
            self.get_register_val(memory_or_register)
        }
    }

    /// Writes an 8-bit operand: a register, or M.
    fn store_to_memory_or_register(&mut self, memory_or_register: Reg, val: u8)
        requires
            is_operand8(memory_or_register),
        ensures
            final(self)@ == old(self)@.set_reg(memory_or_register, val),
            final(self).sink() == old(self).sink(),
    {
        if memory_or_register == Reg::M {
            self.write_to_memory(val);
        } else {
            self.assign_value(memory_or_register, val);
        }
    }

    /// Reads the pair BC, DE, HL, or SP.
    pub fn load_register_pair(&self, reg: Reg) -> (r: u16)
        requires
            is_pair(reg),
        ensures
            r == self@.pair(reg),
    {
        match reg {
            Reg::B => self.b as u16 * 256 + self.c as u16,
            Reg::D => self.d as u16 * 256 + self.e as u16,
            Reg::H => self.h as u16 * 256 + self.l as u16,
            _ => self.sp,
        }
    }

    /// Writes the pair BC, DE, HL, or SP; the high byte goes to the
    /// first-named register.
    pub fn set_register_pair(&mut self, reg: Reg, val: u16)
        requires
            is_pair(reg),
        ensures
            final(self)@ == old(self)@.set_pair(reg, val),
            final(self).sink() == old(self).sink(),
    {
        let hi = (val / 256) as u8;
        let lo = (val % 256) as u8;
        match reg {
            Reg::B => {
                self.b = hi;
                self.c = lo;
            },
            Reg::D => {
                self.d = hi;
                self.e = lo;
            },
            Reg::H => {
                self.h = hi;
                self.l = lo;
            },
            _ => self.sp = val,
        }
    }

    /// The flags.
    pub fn condition_codes(&self) -> (r: ConditionCodes)
        ensures
            r == self@.flags,
    {
        self.condition_codes
    }

    /// The flags packed into the processor status word.
    pub fn processor_status_word(&self) -> (r: u8)
        ensures
            r == psw_of(self@.flags),
    {
        self.condition_codes.to_psw()
    }

    /// Sets the flags from a processor status word.
    pub fn write_processor_status_word(&mut self, processor_status_word: u8)
        ensures
            final(self)@ == old(self)@.with_flags(flags_of_psw(processor_status_word)),
            final(self).sink() == old(self).sink(),
    {
        self.condition_codes = ConditionCodes::from_psw(processor_status_word);
    }

    /// Sets Z, S and P from `value` and CY from `overflow`; AC is kept.
    fn update_condition_codes(&mut self, value: u8, overflow: bool)
        ensures
            final(self)@ == old(self)@.with_flags(
                ConditionCodes { cy: overflow, ..result_flags(old(self)@.flags, value) },
            ),
            final(self).sink() == old(self).sink(),
    {
        self.condition_codes.z = value == 0;
        self.condition_codes.s = value >= 128;
        self.update_parity(value);
        self.condition_codes.cy = overflow;
    }

    /// Sets P from the parity of `val`.
    fn update_parity(&mut self, val: u8)
        ensures
            final(self)@ == old(self)@.with_flags(
                ConditionCodes { p: even_ones(val as nat, 8), ..old(self)@.flags },
            ),
            final(self).sink() == old(self).sink(),
    {
        self.condition_codes.p = val.parity();
    }

    /// A = A + x, plus CY when `with_carry`.
    fn add_to_accumulator(&mut self, x: u8, with_carry: bool)
        ensures
            final(self)@ == old(self)@.add(x, with_carry),
            final(self).sink() == old(self).sink(),
    {
        let cin: u8 = if with_carry && self.condition_codes.cy {
            1
        } else {
            0
        };
        let sum: u16 = self.a as u16 + x as u16 + cin as u16;
        let res = (sum % 256) as u8;
        let half_carry = self.a % 16 + x % 16 + cin > 15;
        self.update_condition_codes(res, sum > 255);
        self.condition_codes.ac = half_carry;
        self.a = res;
    }

    /// A - x, less CY when `with_borrow`, kept in A when `keep`.
    fn subtract_from_accumulator(&mut self, x: u8, with_borrow: bool, keep: bool)
        ensures
            final(self)@ == old(self)@.sub(x, with_borrow, keep),
            final(self).sink() == old(self).sink(),
    {
        let bin: u8 = if with_borrow && self.condition_codes.cy {
            1
        } else {
            0
        };
        let total: u16 = x as u16 + bin as u16;
        let res = ((self.a as u16 + 256 - total) % 256) as u8;
        assert((self.a + 256 - total) % 256 == (self.a - total) % 256) by {
            vstd::arithmetic::div_mod::lemma_mod_add_multiples_vanish(self.a - total, 256);
        }
        let half_carry = self.a % 16 + (15 - x % 16) + (1 - bin) > 15;
        self.update_condition_codes(res, (self.a as u16) < total);
        self.condition_codes.ac = half_carry;
        if keep {
            self.a = res;
        }
    }

    /// A = A & x.
    fn and_accumulator(&mut self, x: u8)
        ensures
            final(self)@ == old(self)@.and(x),
            final(self).sink() == old(self).sink(),
    {
        let res = self.a & x;
        let half_carry = ((self.a | x) >> 3u8) & 1u8 == 1;
        self.update_condition_codes(res, false);
        self.condition_codes.ac = half_carry;
        self.a = res;
    }

    /// A = A ^ x.
    fn xor_accumulator(&mut self, x: u8)
        ensures
            final(self)@ == old(self)@.xor(x),
            final(self).sink() == old(self).sink(),
    {
        let res = self.a ^ x;
        self.update_condition_codes(res, false);
        self.condition_codes.ac = false;
        self.a = res;
    }

    /// A = A | x.
    fn or_accumulator(&mut self, x: u8)
        ensures
            final(self)@ == old(self)@.or(x),
            final(self).sink() == old(self).sink(),
    {
        let res = self.a | x;
        self.update_condition_codes(res, false);
        self.condition_codes.ac = false;
        self.a = res;
    }

    /// INR: adds one to a register or M; CY is kept.
    fn increment(&mut self, register: Reg)
        requires
            is_operand8(register),
        ensures
            final(self)@ == old(self)@.increment(register),
            final(self).sink() == old(self).sink(),
    {
        let v = self.load_from_memory_or_register(register);
        let res = ((v as u16 + 1) % 256) as u8;
        self.store_to_memory_or_register(register, res);
        self.condition_codes.z = res == 0;
        self.condition_codes.s = res >= 128;
        self.update_parity(res);
        self.condition_codes.ac = v % 16 == 15;
    }

    /// DCR: subtracts one from a register or M; CY is kept.
    fn decrement(&mut self, register: Reg)
        requires
            is_operand8(register),
        ensures
            final(self)@ == old(self)@.decrement(register),
            final(self).sink() == old(self).sink(),
    {
        let v = self.load_from_memory_or_register(register);
        let res = ((v as u16 + 255) % 256) as u8;
        assert((v + 255) % 256 == (v - 1) % 256) by {
            vstd::arithmetic::div_mod::lemma_mod_add_multiples_vanish(v - 1, 256);
        }
        self.store_to_memory_or_register(register, res);
        self.condition_codes.z = res == 0;
        self.condition_codes.s = res >= 128;
        self.update_parity(res);
        self.condition_codes.ac = v % 16 != 0;
    }

    /// DAA: decimal adjustment of A after adding two BCD numbers.
    fn decimal_adjust(&mut self)
        ensures
            final(self)@ == old(self)@.decimal_adjust(),
            final(self).sink() == old(self).sink(),
    {
        let a = self.a;
        let low_fix = a % 16 > 9 || self.condition_codes.ac;
        let a1: u8 = if low_fix {
            ((a as u16 + 6) % 256) as u8
        } else {
            a
        };
        let high_fix = a1 / 16 > 9 || self.condition_codes.cy;
        let a2: u8 = if high_fix {
            ((a1 as u16 + 0x60) % 256) as u8
        } else {
            a1
        };
        let carry = self.condition_codes.cy || (high_fix && a1 as u16 + 0x60 > 255);
        self.update_condition_codes(a2, carry);
        self.condition_codes.ac = low_fix && a % 16 + 6 > 15;
        self.a = a2;
    }

    /// Pushes a 16-bit value: high byte at SP-1, low byte at SP-2.
    fn push_word(&mut self, value: u16)
        ensures
            final(self)@ == old(self)@.push(value),
            final(self).sink() == old(self).sink(),
    {
        self.write_to_memory_at(sub16(self.sp, 1), (value / 256) as u8);
        self.write_to_memory_at(sub16(self.sp, 2), (value % 256) as u8);
        self.sp = sub16(self.sp, 2);
    }

    /// The 16-bit value on top of the stack.
    fn top_word(&self) -> (r: u16)
        ensures
            r == self@.top(),
    {
        let lo = self.load_from_memory_at(self.sp);
        let hi = self.load_from_memory_at(add16(self.sp, 1));
        hi as u16 * 256 + lo as u16
    }

    /// Whether condition code `cc` holds: 0 NZ, 1 Z, 2 NC, 3 C, 4 PO,
    /// 5 PE, 6 P, 7 M.
    fn condition_holds(&self, cc: u8) -> (r: bool)
        requires
            cc < 8,
        ensures
            r == condition(self@.flags, cc as int),
    {
        let f = self.condition_codes;
        match cc {
            0 => !f.z,
            1 => f.z,
            2 => !f.cy,
            3 => f.cy,
            4 => !f.p,
            5 => f.p,
            6 => !f.s,
            _ => f.s,
        }
    }

    /// Jumps to `target` when `taken`, else moves past a three-byte jump.
    fn jump_if(&mut self, taken: bool, target: u16)
        ensures
            final(self)@ == old(self)@.branch(taken, target, 3),
            final(self).sink() == old(self).sink(),
    {
        if taken {
            self.pc = target;
        } else {
            self.pc = add16(self.pc, 3);
        }
    }

    /// Calls `target` when `taken`: pushes the address past the `size`-byte
    /// instruction and jumps; else moves past it.
    fn call_if(&mut self, taken: bool, target: u16, size: u16)
        ensures
            final(self)@ == old(self)@.call(taken, target, size as nat),
            final(self).sink() == old(self).sink(),
    {
        let next = add16(self.pc, size);
        if taken {
            self.push_word(next);
            self.pc = target;
        } else {
            self.pc = next;
        }
    }

    /// Returns when `taken`: pops the program counter; else moves past the
    /// one-byte return.
    fn return_if(&mut self, taken: bool)
        ensures
            final(self)@ == old(self)@.ret(taken),
            final(self).sink() == old(self).sink(),
    {
        if taken {
            let target = self.top_word();
            self.sp = add16(self.sp, 2);
            self.pc = target;
        } else {
            self.pc = add16(self.pc, 1);
        }
    }

    /// Runs a legal instruction and moves the program counter to the next
    /// instruction to fetch.
    fn run_instruction(&mut self, instruction: Instruction)
        requires
            old(self).sink_accepts_all(),
            instruction.is_legal(),
        ensures
            final(self)@ == run(old(self)@, instruction),
            final(self).sink() == old(self).sink(),
            instruction matches Instruction::OUT { data } ==> call_ensures(
                old(self).sink(),
                (data, old(self)@.a),
                (),
            ),
    {
        match instruction {
            Instruction::INR { .. }
            | Instruction::DCR { .. } => {
                self.run_increment_decrement(instruction);
            },
            Instruction::ADD { .. }
            | Instruction::ADC { .. }
            | Instruction::SUB { .. }
            | Instruction::SBB { .. } => {
                self.run_add_subtract_register(instruction);
            },
            Instruction::ANA { .. }
            | Instruction::XRA { .. }
            | Instruction::ORA { .. }
            | Instruction::CMP { .. } => {
                self.run_logic_register(instruction);
            },
            Instruction::ADI { .. }
            | Instruction::ACI { .. }
            | Instruction::SUI { .. }
            | Instruction::SBI { .. } => {
                self.run_add_subtract_immediate(instruction);
            },
            Instruction::ANI { .. }
            | Instruction::XRI { .. }
            | Instruction::ORI { .. }
            | Instruction::CPI { .. } => {
                self.run_logic_immediate(instruction);
            },
            Instruction::DAA
            | Instruction::CMA
            | Instruction::STC
            | Instruction::CMC
            | Instruction::DAD { .. } => {
                self.run_adjust_accumulator(instruction);
            },
            Instruction::RLC
            | Instruction::RRC
            | Instruction::RAL
            | Instruction::RAR => {
                self.run_rotate(instruction);
            },
            Instruction::LXI { .. }
            | Instruction::INX { .. }
            | Instruction::DCX { .. }
            | Instruction::SPHL
            | Instruction::XCHG => {
                self.run_pair_transfer(instruction);
            },
            Instruction::STAX { .. }
            | Instruction::LDAX { .. }
            | Instruction::MVI { .. }
            | Instruction::MOV { .. } => {
                self.run_indirect_transfer(instruction);
            },
            Instruction::SHLD { .. }
            | Instruction::LHLD { .. }
            | Instruction::STA { .. }
            | Instruction::LDA { .. }
            | Instruction::XTHL => {
                self.run_direct_transfer(instruction);
            },
            Instruction::JNZ { .. }
            | Instruction::JZ { .. }
            | Instruction::JNC { .. }
            | Instruction::JC { .. }
            | Instruction::JMP { .. } => {
                self.run_jump_on_zero_carry(instruction);
            },
            Instruction::JPO { .. }
            | Instruction::JPE { .. }
            | Instruction::JP { .. }
            | Instruction::JM { .. }
            | Instruction::PCHL => {
                self.run_jump_on_parity_sign(instruction);
            },
            Instruction::CNZ { .. }
            | Instruction::CZ { .. }
            | Instruction::CNC { .. }
            | Instruction::CC { .. }
            | Instruction::CALL { .. } => {
                self.run_call_on_zero_carry(instruction);
            },
            Instruction::CPO { .. }
            | Instruction::CPE { .. }
            | Instruction::CP { .. }
            | Instruction::CM { .. }
            | Instruction::RST { .. } => {
                self.run_call_on_parity_sign(instruction);
            },
            Instruction::RNZ
            | Instruction::RZ
            | Instruction::RNC
            | Instruction::RC
            | Instruction::RET => {
                self.run_return_on_zero_carry(instruction);
            },
            Instruction::RPO
            | Instruction::RPE
            | Instruction::RP
            | Instruction::RM => {
                self.run_return_on_parity_sign(instruction);
            },
            Instruction::NoOp
            | Instruction::HLT
            | Instruction::PUSH { .. }
            | Instruction::POP { .. } => {
                self.run_stack_and_halt(instruction);
            },
            Instruction::OUT { .. }
            | Instruction::IN { .. }
            | Instruction::DI
            | Instruction::EI => {
                self.run_io_and_interrupts(instruction);
            },
        }
    }

    /// INR and DCR.
    fn run_increment_decrement(&mut self, instruction: Instruction)
        requires
            instruction.is_legal(),
            instruction is INR || instruction is DCR,
        ensures
            final(self)@ == run_arithmetic(old(self)@, instruction),
            final(self).sink() == old(self).sink(),
    {
        let size = instruction.op_bytes();
        match instruction {
            Instruction::INR { register } => {
                self.increment(register);
                self.pc = add16(self.pc, size as u16);
            },
            Instruction::DCR { register } => {
                self.decrement(register);
                self.pc = add16(self.pc, size as u16);
            },
            _ => {},
        }
    }

    /// ADD, ADC, SUB and SBB on a register or M.
    fn run_add_subtract_register(&mut self, instruction: Instruction)
        requires
            instruction.is_legal(),
            instruction is ADD || instruction is ADC || instruction is SUB || instruction is SBB,
        ensures
            final(self)@ == run_arithmetic(old(self)@, instruction),
            final(self).sink() == old(self).sink(),
    {
        let size = instruction.op_bytes();
        match instruction {
            Instruction::ADD { register } => {
                let x = self.load_from_memory_or_register(register);
                self.add_to_accumulator(x, false);
                self.pc = add16(self.pc, size as u16);
            },
            Instruction::ADC { register } => {
                let x = self.load_from_memory_or_register(register);
                self.add_to_accumulator(x, true);
                self.pc = add16(self.pc, size as u16);
            },
            Instruction::SUB { register } => {
                let x = self.load_from_memory_or_register(register);
                self.subtract_from_accumulator(x, false, true);
                self.pc = add16(self.pc, size as u16);
            },
            Instruction::SBB { register } => {
                let x = self.load_from_memory_or_register(register);
                self.subtract_from_accumulator(x, true, true);
                self.pc = add16(self.pc, size as u16);
            },
            _ => {},
        }
    }

    /// ANA, XRA, ORA and CMP on a register or M.
    fn run_logic_register(&mut self, instruction: Instruction)
        requires
            instruction.is_legal(),
            instruction is ANA || instruction is XRA || instruction is ORA || instruction is CMP,
        ensures
            final(self)@ == run_arithmetic(old(self)@, instruction),
            final(self).sink() == old(self).sink(),
    {
        let size = instruction.op_bytes();
        match instruction {
            Instruction::ANA { register } => {
                let x = self.load_from_memory_or_register(register);
                self.and_accumulator(x);
                self.pc = add16(self.pc, size as u16);
            },
            Instruction::XRA { register } => {
                let x = self.load_from_memory_or_register(register);
                self.xor_accumulator(x);
                self.pc = add16(self.pc, size as u16);
            },
            Instruction::ORA { register } => {
                let x = self.load_from_memory_or_register(register);
                self.or_accumulator(x);
                self.pc = add16(self.pc, size as u16);
            },
            Instruction::CMP { register } => {
                let x = self.load_from_memory_or_register(register);
                self.subtract_from_accumulator(x, false, false);
                self.pc = add16(self.pc, size as u16);
            },
            _ => {},
        }
    }

    /// ADI, ACI, SUI and SBI.
    fn run_add_subtract_immediate(&mut self, instruction: Instruction)
        requires
            instruction.is_legal(),
            instruction is ADI || instruction is ACI || instruction is SUI || instruction is SBI,
        ensures
            final(self)@ == run_arithmetic(old(self)@, instruction),
            final(self).sink() == old(self).sink(),
    {
        let size = instruction.op_bytes();
        match instruction {
            Instruction::ADI { data } => {
                self.add_to_accumulator(data, false);
                self.pc = add16(self.pc, size as u16);
            },
            Instruction::ACI { data } => {
                self.add_to_accumulator(data, true);
                self.pc = add16(self.pc, size as u16);
            },
            Instruction::SUI { data } => {
                self.subtract_from_accumulator(data, false, true);
                self.pc = add16(self.pc, size as u16);
            },
            Instruction::SBI { data } => {
                self.subtract_from_accumulator(data, true, true);
                self.pc = add16(self.pc, size as u16);
            },
            _ => {},
        }
    }

    /// ANI, XRI, ORI and CPI.
    fn run_logic_immediate(&mut self, instruction: Instruction)
        requires
            instruction.is_legal(),
            instruction is ANI || instruction is XRI || instruction is ORI || instruction is CPI,
        ensures
            final(self)@ == run_arithmetic(old(self)@, instruction),
            final(self).sink() == old(self).sink(),
    {
        let size = instruction.op_bytes();
        match instruction {
            Instruction::ANI { data } => {
                self.and_accumulator(data);
                self.pc = add16(self.pc, size as u16);
            },
            Instruction::XRI { data } => {
                self.xor_accumulator(data);
                self.pc = add16(self.pc, size as u16);
            },
            Instruction::ORI { data } => {
                self.or_accumulator(data);
                self.pc = add16(self.pc, size as u16);
            },
            Instruction::CPI { data } => {
                self.subtract_from_accumulator(data, false, false);
                self.pc = add16(self.pc, size as u16);
            },
            _ => {},
        }
    }

    /// DAA, CMA, STC, CMC and DAD.
    fn run_adjust_accumulator(&mut self, instruction: Instruction)
        requires
            instruction.is_legal(),
            instruction is DAA || instruction is CMA || instruction is STC || instruction is CMC
                || instruction is DAD,
        ensures
            final(self)@ == run_adjust(old(self)@, instruction),
            final(self).sink() == old(self).sink(),
    {
        let size = instruction.op_bytes();
        let a = self.a;
        match instruction {
            Instruction::DAA => {
                self.decimal_adjust();
                self.pc = add16(self.pc, size as u16);
            },
            Instruction::CMA => {
                self.a = 255 - a;
                self.pc = add16(self.pc, size as u16);
            },
            Instruction::STC => {
                self.condition_codes.cy = true;
                self.pc = add16(self.pc, size as u16);
            },
            Instruction::CMC => {
                self.condition_codes.cy = !self.condition_codes.cy;
                self.pc = add16(self.pc, size as u16);
            },
            Instruction::DAD { register } => {
                let sum: u32 = self.hl() as u32 + self.load_register_pair(register) as u32;
                self.set_register_pair(Reg::H, (sum % 65536) as u16);
                self.condition_codes.cy = sum > 65535;
                self.pc = add16(self.pc, size as u16);
            },
            _ => {},
        }
    }

    /// The four rotates of A.
    fn run_rotate(&mut self, instruction: Instruction)
        requires
            instruction.is_legal(),
            instruction is RLC || instruction is RRC || instruction is RAL || instruction is RAR,
        ensures
            final(self)@ == run_adjust(old(self)@, instruction),
            final(self).sink() == old(self).sink(),
    {
        let size = instruction.op_bytes();
        let a = self.a;
        match instruction {
            Instruction::RLC => {
                self.a = ((a as u16 * 2 + a as u16 / 128) % 256) as u8;
                self.condition_codes.cy = a >= 128;
                self.pc = add16(self.pc, size as u16);
            },
            Instruction::RRC => {
                self.a = a / 2 + 128 * (a % 2);
                self.condition_codes.cy = a % 2 == 1;
                self.pc = add16(self.pc, size as u16);
            },
            Instruction::RAL => {
                let carry_in: u16 = if self.condition_codes.cy {
                    1
                } else {
                    0
                };
                self.a = ((a as u16 * 2 + carry_in) % 256) as u8;
                self.condition_codes.cy = a >= 128;
                self.pc = add16(self.pc, size as u16);
            },
            Instruction::RAR => {
                let carry_in: u8 = if self.condition_codes.cy {
                    128
                } else {
                    0
                };
                self.a = a / 2 + carry_in;
                self.condition_codes.cy = a % 2 == 1;
                self.pc = add16(self.pc, size as u16);
            },
            _ => {},
        }
    }

    /// LXI, INX, DCX, SPHL and XCHG.
    fn run_pair_transfer(&mut self, instruction: Instruction)
        requires
            instruction.is_legal(),
            instruction is LXI || instruction is INX || instruction is DCX || instruction is SPHL
                || instruction is XCHG,
        ensures
            final(self)@ == run_transfer(old(self)@, instruction),
            final(self).sink() == old(self).sink(),
    {
        let size = instruction.op_bytes();
        match instruction {
            Instruction::LXI { register, value } => {
                self.set_register_pair(register, value);
                self.pc = add16(self.pc, size as u16);
            },
            Instruction::INX { register } => {
                let val = add16(self.load_register_pair(register), 1);
                self.set_register_pair(register, val);
                self.pc = add16(self.pc, size as u16);
            },
            Instruction::DCX { register } => {
                let val = sub16(self.load_register_pair(register), 1);
                self.set_register_pair(register, val);
                self.pc = add16(self.pc, size as u16);
            },
            Instruction::SPHL => {
                self.sp = self.hl();
                self.pc = add16(self.pc, size as u16);
            },
            Instruction::XCHG => {
                let h = self.h;
                let l = self.l;
                self.h = self.d;
                self.l = self.e;
                self.d = h;
                self.e = l;
                self.pc = add16(self.pc, size as u16);
            },
            _ => {},
        }
    }

    /// STAX, LDAX, MVI and MOV.
    fn run_indirect_transfer(&mut self, instruction: Instruction)
        requires
            instruction.is_legal(),
            instruction is STAX || instruction is LDAX || instruction is MVI || instruction is MOV,
        ensures
            final(self)@ == run_transfer(old(self)@, instruction),
            final(self).sink() == old(self).sink(),
    {
        let size = instruction.op_bytes();
        match instruction {
            Instruction::STAX { register } => {
                let address = self.load_register_pair(register);
                self.write_to_memory_at(address, self.a);
                self.pc = add16(self.pc, size as u16);
            },
            Instruction::LDAX { register } => {
                let address = self.load_register_pair(register);
                self.a = self.load_from_memory_at(address);
                self.pc = add16(self.pc, size as u16);
            },
            Instruction::MVI { register, value } => {
                self.store_to_memory_or_register(register, value);
                self.pc = add16(self.pc, size as u16);
            },
            Instruction::MOV { source, destination } => {
                let val = self.load_from_memory_or_register(source);
                self.store_to_memory_or_register(destination, val);
                self.pc = add16(self.pc, size as u16);
            },
            _ => {},
        }
    }

    /// SHLD, LHLD, STA, LDA and XTHL.
    fn run_direct_transfer(&mut self, instruction: Instruction)
        requires
            instruction.is_legal(),
            instruction is SHLD || instruction is LHLD || instruction is STA || instruction is LDA
                || instruction is XTHL,
        ensures
            final(self)@ == run_transfer(old(self)@, instruction),
            final(self).sink() == old(self).sink(),
    {
        let size = instruction.op_bytes();
        match instruction {
            Instruction::SHLD { address } => {
                self.write_to_memory_at(address, self.l);
                self.write_to_memory_at(add16(address, 1), self.h);
                self.pc = add16(self.pc, size as u16);
            },
            Instruction::LHLD { address } => {
                self.l = self.load_from_memory_at(address);
                self.h = self.load_from_memory_at(add16(address, 1));
                self.pc = add16(self.pc, size as u16);
            },
            Instruction::STA { address } => {
                self.write_to_memory_at(address, self.a);
                self.pc = add16(self.pc, size as u16);
            },
            Instruction::LDA { address } => {
                self.a = self.load_from_memory_at(address);
                self.pc = add16(self.pc, size as u16);
            },
            Instruction::XTHL => {
                let lo = self.load_from_memory_at(self.sp);
                let hi = self.load_from_memory_at(add16(self.sp, 1));
                self.write_to_memory_at(self.sp, self.l);
                self.write_to_memory_at(add16(self.sp, 1), self.h);
                self.l = lo;
                self.h = hi;
                self.pc = add16(self.pc, size as u16);
            },
            _ => {},
        }
    }

    /// JNZ, JZ, JNC, JC and JMP.
    fn run_jump_on_zero_carry(&mut self, instruction: Instruction)
        requires
            instruction.is_legal(),
            instruction is JNZ || instruction is JZ || instruction is JNC || instruction is JC
                || instruction is JMP,
        ensures
            final(self)@ == run_jump(old(self)@, instruction),
            final(self).sink() == old(self).sink(),
    {
        match instruction {
            Instruction::JNZ { address } => {
                let taken = self.condition_holds(0);
                self.jump_if(taken, address);
            },
            Instruction::JZ { address } => {
                let taken = self.condition_holds(1);
                self.jump_if(taken, address);
            },
            Instruction::JNC { address } => {
                let taken = self.condition_holds(2);
                self.jump_if(taken, address);
            },
            Instruction::JC { address } => {
                let taken = self.condition_holds(3);
                self.jump_if(taken, address);
            },
            Instruction::JMP { address } => {
                self.jump_if(true, address);
            },
            _ => {},
        }
    }

    /// JPO, JPE, JP, JM and PCHL.
    fn run_jump_on_parity_sign(&mut self, instruction: Instruction)
        requires
            instruction.is_legal(),
            instruction is JPO || instruction is JPE || instruction is JP || instruction is JM
                || instruction is PCHL,
        ensures
            final(self)@ == run_jump(old(self)@, instruction),
            final(self).sink() == old(self).sink(),
    {
        match instruction {
            Instruction::JPO { address } => {
                let taken = self.condition_holds(4);
                self.jump_if(taken, address);
            },
            Instruction::JPE { address } => {
                let taken = self.condition_holds(5);
                self.jump_if(taken, address);
            },
            Instruction::JP { address } => {
                let taken = self.condition_holds(6);
                self.jump_if(taken, address);
            },
            Instruction::JM { address } => {
                let taken = self.condition_holds(7);
                self.jump_if(taken, address);
            },
            Instruction::PCHL => {
                self.pc = self.hl();
            },
            _ => {},
        }
    }

    /// CNZ, CZ, CNC, CC and CALL.
    fn run_call_on_zero_carry(&mut self, instruction: Instruction)
        requires
            instruction.is_legal(),
            instruction is CNZ || instruction is CZ || instruction is CNC || instruction is CC
                || instruction is CALL,
        ensures
            final(self)@ == run_call(old(self)@, instruction),
            final(self).sink() == old(self).sink(),
    {
        match instruction {
            Instruction::CNZ { address } => {
                let taken = self.condition_holds(0);
                self.call_if(taken, address, 3);
            },
            Instruction::CZ { address } => {
                let taken = self.condition_holds(1);
                self.call_if(taken, address, 3);
            },
            Instruction::CNC { address } => {
                let taken = self.condition_holds(2);
                self.call_if(taken, address, 3);
            },
            Instruction::CC { address } => {
                let taken = self.condition_holds(3);
                self.call_if(taken, address, 3);
            },
            Instruction::CALL { address } => {
                self.call_if(true, address, 3);
            },
            _ => {},
        }
    }

    /// CPO, CPE, CP, CM and RST.
    fn run_call_on_parity_sign(&mut self, instruction: Instruction)
        requires
            instruction.is_legal(),
            instruction is CPO || instruction is CPE || instruction is CP || instruction is CM
                || instruction is RST,
        ensures
            final(self)@ == run_call(old(self)@, instruction),
            final(self).sink() == old(self).sink(),
    {
        match instruction {
            Instruction::CPO { address } => {
                let taken = self.condition_holds(4);
                self.call_if(taken, address, 3);
            },
            Instruction::CPE { address } => {
                let taken = self.condition_holds(5);
                self.call_if(taken, address, 3);
            },
            Instruction::CP { address } => {
                let taken = self.condition_holds(6);
                self.call_if(taken, address, 3);
            },
            Instruction::CM { address } => {
                let taken = self.condition_holds(7);
                self.call_if(taken, address, 3);
            },
            Instruction::RST { data } => {
                self.call_if(true, data as u16 * 8, 1);
            },
            _ => {},
        }
    }

    /// RNZ, RZ, RNC, RC and RET.
    fn run_return_on_zero_carry(&mut self, instruction: Instruction)
        requires
            instruction.is_legal(),
            instruction is RNZ || instruction is RZ || instruction is RNC || instruction is RC
                || instruction is RET,
        ensures
            final(self)@ == run_ret(old(self)@, instruction),
            final(self).sink() == old(self).sink(),
    {
        match instruction {
            Instruction::RNZ => {
                let taken = self.condition_holds(0);
                self.return_if(taken);
            },
            Instruction::RZ => {
                let taken = self.condition_holds(1);
                self.return_if(taken);
            },
            Instruction::RNC => {
                let taken = self.condition_holds(2);
                self.return_if(taken);
            },
            Instruction::RC => {
                let taken = self.condition_holds(3);
                self.return_if(taken);
            },
            Instruction::RET => {
                self.return_if(true);
            },
            _ => {},
        }
    }

    /// RPO, RPE, RP and RM.
    fn run_return_on_parity_sign(&mut self, instruction: Instruction)
        requires
            instruction.is_legal(),
            instruction is RPO || instruction is RPE || instruction is RP || instruction is RM,
        ensures
            final(self)@ == run_ret(old(self)@, instruction),
            final(self).sink() == old(self).sink(),
    {
        match instruction {
            Instruction::RPO => {
                let taken = self.condition_holds(4);
                self.return_if(taken);
            },
            Instruction::RPE => {
                let taken = self.condition_holds(5);
                self.return_if(taken);
            },
            Instruction::RP => {
                let taken = self.condition_holds(6);
                self.return_if(taken);
            },
            Instruction::RM => {
                let taken = self.condition_holds(7);
                self.return_if(taken);
            },
            _ => {},
        }
    }

    /// NOP, HLT, PUSH and POP.
    fn run_stack_and_halt(&mut self, instruction: Instruction)
        requires
            instruction.is_legal(),
            instruction is NoOp || instruction is HLT || instruction is PUSH || instruction is POP,
        ensures
            final(self)@ == run_machine(old(self)@, instruction),
            final(self).sink() == old(self).sink(),
    {
        match instruction {
            Instruction::NoOp => {
                self.pc = add16(self.pc, 1);
            },
            Instruction::HLT => {
                self.halted = true;
                self.pc = add16(self.pc, 1);
            },
            Instruction::PUSH { register } => {
                if register == Reg::Psw {
                    let word = self.a as u16 * 256 + self.processor_status_word() as u16;
                    self.push_word(word);
                } else {
                    let word = self.load_register_pair(register);
                    self.push_word(word);
                }
                self.pc = add16(self.pc, 1);
            },
            Instruction::POP { register } => {
                if register == Reg::Psw {
                    let flags = self.load_from_memory_at(self.sp);
                    let a = self.load_from_memory_at(add16(self.sp, 1));
                    self.write_processor_status_word(flags);
                    self.a = a;
                } else {
                    let word = self.top_word();
                    self.set_register_pair(register, word);
                }
                self.sp = add16(self.sp, 2);
                self.pc = add16(self.pc, 1);
            },
            _ => {},
        }
    }

    /// OUT, IN, DI and EI.
    fn run_io_and_interrupts(&mut self, instruction: Instruction)
        requires
            old(self).sink_accepts_all(),
            instruction.is_legal(),
            instruction is OUT || instruction is IN || instruction is DI || instruction is EI,
        ensures
            final(self)@ == run_machine(old(self)@, instruction),
            final(self).sink() == old(self).sink(),
            instruction matches Instruction::OUT { data } ==> call_ensures(
                old(self).sink(),
                (data, old(self)@.a),
                (),
            ),
    {
        match instruction {
            Instruction::OUT { data } => {
                assert(self.sink().requires((data, self.a)));
                (self.on_bus_write)(data, self.a);
                self.pc = add16(self.pc, 2);
            },
            Instruction::IN { .. } => {
                self.a = self.bus;
                self.pc = add16(self.pc, 2);
            },
            Instruction::DI => {
                self.int_enable = false;
                self.pc = add16(self.pc, 1);
            },
            Instruction::EI => {
                self.int_enable = true;
                self.pc = add16(self.pc, 1);
            },
            _ => {},
        }
    }

    /// Puts a byte on the input bus; `IN` reads it into A.
    pub fn write_to_bus(&mut self, value: u8)
        ensures
            final(self)@ == (CpuView { bus: value, ..old(self)@ }),
            final(self).sink() == old(self).sink(),
    {
        self.bus = value;
    }

    /// Whether interrupts are enabled.
    pub fn int_enabled(&self) -> (r: bool)
        ensures
            r == self@.int_enable,
    {
        self.int_enable
    }

    /// Sets the program counter.
    pub fn set_pc(&mut self, pc: u16)
        ensures
            final(self)@ == old(self)@.with_pc(pc as int),
            final(self).sink() == old(self).sink(),
    {
        self.pc = pc;
    }

    /// Sets the flags.
    pub fn set_condition_codes(&mut self, flags: ConditionCodes)
        ensures
            final(self)@ == old(self)@.with_flags(flags),
            final(self).sink() == old(self).sink(),
    {
        self.condition_codes = flags;
    }

    /// Executes one instruction. The program counter is left at the next
    /// instruction to fetch less the instruction's length, so that the
    /// caller advances it by `op_bytes` as `step` does; a taken branch thus
    /// lands on its target. An instruction with an operand it does not
    /// accept changes nothing and is reported.
    pub fn execute_instruction(&mut self, instruction: Instruction) -> (r: Result<(), Error>)
        requires
            old(self).sink_accepts_all(),
        ensures
            instruction.is_legal() ==> r is Ok && final(self)@ == execute(old(self)@, instruction),
            !instruction.is_legal() ==> r == Err::<(), Error>(Error::IllegalOperand) && final(self)@
                == old(self)@,
            final(self).sink() == old(self).sink(),
            instruction.is_legal() ==> (instruction matches Instruction::OUT { data }
                ==> call_ensures(old(self).sink(), (data, old(self)@.a), ())),
    {
        if !instruction.has_legal_operands() {
            return Err(Error::IllegalOperand);
        }
        self.run_instruction(instruction);
        self.pc = sub16(self.pc, instruction.op_bytes() as u16);
        Ok(())
    }

    /// Decodes the instruction at the program counter.
    fn fetch_instruction(&self) -> (r: Option<Instruction>)
        ensures
            r == decoded(code_at_pc(self@)),
    {
        Instruction::decode_at(&self.memory, self.pc as usize)
    }

    /// Runs one instruction: fetches it at the program counter, executes
    /// it and moves on. Does nothing while halted; bytes that start no
    /// instruction are passed over as a one-byte no-op.
    pub fn step(&mut self) -> (r: Result<(), Error>)
        requires
            old(self).sink_accepts_all(),
        ensures
            r is Ok,
            final(self)@ == step(old(self)@),
            final(self).sink() == old(self).sink(),
    {
        if self.halted {
            return Ok(());
        }
        match self.fetch_instruction() {
            Some(instruction) => self.run_instruction(instruction),
            None => self.pc = add16(self.pc, 1),
        }
        Ok(())
    }

    /// Injects the interrupt `RST value`. While interrupts are disabled it
    /// is ignored; otherwise the program counter is pushed, execution goes
    /// on at `8 * value`, and a halt is released. A vector above 7 is
    /// reported and changes nothing.
    pub fn generate_interrupt(&mut self, value: u8) -> (r: Result<(), Error>)
        ensures
            value > 7 ==> r == Err::<(), Error>(Error::IllegalOperand) && final(self)@ == old(
                self,
            )@,
            value <= 7 ==> r is Ok && final(self)@ == interrupt(old(self)@, value),
            final(self).sink() == old(self).sink(),
    {
        if value > 7 {
            return Err(Error::IllegalOperand);
        }
        if !self.int_enable {
            return Ok(());
        }
        self.push_word(self.pc);
        self.pc = value as u16 * 8;
        self.halted = false;
        Ok(())
    }

    /// Copies a ROM into memory from address 0; the cells past it, the
    /// registers and the flags are kept. A ROM longer than memory is
    /// refused and changes nothing.
    pub fn load_into_memory(&mut self, data: Vec<u8>) -> (r: Result<(), Error>)
        ensures
            data@.len() > 65536 ==> r == Err::<(), Error>(Error::OutOfMemory) && final(self)@
                == old(self)@,
            data@.len() <= 65536 ==> r is Ok && final(self)@ == (CpuView {
                memory: data@ + old(self)@.memory.subrange(data@.len() as int, 65536),
                ..old(self)@
            }),
            final(self).sink() == old(self).sink(),
    {
        let data_len = data.len();
        if data_len > MEMORY_SIZE {
            return Err(Error::OutOfMemory);
        }
        let ghost before = self@;
        let mut i: usize = 0;
        while i < data_len
            invariant
                data_len == data@.len() <= 65536,
                i <= data_len,
                self@ == (CpuView { memory: self@.memory, ..before }),
                self.sink() == old(self).sink(),
                self@.memory.len() == 65536,
                forall|k: int| 0 <= k < i ==> self@.memory[k] == data@[k],
                forall|k: int| i <= k < 65536 ==> self@.memory[k] == before.memory[k],
            decreases data_len - i,
        {
            self.memory[i] = data[i];
            i += 1;
        }
        assert(self@.memory =~= data@ + before.memory.subrange(data@.len() as int, 65536));
        Ok(())
    }

    /// A one-line summary of the registers, such as
    /// `pc: 0x0000, sp: 0x0000, a: 0x00, h: 0x0000, l: 0x0000, b: 0x00`.
    pub fn to_string(&self) -> (r: String)
        ensures
            r@ == state_text(self@),
    {
        proof {
            reveal_strlit("pc: ");
            reveal_strlit(", sp: ");
            reveal_strlit(", a: ");
            reveal_strlit(", h: ");
            reveal_strlit(", l: ");
            reveal_strlit(", b: ");
        }
        let mut text = String::from_str("pc: ");
        append_hex16(&mut text, self.pc);
        text.append(", sp: ");
        append_hex16(&mut text, self.sp);
        text.append(", a: ");
        append_hex8(&mut text, self.a);
        text.append(", h: ");
        append_hex16(&mut text, self.h as u16);
        text.append(", l: ");
        append_hex16(&mut text, self.l as u16);
        text.append(", b: ");
        append_hex8(&mut text, self.b);
        assert(text@ =~= state_text(self@));
        text
    }
}

} // verus!
