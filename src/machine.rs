//! The mathematical model of the processor and the meaning of each
//! instruction over it.
use vstd::prelude::*;
use crate::flags::{flags_of_psw, psw_of, ConditionCodes};
use crate::instruction::{decoded, Instruction, Reg};
use crate::parity::even_ones;

verus! {

/// Everything an instruction can read or change.
pub struct CpuView {
    pub a: u8,
    pub b: u8,
    pub c: u8,
    pub d: u8,
    pub e: u8,
    pub h: u8,
    pub l: u8,
    pub pc: u16,
    pub sp: u16,
    /// The 65,536 memory cells.
    pub memory: Seq<u8>,
    pub flags: ConditionCodes,
    pub int_enable: bool,
    pub halted: bool,
    /// The byte that the host last put on the input bus.
    pub bus: u8,
}

/// `x` reduced modulo 2^8.
pub open spec fn wrap8(x: int) -> u8 {
    (x % 256) as u8
}

/// `x` reduced modulo 2^16.
pub open spec fn wrap16(x: int) -> u16 {
    (x % 65536) as u16
}

/// The 16-bit value with high byte `hi` and low byte `lo`.
pub open spec fn word_of(hi: u8, lo: u8) -> u16 {
    (256 * hi + lo) as u16
}

/// High byte of a 16-bit value.
pub open spec fn high(v: u16) -> u8 {
    (v / 256) as u8
}

/// Low byte of a 16-bit value.
pub open spec fn low(v: u16) -> u8 {
    (v % 256) as u8
}

/// Z, S and P as a result byte sets them; CY and AC are kept.
pub open spec fn result_flags(f: ConditionCodes, res: u8) -> ConditionCodes {
    ConditionCodes { z: res == 0, s: res >= 128, p: even_ones(res as nat, 8), ..f }
}

/// Flags after an addition of `x` and the carry-in to `a`.
pub open spec fn add_flags(f: ConditionCodes, a: u8, x: u8, carry: bool) -> ConditionCodes {
    let sum = a + x + if carry { 1int } else { 0 };
    ConditionCodes {
        cy: sum > 255,
        ac: a % 16 + x % 16 + if carry { 1int } else { 0 } > 15,
        ..result_flags(f, wrap8(sum))
    }
}

/// Flags after subtracting `x` and the borrow-in from `a`. CY is the borrow;
/// AC is the carry out of bit 3 of the two's-complement addition
/// `a + !x + !borrow` that the 8080 performs.
pub open spec fn sub_flags(f: ConditionCodes, a: u8, x: u8, borrow: bool) -> ConditionCodes {
    let diff = a - x - if borrow { 1int } else { 0 };
    ConditionCodes {
        cy: diff < 0,
        ac: a % 16 + (15 - x % 16) + if borrow { 0int } else { 1 } > 15,
        ..result_flags(f, wrap8(diff))
    }
}

/// Flags after a logical operation with result `res`: CY clear, AC as given.
pub open spec fn logic_flags(f: ConditionCodes, res: u8, ac: bool) -> ConditionCodes {
    ConditionCodes { cy: false, ac, ..result_flags(f, res) }
}

/// Whether a condition code holds: 0 NZ, 1 Z, 2 NC, 3 C, 4 PO, 5 PE, 6 P, 7 M.
pub open spec fn condition(f: ConditionCodes, cc: int) -> bool {
    if cc == 0 {
        !f.z
    } else if cc == 1 {
        f.z
    } else if cc == 2 {
        !f.cy
    } else if cc == 3 {
        f.cy
    } else if cc == 4 {
        !f.p
    } else if cc == 5 {
        f.p
    } else if cc == 6 {
        !f.s
    } else {
        f.s
    }
}

/// A well-formed state has exactly 65,536 memory cells.
pub open spec fn wf(s: CpuView) -> bool {
    s.memory.len() == 65536
}

impl CpuView {
    /// The memory cell at an address taken modulo 2^16.
    pub open spec fn byte_at(self, addr: int) -> u8 {
        self.memory[wrap16(addr) as int]
    }

    /// Writes the memory cell at an address taken modulo 2^16.
    pub open spec fn store(self, addr: int, v: u8) -> CpuView {
        CpuView { memory: self.memory.update(wrap16(addr) as int, v), ..self }
    }

    /// The pair (H, L) as an address.
    pub open spec fn hl(self) -> u16 {
        word_of(self.h, self.l)
    }

    /// An 8-bit operand: a register, or M, the cell at (H, L).
    pub open spec fn reg(self, r: Reg) -> u8 {
        match r {
            Reg::A => self.a,
            Reg::B => self.b,
            Reg::C => self.c,
            Reg::D => self.d,
            Reg::E => self.e,
            Reg::H => self.h,
            Reg::L => self.l,
            Reg::M => self.byte_at(self.hl() as int),
            _ => 0,
        }
    }

    /// Writes an 8-bit operand.
    pub open spec fn set_reg(self, r: Reg, v: u8) -> CpuView {
        match r {
            Reg::A => CpuView { a: v, ..self },
            Reg::B => CpuView { b: v, ..self },
            Reg::C => CpuView { c: v, ..self },
            Reg::D => CpuView { d: v, ..self },
            Reg::E => CpuView { e: v, ..self },
            Reg::H => CpuView { h: v, ..self },
            Reg::L => CpuView { l: v, ..self },
            Reg::M => self.store(self.hl() as int, v),
            _ => self,
        }
    }

    /// A register pair, first-named register high.
    pub open spec fn pair(self, r: Reg) -> u16 {
        match r {
            Reg::B => word_of(self.b, self.c),
            Reg::D => word_of(self.d, self.e),
            Reg::H => word_of(self.h, self.l),
            Reg::SP => self.sp,
            _ => 0,
        }
    }

    /// Writes a register pair.
    pub open spec fn set_pair(self, r: Reg, v: u16) -> CpuView {
        match r {
            Reg::B => CpuView { b: high(v), c: low(v), ..self },
            Reg::D => CpuView { d: high(v), e: low(v), ..self },
            Reg::H => CpuView { h: high(v), l: low(v), ..self },
            Reg::SP => CpuView { sp: v, ..self },
            _ => self,
        }
    }

    /// Pushes a 16-bit value: high byte at SP-1, low byte at SP-2.
    pub open spec fn push(self, v: u16) -> CpuView {
        let s = self.store(self.sp - 1, high(v)).store(self.sp - 2, low(v));
        CpuView { sp: wrap16(self.sp - 2), ..s }
    }

    /// The 16-bit value on top of the stack: low byte at SP, high at SP+1.
    pub open spec fn top(self) -> u16 {
        word_of(self.byte_at(self.sp + 1), self.byte_at(self.sp as int))
    }

    /// Drops two bytes from the stack.
    pub open spec fn drop2(self) -> CpuView {
        CpuView { sp: wrap16(self.sp + 2), ..self }
    }

    pub open spec fn with_pc(self, pc: int) -> CpuView {
        CpuView { pc: wrap16(pc), ..self }
    }

    pub open spec fn with_a(self, a: u8) -> CpuView {
        CpuView { a, ..self }
    }

    pub open spec fn with_flags(self, flags: ConditionCodes) -> CpuView {
        CpuView { flags, ..self }
    }

    /// Jumps to `target` when `taken`, else moves on past `size` bytes.
    pub open spec fn branch(self, taken: bool, target: u16, size: nat) -> CpuView {
        if taken {
            self.with_pc(target as int)
        } else {
            self.with_pc(self.pc + size)
        }
    }

    /// A call: pushes the address after the instruction and jumps.
    pub open spec fn call(self, taken: bool, target: u16, size: nat) -> CpuView {
        if taken {
            self.push(wrap16(self.pc + size)).with_pc(target as int)
        } else {
            self.with_pc(self.pc + size)
        }
    }

    /// A return: pops the program counter.
    pub open spec fn ret(self, taken: bool) -> CpuView {
        if taken {
            self.drop2().with_pc(self.top() as int)
        } else {
            self.with_pc(self.pc + 1)
        }
    }

    /// A = A + x (+ CY when `with_carry`).
    pub open spec fn add(self, x: u8, with_carry: bool) -> CpuView {
        let cin = with_carry && self.flags.cy;
        self.with_a(wrap8(self.a + x + if cin { 1int } else { 0 })).with_flags(
            add_flags(self.flags, self.a, x, cin),
        )
    }

    /// A = A - x (- CY when `with_borrow`); only the flags when `!keep`.
    pub open spec fn sub(self, x: u8, with_borrow: bool, keep: bool) -> CpuView {
        let bin = with_borrow && self.flags.cy;
        let t = self.with_flags(sub_flags(self.flags, self.a, x, bin));
        if keep {
            t.with_a(wrap8(self.a - x - if bin { 1int } else { 0 }))
        } else {
            t
        }
    }

    pub open spec fn and(self, x: u8) -> CpuView {
        self.with_a(self.a & x).with_flags(
            logic_flags(self.flags, self.a & x, ((self.a | x) >> 3u8) & 1u8 == 1),
        )
    }

    pub open spec fn xor(self, x: u8) -> CpuView {
        self.with_a(self.a ^ x).with_flags(logic_flags(self.flags, self.a ^ x, false))
    }

    pub open spec fn or(self, x: u8) -> CpuView {
        self.with_a(self.a | x).with_flags(logic_flags(self.flags, self.a | x, false))
    }

    /// INR: adds one to an operand; CY is kept.
    pub open spec fn increment(self, r: Reg) -> CpuView {
        let v = self.reg(r);
        let res = wrap8(v + 1);
        self.set_reg(r, res).with_flags(
            ConditionCodes { ac: v % 16 == 15, ..result_flags(self.flags, res) },
        )
    }

    /// DCR: subtracts one from an operand; CY is kept.
    pub open spec fn decrement(self, r: Reg) -> CpuView {
        let v = self.reg(r);
        let res = wrap8(v - 1);
        self.set_reg(r, res).with_flags(
            ConditionCodes { ac: v % 16 != 0, ..result_flags(self.flags, res) },
        )
    }

    /// DAA: decimal adjustment of A after a BCD addition.
    pub open spec fn decimal_adjust(self) -> CpuView {
        let low_fix = self.a % 16 > 9 || self.flags.ac;
        let a1: u8 = if low_fix {
            wrap8(self.a + 6)
        } else {
            self.a
        };
        let high_fix = a1 / 16 > 9 || self.flags.cy;
        let a2: u8 = if high_fix {
            wrap8(a1 + 0x60)
        } else {
            a1
        };
        let f = ConditionCodes {
            ac: low_fix && self.a % 16 + 6 > 15,
            cy: self.flags.cy || (high_fix && a1 + 0x60 > 255),
            ..result_flags(self.flags, a2)
        };
        self.with_a(a2).with_flags(f)
    }
}

/// Arithmetic and logic on the accumulator, and INR and DCR.
pub open spec fn is_arithmetic(i: Instruction) -> bool {
    i is INR || i is DCR || i is ADD || i is ADC || i is SUB || i is SBB || i is ANA || i is XRA
        || i is ORA || i is CMP || i is ADI || i is ACI || i is SUI || i is SBI || i is ANI
        || i is XRI || i is ORI || i is CPI
}

/// DAA, the rotates, the carry instructions, CMA and DAD.
pub open spec fn is_adjust(i: Instruction) -> bool {
    i is DAA || i is RLC || i is RRC || i is RAL || i is RAR || i is CMA || i is STC || i is CMC
        || i is DAD
}

/// Instructions that move data between registers and memory.
pub open spec fn is_transfer(i: Instruction) -> bool {
    i is LXI || i is STAX || i is LDAX || i is INX || i is DCX || i is MVI || i is MOV || i is SHLD
        || i is LHLD || i is STA || i is LDA || i is XCHG || i is XTHL || i is SPHL
}

/// Jumps, conditional or not, and PCHL.
pub open spec fn is_jump(i: Instruction) -> bool {
    i is JNZ || i is JZ || i is JNC || i is JC || i is JPO || i is JPE || i is JP || i is JM
        || i is JMP || i is PCHL
}

/// Calls, conditional or not, and RST.
pub open spec fn is_call(i: Instruction) -> bool {
    i is CNZ || i is CZ || i is CNC || i is CC || i is CPO || i is CPE || i is CP || i is CM
        || i is CALL || i is RST
}

/// Returns, conditional or not.
pub open spec fn is_ret(i: Instruction) -> bool {
    i is RNZ || i is RZ || i is RNC || i is RC || i is RPO || i is RPE || i is RP || i is RM
        || i is RET
}

/// `run` for arithmetic and logic on the accumulator, and INR and DCR.
pub open spec fn run_arithmetic(s: CpuView, i: Instruction) -> CpuView {
    let next = s.pc + i.size();
    match i {
        Instruction::INR { register } => s.increment(register).with_pc(next),
        Instruction::DCR { register } => s.decrement(register).with_pc(next),
        Instruction::ADD { register } => s.add(s.reg(register), false).with_pc(next),
        Instruction::ADC { register } => s.add(s.reg(register), true).with_pc(next),
        Instruction::SUB { register } => s.sub(s.reg(register), false, true).with_pc(next),
        Instruction::SBB { register } => s.sub(s.reg(register), true, true).with_pc(next),
        Instruction::ANA { register } => s.and(s.reg(register)).with_pc(next),
        Instruction::XRA { register } => s.xor(s.reg(register)).with_pc(next),
        Instruction::ORA { register } => s.or(s.reg(register)).with_pc(next),
        Instruction::CMP { register } => s.sub(s.reg(register), false, false).with_pc(next),
        Instruction::ADI { data } => s.add(data, false).with_pc(next),
        Instruction::ACI { data } => s.add(data, true).with_pc(next),
        Instruction::SUI { data } => s.sub(data, false, true).with_pc(next),
        Instruction::SBI { data } => s.sub(data, true, true).with_pc(next),
        Instruction::ANI { data } => s.and(data).with_pc(next),
        Instruction::XRI { data } => s.xor(data).with_pc(next),
        Instruction::ORI { data } => s.or(data).with_pc(next),
        Instruction::CPI { data } => s.sub(data, false, false).with_pc(next),
        _ => s,
    }
}

/// `run` for DAA, the rotates, the carry instructions, CMA and DAD.
pub open spec fn run_adjust(s: CpuView, i: Instruction) -> CpuView {
    let next = s.pc + i.size();
    let f = s.flags;
    match i {
        Instruction::RLC => s.with_a(wrap8(2 * s.a + s.a / 128)).with_flags(
            ConditionCodes { cy: s.a >= 128, ..f },
        ).with_pc(next),
        Instruction::RRC => s.with_a((s.a / 2 + 128 * (s.a % 2)) as u8).with_flags(
            ConditionCodes { cy: s.a % 2 == 1, ..f },
        ).with_pc(next),
        Instruction::RAL => s.with_a(wrap8(2 * s.a + if f.cy { 1int } else { 0 })).with_flags(
            ConditionCodes { cy: s.a >= 128, ..f },
        ).with_pc(next),
        Instruction::RAR => s.with_a((s.a / 2 + if f.cy { 128int } else { 0 }) as u8).with_flags(
            ConditionCodes { cy: s.a % 2 == 1, ..f },
        ).with_pc(next),
        Instruction::DAD { register } => {
            let sum = s.hl() + s.pair(register);
            s.set_pair(Reg::H, wrap16(sum)).with_flags(ConditionCodes { cy: sum > 65535, ..f }).with_pc(
                next,
            )
        },
        Instruction::DAA => s.decimal_adjust().with_pc(next),
        Instruction::CMA => s.with_a((255 - s.a) as u8).with_pc(next),
        Instruction::STC => s.with_flags(ConditionCodes { cy: true, ..f }).with_pc(next),
        Instruction::CMC => s.with_flags(ConditionCodes { cy: !f.cy, ..f }).with_pc(next),
        _ => s,
    }
}

/// `run` for instructions that move data between registers and memory.
pub open spec fn run_transfer(s: CpuView, i: Instruction) -> CpuView {
    let next = s.pc + i.size();
    match i {
        Instruction::LXI { register, value } => s.set_pair(register, value).with_pc(next),
        Instruction::STAX { register } => s.store(s.pair(register) as int, s.a).with_pc(next),
        Instruction::INX { register } => s.set_pair(register, wrap16(s.pair(register) + 1)).with_pc(
            next,
        ),
        Instruction::DCX { register } => s.set_pair(register, wrap16(s.pair(register) - 1)).with_pc(
            next,
        ),
        Instruction::MVI { register, value } => s.set_reg(register, value).with_pc(next),
        Instruction::LDAX { register } => s.with_a(s.byte_at(s.pair(register) as int)).with_pc(next),
        Instruction::SHLD { address } => s.store(address as int, s.l).store(address + 1, s.h).with_pc(
            next,
        ),
        Instruction::LHLD { address } => CpuView {
            l: s.byte_at(address as int),
            h: s.byte_at(address + 1),
            ..s
        }.with_pc(next),
        Instruction::STA { address } => s.store(address as int, s.a).with_pc(next),
        Instruction::LDA { address } => s.with_a(s.byte_at(address as int)).with_pc(next),
        Instruction::MOV { source, destination } => s.set_reg(destination, s.reg(source)).with_pc(
            next,
        ),
        Instruction::XTHL => CpuView {
            l: s.byte_at(s.sp as int),
            h: s.byte_at(s.sp + 1),
            ..s.store(s.sp as int, s.l).store(s.sp + 1, s.h)
        }.with_pc(next),
        Instruction::XCHG => CpuView { d: s.h, e: s.l, h: s.d, l: s.e, ..s }.with_pc(next),
        Instruction::SPHL => CpuView { sp: s.hl(), ..s }.with_pc(next),
        _ => s,
    }
}

/// `run` for jumps, conditional or not, and PCHL.
pub open spec fn run_jump(s: CpuView, i: Instruction) -> CpuView {
    let f = s.flags;
    match i {
        Instruction::JNZ { address } => s.branch(condition(f, 0), address, 3),
        Instruction::JZ { address } => s.branch(condition(f, 1), address, 3),
        Instruction::JNC { address } => s.branch(condition(f, 2), address, 3),
        Instruction::JC { address } => s.branch(condition(f, 3), address, 3),
        Instruction::JPO { address } => s.branch(condition(f, 4), address, 3),
        Instruction::JPE { address } => s.branch(condition(f, 5), address, 3),
        Instruction::JP { address } => s.branch(condition(f, 6), address, 3),
        Instruction::JM { address } => s.branch(condition(f, 7), address, 3),
        Instruction::JMP { address } => s.branch(true, address, 3),
        Instruction::PCHL => s.with_pc(s.hl() as int),
        _ => s,
    }
}

/// `run` for calls, conditional or not, and RST.
pub open spec fn run_call(s: CpuView, i: Instruction) -> CpuView {
    let f = s.flags;
    match i {
        Instruction::CNZ { address } => s.call(condition(f, 0), address, 3),
        Instruction::CZ { address } => s.call(condition(f, 1), address, 3),
        Instruction::CNC { address } => s.call(condition(f, 2), address, 3),
        Instruction::CC { address } => s.call(condition(f, 3), address, 3),
        Instruction::CPO { address } => s.call(condition(f, 4), address, 3),
        Instruction::CPE { address } => s.call(condition(f, 5), address, 3),
        Instruction::CP { address } => s.call(condition(f, 6), address, 3),
        Instruction::CM { address } => s.call(condition(f, 7), address, 3),
        Instruction::CALL { address } => s.call(true, address, 3),
        Instruction::RST { data } => s.call(true, (8 * data) as u16, 1),
        _ => s,
    }
}

/// `run` for returns, conditional or not.
pub open spec fn run_ret(s: CpuView, i: Instruction) -> CpuView {
    let f = s.flags;
    match i {
        Instruction::RNZ => s.ret(condition(f, 0)),
        Instruction::RZ => s.ret(condition(f, 1)),
        Instruction::RNC => s.ret(condition(f, 2)),
        Instruction::RC => s.ret(condition(f, 3)),
        Instruction::RPO => s.ret(condition(f, 4)),
        Instruction::RPE => s.ret(condition(f, 5)),
        Instruction::RP => s.ret(condition(f, 6)),
        Instruction::RM => s.ret(condition(f, 7)),
        Instruction::RET => s.ret(true),
        _ => s,
    }
}

/// `run` for NOP, HLT, the stack, I/O and the interrupt latch.
pub open spec fn run_machine(s: CpuView, i: Instruction) -> CpuView {
    let next = s.pc + i.size();
    let f = s.flags;
    match i {
        Instruction::NoOp => s.with_pc(next),
        Instruction::HLT => CpuView { halted: true, ..s }.with_pc(next),
        Instruction::PUSH { register } => if register is Psw {
            s.push(word_of(s.a, psw_of(f))).with_pc(next)
        } else {
            s.push(s.pair(register)).with_pc(next)
        },
        Instruction::POP { register } => if register is Psw {
            CpuView {
                a: s.byte_at(s.sp + 1),
                flags: flags_of_psw(s.byte_at(s.sp as int)),
                ..s
            }.drop2().with_pc(next)
        } else {
            s.set_pair(register, s.top()).drop2().with_pc(next)
        },
        Instruction::OUT { .. } => s.with_pc(next),
        Instruction::IN { .. } => s.with_a(s.bus).with_pc(next),
        Instruction::DI => CpuView { int_enable: false, ..s }.with_pc(next),
        Instruction::EI => CpuView { int_enable: true, ..s }.with_pc(next),
        _ => s,
    }
}

/// The state after running `i`, with the program counter at the next
/// instruction to fetch: past the instruction, or at a branch target.
pub open spec fn run(s: CpuView, i: Instruction) -> CpuView {
    if is_arithmetic(i) {
        run_arithmetic(s, i)
    } else if is_adjust(i) {
        run_adjust(s, i)
    } else if is_transfer(i) {
        run_transfer(s, i)
    } else if is_jump(i) {
        run_jump(s, i)
    } else if is_call(i) {
        run_call(s, i)
    } else if is_ret(i) {
        run_ret(s, i)
    } else {
        run_machine(s, i)
    }
}

/// What executing `i` leaves behind before the program counter moves on:
/// the state of `run`, with the program counter set back by the
/// instruction's length, so that adding the length lands on the next
/// instruction to fetch.
pub open spec fn execute(s: CpuView, i: Instruction) -> CpuView {
    let t = run(s, i);
    t.with_pc(t.pc - i.size())
}

/// The bytes from the program counter to the end of memory.
pub open spec fn code_at_pc(s: CpuView) -> Seq<u8> {
    s.memory.subrange(s.pc as int, s.memory.len() as int)
}

/// One step: nothing while halted; else the instruction at the program
/// counter runs, and bytes that start no instruction pass as a one-byte
/// no-op.
pub open spec fn step(s: CpuView) -> CpuView {
    if s.halted {
        s
    } else {
        match decoded(code_at_pc(s)) {
            Some(i) => run(s, i),
            None => s.with_pc(s.pc + 1),
        }
    }
}

/// An interrupt `RST n`: when interrupts are enabled, pushes the program
/// counter, jumps to `8 * n` and releases a halt.
pub open spec fn interrupt(s: CpuView, n: u8) -> CpuView {
    if s.int_enable {
        CpuView { halted: false, ..s.push(s.pc).with_pc(8 * n) }
    } else {
        s
    }
}

} // verus!
