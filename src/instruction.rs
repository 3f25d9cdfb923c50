//! Instructions of the 8080, their encoding and the decoder.
use vstd::prelude::*;

verus! {

/// Register selectors as instructions name them.
#[derive(Clone, Copy, Debug, PartialEq, Eq, Structural)]
pub enum Reg {
    A,
    B,
    C,
    D,
    E,
    H,
    L,
    SP,
    /// The memory cell addressed by the pair (H, L).
    M,
    /// The accumulator together with the packed flags.
    Psw,
}

/// One decoded instruction with its operands.
#[derive(Clone, Copy, Debug, PartialEq, Eq, Structural)]
#[allow(inconsistent_fields)]
pub enum Instruction {
    NoOp,
    LXI { register: Reg, value: u16 },
    STAX { register: Reg },
    INX { register: Reg },
    INR { register: Reg },
    DCR { register: Reg },
    MVI { register: Reg, value: u8 },
    RLC,
    DAD { register: Reg },
    LDAX { register: Reg },
    DCX { register: Reg },
    RRC,
    RAL,
    RAR,
    SHLD { address: u16 },
    DAA,
    LHLD { address: u16 },
    CMA,
    STA { address: u16 },
    STC,
    LDA { address: u16 },
    CMC,
    MOV { source: Reg, destination: Reg },
    HLT,
    ADD { register: Reg },
    ADC { register: Reg },
    SUB { register: Reg },
    SBB { register: Reg },
    ANA { register: Reg },
    XRA { register: Reg },
    ORA { register: Reg },
    CMP { register: Reg },
    RNZ,
    POP { register: Reg },
    JNZ { address: u16 },
    JMP { address: u16 },
    CNZ { address: u16 },
    PUSH { register: Reg },
    ADI { data: u8 },
    RST { data: u8 },
    RZ,
    RET,
    JZ { address: u16 },
    CZ { address: u16 },
    CALL { address: u16 },
    ACI { data: u8 },
    RNC,
    JNC { address: u16 },
    OUT { data: u8 },
    CNC { address: u16 },
    SUI { data: u8 },
    RC,
    JC { address: u16 },
    IN { data: u8 },
    CC { address: u16 },
    SBI { data: u8 },
    RPO,
    JPO { address: u16 },
    XTHL,
    CPO { address: u16 },
    ANI { data: u8 },
    RPE,
    PCHL,
    JPE { address: u16 },
    XCHG,
    CPE { address: u16 },
    XRI { data: u8 },
    RP,
    JP { address: u16 },
    DI,
    CP { address: u16 },
    ORI { data: u8 },
    RM,
    SPHL,
    JM { address: u16 },
    EI,
    CM { address: u16 },
    CPI { data: u8 },
}

/// An 8-bit operand: one of the seven registers or the memory cell M.
pub open spec fn is_operand8(r: Reg) -> bool {
    !(r is SP || r is Psw)
}

/// A pair that LXI, INX, DCX and DAD accept.
pub open spec fn is_pair(r: Reg) -> bool {
    r is B || r is D || r is H || r is SP
}

/// A pair that LDAX and STAX accept.
pub open spec fn is_indirect_pair(r: Reg) -> bool {
    r is B || r is D
}

/// A pair that PUSH and POP accept.
pub open spec fn is_stack_pair(r: Reg) -> bool {
    r is B || r is D || r is H || r is Psw
}

/// The three-bit code of an 8-bit operand.
pub open spec fn reg_code(r: Reg) -> int {
    match r {
        Reg::B => 0,
        Reg::C => 1,
        Reg::D => 2,
        Reg::E => 3,
        Reg::H => 4,
        Reg::L => 5,
        Reg::M => 6,
        _ => 7,
    }
}

/// The two-bit code of a register pair; SP and PSW share code 3.
pub open spec fn pair_code(r: Reg) -> int {
    match r {
        Reg::B => 0,
        Reg::D => 1,
        Reg::H => 2,
        _ => 3,
    }
}

/// A 16-bit value as it is laid out in memory: low byte first.
pub open spec fn le16(v: u16) -> Seq<u8> {
    seq![(v % 256) as u8, (v / 256) as u8]
}

/// Opcodes that the 8080 leaves undefined.
pub open spec fn opcode_defined(op: u8) -> bool {
    !(op == 0x08 || op == 0x10 || op == 0x18 || op == 0x20 || op == 0x28 || op == 0x30
        || op == 0x38 || op == 0xCB || op == 0xD9 || op == 0xDD || op == 0xED || op == 0xFD)
}

/// Encoded length of the instruction that an opcode starts.
pub open spec fn opcode_size(op: u8) -> nat {
    if op == 0x01 || op == 0x11 || op == 0x21 || op == 0x31 || op == 0x22 || op == 0x2A || op
        == 0x32 || op == 0x3A || op == 0xC3 || op == 0xCD || (op >= 0xC0 && (op % 8 == 2 || op
        % 8 == 4)) {
        3
    } else if (op < 0x40 && op % 8 == 6) || (op >= 0xC0 && op % 8 == 6) || op == 0xD3 || op
        == 0xDB {
        2
    } else {
        1
    }
}

impl Instruction {
    /// Whether the operands are ones the instruction accepts.
    pub open spec fn is_legal(self) -> bool {
        match self {
            Instruction::LXI { register, .. } => is_pair(register),
            Instruction::INX { register } => is_pair(register),
            Instruction::DCX { register } => is_pair(register),
            Instruction::DAD { register } => is_pair(register),
            Instruction::STAX { register } => is_indirect_pair(register),
            Instruction::LDAX { register } => is_indirect_pair(register),
            Instruction::PUSH { register } => is_stack_pair(register),
            Instruction::POP { register } => is_stack_pair(register),
            Instruction::INR { register } => is_operand8(register),
            Instruction::DCR { register } => is_operand8(register),
            Instruction::MVI { register, .. } => is_operand8(register),
            Instruction::ADD { register } => is_operand8(register),
            Instruction::ADC { register } => is_operand8(register),
            Instruction::SUB { register } => is_operand8(register),
            Instruction::SBB { register } => is_operand8(register),
            Instruction::ANA { register } => is_operand8(register),
            Instruction::XRA { register } => is_operand8(register),
            Instruction::ORA { register } => is_operand8(register),
            Instruction::CMP { register } => is_operand8(register),
            Instruction::MOV { source, destination } => is_operand8(source) && is_operand8(
                destination,
            ) && !(source is M && destination is M),
            Instruction::RST { data } => data < 8,
            _ => true,
        }
    }

    /// The opcode byte, as the 8080 manual assigns it.
    pub open spec fn opcode(self) -> int {
        match self {
            Instruction::NoOp => 0x00,
            Instruction::LXI { register, .. } => 0x01 + 16 * pair_code(register),
            Instruction::STAX { register } => 0x02 + 16 * pair_code(register),
            Instruction::INX { register } => 0x03 + 16 * pair_code(register),
            Instruction::INR { register } => 0x04 + 8 * reg_code(register),
            Instruction::DCR { register } => 0x05 + 8 * reg_code(register),
            Instruction::MVI { register, .. } => 0x06 + 8 * reg_code(register),
            Instruction::RLC => 0x07,
            Instruction::DAD { register } => 0x09 + 16 * pair_code(register),
            Instruction::LDAX { register } => 0x0A + 16 * pair_code(register),
            Instruction::DCX { register } => 0x0B + 16 * pair_code(register),
            Instruction::RRC => 0x0F,
            Instruction::RAL => 0x17,
            Instruction::RAR => 0x1F,
            Instruction::SHLD { .. } => 0x22,
            Instruction::DAA => 0x27,
            Instruction::LHLD { .. } => 0x2A,
            Instruction::CMA => 0x2F,
            Instruction::STA { .. } => 0x32,
            Instruction::STC => 0x37,
            Instruction::LDA { .. } => 0x3A,
            Instruction::CMC => 0x3F,
            Instruction::MOV { source, destination } => 0x40 + 8 * reg_code(destination)
                + reg_code(source),
            Instruction::HLT => 0x76,
            Instruction::ADD { register } => 0x80 + reg_code(register),
            Instruction::ADC { register } => 0x88 + reg_code(register),
            Instruction::SUB { register } => 0x90 + reg_code(register),
            Instruction::SBB { register } => 0x98 + reg_code(register),
            Instruction::ANA { register } => 0xA0 + reg_code(register),
            Instruction::XRA { register } => 0xA8 + reg_code(register),
            Instruction::ORA { register } => 0xB0 + reg_code(register),
            Instruction::CMP { register } => 0xB8 + reg_code(register),
            Instruction::RNZ => 0xC0,
            Instruction::POP { register } => 0xC1 + 16 * pair_code(register),
            Instruction::JNZ { .. } => 0xC2,
            Instruction::JMP { .. } => 0xC3,
            Instruction::CNZ { .. } => 0xC4,
            Instruction::PUSH { register } => 0xC5 + 16 * pair_code(register),
            Instruction::ADI { .. } => 0xC6,
            Instruction::RST { data } => 0xC7 + 8 * data,
            Instruction::RZ => 0xC8,
            Instruction::RET => 0xC9,
            Instruction::JZ { .. } => 0xCA,
            Instruction::CZ { .. } => 0xCC,
            Instruction::CALL { .. } => 0xCD,
            Instruction::ACI { .. } => 0xCE,
            Instruction::RNC => 0xD0,
            Instruction::JNC { .. } => 0xD2,
            Instruction::OUT { .. } => 0xD3,
            Instruction::CNC { .. } => 0xD4,
            Instruction::SUI { .. } => 0xD6,
            Instruction::RC => 0xD8,
            Instruction::JC { .. } => 0xDA,
            Instruction::IN { .. } => 0xDB,
            Instruction::CC { .. } => 0xDC,
            Instruction::SBI { .. } => 0xDE,
            Instruction::RPO => 0xE0,
            Instruction::JPO { .. } => 0xE2,
            Instruction::XTHL => 0xE3,
            Instruction::CPO { .. } => 0xE4,
            Instruction::ANI { .. } => 0xE6,
            Instruction::RPE => 0xE8,
            Instruction::PCHL => 0xE9,
            Instruction::JPE { .. } => 0xEA,
            Instruction::XCHG => 0xEB,
            Instruction::CPE { .. } => 0xEC,
            Instruction::XRI { .. } => 0xEE,
            Instruction::RP => 0xF0,
            Instruction::JP { .. } => 0xF2,
            Instruction::DI => 0xF3,
            Instruction::CP { .. } => 0xF4,
            Instruction::ORI { .. } => 0xF6,
            Instruction::RM => 0xF8,
            Instruction::SPHL => 0xF9,
            Instruction::JM { .. } => 0xFA,
            Instruction::EI => 0xFB,
            Instruction::CM { .. } => 0xFC,
            Instruction::CPI { .. } => 0xFE,
        }
    }

    /// The bytes that follow the opcode.
    pub open spec fn operands(self) -> Seq<u8> {
        match self {
            Instruction::LXI { value, .. } => le16(value),
            Instruction::MVI { value, .. } => seq![value],
            Instruction::SHLD { address } => le16(address),
            Instruction::LHLD { address } => le16(address),
            Instruction::STA { address } => le16(address),
            Instruction::LDA { address } => le16(address),
            Instruction::JNZ { address } => le16(address),
            Instruction::JMP { address } => le16(address),
            Instruction::CNZ { address } => le16(address),
            Instruction::JZ { address } => le16(address),
            Instruction::CZ { address } => le16(address),
            Instruction::CALL { address } => le16(address),
            Instruction::JNC { address } => le16(address),
            Instruction::CNC { address } => le16(address),
            Instruction::JC { address } => le16(address),
            Instruction::CC { address } => le16(address),
            Instruction::JPO { address } => le16(address),
            Instruction::CPO { address } => le16(address),
            Instruction::JPE { address } => le16(address),
            Instruction::CPE { address } => le16(address),
            Instruction::JP { address } => le16(address),
            Instruction::CP { address } => le16(address),
            Instruction::JM { address } => le16(address),
            Instruction::CM { address } => le16(address),
            Instruction::ADI { data } => seq![data],
            Instruction::ACI { data } => seq![data],
            Instruction::SUI { data } => seq![data],
            Instruction::SBI { data } => seq![data],
            Instruction::ANI { data } => seq![data],
            Instruction::XRI { data } => seq![data],
            Instruction::ORI { data } => seq![data],
            Instruction::CPI { data } => seq![data],
            Instruction::OUT { data } => seq![data],
            Instruction::IN { data } => seq![data],
            _ => Seq::empty(),
        }
    }

    /// The machine code of the instruction.
    pub open spec fn encoding(self) -> Seq<u8> {
        seq![self.opcode() as u8] + self.operands()
    }

    /// Encoded length in bytes.
    pub open spec fn size(self) -> nat {
        match self {
            Instruction::LXI { .. } | Instruction::SHLD { .. } | Instruction::LHLD { .. }
            | Instruction::STA { .. } | Instruction::LDA { .. } | Instruction::JNZ { .. }
            | Instruction::JMP { .. } | Instruction::CNZ { .. } | Instruction::JZ { .. }
            | Instruction::CZ { .. } | Instruction::CALL { .. } | Instruction::JNC { .. }
            | Instruction::CNC { .. } | Instruction::JC { .. } | Instruction::CC { .. }
            | Instruction::JPO { .. } | Instruction::CPO { .. } | Instruction::JPE { .. }
            | Instruction::CPE { .. } | Instruction::JP { .. } | Instruction::CP { .. }
            | Instruction::JM { .. } | Instruction::CM { .. } => 3,
            Instruction::MVI { .. } | Instruction::ADI { .. } | Instruction::ACI { .. }
            | Instruction::SUI { .. } | Instruction::SBI { .. } | Instruction::ANI { .. }
            | Instruction::XRI { .. } | Instruction::ORI { .. } | Instruction::CPI { .. }
            | Instruction::OUT { .. } | Instruction::IN { .. } => 2,
            _ => 1,
        }
    }
}

/// The pair's value from its low and high byte.
fn word(lo: u8, hi: u8) -> (w: u16)
    ensures
        le16(w) == seq![lo, hi],
        w == lo + 256 * hi,
{
    lo as u16 + 256 * hi as u16
}

/// The register that a three-bit operand code selects.
fn reg_of_code(code: u8) -> (r: Reg)
    requires
        code < 8,
    ensures
        is_operand8(r),
        reg_code(r) == code,
{
    match code {
        0 => Reg::B,
        1 => Reg::C,
        2 => Reg::D,
        3 => Reg::E,
        4 => Reg::H,
        5 => Reg::L,
        6 => Reg::M,
        _ => Reg::A,
    }
}

/// Opcodes 0x00 to 0x0F.
fn decode_row_0(op: u8, b1: u8, b2: u8) -> (i: Instruction)
    requires
        op / 16 == 0x0,
        opcode_defined(op),
    ensures
        i.is_legal(),
        i.opcode() == op,
        i.operands() == seq![b1, b2].subrange(0, opcode_size(op) - 1),
{
    let w = word(b1, b2);
    match op {
        0x00 => Instruction::NoOp,
        0x01 => Instruction::LXI { register: Reg::B, value: w },
        0x02 => Instruction::STAX { register: Reg::B },
        0x03 => Instruction::INX { register: Reg::B },
        0x04 => Instruction::INR { register: Reg::B },
        0x05 => Instruction::DCR { register: Reg::B },
        0x06 => Instruction::MVI { register: Reg::B, value: b1 },
        0x07 => Instruction::RLC,
        0x09 => Instruction::DAD { register: Reg::B },
        0x0A => Instruction::LDAX { register: Reg::B },
        0x0B => Instruction::DCX { register: Reg::B },
        0x0C => Instruction::INR { register: Reg::C },
        0x0D => Instruction::DCR { register: Reg::C },
        0x0E => Instruction::MVI { register: Reg::C, value: b1 },
        0x0F => Instruction::RRC,
        _ => Instruction::NoOp,
    }
}

/// Opcodes 0x10 to 0x1F.
fn decode_row_1(op: u8, b1: u8, b2: u8) -> (i: Instruction)
    requires
        op / 16 == 0x1,
        opcode_defined(op),
    ensures
        i.is_legal(),
        i.opcode() == op,
        i.operands() == seq![b1, b2].subrange(0, opcode_size(op) - 1),
{
    let w = word(b1, b2);
    match op {
        0x11 => Instruction::LXI { register: Reg::D, value: w },
        0x12 => Instruction::STAX { register: Reg::D },
        0x13 => Instruction::INX { register: Reg::D },
        0x14 => Instruction::INR { register: Reg::D },
        0x15 => Instruction::DCR { register: Reg::D },
        0x16 => Instruction::MVI { register: Reg::D, value: b1 },
        0x17 => Instruction::RAL,
        0x19 => Instruction::DAD { register: Reg::D },
        0x1A => Instruction::LDAX { register: Reg::D },
        0x1B => Instruction::DCX { register: Reg::D },
        0x1C => Instruction::INR { register: Reg::E },
        0x1D => Instruction::DCR { register: Reg::E },
        0x1E => Instruction::MVI { register: Reg::E, value: b1 },
        0x1F => Instruction::RAR,
        _ => Instruction::NoOp,
    }
}

/// Opcodes 0x20 to 0x2F.
fn decode_row_2(op: u8, b1: u8, b2: u8) -> (i: Instruction)
    requires
        op / 16 == 0x2,
        opcode_defined(op),
    ensures
        i.is_legal(),
        i.opcode() == op,
        i.operands() == seq![b1, b2].subrange(0, opcode_size(op) - 1),
{
    let w = word(b1, b2);
    match op {
        0x21 => Instruction::LXI { register: Reg::H, value: w },
        0x22 => Instruction::SHLD { address: w },
        0x23 => Instruction::INX { register: Reg::H },
        0x24 => Instruction::INR { register: Reg::H },
        0x25 => Instruction::DCR { register: Reg::H },
        0x26 => Instruction::MVI { register: Reg::H, value: b1 },
        0x27 => Instruction::DAA,
        0x29 => Instruction::DAD { register: Reg::H },
        0x2A => Instruction::LHLD { address: w },
        0x2B => Instruction::DCX { register: Reg::H },
        0x2C => Instruction::INR { register: Reg::L },
        0x2D => Instruction::DCR { register: Reg::L },
        0x2E => Instruction::MVI { register: Reg::L, value: b1 },
        0x2F => Instruction::CMA,
        _ => Instruction::NoOp,
    }
}

/// Opcodes 0x30 to 0x3F.
fn decode_row_3(op: u8, b1: u8, b2: u8) -> (i: Instruction)
    requires
        op / 16 == 0x3,
        opcode_defined(op),
    ensures
        i.is_legal(),
        i.opcode() == op,
        i.operands() == seq![b1, b2].subrange(0, opcode_size(op) - 1),
{
    let w = word(b1, b2);
    match op {
        0x31 => Instruction::LXI { register: Reg::SP, value: w },
        0x32 => Instruction::STA { address: w },
        0x33 => Instruction::INX { register: Reg::SP },
        0x34 => Instruction::INR { register: Reg::M },
        0x35 => Instruction::DCR { register: Reg::M },
        0x36 => Instruction::MVI { register: Reg::M, value: b1 },
        0x37 => Instruction::STC,
        0x39 => Instruction::DAD { register: Reg::SP },
        0x3A => Instruction::LDA { address: w },
        0x3B => Instruction::DCX { register: Reg::SP },
        0x3C => Instruction::INR { register: Reg::A },
        0x3D => Instruction::DCR { register: Reg::A },
        0x3E => Instruction::MVI { register: Reg::A, value: b1 },
        0x3F => Instruction::CMC,
        _ => Instruction::NoOp,
    }
}

/// Opcodes 0xC0 to 0xCF.
fn decode_row_c(op: u8, b1: u8, b2: u8) -> (i: Instruction)
    requires
        op / 16 == 0xc,
        opcode_defined(op),
    ensures
        i.is_legal(),
        i.opcode() == op,
        i.operands() == seq![b1, b2].subrange(0, opcode_size(op) - 1),
{
    let w = word(b1, b2);
    match op {
        0xC0 => Instruction::RNZ,
        0xC1 => Instruction::POP { register: Reg::B },
        0xC2 => Instruction::JNZ { address: w },
        0xC3 => Instruction::JMP { address: w },
        0xC4 => Instruction::CNZ { address: w },
        0xC5 => Instruction::PUSH { register: Reg::B },
        0xC6 => Instruction::ADI { data: b1 },
        0xC7 => Instruction::RST { data: 0 },
        0xC8 => Instruction::RZ,
        0xC9 => Instruction::RET,
        0xCA => Instruction::JZ { address: w },
        0xCC => Instruction::CZ { address: w },
        0xCD => Instruction::CALL { address: w },
        0xCE => Instruction::ACI { data: b1 },
        0xCF => Instruction::RST { data: 1 },
        _ => Instruction::NoOp,
    }
}

/// Opcodes 0xD0 to 0xDF.
fn decode_row_d(op: u8, b1: u8, b2: u8) -> (i: Instruction)
    requires
        op / 16 == 0xd,
        opcode_defined(op),
    ensures
        i.is_legal(),
        i.opcode() == op,
        i.operands() == seq![b1, b2].subrange(0, opcode_size(op) - 1),
{
    let w = word(b1, b2);
    match op {
        0xD0 => Instruction::RNC,
        0xD1 => Instruction::POP { register: Reg::D },
        0xD2 => Instruction::JNC { address: w },
        0xD3 => Instruction::OUT { data: b1 },
        0xD4 => Instruction::CNC { address: w },
        0xD5 => Instruction::PUSH { register: Reg::D },
        0xD6 => Instruction::SUI { data: b1 },
        0xD7 => Instruction::RST { data: 2 },
        0xD8 => Instruction::RC,
        0xDA => Instruction::JC { address: w },
        0xDB => Instruction::IN { data: b1 },
        0xDC => Instruction::CC { address: w },
        0xDE => Instruction::SBI { data: b1 },
        0xDF => Instruction::RST { data: 3 },
        _ => Instruction::NoOp,
    }
}

/// Opcodes 0xE0 to 0xEF.
fn decode_row_e(op: u8, b1: u8, b2: u8) -> (i: Instruction)
    requires
        op / 16 == 0xe,
        opcode_defined(op),
    ensures
        i.is_legal(),
        i.opcode() == op,
        i.operands() == seq![b1, b2].subrange(0, opcode_size(op) - 1),
{
    let w = word(b1, b2);
    match op {
        0xE0 => Instruction::RPO,
        0xE1 => Instruction::POP { register: Reg::H },
        0xE2 => Instruction::JPO { address: w },
        0xE3 => Instruction::XTHL,
        0xE4 => Instruction::CPO { address: w },
        0xE5 => Instruction::PUSH { register: Reg::H },
        0xE6 => Instruction::ANI { data: b1 },
        0xE7 => Instruction::RST { data: 4 },
        0xE8 => Instruction::RPE,
        0xE9 => Instruction::PCHL,
        0xEA => Instruction::JPE { address: w },
        0xEB => Instruction::XCHG,
        0xEC => Instruction::CPE { address: w },
        0xEE => Instruction::XRI { data: b1 },
        0xEF => Instruction::RST { data: 5 },
        _ => Instruction::NoOp,
    }
}

/// Opcodes 0xF0 to 0xFF.
fn decode_row_f(op: u8, b1: u8, b2: u8) -> (i: Instruction)
    requires
        op / 16 == 0xf,
        opcode_defined(op),
    ensures
        i.is_legal(),
        i.opcode() == op,
        i.operands() == seq![b1, b2].subrange(0, opcode_size(op) - 1),
{
    let w = word(b1, b2);
    match op {
        0xF0 => Instruction::RP,
        0xF1 => Instruction::POP { register: Reg::Psw },
        0xF2 => Instruction::JP { address: w },
        0xF3 => Instruction::DI,
        0xF4 => Instruction::CP { address: w },
        0xF5 => Instruction::PUSH { register: Reg::Psw },
        0xF6 => Instruction::ORI { data: b1 },
        0xF7 => Instruction::RST { data: 6 },
        0xF8 => Instruction::RM,
        0xF9 => Instruction::SPHL,
        0xFA => Instruction::JM { address: w },
        0xFB => Instruction::EI,
        0xFC => Instruction::CM { address: w },
        0xFE => Instruction::CPI { data: b1 },
        0xFF => Instruction::RST { data: 7 },
        _ => Instruction::NoOp,
    }
}

/// Opcodes 0x40 to 0x7F: register moves, with HLT in the place of MOV M,M.
fn decode_move_block(op: u8) -> (i: Instruction)
    requires
        0x40 <= op < 0x80,
    ensures
        i.is_legal(),
        i.opcode() == op,
        i.operands() == Seq::<u8>::empty(),
{
    if op == 0x76 {
        Instruction::HLT
    } else {
        let destination = reg_of_code((op / 8) % 8);
        let source = reg_of_code(op % 8);
        Instruction::MOV { source, destination }
    }
}

/// Opcodes 0x80 to 0xBF: accumulator arithmetic and logic on a register.
fn decode_alu_block(op: u8) -> (i: Instruction)
    requires
        0x80 <= op < 0xC0,
    ensures
        i.is_legal(),
        i.opcode() == op,
        i.operands() == Seq::<u8>::empty(),
{
    let register = reg_of_code(op % 8);
    match (op / 8) % 8 {
        0 => Instruction::ADD { register },
        1 => Instruction::ADC { register },
        2 => Instruction::SUB { register },
        3 => Instruction::SBB { register },
        4 => Instruction::ANA { register },
        5 => Instruction::XRA { register },
        6 => Instruction::ORA { register },
        _ => Instruction::CMP { register },
    }
}

/// The instruction that the bytes `s` start with: the legal instruction
/// whose encoding is a prefix of `s`, if there is one.
pub open spec fn decoded(s: Seq<u8>) -> Option<Instruction> {
    if exists|i: Instruction| #[trigger] i.is_legal() && i.encoding().is_prefix_of(s) {
        Some(choose|i: Instruction| #[trigger] i.is_legal() && i.encoding().is_prefix_of(s))
    } else {
        None
    }
}

/// Decoding fails exactly on an empty input, an undefined opcode, or an
/// input that ends inside the operands.
pub open spec fn undecodable(s: Seq<u8>) -> bool {
    s.len() == 0 || !opcode_defined(s[0]) || s.len() < opcode_size(s[0])
}

/// The length of an instruction is the length of its encoding.
pub proof fn lemma_size_is_encoding_length(i: Instruction)
    ensures
        i.size() == i.encoding().len(),
{
}

/// Every legal instruction starts with a defined opcode, and that opcode
/// alone gives its length.
pub proof fn lemma_legal_opcode(i: Instruction)
    requires
        i.is_legal(),
    ensures
        0 <= i.opcode() < 256,
        opcode_defined(i.opcode() as u8),
        i.size() == opcode_size(i.opcode() as u8),
        i.encoding().len() == opcode_size(i.opcode() as u8),
{
    lemma_size_is_encoding_length(i);
    match i {
        Instruction::NoOp => {},
        Instruction::LXI { .. } => {},
        Instruction::STAX { .. } => {},
        Instruction::INX { .. } => {},
        Instruction::INR { .. } => {},
        Instruction::DCR { .. } => {},
        Instruction::MVI { .. } => {},
        Instruction::RLC => {},
        Instruction::DAD { .. } => {},
        Instruction::LDAX { .. } => {},
        Instruction::DCX { .. } => {},
        Instruction::RRC => {},
        Instruction::RAL => {},
        Instruction::RAR => {},
        Instruction::SHLD { .. } => {},
        Instruction::DAA => {},
        Instruction::LHLD { .. } => {},
        Instruction::CMA => {},
        Instruction::STA { .. } => {},
        Instruction::STC => {},
        Instruction::LDA { .. } => {},
        Instruction::CMC => {},
        Instruction::MOV { .. } => {},
        Instruction::HLT => {},
        Instruction::ADD { .. } => {},
        Instruction::ADC { .. } => {},
        Instruction::SUB { .. } => {},
        Instruction::SBB { .. } => {},
        Instruction::ANA { .. } => {},
        Instruction::XRA { .. } => {},
        Instruction::ORA { .. } => {},
        Instruction::CMP { .. } => {},
        Instruction::RNZ => {},
        Instruction::POP { .. } => {},
        Instruction::JNZ { .. } => {},
        Instruction::JMP { .. } => {},
        Instruction::CNZ { .. } => {},
        Instruction::PUSH { .. } => {},
        Instruction::ADI { .. } => {},
        Instruction::RST { .. } => {},
        Instruction::RZ => {},
        Instruction::RET => {},
        Instruction::JZ { .. } => {},
        Instruction::CZ { .. } => {},
        Instruction::CALL { .. } => {},
        Instruction::ACI { .. } => {},
        Instruction::RNC => {},
        Instruction::JNC { .. } => {},
        Instruction::OUT { .. } => {},
        Instruction::CNC { .. } => {},
        Instruction::SUI { .. } => {},
        Instruction::RC => {},
        Instruction::JC { .. } => {},
        Instruction::IN { .. } => {},
        Instruction::CC { .. } => {},
        Instruction::SBI { .. } => {},
        Instruction::RPO => {},
        Instruction::JPO { .. } => {},
        Instruction::XTHL => {},
        Instruction::CPO { .. } => {},
        Instruction::ANI { .. } => {},
        Instruction::RPE => {},
        Instruction::PCHL => {},
        Instruction::JPE { .. } => {},
        Instruction::XCHG => {},
        Instruction::CPE { .. } => {},
        Instruction::XRI { .. } => {},
        Instruction::RP => {},
        Instruction::JP { .. } => {},
        Instruction::DI => {},
        Instruction::CP { .. } => {},
        Instruction::ORI { .. } => {},
        Instruction::RM => {},
        Instruction::SPHL => {},
        Instruction::JM { .. } => {},
        Instruction::EI => {},
        Instruction::CM { .. } => {},
        Instruction::CPI { .. } => {},
    }
}

/// `lemma_encoding_injective` for the variants from `NoOp` to `LDAX`.
#[verifier::rlimit(50)]
proof fn lemma_encoding_injective_0(i: Instruction, j: Instruction)
    requires
        i is NoOp || i is LXI || i is STAX || i is INX || i is INR || i is DCR || i is MVI
            || i is RLC || i is DAD || i is LDAX,
        i.is_legal(),
        j.is_legal(),
        i.opcode() == j.opcode(),
        i.operands() =~= j.operands(),
    ensures
        i == j,
{
    if i.operands().len() >= 1 {
        assert(i.operands()[0] == j.operands()[0]);
    }
    if i.operands().len() == 2 {
        assert(i.operands()[1] == j.operands()[1]);
    }
    match i {
        Instruction::NoOp => {},
        Instruction::LXI { .. } => {},
        Instruction::STAX { .. } => {},
        Instruction::INX { .. } => {},
        Instruction::INR { .. } => {},
        Instruction::DCR { .. } => {},
        Instruction::MVI { .. } => {},
        Instruction::RLC => {},
        Instruction::DAD { .. } => {},
        Instruction::LDAX { .. } => {},
        _ => {},
    }
}

/// `lemma_encoding_injective` for the variants from `DCX` to `RAR`.
#[verifier::rlimit(50)]
proof fn lemma_encoding_injective_1(i: Instruction, j: Instruction)
    requires
        i is DCX || i is RRC || i is RAL || i is RAR,
        i.is_legal(),
        j.is_legal(),
        i.opcode() == j.opcode(),
        i.operands() =~= j.operands(),
    ensures
        i == j,
{
    match i {
        Instruction::DCX { register } => match register {
            Reg::B => {},
            Reg::D => {},
            Reg::H => {},
            Reg::SP => {},
            Reg::Psw => {},
            _ => {},
        },
        _ => {},
    }
}

/// `lemma_encoding_injective` for the variants from `SHLD` to `CMA`.
#[verifier::rlimit(50)]
proof fn lemma_encoding_injective_2(i: Instruction, j: Instruction)
    requires
        i is SHLD || i is DAA || i is LHLD || i is CMA,
        i.is_legal(),
        j.is_legal(),
        i.opcode() == j.opcode(),
        i.operands() =~= j.operands(),
    ensures
        i == j,
{
    if i.operands().len() >= 1 {
        assert(i.operands()[0] == j.operands()[0]);
    }
    if i.operands().len() == 2 {
        assert(i.operands()[1] == j.operands()[1]);
    }
    match i {
        Instruction::SHLD { .. } => {},
        Instruction::DAA => {},
        Instruction::LHLD { .. } => {},
        Instruction::CMA => {},
        _ => {},
    }
}

/// `lemma_encoding_injective` for the variants from `STA` to `CMC`.
#[verifier::rlimit(50)]
proof fn lemma_encoding_injective_3(i: Instruction, j: Instruction)
    requires
        i is STA || i is STC || i is LDA || i is CMC,
        i.is_legal(),
        j.is_legal(),
        i.opcode() == j.opcode(),
        i.operands() =~= j.operands(),
    ensures
        i == j,
{
    if i.operands().len() >= 1 {
        assert(i.operands()[0] == j.operands()[0]);
    }
    if i.operands().len() == 2 {
        assert(i.operands()[1] == j.operands()[1]);
    }
    match i {
        Instruction::STA { .. } => {},
        Instruction::STC => {},
        Instruction::LDA { .. } => {},
        Instruction::CMC => {},
        _ => {},
    }
}

/// The legal instructions with an opcode from 0x40 to 0x7F are the moves
/// and HLT.
proof fn lemma_move_block_opcodes(j: Instruction)
    requires
        j.is_legal(),
        0x40 <= j.opcode() < 0x80,
    ensures
        j is MOV || j is HLT,
{
    match j {
        Instruction::NoOp => {},
        Instruction::LXI { .. } => {},
        Instruction::STAX { .. } => {},
        Instruction::INX { .. } => {},
        Instruction::INR { .. } => {},
        Instruction::DCR { .. } => {},
        Instruction::MVI { .. } => {},
        Instruction::RLC => {},
        Instruction::DAD { .. } => {},
        Instruction::LDAX { .. } => {},
        Instruction::DCX { .. } => {},
        Instruction::RRC => {},
        Instruction::RAL => {},
        Instruction::RAR => {},
        Instruction::SHLD { .. } => {},
        Instruction::DAA => {},
        Instruction::LHLD { .. } => {},
        Instruction::CMA => {},
        Instruction::STA { .. } => {},
        Instruction::STC => {},
        Instruction::LDA { .. } => {},
        Instruction::CMC => {},
        Instruction::MOV { .. } => {},
        Instruction::HLT => {},
        Instruction::ADD { .. } => {},
        Instruction::ADC { .. } => {},
        Instruction::SUB { .. } => {},
        Instruction::SBB { .. } => {},
        Instruction::ANA { .. } => {},
        Instruction::XRA { .. } => {},
        Instruction::ORA { .. } => {},
        Instruction::CMP { .. } => {},
        Instruction::RNZ => {},
        Instruction::POP { .. } => {},
        Instruction::JNZ { .. } => {},
        Instruction::JMP { .. } => {},
        Instruction::CNZ { .. } => {},
        Instruction::PUSH { .. } => {},
        Instruction::ADI { .. } => {},
        Instruction::RST { .. } => {},
        Instruction::RZ => {},
        Instruction::RET => {},
        Instruction::JZ { .. } => {},
        Instruction::CZ { .. } => {},
        Instruction::CALL { .. } => {},
        Instruction::ACI { .. } => {},
        Instruction::RNC => {},
        Instruction::JNC { .. } => {},
        Instruction::OUT { .. } => {},
        Instruction::CNC { .. } => {},
        Instruction::SUI { .. } => {},
        Instruction::RC => {},
        Instruction::JC { .. } => {},
        Instruction::IN { .. } => {},
        Instruction::CC { .. } => {},
        Instruction::SBI { .. } => {},
        Instruction::RPO => {},
        Instruction::JPO { .. } => {},
        Instruction::XTHL => {},
        Instruction::CPO { .. } => {},
        Instruction::ANI { .. } => {},
        Instruction::RPE => {},
        Instruction::PCHL => {},
        Instruction::JPE { .. } => {},
        Instruction::XCHG => {},
        Instruction::CPE { .. } => {},
        Instruction::XRI { .. } => {},
        Instruction::RP => {},
        Instruction::JP { .. } => {},
        Instruction::DI => {},
        Instruction::CP { .. } => {},
        Instruction::ORI { .. } => {},
        Instruction::RM => {},
        Instruction::SPHL => {},
        Instruction::JM { .. } => {},
        Instruction::EI => {},
        Instruction::CM { .. } => {},
        Instruction::CPI { .. } => {},
    }
}

/// `lemma_encoding_injective` for `MOV`.
#[verifier::rlimit(50)]
proof fn lemma_encoding_injective_4(i: Instruction, j: Instruction)
    requires
        i is MOV,
        i.is_legal(),
        j.is_legal(),
        i.opcode() == j.opcode(),
        i.operands() =~= j.operands(),
    ensures
        i == j,
{
    lemma_move_block_opcodes(j);
    if let Instruction::MOV { source: s1, destination: d1 } = i {
        if let Instruction::MOV { source: s2, destination: d2 } = j {
            let (a, b, c, d) = (reg_code(d1), reg_code(s1), reg_code(d2), reg_code(s2));
            assert(0 <= a < 8 && 0 <= b < 8 && 0 <= c < 8 && 0 <= d < 8);
            assert(a == c && b == d) by (nonlinear_arith)
                requires
                    0 <= a < 8,
                    0 <= b < 8,
                    0 <= c < 8,
                    0 <= d < 8,
                    8 * a + b == 8 * c + d,
            ;
        }
    }
}

/// `lemma_encoding_injective` for `HLT`.
#[verifier::rlimit(50)]
proof fn lemma_encoding_injective_5(i: Instruction, j: Instruction)
    requires
        i is HLT,
        i.is_legal(),
        j.is_legal(),
        i.opcode() == j.opcode(),
        i.operands() =~= j.operands(),
    ensures
        i == j,
{
    if i.operands().len() >= 1 {
        assert(i.operands()[0] == j.operands()[0]);
    }
    if i.operands().len() == 2 {
        assert(i.operands()[1] == j.operands()[1]);
    }
}

/// `lemma_encoding_injective` for `ADD`.
#[verifier::rlimit(50)]
proof fn lemma_encoding_injective_6(i: Instruction, j: Instruction)
    requires
        i is ADD,
        i.is_legal(),
        j.is_legal(),
        i.opcode() == j.opcode(),
        i.operands() =~= j.operands(),
    ensures
        i == j,
{
    if i.operands().len() >= 1 {
        assert(i.operands()[0] == j.operands()[0]);
    }
    if i.operands().len() == 2 {
        assert(i.operands()[1] == j.operands()[1]);
    }
}

/// `lemma_encoding_injective` for `ADC`.
#[verifier::rlimit(50)]
proof fn lemma_encoding_injective_7(i: Instruction, j: Instruction)
    requires
        i is ADC,
        i.is_legal(),
        j.is_legal(),
        i.opcode() == j.opcode(),
        i.operands() =~= j.operands(),
    ensures
        i == j,
{
    if i.operands().len() >= 1 {
        assert(i.operands()[0] == j.operands()[0]);
    }
    if i.operands().len() == 2 {
        assert(i.operands()[1] == j.operands()[1]);
    }
}

/// `lemma_encoding_injective` for `SUB`.
#[verifier::rlimit(50)]
proof fn lemma_encoding_injective_8(i: Instruction, j: Instruction)
    requires
        i is SUB,
        i.is_legal(),
        j.is_legal(),
        i.opcode() == j.opcode(),
        i.operands() =~= j.operands(),
    ensures
        i == j,
{
    if i.operands().len() >= 1 {
        assert(i.operands()[0] == j.operands()[0]);
    }
    if i.operands().len() == 2 {
        assert(i.operands()[1] == j.operands()[1]);
    }
}

/// `lemma_encoding_injective` for `SBB`.
#[verifier::rlimit(50)]
proof fn lemma_encoding_injective_9(i: Instruction, j: Instruction)
    requires
        i is SBB,
        i.is_legal(),
        j.is_legal(),
        i.opcode() == j.opcode(),
        i.operands() =~= j.operands(),
    ensures
        i == j,
{
    if i.operands().len() >= 1 {
        assert(i.operands()[0] == j.operands()[0]);
    }
    if i.operands().len() == 2 {
        assert(i.operands()[1] == j.operands()[1]);
    }
}

/// `lemma_encoding_injective` for `ANA`.
#[verifier::rlimit(50)]
proof fn lemma_encoding_injective_10(i: Instruction, j: Instruction)
    requires
        i is ANA,
        i.is_legal(),
        j.is_legal(),
        i.opcode() == j.opcode(),
        i.operands() =~= j.operands(),
    ensures
        i == j,
{
    if i.operands().len() >= 1 {
        assert(i.operands()[0] == j.operands()[0]);
    }
    if i.operands().len() == 2 {
        assert(i.operands()[1] == j.operands()[1]);
    }
}

/// `lemma_encoding_injective` for `XRA`.
#[verifier::rlimit(50)]
proof fn lemma_encoding_injective_11(i: Instruction, j: Instruction)
    requires
        i is XRA,
        i.is_legal(),
        j.is_legal(),
        i.opcode() == j.opcode(),
        i.operands() =~= j.operands(),
    ensures
        i == j,
{
    if i.operands().len() >= 1 {
        assert(i.operands()[0] == j.operands()[0]);
    }
    if i.operands().len() == 2 {
        assert(i.operands()[1] == j.operands()[1]);
    }
}

/// `lemma_encoding_injective` for `ORA`.
#[verifier::rlimit(50)]
proof fn lemma_encoding_injective_12(i: Instruction, j: Instruction)
    requires
        i is ORA,
        i.is_legal(),
        j.is_legal(),
        i.opcode() == j.opcode(),
        i.operands() =~= j.operands(),
    ensures
        i == j,
{
    if i.operands().len() >= 1 {
        assert(i.operands()[0] == j.operands()[0]);
    }
    if i.operands().len() == 2 {
        assert(i.operands()[1] == j.operands()[1]);
    }
}

/// `lemma_encoding_injective` for `CMP`.
#[verifier::rlimit(50)]
proof fn lemma_encoding_injective_13(i: Instruction, j: Instruction)
    requires
        i is CMP,
        i.is_legal(),
        j.is_legal(),
        i.opcode() == j.opcode(),
        i.operands() =~= j.operands(),
    ensures
        i == j,
{
    if i.operands().len() >= 1 {
        assert(i.operands()[0] == j.operands()[0]);
    }
    if i.operands().len() == 2 {
        assert(i.operands()[1] == j.operands()[1]);
    }
}

/// `lemma_encoding_injective` for the variants from `RNZ` to `JMP`.
#[verifier::rlimit(50)]
proof fn lemma_encoding_injective_14(i: Instruction, j: Instruction)
    requires
        i is RNZ || i is POP || i is JNZ || i is JMP,
        i.is_legal(),
        j.is_legal(),
        i.opcode() == j.opcode(),
        i.operands() =~= j.operands(),
    ensures
        i == j,
{
    if i.operands().len() >= 1 {
        assert(i.operands()[0] == j.operands()[0]);
    }
    if i.operands().len() == 2 {
        assert(i.operands()[1] == j.operands()[1]);
    }
    match i {
        Instruction::POP { register } => match register {
            Reg::B => {},
            Reg::D => {},
            Reg::H => {},
            Reg::Psw => {},
            _ => {},
        },
        _ => {},
    }
}

/// `lemma_encoding_injective` for the variants from `CNZ` to `RST`.
#[verifier::rlimit(50)]
proof fn lemma_encoding_injective_15(i: Instruction, j: Instruction)
    requires
        i is CNZ || i is PUSH || i is ADI || i is RST,
        i.is_legal(),
        j.is_legal(),
        i.opcode() == j.opcode(),
        i.operands() =~= j.operands(),
    ensures
        i == j,
{
    if i.operands().len() >= 1 {
        assert(i.operands()[0] == j.operands()[0]);
    }
    if i.operands().len() == 2 {
        assert(i.operands()[1] == j.operands()[1]);
    }
    match i {
        Instruction::PUSH { register } => match register {
            Reg::B => {},
            Reg::D => {},
            Reg::H => {},
            Reg::SP => {},
            Reg::Psw => {},
            _ => {},
        },
        Instruction::RST { data } => {
            if data == 0 {
            } else if data == 1 {
            } else if data == 2 {
            } else if data == 3 {
            } else if data == 4 {
            } else if data == 5 {
            } else if data == 6 {
            } else {
            }
        },
        _ => {},
    }
}

/// `lemma_encoding_injective` for the variants from `RZ` to `CNC`.
#[verifier::rlimit(50)]
proof fn lemma_encoding_injective_16(i: Instruction, j: Instruction)
    requires
        i is RZ || i is RET || i is JZ || i is CZ || i is CALL || i is ACI || i is RNC || i is JNC
            || i is OUT || i is CNC,
        i.is_legal(),
        j.is_legal(),
        i.opcode() == j.opcode(),
        i.operands() =~= j.operands(),
    ensures
        i == j,
{
    if i.operands().len() >= 1 {
        assert(i.operands()[0] == j.operands()[0]);
    }
    if i.operands().len() == 2 {
        assert(i.operands()[1] == j.operands()[1]);
    }
    match i {
        Instruction::RZ => {},
        Instruction::RET => {},
        Instruction::JZ { .. } => {},
        Instruction::CZ { .. } => {},
        Instruction::CALL { .. } => {},
        Instruction::ACI { .. } => {},
        Instruction::RNC => {},
        Instruction::JNC { .. } => {},
        Instruction::OUT { .. } => {},
        Instruction::CNC { .. } => {},
        _ => {},
    }
}

/// `lemma_encoding_injective` for the variants from `SUI` to `CPO`.
#[verifier::rlimit(50)]
proof fn lemma_encoding_injective_17(i: Instruction, j: Instruction)
    requires
        i is SUI || i is RC || i is JC || i is IN || i is CC || i is SBI || i is RPO || i is JPO
            || i is XTHL || i is CPO,
        i.is_legal(),
        j.is_legal(),
        i.opcode() == j.opcode(),
        i.operands() =~= j.operands(),
    ensures
        i == j,
{
    if i.operands().len() >= 1 {
        assert(i.operands()[0] == j.operands()[0]);
    }
    if i.operands().len() == 2 {
        assert(i.operands()[1] == j.operands()[1]);
    }
    match i {
        Instruction::SUI { .. } => {},
        Instruction::RC => {},
        Instruction::JC { .. } => {},
        Instruction::IN { .. } => {},
        Instruction::CC { .. } => {},
        Instruction::SBI { .. } => {},
        Instruction::RPO => {},
        Instruction::JPO { .. } => {},
        Instruction::XTHL => {},
        Instruction::CPO { .. } => {},
        _ => {},
    }
}

/// `lemma_encoding_injective` for the variants from `ANI` to `DI`.
#[verifier::rlimit(50)]
proof fn lemma_encoding_injective_18(i: Instruction, j: Instruction)
    requires
        i is ANI || i is RPE || i is PCHL || i is JPE || i is XCHG || i is CPE || i is XRI
            || i is RP || i is JP || i is DI,
        i.is_legal(),
        j.is_legal(),
        i.opcode() == j.opcode(),
        i.operands() =~= j.operands(),
    ensures
        i == j,
{
    if i.operands().len() >= 1 {
        assert(i.operands()[0] == j.operands()[0]);
    }
    if i.operands().len() == 2 {
        assert(i.operands()[1] == j.operands()[1]);
    }
    match i {
        Instruction::ANI { .. } => {},
        Instruction::RPE => {},
        Instruction::PCHL => {},
        Instruction::JPE { .. } => {},
        Instruction::XCHG => {},
        Instruction::CPE { .. } => {},
        Instruction::XRI { .. } => {},
        Instruction::RP => {},
        Instruction::JP { .. } => {},
        Instruction::DI => {},
        _ => {},
    }
}

/// `lemma_encoding_injective` for the variants from `CP` to `CPI`.
#[verifier::rlimit(50)]
proof fn lemma_encoding_injective_19(i: Instruction, j: Instruction)
    requires
        i is CP || i is ORI || i is RM || i is SPHL || i is JM || i is EI || i is CM || i is CPI,
        i.is_legal(),
        j.is_legal(),
        i.opcode() == j.opcode(),
        i.operands() =~= j.operands(),
    ensures
        i == j,
{
    if i.operands().len() >= 1 {
        assert(i.operands()[0] == j.operands()[0]);
    }
    if i.operands().len() == 2 {
        assert(i.operands()[1] == j.operands()[1]);
    }
    match i {
        Instruction::CP { .. } => {},
        Instruction::ORI { .. } => {},
        Instruction::RM => {},
        Instruction::SPHL => {},
        Instruction::JM { .. } => {},
        Instruction::EI => {},
        Instruction::CM { .. } => {},
        Instruction::CPI { .. } => {},
        _ => {},
    }
}

/// Two legal instructions with the same opcode and operand bytes are the
/// same instruction: the encoding is injective.
pub proof fn lemma_encoding_injective(i: Instruction, j: Instruction)
    requires
        i.is_legal(),
        j.is_legal(),
        i.encoding() == j.encoding(),
    ensures
        i == j,
{
    assert(i.opcode() as u8 == i.encoding()[0] && j.opcode() as u8 == j.encoding()[0]);
    lemma_legal_opcode(i);
    lemma_legal_opcode(j);
    assert(i.operands() =~= i.encoding().subrange(1, i.encoding().len() as int));
    assert(j.operands() =~= j.encoding().subrange(1, j.encoding().len() as int));
    if i is NoOp || i is LXI || i is STAX || i is INX || i is INR || i is DCR || i is MVI || i is RLC
        || i is DAD || i is LDAX {
        lemma_encoding_injective_0(i, j);
    } else if i is DCX || i is RRC || i is RAL || i is RAR {
        lemma_encoding_injective_1(i, j);
    } else if i is SHLD || i is DAA || i is LHLD || i is CMA {
        lemma_encoding_injective_2(i, j);
    } else if i is STA || i is STC || i is LDA || i is CMC {
        lemma_encoding_injective_3(i, j);
    } else if i is MOV {
        lemma_encoding_injective_4(i, j);
    } else if i is HLT {
        lemma_encoding_injective_5(i, j);
    } else if i is ADD {
        lemma_encoding_injective_6(i, j);
    } else if i is ADC {
        lemma_encoding_injective_7(i, j);
    } else if i is SUB {
        lemma_encoding_injective_8(i, j);
    } else if i is SBB {
        lemma_encoding_injective_9(i, j);
    } else if i is ANA {
        lemma_encoding_injective_10(i, j);
    } else if i is XRA {
        lemma_encoding_injective_11(i, j);
    } else if i is ORA {
        lemma_encoding_injective_12(i, j);
    } else if i is CMP {
        lemma_encoding_injective_13(i, j);
    } else if i is RNZ || i is POP || i is JNZ || i is JMP {
        lemma_encoding_injective_14(i, j);
    } else if i is CNZ || i is PUSH || i is ADI || i is RST {
        lemma_encoding_injective_15(i, j);
    } else if i is RZ || i is RET || i is JZ || i is CZ || i is CALL || i is ACI || i is RNC || i is JNC
        || i is OUT || i is CNC {
        lemma_encoding_injective_16(i, j);
    } else if i is SUI || i is RC || i is JC || i is IN || i is CC || i is SBI || i is RPO || i is JPO
        || i is XTHL || i is CPO {
        lemma_encoding_injective_17(i, j);
    } else if i is ANI || i is RPE || i is PCHL || i is JPE || i is XCHG || i is CPE || i is XRI || i is RP
        || i is JP || i is DI {
        lemma_encoding_injective_18(i, j);
    } else {
        lemma_encoding_injective_19(i, j);
    }
}

/// Decoding inverts encoding: the encoding of a legal instruction,
/// followed by any bytes, decodes to that instruction.
pub proof fn lemma_decode_encoding(i: Instruction, rest: Seq<u8>)
    requires
        i.is_legal(),
    ensures
        decoded(i.encoding() + rest) == Some(i),
{
    let s = i.encoding() + rest;
    assert(i.encoding() =~= s.subrange(0, i.encoding().len() as int));
    let c = choose|c: Instruction| #[trigger] c.is_legal() && c.encoding().is_prefix_of(s);
    lemma_legal_opcode(c);
    lemma_legal_opcode(i);
    assert(c.encoding()[0] == i.encoding()[0]);
    assert(c.encoding() =~= i.encoding());
    lemma_encoding_injective(c, i);
}

impl Instruction {
    /// Decodes the instruction at the start of `bytes`; `None` when the
    /// opcode is undefined or the bytes end before its operands do.
    pub fn decode(bytes: &[u8]) -> (r: Option<Instruction>)
        ensures
            r == decoded(bytes@),
            r is None <==> undecodable(bytes@),
    {
        let r = Self::decode_at(bytes, 0);
        assert(bytes@.subrange(0, bytes@.len() as int) == bytes@);
        r
    }

    /// Decodes the instruction that starts at `bytes[start]`.
    pub fn decode_at(bytes: &[u8], start: usize) -> (r: Option<Instruction>)
        requires
            start <= bytes@.len(),
        ensures
            r == decoded(bytes@.subrange(start as int, bytes@.len() as int)),
            r is None <==> undecodable(bytes@.subrange(start as int, bytes@.len() as int)),
    {
        let ghost s = bytes@.subrange(start as int, bytes@.len() as int);
        if start == bytes.len() {
            proof {
                assert forall|i: Instruction| #[trigger] i.is_legal() implies !i.encoding().is_prefix_of(
                    s,
                ) by {
                    assert(i.encoding().len() >= 1);
                }
            }
            return None;
        }
        let op = bytes[start];
        let size = opcode_length(op);
        if !is_defined_opcode(op) || bytes.len() - start < size as usize {
            proof {
                assert forall|i: Instruction| #[trigger] i.is_legal() implies !i.encoding().is_prefix_of(
                    s,
                ) by {
                    lemma_legal_opcode(i);
                    if i.encoding().is_prefix_of(s) {
                        assert(i.encoding()[0] == s[0]);
                    }
                }
            }
            return None;
        }
        let b1 = if size >= 2 { bytes[start + 1] } else { 0 };
        let b2 = if size == 3 { bytes[start + 2] } else { 0 };
        let i = match op / 16 {
            0x0 => decode_row_0(op, b1, b2),
            0x1 => decode_row_1(op, b1, b2),
            0x2 => decode_row_2(op, b1, b2),
            0x3 => decode_row_3(op, b1, b2),
            0x4..=0x7 => decode_move_block(op),
            0x8..=0xB => decode_alu_block(op),
            0xC => decode_row_c(op, b1, b2),
            0xD => decode_row_d(op, b1, b2),
            0xE => decode_row_e(op, b1, b2),
            _ => decode_row_f(op, b1, b2),
        };
        proof {
            assert(i.encoding() =~= s.subrange(0, size as int));
            assert(s =~= i.encoding() + s.subrange(size as int, s.len() as int));
            lemma_decode_encoding(i, s.subrange(size as int, s.len() as int));
        }
        Some(i)
    }

    /// Whether the operands are ones the instruction accepts.
    pub fn has_legal_operands(&self) -> (r: bool)
        ensures
            r == self.is_legal(),
    {
        match *self {
            Instruction::LXI { register, .. } | Instruction::INX { register }
            | Instruction::DCX { register } | Instruction::DAD { register } => register == Reg::B
                || register == Reg::D || register == Reg::H || register == Reg::SP,
            Instruction::STAX { register } | Instruction::LDAX { register } => register == Reg::B
                || register == Reg::D,
            Instruction::PUSH { register } | Instruction::POP { register } => register == Reg::B
                || register == Reg::D || register == Reg::H || register == Reg::Psw,
            Instruction::INR { register } | Instruction::DCR { register } | Instruction::MVI {
                register,
                ..
            } | Instruction::ADD { register } | Instruction::ADC { register }
            | Instruction::SUB { register } | Instruction::SBB { register }
            | Instruction::ANA { register } | Instruction::XRA { register }
            | Instruction::ORA { register } | Instruction::CMP { register } => register != Reg::SP
                && register != Reg::Psw,
            Instruction::MOV { source, destination } => source != Reg::SP && source != Reg::Psw
                && destination != Reg::SP && destination != Reg::Psw && !(source == Reg::M
                && destination == Reg::M),
            Instruction::RST { data } => data < 8,
            _ => true,
        }
    }

    /// Encoded length in bytes: 1, 2 or 3.
    pub fn op_bytes(&self) -> (r: u8)
        ensures
            r == self.size(),
    {
        match self {
            Instruction::LXI { .. } | Instruction::SHLD { .. } | Instruction::LHLD { .. }
            | Instruction::STA { .. } | Instruction::LDA { .. } | Instruction::JNZ { .. }
            | Instruction::JMP { .. } | Instruction::CNZ { .. } | Instruction::JZ { .. }
            | Instruction::CZ { .. } | Instruction::CALL { .. } | Instruction::JNC { .. }
            | Instruction::CNC { .. } | Instruction::JC { .. } | Instruction::CC { .. }
            | Instruction::JPO { .. } | Instruction::CPO { .. } | Instruction::JPE { .. }
            | Instruction::CPE { .. } | Instruction::JP { .. } | Instruction::CP { .. }
            | Instruction::JM { .. } | Instruction::CM { .. } => 3,
            Instruction::MVI { .. } | Instruction::ADI { .. } | Instruction::ACI { .. }
            | Instruction::SUI { .. } | Instruction::SBI { .. } | Instruction::ANI { .. }
            | Instruction::XRI { .. } | Instruction::ORI { .. } | Instruction::CPI { .. }
            | Instruction::OUT { .. } | Instruction::IN { .. } => 2,
            _ => 1,
        }
    }
}

/// Whether the 8080 defines `op`.
fn is_defined_opcode(op: u8) -> (r: bool)
    ensures
        r == opcode_defined(op),
{
    !(op == 0x08 || op == 0x10 || op == 0x18 || op == 0x20 || op == 0x28 || op == 0x30 || op
        == 0x38 || op == 0xCB || op == 0xD9 || op == 0xDD || op == 0xED || op == 0xFD)
}

/// Encoded length of the instruction that `op` starts.
fn opcode_length(op: u8) -> (r: u8)
    ensures
        r == opcode_size(op),
{
    if op == 0x01 || op == 0x11 || op == 0x21 || op == 0x31 || op == 0x22 || op == 0x2A || op
        == 0x32 || op == 0x3A || op == 0xC3 || op == 0xCD || (op >= 0xC0 && (op % 8 == 2 || op
        % 8 == 4)) {
        3
    } else if (op < 0x40 && op % 8 == 6) || (op >= 0xC0 && op % 8 == 6) || op == 0xD3 || op
        == 0xDB {
        2
    } else {
        1
    }
}

} // verus!
