//! Mnemonic text of instructions, with operands in hexadecimal.
use vstd::prelude::*;
use vstd::string::StringExecFns;
use crate::instruction::{Instruction, Reg};

verus! {

/// The sixteen hexadecimal digits, lower case.
pub open spec fn hex_digits() -> Seq<char> {
    seq!['0', '1', '2', '3', '4', '5', '6', '7', '8', '9', 'a', 'b', 'c', 'd', 'e', 'f']
}

/// A byte as `0x` and two digits.
pub open spec fn hex8_text(v: u8) -> Seq<char> {
    seq!['0', 'x', hex_digits()[(v / 16) as int], hex_digits()[(v % 16) as int]]
}

/// A 16-bit value as `0x` and four digits.
pub open spec fn hex16_text(v: u16) -> Seq<char> {
    seq![
        '0',
        'x',
        hex_digits()[(v / 4096) as int],
        hex_digits()[((v / 256) % 16) as int],
        hex_digits()[((v / 16) % 16) as int],
        hex_digits()[(v % 16) as int],
    ]
}

/// The name of a register operand.
pub open spec fn reg_text(r: Reg) -> Seq<char> {
    match r {
        Reg::A => "A"@,
        Reg::B => "B"@,
        Reg::C => "C"@,
        Reg::D => "D"@,
        Reg::E => "E"@,
        Reg::H => "H"@,
        Reg::L => "L"@,
        Reg::SP => "SP"@,
        Reg::M => "M"@,
        Reg::Psw => "PSW"@,
    }
}

/// The mnemonic of an instruction, without operands.
pub open spec fn name_text(i: Instruction) -> Seq<char> {
    match i {
        Instruction::NoOp => "NOP"@,
        Instruction::LXI { .. } => "LXI"@,
        Instruction::STAX { .. } => "STAX"@,
        Instruction::INX { .. } => "INX"@,
        Instruction::INR { .. } => "INR"@,
        Instruction::DCR { .. } => "DCR"@,
        Instruction::MVI { .. } => "MVI"@,
        Instruction::RLC => "RLC"@,
        Instruction::DAD { .. } => "DAD"@,
        Instruction::LDAX { .. } => "LDAX"@,
        Instruction::DCX { .. } => "DCX"@,
        Instruction::RRC => "RRC"@,
        Instruction::RAL => "RAL"@,
        Instruction::RAR => "RAR"@,
        Instruction::SHLD { .. } => "SHLD"@,
        Instruction::DAA => "DAA"@,
        Instruction::LHLD { .. } => "LHLD"@,
        Instruction::CMA => "CMA"@,
        Instruction::STA { .. } => "STA"@,
        Instruction::STC => "STC"@,
        Instruction::LDA { .. } => "LDA"@,
        Instruction::CMC => "CMC"@,
        Instruction::MOV { .. } => "MOV"@,
        Instruction::HLT => "HLT"@,
        Instruction::ADD { .. } => "ADD"@,
        Instruction::ADC { .. } => "ADC"@,
        Instruction::SUB { .. } => "SUB"@,
        Instruction::SBB { .. } => "SBB"@,
        Instruction::ANA { .. } => "ANA"@,
        Instruction::XRA { .. } => "XRA"@,
        Instruction::ORA { .. } => "ORA"@,
        Instruction::CMP { .. } => "CMP"@,
        Instruction::RNZ => "RNZ"@,
        Instruction::POP { .. } => "POP"@,
        Instruction::JNZ { .. } => "JNZ"@,
        Instruction::JMP { .. } => "JMP"@,
        Instruction::CNZ { .. } => "CNZ"@,
        Instruction::PUSH { .. } => "PUSH"@,
        Instruction::ADI { .. } => "ADI"@,
        Instruction::RST { .. } => "RST"@,
        Instruction::RZ => "RZ"@,
        Instruction::RET => "RET"@,
        Instruction::JZ { .. } => "JZ"@,
        Instruction::CZ { .. } => "CZ"@,
        Instruction::CALL { .. } => "CALL"@,
        Instruction::ACI { .. } => "ACI"@,
        Instruction::RNC => "RNC"@,
        Instruction::JNC { .. } => "JNC"@,
        Instruction::OUT { .. } => "OUT"@,
        Instruction::CNC { .. } => "CNC"@,
        Instruction::SUI { .. } => "SUI"@,
        Instruction::RC => "RC"@,
        Instruction::JC { .. } => "JC"@,
        Instruction::IN { .. } => "IN"@,
        Instruction::CC { .. } => "CC"@,
        Instruction::SBI { .. } => "SBI"@,
        Instruction::RPO => "RPO"@,
        Instruction::JPO { .. } => "JPO"@,
        Instruction::XTHL => "XTHL"@,
        Instruction::CPO { .. } => "CPO"@,
        Instruction::ANI { .. } => "ANI"@,
        Instruction::RPE => "RPE"@,
        Instruction::PCHL => "PCHL"@,
        Instruction::JPE { .. } => "JPE"@,
        Instruction::XCHG => "XCHG"@,
        Instruction::CPE { .. } => "CPE"@,
        Instruction::XRI { .. } => "XRI"@,
        Instruction::RP => "RP"@,
        Instruction::JP { .. } => "JP"@,
        Instruction::DI => "DI"@,
        Instruction::CP { .. } => "CP"@,
        Instruction::ORI { .. } => "ORI"@,
        Instruction::RM => "RM"@,
        Instruction::SPHL => "SPHL"@,
        Instruction::JM { .. } => "JM"@,
        Instruction::EI => "EI"@,
        Instruction::CM { .. } => "CM"@,
        Instruction::CPI { .. } => "CPI"@,
    }
}

/// The operands as they follow the mnemonic: a space, then the
/// destination before the source, immediates and addresses in hex.
pub open spec fn operand_text(i: Instruction) -> Seq<char> {
    match i {
        Instruction::LXI { register, value } => seq![' '] + reg_text(register) + seq![',', ' '] + hex16_text(
            value,
        ),
        Instruction::MVI { register, value } => seq![' '] + reg_text(register) + seq![',', ' '] + hex8_text(
            value,
        ),
        Instruction::MOV { source, destination } => seq![' '] + reg_text(destination) + seq![',', ' ']
            + reg_text(source),
        Instruction::STAX { register }
        | Instruction::INX { register }
        | Instruction::INR { register }
        | Instruction::DCR { register }
        | Instruction::DAD { register }
        | Instruction::LDAX { register }
        | Instruction::DCX { register }
        | Instruction::ADD { register }
        | Instruction::ADC { register }
        | Instruction::SUB { register }
        | Instruction::SBB { register }
        | Instruction::ANA { register }
        | Instruction::XRA { register }
        | Instruction::ORA { register }
        | Instruction::CMP { register }
        | Instruction::POP { register }
        | Instruction::PUSH { register } => seq![' '] + reg_text(register),
        Instruction::SHLD { address }
        | Instruction::LHLD { address }
        | Instruction::STA { address }
        | Instruction::LDA { address }
        | Instruction::JNZ { address }
        | Instruction::JMP { address }
        | Instruction::CNZ { address }
        | Instruction::JZ { address }
        | Instruction::CZ { address }
        | Instruction::CALL { address }
        | Instruction::JNC { address }
        | Instruction::CNC { address }
        | Instruction::JC { address }
        | Instruction::CC { address }
        | Instruction::JPO { address }
        | Instruction::CPO { address }
        | Instruction::JPE { address }
        | Instruction::CPE { address }
        | Instruction::JP { address }
        | Instruction::CP { address }
        | Instruction::JM { address }
        | Instruction::CM { address } => seq![' '] + hex16_text(address),
        Instruction::ADI { data }
        | Instruction::RST { data }
        | Instruction::ACI { data }
        | Instruction::OUT { data }
        | Instruction::SUI { data }
        | Instruction::IN { data }
        | Instruction::SBI { data }
        | Instruction::ANI { data }
        | Instruction::XRI { data }
        | Instruction::ORI { data }
        | Instruction::CPI { data } => seq![' '] + hex8_text(data),
        _ => Seq::empty(),
    }
}

/// The printable form of an instruction, such as `MVI B, 0x12`.
pub open spec fn instruction_text(i: Instruction) -> Seq<char> {
    name_text(i) + operand_text(i)
}

/// One hexadecimal digit.
fn hex_digit(n: u8) -> (r: &'static str)
    requires
        n < 16,
    ensures
        r@ == seq![hex_digits()[n as int]],
{
    proof {
        reveal_strlit("0");
        reveal_strlit("1");
        reveal_strlit("2");
        reveal_strlit("3");
        reveal_strlit("4");
        reveal_strlit("5");
        reveal_strlit("6");
        reveal_strlit("7");
        reveal_strlit("8");
        reveal_strlit("9");
        reveal_strlit("a");
        reveal_strlit("b");
        reveal_strlit("c");
        reveal_strlit("d");
        reveal_strlit("e");
        reveal_strlit("f");
    }
    match n {
        0 => "0",
        1 => "1",
        2 => "2",
        3 => "3",
        4 => "4",
        5 => "5",
        6 => "6",
        7 => "7",
        8 => "8",
        9 => "9",
        10 => "a",
        11 => "b",
        12 => "c",
        13 => "d",
        14 => "e",
        _ => "f",
    }
}

pub(crate) fn append_hex8(text: &mut String, v: u8)
    ensures
        final(text)@ == old(text)@ + hex8_text(v),
{
    proof {
        reveal_strlit("0x");
    }
    let ghost before = text@;
    text.append("0x");
    text.append(hex_digit(v / 16));
    text.append(hex_digit(v % 16));
    assert(text@ =~= before + hex8_text(v));
}

pub(crate) fn append_hex16(text: &mut String, v: u16)
    ensures
        final(text)@ == old(text)@ + hex16_text(v),
{
    proof {
        reveal_strlit("0x");
    }
    let ghost before = text@;
    text.append("0x");
    text.append(hex_digit((v / 4096) as u8));
    text.append(hex_digit(((v / 256) % 16) as u8));
    text.append(hex_digit(((v / 16) % 16) as u8));
    text.append(hex_digit((v % 16) as u8));
    assert(text@ =~= before + hex16_text(v));
}

fn register_name(r: Reg) -> (t: &'static str)
    ensures
        t@ == reg_text(r),
{
    match r {
        Reg::A => "A",
        Reg::B => "B",
        Reg::C => "C",
        Reg::D => "D",
        Reg::E => "E",
        Reg::H => "H",
        Reg::L => "L",
        Reg::SP => "SP",
        Reg::M => "M",
        Reg::Psw => "PSW",
    }
}

fn append_register(text: &mut String, r: Reg)
    ensures
        final(text)@ == old(text)@ + reg_text(r),
{
    text.append(register_name(r));
}

impl Instruction {
    /// The mnemonic, without operands.
    pub fn name(&self) -> (r: &'static str)
        ensures
            r@ == name_text(*self),
    {
        match *self {
            Instruction::NoOp => "NOP",
            Instruction::LXI { .. } => "LXI",
            Instruction::STAX { .. } => "STAX",
            Instruction::INX { .. } => "INX",
            Instruction::INR { .. } => "INR",
            Instruction::DCR { .. } => "DCR",
            Instruction::MVI { .. } => "MVI",
            Instruction::RLC => "RLC",
            Instruction::DAD { .. } => "DAD",
            Instruction::LDAX { .. } => "LDAX",
            Instruction::DCX { .. } => "DCX",
            Instruction::RRC => "RRC",
            Instruction::RAL => "RAL",
            Instruction::RAR => "RAR",
            Instruction::SHLD { .. } => "SHLD",
            Instruction::DAA => "DAA",
            Instruction::LHLD { .. } => "LHLD",
            Instruction::CMA => "CMA",
            Instruction::STA { .. } => "STA",
            Instruction::STC => "STC",
            Instruction::LDA { .. } => "LDA",
            Instruction::CMC => "CMC",
            Instruction::MOV { .. } => "MOV",
            Instruction::HLT => "HLT",
            Instruction::ADD { .. } => "ADD",
            Instruction::ADC { .. } => "ADC",
            Instruction::SUB { .. } => "SUB",
            Instruction::SBB { .. } => "SBB",
            Instruction::ANA { .. } => "ANA",
            Instruction::XRA { .. } => "XRA",
            Instruction::ORA { .. } => "ORA",
            Instruction::CMP { .. } => "CMP",
            Instruction::RNZ => "RNZ",
            Instruction::POP { .. } => "POP",
            Instruction::JNZ { .. } => "JNZ",
            Instruction::JMP { .. } => "JMP",
            Instruction::CNZ { .. } => "CNZ",
            Instruction::PUSH { .. } => "PUSH",
            Instruction::ADI { .. } => "ADI",
            Instruction::RST { .. } => "RST",
            Instruction::RZ => "RZ",
            Instruction::RET => "RET",
            Instruction::JZ { .. } => "JZ",
            Instruction::CZ { .. } => "CZ",
            Instruction::CALL { .. } => "CALL",
            Instruction::ACI { .. } => "ACI",
            Instruction::RNC => "RNC",
            Instruction::JNC { .. } => "JNC",
            Instruction::OUT { .. } => "OUT",
            Instruction::CNC { .. } => "CNC",
            Instruction::SUI { .. } => "SUI",
            Instruction::RC => "RC",
            Instruction::JC { .. } => "JC",
            Instruction::IN { .. } => "IN",
            Instruction::CC { .. } => "CC",
            Instruction::SBI { .. } => "SBI",
            Instruction::RPO => "RPO",
            Instruction::JPO { .. } => "JPO",
            Instruction::XTHL => "XTHL",
            Instruction::CPO { .. } => "CPO",
            Instruction::ANI { .. } => "ANI",
            Instruction::RPE => "RPE",
            Instruction::PCHL => "PCHL",
            Instruction::JPE { .. } => "JPE",
            Instruction::XCHG => "XCHG",
            Instruction::CPE { .. } => "CPE",
            Instruction::XRI { .. } => "XRI",
            Instruction::RP => "RP",
            Instruction::JP { .. } => "JP",
            Instruction::DI => "DI",
            Instruction::CP { .. } => "CP",
            Instruction::ORI { .. } => "ORI",
            Instruction::RM => "RM",
            Instruction::SPHL => "SPHL",
            Instruction::JM { .. } => "JM",
            Instruction::EI => "EI",
            Instruction::CM { .. } => "CM",
            Instruction::CPI { .. } => "CPI",
        }
    }

    /// The printable form, such as `MVI B, 0x12` or `JMP 0x1234`.
    pub fn mnemonic(&self) -> (r: String)
        ensures
            r@ == instruction_text(*self),
    {
        proof {
            reveal_strlit(" ");
            reveal_strlit(", ");
        }
        let mut text = String::from_str(self.name());
        match *self {
            Instruction::LXI { register, value } => {
                text.append(" ");
                append_register(&mut text, register);
                text.append(", ");
                append_hex16(&mut text, value);
            },
            Instruction::MVI { register, value } => {
                text.append(" ");
                append_register(&mut text, register);
                text.append(", ");
                append_hex8(&mut text, value);
            },
            Instruction::MOV { source, destination } => {
                text.append(" ");
                append_register(&mut text, destination);
                text.append(", ");
                append_register(&mut text, source);
            },
            Instruction::STAX { register }
            | Instruction::INX { register }
            | Instruction::INR { register }
            | Instruction::DCR { register }
            | Instruction::DAD { register }
            | Instruction::LDAX { register }
            | Instruction::DCX { register }
            | Instruction::ADD { register }
            | Instruction::ADC { register }
            | Instruction::SUB { register }
            | Instruction::SBB { register }
            | Instruction::ANA { register }
            | Instruction::XRA { register }
            | Instruction::ORA { register }
            | Instruction::CMP { register }
            | Instruction::POP { register }
            | Instruction::PUSH { register } => {
                text.append(" ");
                append_register(&mut text, register);
            },
            Instruction::SHLD { address }
            | Instruction::LHLD { address }
            | Instruction::STA { address }
            | Instruction::LDA { address }
            | Instruction::JNZ { address }
            | Instruction::JMP { address }
            | Instruction::CNZ { address }
            | Instruction::JZ { address }
            | Instruction::CZ { address }
            | Instruction::CALL { address }
            | Instruction::JNC { address }
            | Instruction::CNC { address }
            | Instruction::JC { address }
            | Instruction::CC { address }
            | Instruction::JPO { address }
            | Instruction::CPO { address }
            | Instruction::JPE { address }
            | Instruction::CPE { address }
            | Instruction::JP { address }
            | Instruction::CP { address }
            | Instruction::JM { address }
            | Instruction::CM { address } => {
                text.append(" ");
                append_hex16(&mut text, address);
            },
            Instruction::ADI { data }
            | Instruction::RST { data }
            | Instruction::ACI { data }
            | Instruction::OUT { data }
            | Instruction::SUI { data }
            | Instruction::IN { data }
            | Instruction::SBI { data }
            | Instruction::ANI { data }
            | Instruction::XRI { data }
            | Instruction::ORI { data }
            | Instruction::CPI { data } => {
                text.append(" ");
                append_hex8(&mut text, data);
            },
            _ => {},
        }
        assert(text@ =~= instruction_text(*self));
        text
    }
}

} // verus!
