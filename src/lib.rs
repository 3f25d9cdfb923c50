//! An Intel 8080 instruction-set core: decoder, executor and flag logic.
mod cpu;
mod disassembly;
mod flags;
mod instruction;
mod laws;
mod machine;
mod mnemonic;
mod parity;

pub use cpu::{is_register8, state_text, Cpu, Error, MEMORY_SIZE};
pub use disassembly::{advance, disassemble, entries_from, line_text};
pub use flags::{flags_of_psw, lemma_psw_round_trip, psw_of, ConditionCodes};
pub use instruction::{
    decoded, lemma_decode_encoding, lemma_encoding_injective, lemma_legal_opcode, opcode_defined,
    opcode_size, undecodable, Instruction, Reg,
};
pub use laws::{lemma_call_return, lemma_jump, lemma_pair_round_trip, lemma_push_pop};
pub use machine::{code_at_pc, execute, interrupt, run, step, wf, CpuView};
pub use mnemonic::{instruction_text, name_text, operand_text};
pub use parity::{even_ones, ones, parity_impl, Parity};
