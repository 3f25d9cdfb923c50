//! Disassembly listings of machine code.
use vstd::prelude::*;
use vstd::string::StringExecFns;
use crate::instruction::{decoded, Instruction};
use crate::mnemonic::{append_hex16, hex16_text, instruction_text};

verus! {

/// How far a listing moves past an entry: the instruction's length, or one
/// byte where nothing decodes.
pub open spec fn advance(r: Option<Instruction>) -> nat {
    match r {
        Some(i) => i.size(),
        None => 1,
    }
}

/// The entries of a listing of `bin` from position `pos` on: each position
/// with what decodes there.
pub open spec fn entries_from(bin: Seq<u8>, pos: int) -> Seq<(int, Option<Instruction>)>
    decreases bin.len() - pos,
    when pos >= 0
    via entries_from_decreases
{
    if pos >= bin.len() {
        Seq::empty()
    } else {
        let r = decoded(bin.subrange(pos, bin.len() as int));
        seq![(pos, r)] + entries_from(bin, pos + advance(r))
    }
}

#[via_fn]
proof fn entries_from_decreases(bin: Seq<u8>, pos: int) {
    let r = decoded(bin.subrange(pos, bin.len() as int));
    if let Some(i) = r {
        assert(i.size() >= 1);
    }
}

/// One line of a listing: the position in hex, a space, and the
/// instruction, or `NOP` where nothing decodes.
pub open spec fn line_text(pos: int, r: Option<Instruction>) -> Seq<char> {
    hex16_text(pos as u16) + seq![' '] + match r {
        Some(i) => instruction_text(i),
        None => seq!['N', 'O', 'P'],
    }
}

/// Lists `bin` from address 0: one line per instruction, with its
/// address; a byte that starts no instruction is listed as `NOP`.
pub fn disassemble(bin: &[u8]) -> (lines: Vec<String>)
    requires
        bin@.len() <= 65536,
    ensures
        lines@.len() == entries_from(bin@, 0).len(),
        forall|k: int|
            0 <= k < lines@.len() ==> #[trigger] lines@[k]@ == line_text(
                entries_from(bin@, 0)[k].0,
                entries_from(bin@, 0)[k].1,
            ),
{
    let ghost all = entries_from(bin@, 0);
    let mut lines: Vec<String> = Vec::new();
    let mut position: usize = 0;
    while position < bin.len()
        invariant
            bin@.len() <= 65536,
            position <= bin@.len() + 2,
            all == entries_from(bin@, 0),
            lines@.len() + entries_from(bin@, position as int).len() == all.len(),
            forall|k: int|
                0 <= k < lines@.len() ==> #[trigger] lines@[k]@ == line_text(all[k].0, all[k].1),
            forall|k: int|
                0 <= k < entries_from(bin@, position as int).len() ==> all[lines@.len() + k]
                    == #[trigger] entries_from(bin@, position as int)[k],
        decreases bin@.len() - position,
    {
        let r = Instruction::decode_at(bin, position);
        let ghost rest = entries_from(bin@, position as int);
        assert(rest == seq![(position as int, r)] + entries_from(bin@, position + advance(r)));
        assert(all[lines@.len() as int] == rest[0]);
        let mut line = String::new();
        append_hex16(&mut line, position as u16);
        proof {
            reveal_strlit(" ");
            reveal_strlit("NOP");
        }
        line.append(" ");
        let step: usize = match r {
            Some(i) => {
                let text = i.mnemonic();
                line.append(text.as_str());
                i.op_bytes() as usize
            },
            None => {
                line.append("NOP");
                1
            },
        };
        assert(line@ =~= line_text(position as int, r));
        lines.push(line);
        proof {
            assert forall|k: int|
                0 <= k < entries_from(bin@, position + step).len() implies all[lines@.len() + k]
                == #[trigger] entries_from(bin@, position + step)[k] by {
                assert(rest[k + 1] == entries_from(bin@, position + step)[k]);
            }
        }
        position = position + step;
    }
    proof {
        assert(entries_from(bin@, position as int).len() == 0);
    }
    lines
}

} // verus!
