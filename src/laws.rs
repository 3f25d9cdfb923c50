//! Laws that relate several instructions or operations.
use vstd::prelude::*;
use crate::instruction::{decoded, Instruction, Reg};
use crate::machine::{code_at_pc, high, low, run, step, wf, wrap16, CpuView};

verus! {

/// Writing a register pair and reading it back gives the value written;
/// the first-named register holds its high byte and the second its low
/// byte.
pub proof fn lemma_pair_round_trip(s: CpuView, rp: Reg, v: u16)
    requires
        rp is B || rp is D || rp is H,
    ensures
        s.set_pair(rp, v).pair(rp) == v,
        rp is B ==> s.set_pair(rp, v).b == v / 256 && s.set_pair(rp, v).c == v % 256,
        rp is D ==> s.set_pair(rp, v).d == v / 256 && s.set_pair(rp, v).e == v % 256,
        rp is H ==> s.set_pair(rp, v).h == v / 256 && s.set_pair(rp, v).l == v % 256,
{
}

/// Reading two bytes that were just pushed gives the pushed value back.
proof fn lemma_push_then_top(s: CpuView, v: u16)
    requires
        wf(s),
    ensures
        s.push(v).top() == v,
        s.push(v).drop2().sp == s.sp,
        s.push(v).byte_at(s.push(v).sp as int) == low(v),
        s.push(v).byte_at(s.push(v).sp + 1) == high(v),
{
    let t = s.push(v);
    assert(wrap16(t.sp as int) == wrap16(s.sp - 2));
    assert(wrap16(t.sp + 1) == wrap16(s.sp - 1));
    assert(wrap16(t.sp + 2) == s.sp);
}

/// `PUSH rp` followed by `POP rp` restores the pair (for PSW: A and the
/// flags) and SP.
pub proof fn lemma_push_pop(s: CpuView, rp: Reg)
    requires
        wf(s),
        rp is B || rp is D || rp is H || rp is Psw,
    ensures
        ({
            let pushed = run(s, Instruction::PUSH { register: rp });
            let t = run(pushed, Instruction::POP { register: rp });
            &&& t.sp == s.sp
            &&& rp is Psw ==> t.a == s.a && t.flags == s.flags
            &&& !(rp is Psw) ==> t.pair(rp) == s.pair(rp)
        }),
{
    let p = run(s, Instruction::PUSH { register: rp });
    if rp is Psw {
        let w = crate::machine::word_of(s.a, crate::flags::psw_of(s.flags));
        lemma_push_then_top(s, w);
        crate::flags::lemma_psw_round_trip(s.flags);
        assert(p == s.push(w).with_pc(s.pc + 1));
    } else {
        lemma_push_then_top(s, s.pair(rp));
        assert(p == s.push(s.pair(rp)).with_pc(s.pc + 1));
    }
}

/// After `JMP addr` the next fetch is at `addr`.
pub proof fn lemma_jump(s: CpuView, addr: u16)
    requires
        !s.halted,
        decoded(code_at_pc(s)) == Some(Instruction::JMP { address: addr }),
    ensures
        step(s).pc == addr,
        code_at_pc(step(s)) == s.memory.subrange(addr as int, s.memory.len() as int),
{
}

/// `CALL addr` followed by `RET` comes back to the byte after the call
/// with SP as it was.
pub proof fn lemma_call_return(s: CpuView, addr: u16)
    requires
        wf(s),
        !s.halted,
        decoded(code_at_pc(s)) == Some(Instruction::CALL { address: addr }),
        decoded(code_at_pc(step(s))) == Some(Instruction::RET),
    ensures
        step(step(s)).pc == wrap16(s.pc + 3),
        step(step(s)).sp == s.sp,
{
    lemma_push_then_top(s, wrap16(s.pc + 3));
}

} // verus!
