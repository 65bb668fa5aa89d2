//! Properties of the machine that relate several steps.

use vstd::prelude::*;
use crate::machine::{pc_plus, CpuError, ticks_due, timer_after, Machine, SCREEN_SIZE, TICK_UNITS};
use crate::memory::{FLAG, LOAD_BASE, MEMORY_SIZE, REGISTER_COUNT, STACK_DEPTH};
use crate::opcode::{kind_of, spec_nnn, spec_x, spec_y, OpcodeTypes};

verus! {

/// A call followed, at its target, by a return resumes at the instruction
/// after the call, with the call stack as deep as before.
#[verifier::rlimit(50)]
pub proof fn lemma_call_then_return(s: Machine, b1: u8, b2: u8)
    requires
        s.wf(),
        s.pc + 1 < MEMORY_SIZE,
        kind_of(s.word_at(s.pc as int)) == Some(OpcodeTypes::CALLAddr),
        s.stack.len() < STACK_DEPTH,
        spec_nnn(s.word_at(s.pc as int)) + 1 < MEMORY_SIZE,
        s.word_at(spec_nnn(s.word_at(s.pc as int))) == 0x00EE,
    ensures
        s.cycle(b1).0 is Ok,
        s.cycle(b1).1.pc == spec_nnn(s.word_at(s.pc as int)),
        s.cycle(b1).1.cycle(b2).0 is Ok,
        s.cycle(b1).1.cycle(b2).1.pc == s.pc + 2,
        s.cycle(b1).1.cycle(b2).1.stack == s.stack,
{
    let w = s.word_at(s.pc as int);
    let t = spec_nnn(w);
    let f = Machine { code: w, ..s };
    assert(s.fetch() == Ok::<Machine, CpuError>(f));
    let d = Machine { kind: Some(OpcodeTypes::CALLAddr), ..f };
    assert(f.decode() == Ok::<Machine, CpuError>(d));
    let x = Machine { pc: t as u16, stack: s.stack.push(s.pc), ..d };
    assert(d.execute(b1) == Ok::<Machine, CpuError>(x));
    assert(x.advance() == x);
    assert(s.cycle(b1) == (Ok::<(), CpuError>(()), x));
    let f1 = Machine { code: 0x00EE, ..x };
    assert(x.fetch() == Ok::<Machine, CpuError>(f1));
    assert(kind_of(0x00EE) == Some(OpcodeTypes::RET));
    let d1 = Machine { kind: Some(OpcodeTypes::RET), ..f1 };
    assert(f1.decode() == Ok::<Machine, CpuError>(d1));
    assert(d1.stack.last() == s.pc);
    assert(d1.stack.drop_last() =~= s.stack);
    let x1 = Machine { pc: pc_plus(s.pc, 2), stack: s.stack, ..d1 };
    assert(d1.execute(b2) == Ok::<Machine, CpuError>(x1));
    assert(x1.advance() == x1);
    assert(x.cycle(b2) == (Ok::<(), CpuError>(()), x1));
}

/// Drawing the same sprite twice at the same place leaves the framebuffer as
/// it was; where the sprite lights some pixel that was dark, the second draw
/// reports a collision. The coordinates are not taken from the flag register.
pub proof fn lemma_draw_twice(s: Machine, b: u8)
    requires
        s.wf(),
        s.kind == Some(OpcodeTypes::DRWVxVyNibble),
        spec_x(s.code) != FLAG,
        spec_y(s.code) != FLAG,
        s.execute(b) is Ok,
    ensures
        s.execute(b)->Ok_0.execute(b) is Ok,
        s.execute(b)->Ok_0.execute(b)->Ok_0.screen == s.screen,
        (exists|p: int| 0 <= p < SCREEN_SIZE && #[trigger] s.sprite_hits(p) && !s.screen[p])
            ==> s.execute(b)->Ok_0.execute(b)->Ok_0.reg[FLAG as int] == 1,
{
    let s1 = s.execute(b)->Ok_0;
    assert(s1 == s.draw());
    assert(s1.vx() == s.vx());
    assert(s1.vy() == s.vy());
    assert(forall|p: int| s1.sprite_hits(p) == s.sprite_hits(p));
    let s2 = s1.execute(b)->Ok_0;
    assert(s2 == s1.draw());
    assert(s2.screen =~= s.screen);
    if exists|p: int| 0 <= p < SCREEN_SIZE && #[trigger] s.sprite_hits(p) && !s.screen[p] {
        let p = choose|p: int| 0 <= p < SCREEN_SIZE && #[trigger] s.sprite_hits(p) && !s.screen[p];
        assert(s1.sprite_hits(p) && s1.screen[p]);
        assert(s1.draw_collides());
    }
}

/// A delay timer set to 10 reaches exactly zero once 10/60 s have passed,
/// and stays there however much more time passes.
pub proof fn lemma_delay_reaches_zero(s: Machine, micros: u64, later: u64)
    requires
        s.delay == 10,
        60 * micros >= 10 * TICK_UNITS,
    ensures
        s.elapse(micros).delay == 0,
        s.elapse(micros).elapse(later).delay == 0,
{
    assert(ticks_due(s.phase, micros) >= 10) by (nonlinear_arith)
        requires
            60 * micros >= 10 * TICK_UNITS,
            ticks_due(s.phase, micros) == (s.phase + 60 * micros) / (TICK_UNITS as int),
            TICK_UNITS == 1_000_000,
    ;
}

/// A reset puts the machine at the load base with registers, stack, timers
/// and framebuffer clear, and a second reset changes nothing.
pub proof fn lemma_reset_idempotent(s: Machine)
    ensures
        s.reset().pc == LOAD_BASE,
        s.reset().reg == Seq::new(REGISTER_COUNT as nat, |k: int| 0u8),
        s.reset().stack.len() == 0,
        s.reset().delay == 0,
        s.reset().sound == 0,
        s.reset().screen == Seq::new(SCREEN_SIZE as nat, |p: int| false),
        s.reset().reset() == s.reset(),
{
}

} // verus!
