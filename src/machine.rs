//! The mathematical model of the machine and the meaning of each instruction.

use vstd::prelude::*;
use crate::memory::{FLAG, LOAD_BASE, MEMORY_SIZE, REGISTER_COUNT, STACK_DEPTH};
use crate::opcode::{kind_of, spec_kk, spec_n, spec_nnn, spec_x, spec_y, OpcodeTypes};

verus! {

/// Pixels per framebuffer row.
pub const SCREEN_WIDTH: usize = 64;

/// Framebuffer rows.
pub const SCREEN_HEIGHT: usize = 32;

/// Pixels in the framebuffer.
pub const SCREEN_SIZE: usize = 2048;

/// Keys on the logical keypad.
pub const KEY_COUNT: usize = 16;

/// Bytes in the built-in font: five for each hexadecimal digit.
pub const FONT_SIZE: usize = 80;

/// Units of timer phase in one tick: a microsecond counts 60 units, so a
/// tick falls due every 1/60 s.
pub const TICK_UNITS: u64 = 1_000_000;

/// A fatal condition met while loading or running a program.
#[derive(PartialEq, Eq, Structural, Debug, Clone, Copy)]
pub enum CpuError {
    /// The word at `pc` is not an instruction.
    Decode { word: u16, pc: u16 },
    /// A program image of `len` bytes does not fit above the load base.
    Load { len: usize },
    /// A return with an empty call stack, or a call with a full one.
    Stack { word: u16, pc: u16 },
    /// The instruction `word` at `pc` reached past the address space; or,
    /// where `pc` itself leaves no room for a word, the fetch did, and `word`
    /// is the one fetched before.
    MemoryRange { word: u16, pc: u16 },
}

/// The state of a machine as a mathematical value.
pub struct Machine {
    pub mem: Seq<u8>,
    pub reg: Seq<u8>,
    pub i: u16,
    pub pc: u16,
    /// Live return addresses, the innermost call last.
    pub stack: Seq<u16>,
    pub delay: u8,
    pub sound: u8,
    pub keys: Seq<bool>,
    /// Row-major pixels, `true` where lit.
    pub screen: Seq<bool>,
    /// The instruction word last fetched.
    pub code: u16,
    /// Its kind, once decoded.
    pub kind: Option<OpcodeTypes>,
    /// Time accumulated towards the next timer tick, in `TICK_UNITS`.
    pub phase: u64,
}

/// The built-in font glyphs for the digits `0` to `F`, five rows each.
pub open spec fn font() -> Seq<u8> {
    seq![
        0xF0u8, 0x90, 0x90, 0x90, 0xF0, 0x20, 0x60, 0x20, 0x20, 0x70,
        0xF0, 0x10, 0xF0, 0x80, 0xF0, 0xF0, 0x10, 0xF0, 0x10, 0xF0,
        0x90, 0x90, 0xF0, 0x10, 0x10, 0xF0, 0x80, 0xF0, 0x10, 0xF0,
        0xF0, 0x80, 0xF0, 0x90, 0xF0, 0xF0, 0x10, 0x20, 0x40, 0x40,
        0xF0, 0x90, 0xF0, 0x90, 0xF0, 0xF0, 0x90, 0xF0, 0x10, 0xF0,
        0xF0, 0x90, 0xF0, 0x90, 0x90, 0xE0, 0x90, 0xE0, 0x90, 0xE0,
        0xF0, 0x80, 0x80, 0x80, 0xF0, 0xE0, 0x90, 0x90, 0x90, 0xE0,
        0xF0, 0x80, 0xF0, 0x80, 0xF0, 0xF0, 0x80, 0xF0, 0x80, 0x80,
    ]
}

/// The largest program image that fits above the load base.
pub open spec fn max_program_len() -> int {
    MEMORY_SIZE - LOAD_BASE
}

/// The address space right after loading `program`: the font at the bottom,
/// the program at the load base, zero elsewhere.
pub open spec fn loaded_memory(program: Seq<u8>) -> Seq<u8> {
    Seq::new(
        MEMORY_SIZE as nat,
        |a: int|
            if a < FONT_SIZE {
                font()[a]
            } else if LOAD_BASE <= a < LOAD_BASE + program.len() {
                program[a - LOAD_BASE]
            } else {
                0u8
            },
    )
}

/// Whether bit `col` of a sprite row is set, counting from the most
/// significant bit.
pub open spec fn sprite_bit(b: u8, col: int) -> bool {
    (b >> ((7 - col) as u8)) & 1u8 == 1u8
}

/// Key `k` is pressed and no lower-numbered key is.
pub open spec fn lowest_pressed(keys: Seq<bool>, k: int) -> bool {
    &&& 0 <= k < KEY_COUNT
    &&& keys[k]
    &&& forall|j: int| 0 <= j < k ==> !keys[j]
}

/// `v` after a timer of that value has been ticked `ticks` times: it counts
/// down and stops at zero.
pub open spec fn timer_after(v: u8, ticks: int) -> u8 {
    if ticks >= v { 0u8 } else { (v - ticks) as u8 }
}

/// The ticks that fall due when `micros` microseconds pass with `phase`
/// units already accumulated.
pub open spec fn ticks_due(phase: u64, micros: u64) -> int {
    (phase + 60 * micros) / (TICK_UNITS as int)
}

/// The instruction kinds that place the program counter themselves; after
/// any other the cycle driver advances it by one instruction.
pub open spec fn sets_pc(k: OpcodeTypes) -> bool {
    match k {
        OpcodeTypes::RET | OpcodeTypes::JPAddr | OpcodeTypes::CALLAddr | OpcodeTypes::SEVxByte
        | OpcodeTypes::SNEVxByte | OpcodeTypes::SEVxVy | OpcodeTypes::SNEVxVy
        | OpcodeTypes::JPV0Addr | OpcodeTypes::SKPVx | OpcodeTypes::SKNPVx
        | OpcodeTypes::LDVxK => true,
        _ => false,
    }
}

/// `pc + d` in the 16-bit program counter.
pub open spec fn pc_plus(pc: u16, d: int) -> u16 {
    ((pc + d) % 0x10000) as u16
}

impl Machine {
    /// The sizes of every part of the state are the machine's.
    pub open spec fn wf(self) -> bool {
        &&& self.mem.len() == MEMORY_SIZE
        &&& self.reg.len() == REGISTER_COUNT
        &&& self.stack.len() <= STACK_DEPTH
        &&& self.keys.len() == KEY_COUNT
        &&& self.screen.len() == SCREEN_SIZE
    }

    /// The state right after `program` was loaded.
    pub open spec fn loaded(program: Seq<u8>) -> Machine {
        Machine {
            mem: loaded_memory(program),
            reg: Seq::new(REGISTER_COUNT as nat, |k: int| 0u8),
            i: 0,
            pc: LOAD_BASE,
            stack: Seq::empty(),
            delay: 0,
            sound: 0,
            keys: Seq::new(KEY_COUNT as nat, |k: int| false),
            screen: Seq::new(SCREEN_SIZE as nat, |p: int| false),
            code: 0,
            kind: None,
            phase: 0,
        }
    }

    /// The state after a reset: control state, registers, stack, timers and
    /// framebuffer cleared; memory, keypad and the last instruction kept.
    pub open spec fn reset(self) -> Machine {
        Machine {
            reg: Seq::new(REGISTER_COUNT as nat, |k: int| 0u8),
            i: 0,
            pc: LOAD_BASE,
            stack: Seq::empty(),
            delay: 0,
            sound: 0,
            screen: Seq::new(SCREEN_SIZE as nat, |p: int| false),
            ..self
        }
    }

    /// The word at the program counter, if both of its bytes are in range.
    pub open spec fn fetch(self) -> Result<Machine, CpuError> {
        if self.pc + 1 < MEMORY_SIZE {
            Ok(Machine { code: self.word_at(self.pc as int), ..self })
        } else {
            Err(CpuError::MemoryRange { word: self.code, pc: self.pc })
        }
    }

    /// The fetched word decoded.
    pub open spec fn decode(self) -> Result<Machine, CpuError> {
        match kind_of(self.code) {
            Some(k) => Ok(Machine { kind: Some(k), ..self }),
            None => Err(CpuError::Decode { word: self.code, pc: self.pc }),
        }
    }

    /// Register `Vx` of the current instruction.
    pub open spec fn vx(self) -> u8 {
        self.reg[spec_x(self.code)]
    }

    /// Register `Vy` of the current instruction.
    pub open spec fn vy(self) -> u8 {
        self.reg[spec_y(self.code)]
    }

    /// The program counter after a conditional skip: two instructions on
    /// when `cond` holds, else one.
    pub open spec fn skip_if(self, cond: bool) -> Machine {
        Machine { pc: pc_plus(self.pc, if cond { 4 } else { 2 }), ..self }
    }

    /// `Vx = v`.
    pub open spec fn set_vx(self, v: u8) -> Machine {
        Machine { reg: self.reg.update(spec_x(self.code), v), ..self }
    }

    /// `Vx = v`, then the flag register `= f`.
    pub open spec fn set_vx_flag(self, v: u8, f: bool) -> Machine {
        Machine {
            reg: self.reg.update(spec_x(self.code), v).update(FLAG as int, if f { 1u8 } else { 0u8 }),
            ..self
        }
    }

    /// Whether pixel `p` is covered by a set bit of the sprite that the
    /// current draw instruction reads. Bits past the right or bottom edge
    /// cover no pixel: they are clipped.
    pub open spec fn sprite_hits(self, p: int) -> bool {
        let row = p / (SCREEN_WIDTH as int) - self.vy();
        let col = p % (SCREEN_WIDTH as int) - self.vx();
        &&& 0 <= row < spec_n(self.code)
        &&& 0 <= col < 8
        &&& sprite_bit(self.mem[self.i + row], col)
    }

    /// Whether the current draw turns some lit pixel off.
    pub open spec fn draw_collides(self) -> bool {
        exists|p: int| 0 <= p < SCREEN_SIZE && #[trigger] self.sprite_hits(p) && self.screen[p]
    }

    /// The current draw instruction: the sprite XORed into the screen, the
    /// flag register set to whether a lit pixel went dark.
    pub open spec fn draw(self) -> Machine {
        let s = Machine {
            screen: Seq::new(SCREEN_SIZE as nat, |p: int| self.screen[p] != self.sprite_hits(p)),
            ..self
        };
        Machine { reg: s.reg.update(FLAG as int, if self.draw_collides() { 1u8 } else { 0u8 }), ..s }
    }

    /// The key wait: with some key pressed, `Vx` takes the lowest pressed
    /// key's number and the program counter moves on one instruction; with
    /// none, nothing changes.
    pub open spec fn wait_key(self) -> Machine {
        if exists|k: int| lowest_pressed(self.keys, k) {
            let k = choose|k: int| lowest_pressed(self.keys, k);
            Machine { pc: pc_plus(self.pc, 2), ..self.set_vx(k as u8) }
        } else {
            self
        }
    }

    /// The current instruction applied to the state, with `rnd` as the
    /// random byte. Instructions of `sets_pc` kinds place the program
    /// counter; the others leave it.
    pub open spec fn execute(self, rnd: u8) -> Result<Machine, CpuError> {
        let w = self.code;
        let vx = self.vx();
        let vy = self.vy();
        let range_error = CpuError::MemoryRange { word: w, pc: self.pc };
        match self.kind {
            None => Err(CpuError::Decode { word: w, pc: self.pc }),
            Some(k) => match k {
                OpcodeTypes::SYSAddr => Ok(self),
                OpcodeTypes::CLS => Ok(Machine { screen: Seq::new(SCREEN_SIZE as nat, |p: int| false), ..self }),
                OpcodeTypes::RET => if self.stack.len() == 0 {
                    Err(CpuError::Stack { word: w, pc: self.pc })
                } else {
                    Ok(Machine { pc: pc_plus(self.stack.last(), 2), stack: self.stack.drop_last(), ..self })
                },
                OpcodeTypes::JPAddr => Ok(Machine { pc: spec_nnn(w) as u16, ..self }),
                OpcodeTypes::CALLAddr => if self.stack.len() >= STACK_DEPTH {
                    Err(CpuError::Stack { word: w, pc: self.pc })
                } else {
                    Ok(Machine { pc: spec_nnn(w) as u16, stack: self.stack.push(self.pc), ..self })
                },
                OpcodeTypes::SEVxByte => Ok(self.skip_if(vx == spec_kk(w))),
                OpcodeTypes::SNEVxByte => Ok(self.skip_if(vx != spec_kk(w))),
                OpcodeTypes::SEVxVy => Ok(self.skip_if(vx == vy)),
                OpcodeTypes::SNEVxVy => Ok(self.skip_if(vx != vy)),
                OpcodeTypes::LDVxbyte => Ok(self.set_vx(spec_kk(w) as u8)),
                OpcodeTypes::ADDVxbyte => Ok(self.set_vx(((vx + spec_kk(w)) % 0x100) as u8)),
                OpcodeTypes::LDVxVy => Ok(self.set_vx(vy)),
                OpcodeTypes::ORVxVy => Ok(self.set_vx(vx | vy)),
                OpcodeTypes::ANDVxVy => Ok(self.set_vx(vx & vy)),
                OpcodeTypes::XORVxVy => Ok(self.set_vx(vx ^ vy)),
                OpcodeTypes::ADDVxVy => Ok(self.set_vx_flag(((vx + vy) % 0x100) as u8, vx + vy > 0xFF)),
                OpcodeTypes::SUBVxVy => Ok(self.set_vx_flag(((vx - vy + 0x100) % 0x100) as u8, vx >= vy)),
                OpcodeTypes::SUBNVxVy => Ok(self.set_vx_flag(((vy - vx + 0x100) % 0x100) as u8, vy >= vx)),
                OpcodeTypes::SHRVxVy => Ok(self.set_vx_flag((vx / 2) as u8, vx % 2 == 1)),
                OpcodeTypes::SHLVxVy => Ok(self.set_vx_flag(((vx * 2) % 0x100) as u8, vx >= 0x80)),
                OpcodeTypes::LDIAddr => Ok(Machine { i: spec_nnn(w) as u16, ..self }),
                OpcodeTypes::JPV0Addr => Ok(Machine { pc: (spec_nnn(w) + self.reg[0]) as u16, ..self }),
                OpcodeTypes::RNDVxbyte => Ok(self.set_vx(rnd & (spec_kk(w) as u8))),
                OpcodeTypes::DRWVxVyNibble => if self.i + spec_n(w) > MEMORY_SIZE {
                    Err(range_error)
                } else {
                    Ok(self.draw())
                },
                OpcodeTypes::SKPVx => Ok(self.skip_if(vx < KEY_COUNT && self.keys[vx as int])),
                OpcodeTypes::SKNPVx => Ok(self.skip_if(!(vx < KEY_COUNT && self.keys[vx as int]))),
                OpcodeTypes::LDVxDT => Ok(self.set_vx(self.delay)),
                OpcodeTypes::LDVxK => Ok(self.wait_key()),
                OpcodeTypes::LDDTVx => Ok(Machine { delay: vx, ..self }),
                OpcodeTypes::LDSTVx => Ok(Machine { sound: vx, ..self }),
                OpcodeTypes::ADDIVx => Ok(Machine { i: ((self.i + vx) % 0x10000) as u16, ..self }),
                OpcodeTypes::LDFVx => Ok(Machine { i: ((vx % 0x10) * 5) as u16, ..self }),
                OpcodeTypes::LDBVx => if self.i + 3 > MEMORY_SIZE {
                    Err(range_error)
                } else {
                    Ok(Machine {
                        mem: self.mem.update(self.i as int, vx / 100).update(
                            self.i + 1,
                            (vx / 10) % 10,
                        ).update(self.i + 2, vx % 10),
                        ..self
                    })
                },
                OpcodeTypes::LDIVx => if self.i + spec_x(w) + 1 > MEMORY_SIZE {
                    Err(range_error)
                } else {
                    Ok(Machine {
                        mem: Seq::new(
                            self.mem.len(),
                            |a: int|
                                if self.i <= a <= self.i + spec_x(w) {
                                    self.reg[a - self.i]
                                } else {
                                    self.mem[a]
                                },
                        ),
                        ..self
                    })
                },
                OpcodeTypes::LDVxI => if self.i + spec_x(w) + 1 > MEMORY_SIZE {
                    Err(range_error)
                } else {
                    Ok(Machine {
                        reg: Seq::new(
                            self.reg.len(),
                            |r: int| if r <= spec_x(w) { self.mem[self.i + r] } else { self.reg[r] },
                        ),
                        ..self
                    })
                },
            },
        }
    }

    /// The program counter after the instruction just executed: advanced by
    /// one instruction unless its kind placed it.
    pub open spec fn advance(self) -> Machine {
        match self.kind {
            Some(k) => if sets_pc(k) { self } else { Machine { pc: pc_plus(self.pc, 2), ..self } },
            None => self,
        }
    }

    /// One cycle: fetch, decode, execute with `rnd` as the random byte, and
    /// advance. Gives the outcome and the state it leaves: on a failure, the
    /// state at the point where the failing step began.
    pub open spec fn cycle(self, rnd: u8) -> (Result<(), CpuError>, Machine) {
        match self.fetch() {
            Err(e) => (Err(e), self),
            Ok(f) => match f.decode() {
                Err(e) => (Err(e), f),
                Ok(d) => match d.execute(rnd) {
                    Err(e) => (Err(e), d),
                    Ok(x) => (Ok(()), x.advance()),
                },
            },
        }
    }

    /// The instruction word stored at address `a`, high byte first.
    pub open spec fn word_at(self, a: int) -> u16 {
        (self.mem[a] * 0x100 + self.mem[a + 1]) as u16
    }

    /// The machine has just jumped to a jump instruction that targets
    /// itself: the program idles there for ever.
    pub open spec fn idles(self) -> bool {
        &&& self.kind == Some(OpcodeTypes::JPAddr)
        &&& self.pc + 1 < MEMORY_SIZE
        &&& self.word_at(self.pc as int) == self.code
        &&& spec_nnn(self.code) == self.pc
    }

    /// The state after `micros` microseconds: each due tick counts both timers
    /// down by one, to a floor of zero.
    pub open spec fn elapse(self, micros: u64) -> Machine {
        let ticks = ticks_due(self.phase, micros);
        Machine {
            delay: timer_after(self.delay, ticks),
            sound: timer_after(self.sound, ticks),
            phase: ((self.phase + 60 * micros) % (TICK_UNITS as int)) as u64,
            ..self
        }
    }
}

} // verus!
