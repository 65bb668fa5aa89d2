//! The executable machine: loading, the fetch/decode/execute cycle, timers,
//! keypad input and framebuffer output.

use vstd::prelude::*;
use crate::machine::{
    font, loaded_memory, lowest_pressed, max_program_len, sets_pc, CpuError, Machine, FONT_SIZE,
    KEY_COUNT, SCREEN_HEIGHT, SCREEN_SIZE, SCREEN_WIDTH, TICK_UNITS,
};
use crate::memory::{Memory, FLAG, LOAD_BASE, MEMORY_SIZE, REGISTER_COUNT, STACK_DEPTH};
use crate::opcode::{kind_of, spec_n, spec_x, Opcode, OpcodeTypes};

verus! {

/// How a state change went: on success the new state is the one the model
/// gives; on failure the error is the model's and the state is unchanged.
pub open spec fn transition(
    model: Result<Machine, CpuError>,
    before: Machine,
    r: Result<(), CpuError>,
    after: Machine,
) -> bool {
    match model {
        Ok(m) => r is Ok && after == m,
        Err(e) => r == Err::<(), CpuError>(e) && after == before,
    }
}

/// Sets every byte of `v` to zero.
fn zero_bytes(v: &mut Vec<u8>)
    ensures
        final(v)@ == Seq::new(old(v)@.len(), |k: int| 0u8),
{
    let mut k: usize = 0;
    while k < v.len()
        invariant
            k <= v@.len() == old(v)@.len(),
            forall|j: int| 0 <= j < k ==> v@[j] == 0u8,
        decreases v@.len() - k,
    {
        v.set(k, 0);
        k = k + 1;
    }
    assert(v@ =~= Seq::new(old(v)@.len(), |k: int| 0u8));
}

/// Turns every pixel of `v` off.
fn clear_pixels(v: &mut Vec<bool>)
    ensures
        final(v)@ == Seq::new(old(v)@.len(), |p: int| false),
{
    let mut p: usize = 0;
    while p < v.len()
        invariant
            p <= v@.len() == old(v)@.len(),
            forall|q: int| 0 <= q < p ==> !v@[q],
        decreases v@.len() - p,
    {
        v.set(p, false);
        p = p + 1;
    }
    assert(v@ =~= Seq::new(old(v)@.len(), |p: int| false));
}

/// One machine: its storage, the instruction in flight, the keypad and the
/// framebuffer.
pub struct Cpu {
    pub opcode: Opcode,
    pub memory: Memory,
    /// Pressed state of each logical key.
    pub keys: Vec<bool>,
    /// Row-major pixels, `true` where lit.
    pub curr_buffer: Vec<bool>,
    /// Time accumulated towards the next timer tick.
    pub phase: u64,
}

impl View for Cpu {
    type V = Machine;

    open spec fn view(&self) -> Machine {
        Machine {
            mem: self.memory.addr_mem@,
            reg: self.memory.reg@,
            i: self.memory.i,
            pc: self.memory.pc,
            stack: self.memory.live_stack(),
            delay: self.memory.delay,
            sound: self.memory.sound,
            keys: self.keys@,
            screen: self.curr_buffer@,
            code: self.opcode.code,
            kind: self.opcode.kind,
            phase: self.phase,
        }
    }
}

impl Cpu {
    /// Every buffer has its fixed size.
    pub open spec fn wf(&self) -> bool {
        &&& self.memory.wf()
        &&& self.keys@.len() == KEY_COUNT
        &&& self.curr_buffer@.len() == SCREEN_SIZE
    }

    /// A machine with the font and `program` loaded and every register,
    /// timer, key and pixel clear; fails where the program does not fit
    /// above the load base.
    pub fn initialize(program: &Vec<u8>) -> (r: Result<Cpu, CpuError>)
        ensures
            match r {
                Ok(c) => program@.len() <= max_program_len() && c.wf() && c@ == Machine::loaded(
                    program@,
                ),
                Err(e) => program@.len() > max_program_len() && e == (CpuError::Load {
                    len: program.len(),
                }),
            },
    {
        if program.len() > MEMORY_SIZE - LOAD_BASE as usize {
            return Err(CpuError::Load { len: program.len() });
        }
        let glyphs: Vec<u8> = vec![
            0xF0u8, 0x90, 0x90, 0x90, 0xF0, 0x20, 0x60, 0x20, 0x20, 0x70,
            0xF0, 0x10, 0xF0, 0x80, 0xF0, 0xF0, 0x10, 0xF0, 0x10, 0xF0,
            0x90, 0x90, 0xF0, 0x10, 0x10, 0xF0, 0x80, 0xF0, 0x10, 0xF0,
            0xF0, 0x80, 0xF0, 0x90, 0xF0, 0xF0, 0x10, 0x20, 0x40, 0x40,
            0xF0, 0x90, 0xF0, 0x90, 0xF0, 0xF0, 0x90, 0xF0, 0x10, 0xF0,
            0xF0, 0x90, 0xF0, 0x90, 0x90, 0xE0, 0x90, 0xE0, 0x90, 0xE0,
            0xF0, 0x80, 0x80, 0x80, 0xF0, 0xE0, 0x90, 0x90, 0x90, 0xE0,
            0xF0, 0x80, 0xF0, 0x80, 0xF0, 0xF0, 0x80, 0xF0, 0x80, 0x80,
        ];
        assert(glyphs@ =~= font());
        let mut addr_mem: Vec<u8> = vec![0u8; MEMORY_SIZE];
        let mut k: usize = 0;
        while k < FONT_SIZE
            invariant
                glyphs@ == font(),
                k <= FONT_SIZE,
                addr_mem@.len() == MEMORY_SIZE,
                forall|a: int| 0 <= a < MEMORY_SIZE ==> #[trigger] addr_mem@[a] == if a < k {
                    font()[a]
                } else {
                    0u8
                },
            decreases FONT_SIZE - k,
        {
            addr_mem.set(k, glyphs[k]);
            k = k + 1;
        }
        let base: usize = LOAD_BASE as usize;
        let mut k: usize = 0;
        while k < program.len()
            invariant
                k <= program@.len() <= MEMORY_SIZE - base,
                base == LOAD_BASE,
                addr_mem@.len() == MEMORY_SIZE,
                forall|a: int| 0 <= a < MEMORY_SIZE ==> #[trigger] addr_mem@[a] == if a < FONT_SIZE {
                    font()[a]
                } else if base <= a < base + k {
                    program@[a - base]
                } else {
                    0u8
                },
            decreases program@.len() - k,
        {
            addr_mem.set(base + k, program[k]);
            k = k + 1;
        }
        assert(addr_mem@ =~= loaded_memory(program@));
        let memory = Memory {
            addr_mem,
            reg: vec![0u8; REGISTER_COUNT],
            i: 0,
            pc: LOAD_BASE,
            stack: vec![0u16; STACK_DEPTH],
            sp: 0,
            delay: 0,
            sound: 0,
        };
        let cpu = Cpu {
            opcode: Opcode { code: 0, kind: None },
            memory,
            keys: vec![false; KEY_COUNT],
            curr_buffer: vec![false; SCREEN_SIZE],
            phase: 0,
        };
        assert(cpu.memory.reg@ =~= Seq::new(REGISTER_COUNT as nat, |k: int| 0u8));
        assert(cpu.keys@ =~= Seq::new(KEY_COUNT as nat, |k: int| false));
        assert(cpu.curr_buffer@ =~= Seq::new(SCREEN_SIZE as nat, |p: int| false));
        assert(cpu.memory.live_stack() =~= Seq::<u16>::empty());
        Ok(cpu)
    }

    /// Reads the instruction word at the program counter, high byte first.
    pub fn fetch(&mut self) -> (r: Result<(), CpuError>)
        requires
            old(self).wf(),
        ensures
            final(self).wf(),
            transition(old(self)@.fetch(), old(self)@, r, final(self)@),
    {
        let pc: usize = self.memory.pc as usize;
        if pc + 1 >= MEMORY_SIZE {
            return Err(CpuError::MemoryRange { word: self.opcode.code, pc: self.memory.pc });
        }
        let hi: u16 = self.memory.addr_mem[pc] as u16;
        let lo: u16 = self.memory.addr_mem[pc + 1] as u16;
        self.opcode.code = hi * 0x100 + lo;
        Ok(())
    }

    /// Decodes the fetched word; fails where it is not an instruction.
    pub fn decode(&mut self) -> (r: Result<(), CpuError>)
        requires
            old(self).wf(),
        ensures
            final(self).wf(),
            transition(old(self)@.decode(), old(self)@, r, final(self)@),
    {
        match Opcode::find_kind(self.opcode.code) {
            Ok(k) => {
                self.opcode.kind = Some(k);
                Ok(())
            },
            Err(_) => Err(CpuError::Decode { word: self.opcode.code, pc: self.memory.pc }),
        }
    }

    /// Returns to the load base with registers, stack, timers and
    /// framebuffer cleared.
    pub fn reset(&mut self)
        requires
            old(self).wf(),
        ensures
            final(self).wf(),
            final(self)@ == old(self)@.reset(),
    {
        self.memory.pc = LOAD_BASE;
        zero_bytes(&mut self.memory.reg);
        self.memory.i = 0;
        self.memory.sp = 0;
        self.memory.delay = 0;
        self.memory.sound = 0;
        clear_pixels(&mut self.curr_buffer);
        assert(self.memory.reg@ =~= Seq::new(REGISTER_COUNT as nat, |k: int| 0u8));
        assert(self.memory.live_stack() =~= Seq::<u16>::empty());
    }

    /// Records whether logical key `key` is pressed; keys past the keypad are
    /// ignored.
    pub fn set_key(&mut self, key: u8, pressed: bool)
        requires
            old(self).wf(),
        ensures
            final(self).wf(),
            final(self)@ == (Machine {
                keys: if key < KEY_COUNT {
                    old(self)@.keys.update(key as int, pressed)
                } else {
                    old(self)@.keys
                },
                ..old(self)@
            }),
    {
        if (key as usize) < KEY_COUNT {
            self.keys.set(key as usize, pressed);
        }
    }

    /// Whether the pixel in column `x` of row `y` is lit; `false` off the
    /// screen.
    pub fn pixel(&self, x: usize, y: usize) -> (r: bool)
        requires
            self.wf(),
        ensures
            r == (x < SCREEN_WIDTH && y < SCREEN_HEIGHT && self@.screen[y * SCREEN_WIDTH + x]),
    {
        if x < SCREEN_WIDTH && y < SCREEN_HEIGHT {
            self.curr_buffer[y * SCREEN_WIDTH + x]
        } else {
            false
        }
    }

    /// Lets `micros` microseconds pass: both timers count down once for each
    /// 1/60 s that falls due, and stop at zero.
    pub fn elapse(&mut self, micros: u64)
        requires
            old(self).wf(),
        ensures
            final(self).wf(),
            final(self)@ == old(self)@.elapse(micros),
    {
        let total: u128 = self.phase as u128 + 60 * (micros as u128);
        let ticks: u128 = total / (TICK_UNITS as u128);
        self.phase = (total % (TICK_UNITS as u128)) as u64;
        self.memory.delay = if ticks >= self.memory.delay as u128 {
            0
        } else {
            (self.memory.delay as u128 - ticks) as u8
        };
        self.memory.sound = if ticks >= self.memory.sound as u128 {
            0
        } else {
            (self.memory.sound as u128 - ticks) as u8
        };
    }

    /// Skips the next instruction when `cond` holds: the program counter moves
    /// on by two instructions, else by one.
    fn skip_if(&mut self, cond: bool)
        requires
            old(self).wf(),
        ensures
            final(self).wf(),
            final(self)@ == old(self)@.skip_if(cond),
    {
        let d: u32 = if cond { 4 } else { 2 };
        self.memory.pc = ((self.memory.pc as u32 + d) % 0x10000) as u16;
    }

    /// `Vx = v`.
    fn set_vx(&mut self, v: u8)
        requires
            old(self).wf(),
        ensures
            final(self).wf(),
            final(self)@ == old(self)@.set_vx(v),
    {
        let x = self.opcode.x();
        self.memory.reg.set(x, v);
    }

    /// `Vx = v`, then the flag register `= f`.
    fn set_vx_flag(&mut self, v: u8, f: bool)
        requires
            old(self).wf(),
        ensures
            final(self).wf(),
            final(self)@ == old(self)@.set_vx_flag(v, f),
    {
        let x = self.opcode.x();
        self.memory.reg.set(x, v);
        self.memory.reg.set(FLAG, if f { 1 } else { 0 });
    }

    /// XORs the sprite of the current draw instruction into the framebuffer
    /// and sets the flag register to whether a lit pixel went dark.
    fn draw_sprite(&mut self)
        requires
            old(self).wf(),
            old(self).memory.i + spec_n(old(self).opcode.code) <= MEMORY_SIZE,
        ensures
            final(self).wf(),
            final(self)@ == old(self)@.draw(),
    {
        let ghost before = self@;
        let vx: usize = self.memory.reg[self.opcode.x()] as usize;
        let vy: usize = self.memory.reg[self.opcode.y()] as usize;
        let n: usize = self.opcode.n() as usize;
        let base: usize = self.memory.i as usize;
        let mut collided = false;
        let mut p: usize = 0;
        while p < SCREEN_SIZE
            invariant
                self.wf(),
                self.memory == old(self).memory,
                self.keys == old(self).keys,
                self.opcode == old(self).opcode,
                self.phase == old(self).phase,
                before == old(self)@,
                vx == before.vx(),
                vy == before.vy(),
                n == spec_n(before.code),
                base == before.i,
                base + n <= MEMORY_SIZE,
                p <= SCREEN_SIZE,
                forall|q: int|
                    0 <= q < p ==> #[trigger] self.curr_buffer@[q] == (before.screen[q]
                        != before.sprite_hits(q)),
                forall|q: int| p <= q < SCREEN_SIZE ==> #[trigger] self.curr_buffer@[q] == before.screen[q],
                collided <==> exists|q: int|
                    0 <= q < p && #[trigger] before.sprite_hits(q) && before.screen[q],
            decreases SCREEN_SIZE - p,
        {
            let row: usize = p / SCREEN_WIDTH;
            let col: usize = p % SCREEN_WIDTH;
            if row >= vy && row - vy < n && col >= vx && col - vx < 8 {
                let b: u8 = self.memory.addr_mem[base + (row - vy)];
                if (b >> ((7 - (col - vx)) as u8)) & 1u8 == 1u8 {
                    assert(before.sprite_hits(p as int));
                    let lit = self.curr_buffer[p];
                    if lit {
                        collided = true;
                    }
                    self.curr_buffer.set(p, !lit);
                } else {
                    assert(!before.sprite_hits(p as int));
                }
            } else {
                assert(!before.sprite_hits(p as int));
            }
            p = p + 1;
        }
        self.memory.reg.set(FLAG, if collided { 1 } else { 0 });
        assert(self.curr_buffer@ =~= before.draw().screen);
    }

    /// Waits for a key: with some key pressed, `Vx` takes the lowest pressed
    /// key's number and the program counter moves on; with none, nothing
    /// changes, so the instruction runs again on the next cycle.
    fn wait_key(&mut self)
        requires
            old(self).wf(),
        ensures
            final(self).wf(),
            final(self)@ == old(self)@.wait_key(),
    {
        let mut k: usize = 0;
        while k < KEY_COUNT && !self.keys[k]
            invariant
                self.wf(),
                k <= KEY_COUNT,
                forall|j: int| 0 <= j < k ==> !self.keys@[j],
            decreases KEY_COUNT - k,
        {
            k = k + 1;
        }
        if k < KEY_COUNT {
            proof {
                assert(lowest_pressed(self@.keys, k as int));
                let c = choose|c: int| lowest_pressed(self@.keys, c);
                assert(c == k) by {
                    if c < k {
                        assert(!self@.keys[c]);
                    }
                    if k < c {
                        assert(!self@.keys[k as int]);
                    }
                }
            }
            self.set_vx(k as u8);
            self.memory.pc = ((self.memory.pc as u32 + 2) % 0x10000) as u16;
        } else {
            assert(!exists|c: int| lowest_pressed(self@.keys, c));
        }
    }

    /// Stores `V0..=Vx` at `I..=I+x`.
    fn store_registers(&mut self)
        requires
            old(self).wf(),
            old(self).memory.i + spec_x(old(self).opcode.code) + 1 <= MEMORY_SIZE,
        ensures
            final(self).wf(),
            final(self)@ == (Machine {
                mem: Seq::new(
                    old(self)@.mem.len(),
                    |a: int|
                        if old(self)@.i <= a <= old(self)@.i + spec_x(old(self)@.code) {
                            old(self)@.reg[a - old(self)@.i]
                        } else {
                            old(self)@.mem[a]
                        },
                ),
                ..old(self)@
            }),
    {
        let x = self.opcode.x();
        let base: usize = self.memory.i as usize;
        let mut k: usize = 0;
        while k <= x
            invariant
                self.wf(),
                self.memory.reg == old(self).memory.reg,
                self.memory.i == old(self).memory.i,
                self.memory.pc == old(self).memory.pc,
                self.memory.stack == old(self).memory.stack,
                self.memory.sp == old(self).memory.sp,
                self.memory.delay == old(self).memory.delay,
                self.memory.sound == old(self).memory.sound,
                self.keys == old(self).keys,
                self.curr_buffer == old(self).curr_buffer,
                self.opcode == old(self).opcode,
                self.phase == old(self).phase,
                x == spec_x(self.opcode.code),
                base == self.memory.i,
                base + x + 1 <= MEMORY_SIZE,
                k <= x + 1,
                forall|a: int|
                    0 <= a < MEMORY_SIZE ==> #[trigger] self.memory.addr_mem@[a] == if base <= a < base
                        + k {
                        self.memory.reg@[a - base]
                    } else {
                        old(self).memory.addr_mem@[a]
                    },
            decreases x + 1 - k,
        {
            let v: u8 = self.memory.reg[k];
            self.memory.addr_mem.set(base + k, v);
            k = k + 1;
        }
        assert(self.memory.addr_mem@ =~= Seq::new(
            old(self)@.mem.len(),
            |a: int|
                if old(self)@.i <= a <= old(self)@.i + spec_x(old(self)@.code) {
                    old(self)@.reg[a - old(self)@.i]
                } else {
                    old(self)@.mem[a]
                },
        ));
    }

    /// Loads `V0..=Vx` from `I..=I+x`.
    fn load_registers(&mut self)
        requires
            old(self).wf(),
            old(self).memory.i + spec_x(old(self).opcode.code) + 1 <= MEMORY_SIZE,
        ensures
            final(self).wf(),
            final(self)@ == (Machine {
                reg: Seq::new(
                    old(self)@.reg.len(),
                    |r: int|
                        if r <= spec_x(old(self)@.code) {
                            old(self)@.mem[old(self)@.i + r]
                        } else {
                            old(self)@.reg[r]
                        },
                ),
                ..old(self)@
            }),
    {
        let x = self.opcode.x();
        let base: usize = self.memory.i as usize;
        let mut k: usize = 0;
        while k <= x
            invariant
                self.wf(),
                self.memory.addr_mem == old(self).memory.addr_mem,
                self.memory.i == old(self).memory.i,
                self.memory.pc == old(self).memory.pc,
                self.memory.stack == old(self).memory.stack,
                self.memory.sp == old(self).memory.sp,
                self.memory.delay == old(self).memory.delay,
                self.memory.sound == old(self).memory.sound,
                self.keys == old(self).keys,
                self.curr_buffer == old(self).curr_buffer,
                self.opcode == old(self).opcode,
                self.phase == old(self).phase,
                x == spec_x(self.opcode.code),
                base == self.memory.i,
                base + x + 1 <= MEMORY_SIZE,
                k <= x + 1,
                forall|r: int|
                    0 <= r < REGISTER_COUNT ==> #[trigger] self.memory.reg@[r] == if r < k {
                        self.memory.addr_mem@[base + r]
                    } else {
                        old(self).memory.reg@[r]
                    },
            decreases x + 1 - k,
        {
            let v: u8 = self.memory.addr_mem[base + k];
            self.memory.reg.set(k, v);
            k = k + 1;
        }
        assert(self.memory.reg@ =~= Seq::new(
            old(self)@.reg.len(),
            |r: int|
                if r <= spec_x(old(self)@.code) {
                    old(self)@.mem[old(self)@.i + r]
                } else {
                    old(self)@.reg[r]
                },
        ));
    }

    /// The instruction in flight applied to the machine, with `random_byte`
    /// as the byte that a random instruction masks. Fails, leaving the
    /// machine unchanged, on an undecoded instruction, a stack overflow or
    /// underflow, or a memory access past the address space.
    pub fn apply(&mut self, random_byte: u8) -> (r: Result<(), CpuError>)
        requires
            old(self).wf(),
        ensures
            final(self).wf(),
            transition(old(self)@.execute(random_byte), old(self)@, r, final(self)@),
    {
        let code = self.opcode.code;
        let pc = self.memory.pc;
        let kind = match self.opcode.kind {
            Some(k) => k,
            None => {
                return Err(CpuError::Decode { word: code, pc });
            },
        };
        let x = self.opcode.x();
        let vx: u8 = self.memory.reg[x];
        let vy: u8 = self.memory.reg[self.opcode.y()];
        let kk: u8 = self.opcode.kk();
        let nnn: u16 = self.opcode.nnn();
        match kind {
            OpcodeTypes::SYSAddr => {},
            OpcodeTypes::CLS => {
                clear_pixels(&mut self.curr_buffer);
            },
            OpcodeTypes::RET => {
                if self.memory.sp == 0 {
                    return Err(CpuError::Stack { word: code, pc });
                }
                self.memory.sp = self.memory.sp - 1;
                let ret: u16 = self.memory.stack[self.memory.sp as usize];
                self.memory.pc = ((ret as u32 + 2) % 0x10000) as u16;
                assert(self.memory.live_stack() =~= old(self)@.stack.drop_last());
            },
            OpcodeTypes::JPAddr => {
                self.memory.pc = nnn;
            },
            OpcodeTypes::CALLAddr => {
                if self.memory.sp as usize >= STACK_DEPTH {
                    return Err(CpuError::Stack { word: code, pc });
                }
                self.memory.stack.set(self.memory.sp as usize, pc);
                self.memory.sp = self.memory.sp + 1;
                self.memory.pc = nnn;
                assert(self.memory.live_stack() =~= old(self)@.stack.push(pc));
            },
            OpcodeTypes::SEVxByte => self.skip_if(vx == kk),
            OpcodeTypes::SNEVxByte => self.skip_if(vx != kk),
            OpcodeTypes::SEVxVy => self.skip_if(vx == vy),
            OpcodeTypes::SNEVxVy => self.skip_if(vx != vy),
            OpcodeTypes::LDVxbyte => self.set_vx(kk),
            OpcodeTypes::ADDVxbyte => self.set_vx(((vx as u16 + kk as u16) % 0x100) as u8),
            OpcodeTypes::LDVxVy => self.set_vx(vy),
            OpcodeTypes::ORVxVy => self.set_vx(vx | vy),
            OpcodeTypes::ANDVxVy => self.set_vx(vx & vy),
            OpcodeTypes::XORVxVy => self.set_vx(vx ^ vy),
            OpcodeTypes::ADDVxVy => {
                let sum: u16 = vx as u16 + vy as u16;
                self.set_vx_flag((sum % 0x100) as u8, sum > 0xFF);
            },
            OpcodeTypes::SUBVxVy => {
                self.set_vx_flag(((vx as u16 + 0x100 - vy as u16) % 0x100) as u8, vx >= vy);
            },
            OpcodeTypes::SUBNVxVy => {
                self.set_vx_flag(((vy as u16 + 0x100 - vx as u16) % 0x100) as u8, vy >= vx);
            },
            OpcodeTypes::SHRVxVy => self.set_vx_flag(vx / 2, vx % 2 == 1),
            OpcodeTypes::SHLVxVy => self.set_vx_flag(((vx as u16 * 2) % 0x100) as u8, vx >= 0x80),
            OpcodeTypes::LDIAddr => {
                self.memory.i = nnn;
            },
            OpcodeTypes::JPV0Addr => {
                self.memory.pc = nnn + self.memory.reg[0] as u16;
            },
            OpcodeTypes::RNDVxbyte => self.set_vx(random_byte & kk),
            OpcodeTypes::DRWVxVyNibble => {
                if self.memory.i as usize + self.opcode.n() as usize > MEMORY_SIZE {
                    return Err(CpuError::MemoryRange { word: code, pc });
                }
                self.draw_sprite();
            },
            OpcodeTypes::SKPVx => self.skip_if((vx as usize) < KEY_COUNT && self.keys[vx as usize]),
            OpcodeTypes::SKNPVx => self.skip_if(!((vx as usize) < KEY_COUNT && self.keys[vx as usize])),
            OpcodeTypes::LDVxDT => self.set_vx(self.memory.delay),
            OpcodeTypes::LDVxK => self.wait_key(),
            OpcodeTypes::LDDTVx => {
                self.memory.delay = vx;
            },
            OpcodeTypes::LDSTVx => {
                self.memory.sound = vx;
            },
            OpcodeTypes::ADDIVx => {
                self.memory.i = ((self.memory.i as u32 + vx as u32) % 0x10000) as u16;
            },
            OpcodeTypes::LDFVx => {
                self.memory.i = ((vx % 0x10) as u16) * 5;
            },
            OpcodeTypes::LDBVx => {
                let i: usize = self.memory.i as usize;
                if i + 3 > MEMORY_SIZE {
                    return Err(CpuError::MemoryRange { word: code, pc });
                }
                self.memory.addr_mem.set(i, vx / 100);
                self.memory.addr_mem.set(i + 1, (vx / 10) % 10);
                self.memory.addr_mem.set(i + 2, vx % 10);
            },
            OpcodeTypes::LDIVx => {
                if self.memory.i as usize + x + 1 > MEMORY_SIZE {
                    return Err(CpuError::MemoryRange { word: code, pc });
                }
                self.store_registers();
            },
            OpcodeTypes::LDVxI => {
                if self.memory.i as usize + x + 1 > MEMORY_SIZE {
                    return Err(CpuError::MemoryRange { word: code, pc });
                }
                self.load_registers();
            },
        }
        Ok(())
    }

    /// Executes the instruction in flight. A random instruction draws its
    /// byte from the thread-local generator; every other instruction is
    /// applied as `apply` gives it.
    pub fn execute(&mut self) -> (r: Result<(), CpuError>)
        requires
            old(self).wf(),
        ensures
            final(self).wf(),
            exists|b: u8| transition(old(self)@.execute(b), old(self)@, r, final(self)@),
            old(self)@.kind != Some(OpcodeTypes::RNDVxbyte) ==> transition(
                old(self)@.execute(0),
                old(self)@,
                r,
                final(self)@,
            ),
    {
        let b: u8 = if matches!(self.opcode.kind, Some(OpcodeTypes::RNDVxbyte)) {
            random_byte()
        } else {
            0
        };
        self.apply(b)
    }

    /// Runs one cycle: fetches the word at the program counter, decodes and
    /// executes it, and advances the program counter by one instruction
    /// unless the instruction placed it. On a failure the machine stays as
    /// it was when the failing step began.
    pub fn step(&mut self) -> (r: Result<(), CpuError>)
        requires
            old(self).wf(),
        ensures
            final(self).wf(),
            exists|b: u8| old(self)@.cycle(b) == (r, final(self)@),
            (old(self)@.fetch() matches Ok(f) && kind_of(f.code) != Some(OpcodeTypes::RNDVxbyte))
                ==> old(self)@.cycle(0) == (r, final(self)@),
    {
        let ghost s0 = self@;
        let r = self.fetch();
        if r.is_err() {
            assert(s0.cycle(0) == (r, self@));
            return r;
        }
        let ghost s1 = self@;
        let r = self.decode();
        if r.is_err() {
            assert(s0.cycle(0) == (r, self@));
            return r;
        }
        let ghost s2 = self@;
        let r = self.execute();
        if r.is_err() {
            assert(exists|b: u8| s0.cycle(b) == (r, self@)) by {
                let b = choose|b: u8| transition(s2.execute(b), s2, r, self@);
                assert(s0.cycle(b) == (r, self@));
            }
            return r;
        }
        let ghost s3 = self@;
        let moves_on = match self.opcode.kind {
            Some(k) => !places_pc(k),
            None => false,
        };
        if moves_on {
            self.memory.pc = ((self.memory.pc as u32 + 2) % 0x10000) as u16;
        }
        assert(exists|b: u8| s0.cycle(b) == (Ok::<(), CpuError>(()), self@)) by {
            let b = choose|b: u8| transition(s2.execute(b), s2, r, s3);
            assert(s0.fetch() == Ok::<Machine, CpuError>(s1));
            assert(s1.decode() == Ok::<Machine, CpuError>(s2));
            assert(s2.execute(b) == Ok::<Machine, CpuError>(s3));
            assert(s3.kind == s2.kind);
            assert(self@ == s3.advance());
            assert(s0.cycle(b) == (Ok::<(), CpuError>(()), self@));
        }
        Ok(())
    }

    /// Whether the machine has just jumped to a jump instruction that
    /// targets itself, so that the program idles there for ever.
    pub fn is_idle_loop(&self) -> (r: bool)
        requires
            self.wf(),
        ensures
            r == self@.idles(),
    {
        let pc: usize = self.memory.pc as usize;
        if !matches!(self.opcode.kind, Some(OpcodeTypes::JPAddr)) || pc + 1 >= MEMORY_SIZE {
            return false;
        }
        let word: u16 = self.memory.addr_mem[pc] as u16 * 0x100 + self.memory.addr_mem[pc + 1] as u16;
        word == self.opcode.code && self.opcode.nnn() == self.memory.pc
    }
}

/// Whether an instruction of kind `k` places the program counter itself.
fn places_pc(k: OpcodeTypes) -> (r: bool)
    ensures
        r == sets_pc(k),
{
    match k {
        OpcodeTypes::RET | OpcodeTypes::JPAddr | OpcodeTypes::CALLAddr | OpcodeTypes::SEVxByte
        | OpcodeTypes::SNEVxByte | OpcodeTypes::SEVxVy | OpcodeTypes::SNEVxVy
        | OpcodeTypes::JPV0Addr | OpcodeTypes::SKPVx | OpcodeTypes::SKNPVx
        | OpcodeTypes::LDVxK => true,
        _ => false,
    }
}

/// Relies on `rand::random`: a byte from the thread-local generator. Any
/// value may come back.
#[verifier::external_body]
fn random_byte() -> (r: u8) {
    rand::random::<u8>()
}

} // verus!
