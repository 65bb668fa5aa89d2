//! Decoding of 16-bit instruction words into instruction kinds and operands.

use vstd::prelude::*;

verus! {

/// The instruction kinds of the CHIP-8 instruction set.
#[derive(PartialEq, Eq, Structural, Debug, Clone, Copy)]
pub enum OpcodeTypes {
    /// `0nnn`: call a machine-code routine; ignored by this interpreter.
    SYSAddr,
    /// `00E0`: clear the display.
    CLS,
    /// `00EE`: return from a subroutine.
    RET,
    /// `1nnn`: jump to `nnn`.
    JPAddr,
    /// `2nnn`: call the subroutine at `nnn`.
    CALLAddr,
    /// `3xkk`: skip the next instruction if `Vx == kk`.
    SEVxByte,
    /// `4xkk`: skip the next instruction if `Vx != kk`.
    SNEVxByte,
    /// `5xy0`: skip the next instruction if `Vx == Vy`.
    SEVxVy,
    /// `6xkk`: `Vx = kk`.
    LDVxbyte,
    /// `7xkk`: `Vx = Vx + kk`, wrapping.
    ADDVxbyte,
    /// `8xy0`: `Vx = Vy`.
    LDVxVy,
    /// `8xy1`: `Vx = Vx | Vy`.
    ORVxVy,
    /// `8xy2`: `Vx = Vx & Vy`.
    ANDVxVy,
    /// `8xy3`: `Vx = Vx ^ Vy`.
    XORVxVy,
    /// `8xy4`: `Vx = Vx + Vy`, `VF` = carry.
    ADDVxVy,
    /// `8xy5`: `Vx = Vx - Vy`, `VF` = no borrow.
    SUBVxVy,
    /// `8xy6`: `Vx = Vx >> 1`, `VF` = the bit shifted out.
    SHRVxVy,
    /// `8xy7`: `Vx = Vy - Vx`, `VF` = no borrow.
    SUBNVxVy,
    /// `8xyE`: `Vx = Vx << 1`, `VF` = the bit shifted out.
    SHLVxVy,
    /// `9xy0`: skip the next instruction if `Vx != Vy`.
    SNEVxVy,
    /// `Annn`: `I = nnn`.
    LDIAddr,
    /// `Bnnn`: jump to `nnn + V0`.
    JPV0Addr,
    /// `Cxkk`: `Vx` = a random byte masked with `kk`.
    RNDVxbyte,
    /// `Dxyn`: draw an `n`-row sprite from `I` at `(Vx, Vy)`.
    DRWVxVyNibble,
    /// `Ex9E`: skip the next instruction if key `Vx` is pressed.
    SKPVx,
    /// `ExA1`: skip the next instruction if key `Vx` is not pressed.
    SKNPVx,
    /// `Fx07`: `Vx` = delay timer.
    LDVxDT,
    /// `Fx0A`: wait for a key press and store its number in `Vx`.
    LDVxK,
    /// `Fx15`: delay timer = `Vx`.
    LDDTVx,
    /// `Fx18`: sound timer = `Vx`.
    LDSTVx,
    /// `Fx1E`: `I = I + Vx`.
    ADDIVx,
    /// `Fx29`: `I` = address of the font glyph for the low nibble of `Vx`.
    LDFVx,
    /// `Fx33`: store the decimal digits of `Vx` at `I`, `I+1`, `I+2`.
    LDBVx,
    /// `Fx55`: store `V0..=Vx` at `I..=I+x`.
    LDIVx,
    /// `Fx65`: load `V0..=Vx` from `I..=I+x`.
    LDVxI,
}

/// The instruction kind that a word encodes, or `None` where the word is
/// not an instruction. The top nibble selects a group; groups `0`, `5`,
/// `8`, `9`, `E` and `F` are further keyed by the low nibble or low byte.
pub open spec fn kind_of(w: u16) -> Option<OpcodeTypes> {
    let top = w / 0x1000;
    let n = w % 0x10;
    let kk = w % 0x100;
    if w == 0x00E0 {
        Some(OpcodeTypes::CLS)
    } else if w == 0x00EE {
        Some(OpcodeTypes::RET)
    } else if top == 0x0 {
        Some(OpcodeTypes::SYSAddr)
    } else if top == 0x1 {
        Some(OpcodeTypes::JPAddr)
    } else if top == 0x2 {
        Some(OpcodeTypes::CALLAddr)
    } else if top == 0x3 {
        Some(OpcodeTypes::SEVxByte)
    } else if top == 0x4 {
        Some(OpcodeTypes::SNEVxByte)
    } else if top == 0x5 {
        if n == 0x0 { Some(OpcodeTypes::SEVxVy) } else { None }
    } else if top == 0x6 {
        Some(OpcodeTypes::LDVxbyte)
    } else if top == 0x7 {
        Some(OpcodeTypes::ADDVxbyte)
    } else if top == 0x8 {
        if n == 0x0 {
            Some(OpcodeTypes::LDVxVy)
        } else if n == 0x1 {
            Some(OpcodeTypes::ORVxVy)
        } else if n == 0x2 {
            Some(OpcodeTypes::ANDVxVy)
        } else if n == 0x3 {
            Some(OpcodeTypes::XORVxVy)
        } else if n == 0x4 {
            Some(OpcodeTypes::ADDVxVy)
        } else if n == 0x5 {
            Some(OpcodeTypes::SUBVxVy)
        } else if n == 0x6 {
            Some(OpcodeTypes::SHRVxVy)
        } else if n == 0x7 {
            Some(OpcodeTypes::SUBNVxVy)
        } else if n == 0xE {
            Some(OpcodeTypes::SHLVxVy)
        } else {
            None
        }
    } else if top == 0x9 {
        if n == 0x0 { Some(OpcodeTypes::SNEVxVy) } else { None }
    } else if top == 0xA {
        Some(OpcodeTypes::LDIAddr)
    } else if top == 0xB {
        Some(OpcodeTypes::JPV0Addr)
    } else if top == 0xC {
        Some(OpcodeTypes::RNDVxbyte)
    } else if top == 0xD {
        Some(OpcodeTypes::DRWVxVyNibble)
    } else if top == 0xE {
        if kk == 0x9E {
            Some(OpcodeTypes::SKPVx)
        } else if kk == 0xA1 {
            Some(OpcodeTypes::SKNPVx)
        } else {
            None
        }
    } else {
        if kk == 0x07 {
            Some(OpcodeTypes::LDVxDT)
        } else if kk == 0x0A {
            Some(OpcodeTypes::LDVxK)
        } else if kk == 0x15 {
            Some(OpcodeTypes::LDDTVx)
        } else if kk == 0x18 {
            Some(OpcodeTypes::LDSTVx)
        } else if kk == 0x1E {
            Some(OpcodeTypes::ADDIVx)
        } else if kk == 0x29 {
            Some(OpcodeTypes::LDFVx)
        } else if kk == 0x33 {
            Some(OpcodeTypes::LDBVx)
        } else if kk == 0x55 {
            Some(OpcodeTypes::LDIVx)
        } else if kk == 0x65 {
            Some(OpcodeTypes::LDVxI)
        } else {
            None
        }
    }
}

/// The register named by the second nibble of a word.
pub open spec fn spec_x(w: u16) -> int {
    (w as int / 0x100) % 0x10
}

/// The register named by the third nibble of a word.
pub open spec fn spec_y(w: u16) -> int {
    (w as int / 0x10) % 0x10
}

/// The low nibble of a word.
pub open spec fn spec_n(w: u16) -> int {
    w as int % 0x10
}

/// The low byte of a word.
pub open spec fn spec_kk(w: u16) -> int {
    w as int % 0x100
}

/// The low twelve bits of a word: an address.
pub open spec fn spec_nnn(w: u16) -> int {
    w as int % 0x1000
}

/// An instruction word together with its decoded kind, if it has been
/// decoded.
pub struct Opcode {
    pub code: u16,
    pub kind: Option<OpcodeTypes>,
}

impl Opcode {
    /// Decodes an instruction word into its kind.
    pub fn find_kind(opcode: u16) -> (r: Result<OpcodeTypes, String>)
        ensures
            r is Ok <==> kind_of(opcode) is Some,
            r matches Ok(k) ==> kind_of(opcode) == Some(k),
            r matches Err(e) ==> e@ == "Incorrect Opcode"@,
    {
        let top: u16 = opcode / 0x1000;
        let n: u16 = opcode % 0x10;
        let kk: u16 = opcode % 0x100;
        let found: Option<OpcodeTypes> = if opcode == 0x00E0 {
            Some(OpcodeTypes::CLS)
        } else if opcode == 0x00EE {
            Some(OpcodeTypes::RET)
        } else if top == 0x0 {
            Some(OpcodeTypes::SYSAddr)
        } else if top == 0x1 {
            Some(OpcodeTypes::JPAddr)
        } else if top == 0x2 {
            Some(OpcodeTypes::CALLAddr)
        } else if top == 0x3 {
            Some(OpcodeTypes::SEVxByte)
        } else if top == 0x4 {
            Some(OpcodeTypes::SNEVxByte)
        } else if top == 0x5 {
            if n == 0x0 { Some(OpcodeTypes::SEVxVy) } else { None }
        } else if top == 0x6 {
            Some(OpcodeTypes::LDVxbyte)
        } else if top == 0x7 {
            Some(OpcodeTypes::ADDVxbyte)
        } else if top == 0x8 {
            match n {
                0x0 => Some(OpcodeTypes::LDVxVy),
                0x1 => Some(OpcodeTypes::ORVxVy),
                0x2 => Some(OpcodeTypes::ANDVxVy),
                0x3 => Some(OpcodeTypes::XORVxVy),
                0x4 => Some(OpcodeTypes::ADDVxVy),
                0x5 => Some(OpcodeTypes::SUBVxVy),
                0x6 => Some(OpcodeTypes::SHRVxVy),
                0x7 => Some(OpcodeTypes::SUBNVxVy),
                0xE => Some(OpcodeTypes::SHLVxVy),
                _ => None,
            }
        } else if top == 0x9 {
            if n == 0x0 { Some(OpcodeTypes::SNEVxVy) } else { None }
        } else if top == 0xA {
            Some(OpcodeTypes::LDIAddr)
        } else if top == 0xB {
            Some(OpcodeTypes::JPV0Addr)
        } else if top == 0xC {
            Some(OpcodeTypes::RNDVxbyte)
        } else if top == 0xD {
            Some(OpcodeTypes::DRWVxVyNibble)
        } else if top == 0xE {
            match kk {
                0x9E => Some(OpcodeTypes::SKPVx),
                0xA1 => Some(OpcodeTypes::SKNPVx),
                _ => None,
            }
        } else {
            match kk {
                0x07 => Some(OpcodeTypes::LDVxDT),
                0x0A => Some(OpcodeTypes::LDVxK),
                0x15 => Some(OpcodeTypes::LDDTVx),
                0x18 => Some(OpcodeTypes::LDSTVx),
                0x1E => Some(OpcodeTypes::ADDIVx),
                0x29 => Some(OpcodeTypes::LDFVx),
                0x33 => Some(OpcodeTypes::LDBVx),
                0x55 => Some(OpcodeTypes::LDIVx),
                0x65 => Some(OpcodeTypes::LDVxI),
                _ => None,
            }
        };
        match found {
            Some(k) => Ok(k),
            None => Err("Incorrect Opcode".to_string()),
        }
    }

    /// The register named by the second nibble.
    pub fn x(&self) -> (r: usize)
        ensures
            r == spec_x(self.code),
            r < 0x10,
    {
        ((self.code / 0x100) % 0x10) as usize
    }

    /// The register named by the third nibble.
    pub fn y(&self) -> (r: usize)
        ensures
            r == spec_y(self.code),
            r < 0x10,
    {
        ((self.code / 0x10) % 0x10) as usize
    }

    /// The low nibble.
    pub fn n(&self) -> (r: u8)
        ensures
            r == spec_n(self.code),
    {
        (self.code % 0x10) as u8
    }

    /// The low byte.
    pub fn kk(&self) -> (r: u8)
        ensures
            r == spec_kk(self.code),
    {
        (self.code % 0x100) as u8
    }

    /// The low twelve bits: an address.
    pub fn nnn(&self) -> (r: u16)
        ensures
            r == spec_nnn(self.code),
    {
        self.code % 0x1000
    }
}

} // verus!
