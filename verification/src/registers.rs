//! The register file: four general-purpose registers addressable as bytes or
//! as words over the same storage, pointer/index registers, the instruction
//! pointer, the status-flag bytes, and the segment registers.
//!
//! The byte/word aliasing is an explicit accessor contract: the two bytes of
//! each general-purpose register are the single source of truth, and the word
//! view is derived by composition on every access, so read-after-write
//! consistency across the views is proved rather than left to storage layout.

use vstd::prelude::*;

use crate::EmuError;
use crate::{hi_byte, lo_byte, word_from_bytes};

verus! {

/// The byte-addressable registers: both halves of each general-purpose
/// register, plus both halves of the status-flag word.
#[derive(Clone, Copy, Debug, PartialEq, Eq, Structural)]
pub enum ByteReg {
    AL,
    AH,
    BL,
    BH,
    CL,
    CH,
    DL,
    DH,
    FlagsL,
    FlagsH,
}

/// The word-addressable registers: the four general-purpose words, the
/// pointer/index registers, and the instruction pointer.
#[derive(Clone, Copy, Debug, PartialEq, Eq, Structural)]
pub enum WordReg {
    AX,
    BX,
    CX,
    DX,
    SP,
    BP,
    SI,
    DI,
    IP,
}

/// The segment registers, opaque 16-bit values to this core: no
/// segment-relative address translation is performed, all addressing is
/// flat-offset.
#[derive(Clone, Copy, Debug, PartialEq, Eq, Structural)]
pub enum SegReg {
    CS,
    DS,
    SS,
    ES,
}

/// A register selector: three disjoint constructor families, so that the
/// byte, word and segment domains never share a raw identifier space.
/// An accessor handed a name of the wrong family fails with
/// `EmuError::InvalidRegister`.
#[derive(Clone, Copy, Debug, PartialEq, Eq, Structural)]
pub enum Regname {
    Byte(ByteReg),
    Word(WordReg),
    Seg(SegReg),
}

impl WordReg {
    /// The four general-purpose word registers, the ones with aliased
    /// byte halves.
    pub open spec fn is_general(self) -> bool {
        self == WordReg::AX || self == WordReg::BX || self == WordReg::CX || self == WordReg::DX
    }

    /// The byte register aliasing the low half of a general-purpose word
    /// register.
    pub open spec fn low_half(self) -> ByteReg {
        match self {
            WordReg::AX => ByteReg::AL,
            WordReg::BX => ByteReg::BL,
            WordReg::CX => ByteReg::CL,
            WordReg::DX => ByteReg::DL,
            _ => ByteReg::AL,
        }
    }

    /// The byte register aliasing the high half of a general-purpose word
    /// register.
    pub open spec fn high_half(self) -> ByteReg {
        match self {
            WordReg::AX => ByteReg::AH,
            WordReg::BX => ByteReg::BH,
            WordReg::CX => ByteReg::CH,
            WordReg::DX => ByteReg::DH,
            _ => ByteReg::AH,
        }
    }
}

/// The register file. Each general-purpose register is stored as its two
/// bytes; the word views are derived, never stored.
#[verifier::ext_equal]
#[derive(Clone, Copy, Debug, PartialEq, Eq, Structural)]
pub struct Registers {
    pub al: u8,
    pub ah: u8,
    pub bl: u8,
    pub bh: u8,
    pub cl: u8,
    pub ch: u8,
    pub dl: u8,
    pub dh: u8,
    pub sp: u16,
    pub bp: u16,
    pub si: u16,
    pub di: u16,
    pub ip: u16,
    pub flags_l: u8,
    pub flags_h: u8,
    pub cs: u16,
    pub ds: u16,
    pub ss: u16,
    pub es: u16,
}

/// A register file with every register zero, the state of a freshly built
/// machine before `reset` applies the power-on vector.
pub open spec fn zeroed_registers() -> Registers {
    Registers {
        al: 0u8,
        ah: 0u8,
        bl: 0u8,
        bh: 0u8,
        cl: 0u8,
        ch: 0u8,
        dl: 0u8,
        dh: 0u8,
        sp: 0u16,
        bp: 0u16,
        si: 0u16,
        di: 0u16,
        ip: 0u16,
        flags_l: 0u8,
        flags_h: 0u8,
        cs: 0u16,
        ds: 0u16,
        ss: 0u16,
        es: 0u16,
    }
}

/// The documented power-on state: general-purpose, pointer/index and flag
/// registers zero; the reset vector is instruction pointer 0xFFF0 with code
/// segment 0xF000 (the hardware-style vector); the other segment registers
/// zero.
pub open spec fn power_on_registers() -> Registers {
    Registers {
        al: 0u8,
        ah: 0u8,
        bl: 0u8,
        bh: 0u8,
        cl: 0u8,
        ch: 0u8,
        dl: 0u8,
        dh: 0u8,
        sp: 0u16,
        bp: 0u16,
        si: 0u16,
        di: 0u16,
        ip: 0xFFF0u16,
        flags_l: 0u8,
        flags_h: 0u8,
        cs: 0xF000u16,
        ds: 0u16,
        ss: 0u16,
        es: 0u16,
    }
}

impl Registers {
    /// The value a byte register holds.
    pub open spec fn byte_view(self, b: ByteReg) -> u8 {
        match b {
            ByteReg::AL => self.al,
            ByteReg::AH => self.ah,
            ByteReg::BL => self.bl,
            ByteReg::BH => self.bh,
            ByteReg::CL => self.cl,
            ByteReg::CH => self.ch,
            ByteReg::DL => self.dl,
            ByteReg::DH => self.dh,
            ByteReg::FlagsL => self.flags_l,
            ByteReg::FlagsH => self.flags_h,
        }
    }

    /// The register file after a byte register is written.
    pub open spec fn with_byte(self, b: ByteReg, v: u8) -> Registers {
        match b {
            ByteReg::AL => Registers { al: v, ..self },
            ByteReg::AH => Registers { ah: v, ..self },
            ByteReg::BL => Registers { bl: v, ..self },
            ByteReg::BH => Registers { bh: v, ..self },
            ByteReg::CL => Registers { cl: v, ..self },
            ByteReg::CH => Registers { ch: v, ..self },
            ByteReg::DL => Registers { dl: v, ..self },
            ByteReg::DH => Registers { dh: v, ..self },
            ByteReg::FlagsL => Registers { flags_l: v, ..self },
            ByteReg::FlagsH => Registers { flags_h: v, ..self },
        }
    }

    /// The value a word register holds; for a general-purpose register it is
    /// composed from the two aliased bytes.
    pub open spec fn word_view(self, w: WordReg) -> u16 {
        match w {
            WordReg::AX => word_from_bytes(self.al, self.ah),
            WordReg::BX => word_from_bytes(self.bl, self.bh),
            WordReg::CX => word_from_bytes(self.cl, self.ch),
            WordReg::DX => word_from_bytes(self.dl, self.dh),
            WordReg::SP => self.sp,
            WordReg::BP => self.bp,
            WordReg::SI => self.si,
            WordReg::DI => self.di,
            WordReg::IP => self.ip,
        }
    }

    /// The register file after a word register is written; writing a
    /// general-purpose register updates both aliased bytes.
    pub open spec fn with_word(self, w: WordReg, v: u16) -> Registers {
        match w {
            WordReg::AX => Registers { al: lo_byte(v), ah: hi_byte(v), ..self },
            WordReg::BX => Registers { bl: lo_byte(v), bh: hi_byte(v), ..self },
            WordReg::CX => Registers { cl: lo_byte(v), ch: hi_byte(v), ..self },
            WordReg::DX => Registers { dl: lo_byte(v), dh: hi_byte(v), ..self },
            WordReg::SP => Registers { sp: v, ..self },
            WordReg::BP => Registers { bp: v, ..self },
            WordReg::SI => Registers { si: v, ..self },
            WordReg::DI => Registers { di: v, ..self },
            WordReg::IP => Registers { ip: v, ..self },
        }
    }

    /// The value a segment register holds.
    pub open spec fn seg_view(self, s: SegReg) -> u16 {
        match s {
            SegReg::CS => self.cs,
            SegReg::DS => self.ds,
            SegReg::SS => self.ss,
            SegReg::ES => self.es,
        }
    }

    /// The register file after a segment register is written.
    pub open spec fn with_seg(self, s: SegReg, v: u16) -> Registers {
        match s {
            SegReg::CS => Registers { cs: v, ..self },
            SegReg::DS => Registers { ds: v, ..self },
            SegReg::SS => Registers { ss: v, ..self },
            SegReg::ES => Registers { es: v, ..self },
        }
    }

    /// A register file with every register zero.
    pub fn new() -> (r: Registers)
        ensures
            r == zeroed_registers(),
    {
        Registers {
            al: 0,
            ah: 0,
            bl: 0,
            bh: 0,
            cl: 0,
            ch: 0,
            dl: 0,
            dh: 0,
            sp: 0,
            bp: 0,
            si: 0,
            di: 0,
            ip: 0,
            flags_l: 0,
            flags_h: 0,
            cs: 0,
            ds: 0,
            ss: 0,
            es: 0,
        }
    }

    /// Reset to the documented power-on state, whatever the prior state.
    pub fn reset(&mut self)
        ensures
            *final(self) == power_on_registers(),
    {
        self.al = 0;
        self.ah = 0;
        self.bl = 0;
        self.bh = 0;
        self.cl = 0;
        self.ch = 0;
        self.dl = 0;
        self.dh = 0;
        self.sp = 0;
        self.bp = 0;
        self.si = 0;
        self.di = 0;
        self.ip = 0xFFF0;
        self.flags_l = 0;
        self.flags_h = 0;
        self.cs = 0xF000;
        self.ds = 0;
        self.ss = 0;
        self.es = 0;
    }

    /// Read a byte register directly by its family name.
    pub fn read_byte_reg(&self, b: ByteReg) -> (r: u8)
        ensures
            r == self.byte_view(b),
    {
        match b {
            ByteReg::AL => self.al,
            ByteReg::AH => self.ah,
            ByteReg::BL => self.bl,
            ByteReg::BH => self.bh,
            ByteReg::CL => self.cl,
            ByteReg::CH => self.ch,
            ByteReg::DL => self.dl,
            ByteReg::DH => self.dh,
            ByteReg::FlagsL => self.flags_l,
            ByteReg::FlagsH => self.flags_h,
        }
    }

    /// Write a byte register directly by its family name. The change is
    /// immediately visible through the word view of the register it halves.
    pub fn write_byte_reg(&mut self, b: ByteReg, v: u8)
        ensures
            *final(self) == old(self).with_byte(b, v),
    {
        match b {
            ByteReg::AL => self.al = v,
            ByteReg::AH => self.ah = v,
            ByteReg::BL => self.bl = v,
            ByteReg::BH => self.bh = v,
            ByteReg::CL => self.cl = v,
            ByteReg::CH => self.ch = v,
            ByteReg::DL => self.dl = v,
            ByteReg::DH => self.dh = v,
            ByteReg::FlagsL => self.flags_l = v,
            ByteReg::FlagsH => self.flags_h = v,
        }
    }

    /// Read a word register directly by its family name; a general-purpose
    /// word is composed from its two byte halves.
    pub fn read_word_reg(&self, w: WordReg) -> (r: u16)
        ensures
            r == self.word_view(w),
    {
        match w {
            WordReg::AX => (self.al as u16) + 256 * (self.ah as u16),
            WordReg::BX => (self.bl as u16) + 256 * (self.bh as u16),
            WordReg::CX => (self.cl as u16) + 256 * (self.ch as u16),
            WordReg::DX => (self.dl as u16) + 256 * (self.dh as u16),
            WordReg::SP => self.sp,
            WordReg::BP => self.bp,
            WordReg::SI => self.si,
            WordReg::DI => self.di,
            WordReg::IP => self.ip,
        }
    }

    /// Write a word register directly by its family name; a general-purpose
    /// write deterministically updates both byte halves (low byte
    /// `v & 0xFF`, high byte `v >> 8`).
    pub fn write_word_reg(&mut self, w: WordReg, v: u16)
        ensures
            *final(self) == old(self).with_word(w, v),
    {
        match w {
            WordReg::AX => {
                self.al = (v % 256) as u8;
                self.ah = (v / 256) as u8;
            },
            WordReg::BX => {
                self.bl = (v % 256) as u8;
                self.bh = (v / 256) as u8;
            },
            WordReg::CX => {
                self.cl = (v % 256) as u8;
                self.ch = (v / 256) as u8;
            },
            WordReg::DX => {
                self.dl = (v % 256) as u8;
                self.dh = (v / 256) as u8;
            },
            WordReg::SP => self.sp = v,
            WordReg::BP => self.bp = v,
            WordReg::SI => self.si = v,
            WordReg::DI => self.di = v,
            WordReg::IP => self.ip = v,
        }
    }

    /// Read a segment register directly by its family name.
    pub fn read_seg_reg(&self, s: SegReg) -> (r: u16)
        ensures
            r == self.seg_view(s),
    {
        match s {
            SegReg::CS => self.cs,
            SegReg::DS => self.ds,
            SegReg::SS => self.ss,
            SegReg::ES => self.es,
        }
    }

    /// Write a segment register directly by its family name.
    pub fn write_seg_reg(&mut self, s: SegReg, v: u16)
        ensures
            *final(self) == old(self).with_seg(s, v),
    {
        match s {
            SegReg::CS => self.cs = v,
            SegReg::DS => self.ds = v,
            SegReg::SS => self.ss = v,
            SegReg::ES => self.es = v,
        }
    }

    /// Read a byte register by selector. Succeeds exactly on byte-family
    /// names; any other selector is an `InvalidRegister` error.
    pub fn get_byte(&self, name: Regname) -> (r: Result<u8, EmuError>)
        ensures
            match name {
                Regname::Byte(b) => r == Ok::<u8, EmuError>(self.byte_view(b)),
                _ => r == Err::<u8, EmuError>(EmuError::InvalidRegister),
            },
    {
        match name {
            Regname::Byte(b) => Ok(self.read_byte_reg(b)),
            _ => Err(EmuError::InvalidRegister),
        }
    }

    /// Write a byte register by selector. Succeeds exactly on byte-family
    /// names and changes nothing otherwise.
    pub fn set_byte(&mut self, name: Regname, value: u8) -> (r: Result<(), EmuError>)
        ensures
            match name {
                Regname::Byte(b) => r == Ok::<(), EmuError>(()) && *final(self) == old(self).with_byte(b, value),
                _ => r == Err::<(), EmuError>(EmuError::InvalidRegister) && *final(self) == *old(self),
            },
    {
        match name {
            Regname::Byte(b) => {
                self.write_byte_reg(b, value);
                Ok(())
            },
            _ => Err(EmuError::InvalidRegister),
        }
    }

    /// Read a word register by selector: word-family and segment-family
    /// names succeed; a byte-family selector is an `InvalidRegister` error.
    pub fn get_word(&self, name: Regname) -> (r: Result<u16, EmuError>)
        ensures
            match name {
                Regname::Word(w) => r == Ok::<u16, EmuError>(self.word_view(w)),
                Regname::Seg(s) => r == Ok::<u16, EmuError>(self.seg_view(s)),
                Regname::Byte(_) => r == Err::<u16, EmuError>(EmuError::InvalidRegister),
            },
    {
        match name {
            Regname::Word(w) => Ok(self.read_word_reg(w)),
            Regname::Seg(s) => Ok(self.read_seg_reg(s)),
            Regname::Byte(_) => Err(EmuError::InvalidRegister),
        }
    }

    /// Write a word register by selector: word-family and segment-family
    /// names succeed; a byte-family selector is an `InvalidRegister` error
    /// and changes nothing.
    pub fn set_word(&mut self, name: Regname, value: u16) -> (r: Result<(), EmuError>)
        ensures
            match name {
                Regname::Word(w) => r == Ok::<(), EmuError>(()) && *final(self) == old(self).with_word(w, value),
                Regname::Seg(s) => r == Ok::<(), EmuError>(()) && *final(self) == old(self).with_seg(s, value),
                Regname::Byte(_) => r == Err::<(), EmuError>(EmuError::InvalidRegister) && *final(self) == *old(self),
            },
    {
        match name {
            Regname::Word(w) => {
                self.write_word_reg(w, value);
                Ok(())
            },
            Regname::Seg(s) => {
                self.write_seg_reg(s, value);
                Ok(())
            },
            Regname::Byte(_) => Err(EmuError::InvalidRegister),
        }
    }
}

/// Aliasing invariant, write side: for every 16-bit value written to a
/// general-purpose word register, the low byte view reads `v & 0xFF`, the
/// high byte view reads `v >> 8`, and the word view reads the value back.
pub proof fn lemma_word_write_byte_views(r: Registers, w: WordReg, v: u16)
    requires
        w.is_general(),
    ensures
        r.with_word(w, v).byte_view(w.low_half()) == v & 0xFF,
        r.with_word(w, v).byte_view(w.high_half()) == v >> 8,
        r.with_word(w, v).word_view(w) == v,
{
    assert(v % 256 == v & 0xFF) by (bit_vector);
    assert(v / 256 == v >> 8) by (bit_vector);
    assert(v % 256 + 256 * (v / 256) == v) by (bit_vector);
}

/// Aliasing invariant, byte side: writing either half of a general-purpose
/// register is immediately reflected in the word view, which composes the
/// written byte with the untouched other half.
pub proof fn lemma_byte_write_word_view(r: Registers, w: WordReg, b: u8)
    requires
        w.is_general(),
    ensures
        r.with_byte(w.low_half(), b).word_view(w) == word_from_bytes(b, r.byte_view(w.high_half())),
        r.with_byte(w.high_half(), b).word_view(w) == word_from_bytes(r.byte_view(w.low_half()), b),
{
}

} // verus!
