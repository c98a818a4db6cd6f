//! Instruction decoding: the opcode dispatch table, the decomposition of the
//! ModRM-style addressing byte into its mode, register and register/memory
//! fields, the field-to-register mappings, displacement sizing, effective
//! address computation, and the per-instruction flag-update hook.

use vstd::prelude::*;

use crate::registers::{ByteReg, Registers, WordReg};

verus! {

/// The opcode dispatch table. An opcode byte with no entry here signals
/// `EmuError::UnimplementedOpcode`; the table is open and grows one
/// instruction at a time.
pub struct InstSets;

impl InstSets {
    /// Move byte, register-or-memory destination, register source.
    pub const MOV_EB_GB: u8 = 0x88;

    /// Move word, register-or-memory destination, register source.
    pub const MOV_EV_GV: u8 = 0x89;

    /// No operation: a single byte, no operands, no flags.
    pub const NOP: u8 = 0x90;

    /// Whether an opcode byte has a table entry.
    pub open spec fn spec_defined(op: u8) -> bool {
        op == InstSets::MOV_EB_GB || op == InstSets::MOV_EV_GV || op == InstSets::NOP
    }

    /// Whether an opcode byte has a table entry.
    pub fn is_defined(op: u8) -> (r: bool)
        ensures
            r == InstSets::spec_defined(op),
    {
        op == InstSets::MOV_EB_GB || op == InstSets::MOV_EV_GV || op == InstSets::NOP
    }

    /// The flag-update discipline of a defined opcode. Move and no-operation
    /// instructions do not touch flags; a flag-affecting instruction added to
    /// the table brings its own effect here.
    pub open spec fn spec_flag_effect(op: u8) -> FlagEffect {
        FlagEffect::Preserve
    }

    /// The flag-update discipline of a defined opcode.
    pub fn flag_effect(op: u8) -> (r: FlagEffect)
        ensures
            r == InstSets::spec_flag_effect(op),
    {
        FlagEffect::Preserve
    }
}

/// The per-instruction flag-update hook: what an instruction does to the
/// status flags after its result is computed. The instructions implemented
/// so far all preserve the flags; arithmetic and logical instructions extend
/// this with their own update rules as they are added.
#[derive(Clone, Copy, Debug, PartialEq, Eq, Structural)]
pub enum FlagEffect {
    /// The status flags are left exactly as they were.
    Preserve,
}

/// The register file after a flag effect is applied.
pub open spec fn spec_apply_flag_effect(r: Registers, e: FlagEffect) -> Registers {
    match e {
        FlagEffect::Preserve => r,
    }
}

/// Apply a flag effect to the register file.
pub fn apply_flag_effect(r: &mut Registers, e: FlagEffect)
    ensures
        *final(r) == spec_apply_flag_effect(*old(r), e),
{
    match e {
        FlagEffect::Preserve => (),
    }
}

/// The mode field of an addressing byte: its two highest bits.
pub open spec fn spec_mod_bits(b: u8) -> u8 {
    (b >> 6) & 3
}

/// The register field of an addressing byte: its three middle bits.
pub open spec fn spec_reg_field(b: u8) -> u8 {
    (b >> 3) & 7
}

/// The register/memory field of an addressing byte: its three lowest bits.
pub open spec fn spec_rm_field(b: u8) -> u8 {
    b & 7
}

/// A decomposed ModRM-style addressing byte: the 2-bit mode field and the
/// two 3-bit operand fields.
#[derive(Clone, Copy, Debug, PartialEq, Eq, Structural)]
pub struct Modrm {
    pub mod_bits: u8,
    pub reg: u8,
    pub rm: u8,
}

impl Modrm {
    /// The fields fit their widths.
    pub open spec fn wf(self) -> bool {
        self.mod_bits < 4 && self.reg < 8 && self.rm < 8
    }

    /// Decompose an addressing byte into its three fields.
    pub fn decode(b: u8) -> (r: Modrm)
        ensures
            r.mod_bits == spec_mod_bits(b),
            r.reg == spec_reg_field(b),
            r.rm == spec_rm_field(b),
            r.wf(),
    {
        proof {
            lemma_modrm_fields_bounded(b);
        }
        Modrm { mod_bits: (b >> 6) & 3, reg: (b >> 3) & 7, rm: b & 7 }
    }

    /// The number of displacement bytes this addressing byte asks for.
    pub fn disp_size(&self) -> (r: u8)
        ensures
            r == spec_disp_size(self.mod_bits, self.rm),
    {
        if self.mod_bits == 1 {
            1
        } else if self.mod_bits == 2 {
            2
        } else if self.mod_bits == 0 && self.rm == 6 {
            2
        } else {
            0
        }
    }
}

/// The decomposed fields of an addressing byte fit their widths.
pub proof fn lemma_modrm_fields_bounded(b: u8)
    ensures
        spec_mod_bits(b) < 4,
        spec_reg_field(b) < 8,
        spec_rm_field(b) < 8,
{
    assert((b >> 6) & 3 < 4) by (bit_vector);
    assert((b >> 3) & 7 < 8) by (bit_vector);
    assert(b & 7 < 8) by (bit_vector);
}

/// The byte register selected by a 3-bit field. The ordering differs from
/// the word-register ordering at fields 4 to 7: the high halves come after
/// the low halves, not the pointer/index registers.
pub open spec fn spec_reg8(code: u8) -> ByteReg {
    if code == 0 {
        ByteReg::AL
    } else if code == 1 {
        ByteReg::CL
    } else if code == 2 {
        ByteReg::DL
    } else if code == 3 {
        ByteReg::BL
    } else if code == 4 {
        ByteReg::AH
    } else if code == 5 {
        ByteReg::CH
    } else if code == 6 {
        ByteReg::DH
    } else {
        ByteReg::BH
    }
}

/// The word register selected by a 3-bit field.
pub open spec fn spec_reg16(code: u8) -> WordReg {
    if code == 0 {
        WordReg::AX
    } else if code == 1 {
        WordReg::CX
    } else if code == 2 {
        WordReg::DX
    } else if code == 3 {
        WordReg::BX
    } else if code == 4 {
        WordReg::SP
    } else if code == 5 {
        WordReg::BP
    } else if code == 6 {
        WordReg::SI
    } else {
        WordReg::DI
    }
}

/// The number of displacement bytes a (mode, register/memory) pair consumes:
/// none in register-direct mode, one in mode 0b01, two in mode 0b10, and two
/// for the direct-address special case (mode 0b00 with field 0b110).
pub open spec fn spec_disp_size(mod_bits: u8, rm: u8) -> nat {
    if mod_bits == 1 {
        1nat
    } else if mod_bits == 2 {
        2nat
    } else if mod_bits == 0 && rm == 6 {
        2nat
    } else {
        0nat
    }
}

/// An 8-bit displacement sign-extended to 16 bits.
pub open spec fn spec_sign_extend(b: u8) -> u16 {
    if b < 128 {
        b as u16
    } else {
        (0xFF00 + b) as u16
    }
}

/// An 8-bit displacement sign-extended to 16 bits.
pub fn sign_extend(b: u8) -> (r: u16)
    ensures
        r == spec_sign_extend(b),
{
    if b < 128 {
        b as u16
    } else {
        0xFF00u16 + (b as u16)
    }
}

/// The base/index register combination a register/memory field selects, as
/// the standard table has it: BX+SI, BX+DI, BP+SI, BP+DI, SI, DI, BP, BX.
/// (Field 6 stands for BP only outside mode 0b00; in mode 0b00 it is the
/// direct-address case, which has no base.)
pub open spec fn spec_base_index(r: Registers, rm: u8) -> int {
    if rm == 0 {
        r.word_view(WordReg::BX) + r.word_view(WordReg::SI)
    } else if rm == 1 {
        r.word_view(WordReg::BX) + r.word_view(WordReg::DI)
    } else if rm == 2 {
        r.word_view(WordReg::BP) + r.word_view(WordReg::SI)
    } else if rm == 3 {
        r.word_view(WordReg::BP) + r.word_view(WordReg::DI)
    } else if rm == 4 {
        r.word_view(WordReg::SI) as int
    } else if rm == 5 {
        r.word_view(WordReg::DI) as int
    } else if rm == 6 {
        r.word_view(WordReg::BP) as int
    } else {
        r.word_view(WordReg::BX) as int
    }
}

/// The effective address of a memory operand: the base/index combination
/// plus the displacement, modulo the 16-bit address space; in the
/// direct-address case the displacement is the address.
pub open spec fn spec_ea(r: Registers, mod_bits: u8, rm: u8, disp: u16) -> u16 {
    if mod_bits == 0 && rm == 6 {
        disp
    } else {
        ((spec_base_index(r, rm) + disp) % 0x10000) as u16
    }
}

/// Addressing-mode completeness: every addressing byte decomposes into
/// in-range fields, so every (mode, register/memory) pair reaches a defined
/// register mapping or a defined effective address; register-direct mode
/// (0b11) never consumes a displacement, and no pair consumes more than two
/// displacement bytes.
pub proof fn lemma_addressing_complete(b: u8)
    ensures
        spec_mod_bits(b) < 4,
        spec_reg_field(b) < 8,
        spec_rm_field(b) < 8,
        spec_mod_bits(b) == 3 ==> spec_disp_size(spec_mod_bits(b), spec_rm_field(b)) == 0,
        spec_disp_size(spec_mod_bits(b), spec_rm_field(b)) <= 2,
{
    lemma_modrm_fields_bounded(b);
}

} // verus!
