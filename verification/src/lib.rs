//! Execution core of a 16-bit microprocessor: a register file whose byte and
//! word views alias the same storage, a flat 64 KiB memory bus, an instruction
//! decoder for ModRM-style addressing, and a fetch-decode-execute loop with
//! cycle accounting. Every state change is specified against a mathematical
//! model of the machine and proved.

use vstd::prelude::*;

pub mod decode;
pub mod memory;
pub mod processor;
pub mod registers;

pub use decode::{FlagEffect, InstSets, Modrm};
pub use memory::{Memory, MEM_SIZE};
pub use processor::{MachineView, Processor};
pub use registers::{ByteReg, Regname, Registers, SegReg, WordReg};

verus! {

/// The error taxonomy of the core.
#[derive(Clone, Copy, Debug, PartialEq, Eq, Structural)]
pub enum EmuError {
    /// A register selector of the wrong family reached an accessor
    /// (a word name where a byte register was needed, or the reverse).
    InvalidRegister,
    /// The fetched opcode byte has no entry in the dispatch table.
    /// Fatal to the current run, not to the machine.
    UnimplementedOpcode,
    /// An effective-address computation path not supported by the current
    /// build. The full addressing-mode table is implemented here, so no
    /// input currently produces it; it is kept distinct from
    /// `UnimplementedOpcode` so decode-table completeness and
    /// addressing-mode completeness can be told apart.
    AddressingNotImplemented,
}

/// The low byte of a 16-bit value.
pub open spec fn lo_byte(v: u16) -> u8 {
    (v % 256) as u8
}

/// The high byte of a 16-bit value.
pub open spec fn hi_byte(v: u16) -> u8 {
    (v / 256) as u8
}

/// The 16-bit word composed of a low and a high byte.
pub open spec fn word_from_bytes(lo: u8, hi: u8) -> u16 {
    (lo + 256 * hi) as u16
}

/// A 16-bit address or instruction pointer incremented by one, wrapping
/// within the 16-bit range.
pub open spec fn wrap_inc(a: u16) -> u16 {
    if a == 0xFFFF {
        0u16
    } else {
        (a + 1) as u16
    }
}

/// A 16-bit address or instruction pointer advanced by `n`, wrapping within
/// the 16-bit range.
pub open spec fn wrap_add(a: u16, n: nat) -> u16 {
    ((a + n) % 0x10000) as u16
}

/// Advancing one-by-one composes: one wrapping increment followed by `n`
/// more wrapping steps lands where `n + 1` wrapping steps land.
pub proof fn lemma_wrap_add_inc(a: u16, n: nat)
    ensures
        wrap_add(wrap_inc(a), n) == wrap_add(a, n + 1),
{
    assert(wrap_inc(a) == (a + 1) % 0x10000);
    vstd::arithmetic::div_mod::lemma_add_mod_noop_right(n as int, a + 1, 0x10000);
}

/// A cycle budget lowered by one, saturating at zero.
pub open spec fn sat_dec(c: u32) -> u32 {
    if c == 0 {
        0u32
    } else {
        (c - 1) as u32
    }
}

/// A cycle budget lowered by `n`, saturating at zero.
pub open spec fn sat_sub(c: u32, n: nat) -> u32 {
    if n >= c {
        0u32
    } else {
        (c - n) as u32
    }
}

/// Lowering a budget in two steps is the same as lowering it by the sum.
pub proof fn lemma_sat_sub_compose(c: u32, a: nat, b: nat)
    ensures
        sat_sub(sat_sub(c, a), b) == sat_sub(c, a + b),
{
}

} // verus!
