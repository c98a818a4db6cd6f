//! The execution engine: one register file and one memory bus, exclusively
//! owned, driven by a fetch-decode-execute loop under a cycle budget. One
//! budget unit pays for one fetched instruction byte; once an instruction's
//! opcode is fetched the instruction completes even if the budget runs out
//! over its remaining bytes (the budget saturates at zero), so a run stops at
//! an instruction boundary only when the budget aligns with one.
//!
//! The loop's whole effect is specified by a machine-state interpreter
//! (`spec_step` for one instruction, `spec_run` for a budgeted run), and
//! `execute` is proved to realize it exactly.

use vstd::prelude::*;

use crate::decode::{
    apply_flag_effect, spec_apply_flag_effect, spec_disp_size, spec_ea, spec_mod_bits, spec_reg16,
    spec_reg8, spec_reg_field, spec_rm_field, spec_sign_extend, sign_extend, InstSets, Modrm,
};
use crate::memory::{Memory, MEM_SIZE};
use crate::registers::{power_on_registers, zeroed_registers, ByteReg, Registers, WordReg};
use crate::EmuError;
use crate::{
    hi_byte, lemma_sat_sub_compose, lemma_wrap_add_inc, lo_byte, sat_dec, sat_sub, word_from_bytes,
    wrap_add, wrap_inc,
};

verus! {

/// A single machine instance: exactly one register file and one memory bus.
pub struct Processor {
    pub registers: Registers,
    pub memory: Memory,
}

/// The mathematical state of the machine: the register file and the memory
/// contents as a sequence of bytes.
#[verifier::ext_equal]
pub struct MachineView {
    pub regs: Registers,
    pub mem: Seq<u8>,
}

impl View for Processor {
    type V = MachineView;

    open spec fn view(&self) -> MachineView {
        MachineView { regs: self.registers, mem: self.memory@ }
    }
}

/// One instruction byte fetched at the instruction pointer: the byte read,
/// and the machine with the pointer advanced by one, wrapping within the
/// 16-bit range.
pub open spec fn spec_fetch(m: MachineView) -> (MachineView, u8) {
    let b = m.mem[m.regs.ip as int];
    (MachineView { regs: Registers { ip: wrap_inc(m.regs.ip), ..m.regs }, mem: m.mem }, b)
}

/// The displacement a (mode, register/memory) pair fetches from the
/// instruction stream: none, one sign-extended byte, or a little-endian
/// word; the machine returned has consumed exactly those bytes.
pub open spec fn spec_fetch_disp(m: MachineView, mod_bits: u8, rm: u8) -> (MachineView, u16) {
    if mod_bits == 1 {
        let (m1, b) = spec_fetch(m);
        (m1, spec_sign_extend(b))
    } else if mod_bits == 2 || (mod_bits == 0 && rm == 6) {
        let (m1, lo) = spec_fetch(m);
        let (m2, hi) = spec_fetch(m1);
        (m2, word_from_bytes(lo, hi))
    } else {
        (m, 0u16)
    }
}

/// One move instruction, after its opcode byte: fetch the addressing byte,
/// then either a register-to-register move (mode 0b11) or a store of the
/// source register to the computed effective address, little-endian when
/// wide. Returns the machine after the instruction and the number of bytes
/// consumed after the opcode. Move instructions never fail: every (mode,
/// register/memory) pair resolves.
pub open spec fn spec_mov(m: MachineView, wide: bool) -> (MachineView, nat) {
    let (m1, arg) = spec_fetch(m);
    let mod_bits = spec_mod_bits(arg);
    let reg = spec_reg_field(arg);
    let rm = spec_rm_field(arg);
    if mod_bits == 3 {
        let regs2 = if wide {
            m1.regs.with_word(spec_reg16(rm), m1.regs.word_view(spec_reg16(reg)))
        } else {
            m1.regs.with_byte(spec_reg8(rm), m1.regs.byte_view(spec_reg8(reg)))
        };
        (MachineView { regs: regs2, mem: m1.mem }, 1nat)
    } else {
        let (m2, disp) = spec_fetch_disp(m1, mod_bits, rm);
        let ea = spec_ea(m2.regs, mod_bits, rm, disp);
        let mem3 = if wide {
            let v = m2.regs.word_view(spec_reg16(reg));
            m2.mem.update(ea as int, lo_byte(v)).update(wrap_inc(ea) as int, hi_byte(v))
        } else {
            m2.mem.update(ea as int, m2.regs.byte_view(spec_reg8(reg)))
        };
        (MachineView { regs: m2.regs, mem: mem3 }, 1nat + spec_disp_size(mod_bits, rm))
    }
}

/// One step of the machine: fetch the opcode byte, dispatch it through the
/// instruction table, apply the instruction's effect and its flag-update
/// discipline. Returns the machine after the step, the number of bytes
/// consumed (each worth one budget unit), and the error, if any. An opcode
/// with no table entry mutates nothing beyond the opcode fetch itself.
pub open spec fn spec_step(m: MachineView) -> (MachineView, nat, Option<EmuError>) {
    let (m1, op) = spec_fetch(m);
    if op == InstSets::MOV_EB_GB {
        let (m2, c) = spec_mov(m1, false);
        let regs3 = spec_apply_flag_effect(m2.regs, InstSets::spec_flag_effect(op));
        (MachineView { regs: regs3, mem: m2.mem }, 1nat + c, None)
    } else if op == InstSets::MOV_EV_GV {
        let (m2, c) = spec_mov(m1, true);
        let regs3 = spec_apply_flag_effect(m2.regs, InstSets::spec_flag_effect(op));
        (MachineView { regs: regs3, mem: m2.mem }, 1nat + c, None)
    } else if op == InstSets::NOP {
        let regs3 = spec_apply_flag_effect(m1.regs, InstSets::spec_flag_effect(op));
        (MachineView { regs: regs3, mem: m1.mem }, 1nat, None)
    } else {
        (m1, 1nat, Some(EmuError::UnimplementedOpcode))
    }
}

/// A budgeted run of the machine: step while budget remains, stopping early
/// on an error. Yields the final machine, the budget left (zero unless an
/// error stopped the run), and the run's outcome.
pub open spec fn spec_run(m: MachineView, budget: u32) -> (MachineView, u32, Result<
    (),
    EmuError,
>)
    decreases budget,
{
    if budget == 0 {
        (m, 0u32, Ok(()))
    } else {
        let (m2, consumed, err) = spec_step(m);
        let left = sat_sub(budget, consumed);
        match err {
            Some(e) => (m2, left, Err(e)),
            None => spec_run(m2, left),
        }
    }
}

impl Processor {
    /// The machine is well-formed when its memory holds the full address
    /// space.
    pub open spec fn wf(&self) -> bool {
        self.memory.wf()
    }

    /// A machine with zeroed registers and zero-filled memory.
    pub fn new() -> (r: Processor)
        ensures
            r.wf(),
            r@.regs == zeroed_registers(),
            forall|i: int| 0 <= i < r@.mem.len() ==> r@.mem[i] == 0u8,
    {
        Processor { registers: Registers::new(), memory: Memory::new() }
    }

    /// Reset cascades to both owned components: the registers take the
    /// documented power-on state and the memory is zero-filled, whatever the
    /// prior state.
    pub fn reset(&mut self)
        ensures
            final(self).wf(),
            final(self)@.regs == power_on_registers(),
            forall|i: int| 0 <= i < final(self)@.mem.len() ==> final(self)@.mem[i] == 0u8,
    {
        self.registers.reset();
        self.memory.reset();
    }

    /// Fetch one instruction byte at the instruction pointer: the pointer
    /// advances by one (wrapping within the 16-bit range) and one budget
    /// unit is consumed, saturating at zero.
    pub fn fetch_inst(&mut self, cycle: &mut u32) -> (data: u8)
        requires
            old(self).wf(),
        ensures
            final(self).wf(),
            (final(self)@, data) == spec_fetch(old(self)@),
            *final(cycle) == sat_dec(*old(cycle)),
    {
        let ip = self.registers.ip;
        let data = self.memory.read_byte(ip);
        self.registers.ip = if ip == 0xFFFF {
            0
        } else {
            ip + 1
        };
        *cycle = if *cycle > 0 {
            *cycle - 1
        } else {
            0
        };
        data
    }

    /// The byte register a 3-bit register field selects.
    pub fn fetch_reg8(&self, reg: u8) -> (r: ByteReg)
        requires
            reg < 8,
        ensures
            r == spec_reg8(reg),
    {
        if reg == 0 {
            ByteReg::AL
        } else if reg == 1 {
            ByteReg::CL
        } else if reg == 2 {
            ByteReg::DL
        } else if reg == 3 {
            ByteReg::BL
        } else if reg == 4 {
            ByteReg::AH
        } else if reg == 5 {
            ByteReg::CH
        } else if reg == 6 {
            ByteReg::DH
        } else {
            ByteReg::BH
        }
    }

    /// The word register a 3-bit register field selects.
    pub fn fetch_reg16(&self, reg: u8) -> (r: WordReg)
        requires
            reg < 8,
        ensures
            r == spec_reg16(reg),
    {
        if reg == 0 {
            WordReg::AX
        } else if reg == 1 {
            WordReg::CX
        } else if reg == 2 {
            WordReg::DX
        } else if reg == 3 {
            WordReg::BX
        } else if reg == 4 {
            WordReg::SP
        } else if reg == 5 {
            WordReg::BP
        } else if reg == 6 {
            WordReg::SI
        } else {
            WordReg::DI
        }
    }

    /// Resolve a memory operand: fetch the displacement bytes the (mode,
    /// register/memory) pair asks for (consuming budget, one unit per byte)
    /// and compute the effective address from the base/index combination and
    /// the displacement.
    pub fn fetch_modrm(&mut self, cycle: &mut u32, mod_bits: u8, rm: u8) -> (ea: u16)
        requires
            old(self).wf(),
            mod_bits < 3,
            rm < 8,
        ensures
            final(self).wf(),
            ({
                let (m2, disp) = spec_fetch_disp(old(self)@, mod_bits, rm);
                final(self)@ == m2 && ea == spec_ea(m2.regs, mod_bits, rm, disp) && *final(cycle)
                    == sat_sub(*old(cycle), spec_disp_size(mod_bits, rm))
            }),
    {
        let disp: u16 = if mod_bits == 1 {
            let b = self.fetch_inst(cycle);
            sign_extend(b)
        } else if mod_bits == 2 || (mod_bits == 0 && rm == 6) {
            let lo = self.fetch_inst(cycle);
            let hi = self.fetch_inst(cycle);
            (lo as u16) + 256 * (hi as u16)
        } else {
            0
        };
        if mod_bits == 0 && rm == 6 {
            return disp;
        }
        let base: u32 = if rm == 0 {
            (self.registers.read_word_reg(WordReg::BX) as u32) + (self.registers.read_word_reg(
                WordReg::SI,
            ) as u32)
        } else if rm == 1 {
            (self.registers.read_word_reg(WordReg::BX) as u32) + (self.registers.read_word_reg(
                WordReg::DI,
            ) as u32)
        } else if rm == 2 {
            (self.registers.read_word_reg(WordReg::BP) as u32) + (self.registers.read_word_reg(
                WordReg::SI,
            ) as u32)
        } else if rm == 3 {
            (self.registers.read_word_reg(WordReg::BP) as u32) + (self.registers.read_word_reg(
                WordReg::DI,
            ) as u32)
        } else if rm == 4 {
            self.registers.read_word_reg(WordReg::SI) as u32
        } else if rm == 5 {
            self.registers.read_word_reg(WordReg::DI) as u32
        } else if rm == 6 {
            self.registers.read_word_reg(WordReg::BP) as u32
        } else {
            self.registers.read_word_reg(WordReg::BX) as u32
        };
        ((base + (disp as u32)) % 65536) as u16
    }

    /// Apply one move instruction whose opcode byte has been fetched:
    /// decompose the addressing byte, then move register to register or
    /// store the source register at the effective address. Flags are not
    /// touched: move instructions preserve them.
    fn exec_mov(&mut self, cycle: &mut u32, wide: bool)
        requires
            old(self).wf(),
        ensures
            final(self).wf(),
            ({
                let (m2, c) = spec_mov(old(self)@, wide);
                final(self)@ == m2 && *final(cycle) == sat_sub(*old(cycle), c)
            }),
    {
        let arg = self.fetch_inst(cycle);
        let mr = Modrm::decode(arg);
        if mr.mod_bits == 3 {
            if wide {
                let src = self.fetch_reg16(mr.reg);
                let dst = self.fetch_reg16(mr.rm);
                let v = self.registers.read_word_reg(src);
                self.registers.write_word_reg(dst, v);
            } else {
                let src = self.fetch_reg8(mr.reg);
                let dst = self.fetch_reg8(mr.rm);
                let v = self.registers.read_byte_reg(src);
                self.registers.write_byte_reg(dst, v);
            }
        } else {
            let ea = self.fetch_modrm(cycle, mr.mod_bits, mr.rm);
            if wide {
                let src = self.fetch_reg16(mr.reg);
                let v = self.registers.read_word_reg(src);
                self.memory.write_word(ea, v);
            } else {
                let src = self.fetch_reg8(mr.reg);
                let v = self.registers.read_byte_reg(src);
                self.memory.write_byte(ea, v);
            }
        }
    }

    /// Execute one instruction: fetch the opcode byte (one budget unit),
    /// dispatch it through the instruction table, apply its effect and its
    /// flag-update discipline. An opcode with no table entry reports
    /// `UnimplementedOpcode` having mutated nothing beyond the opcode fetch
    /// itself.
    pub fn step(&mut self, cycle: &mut u32) -> (r: Result<(), EmuError>)
        requires
            old(self).wf(),
        ensures
            final(self).wf(),
            ({
                let (m2, c, err) = spec_step(old(self)@);
                final(self)@ == m2 && *final(cycle) == sat_sub(*old(cycle), c) && r == (match err {
                    Some(e) => Err::<(), EmuError>(e),
                    None => Ok::<(), EmuError>(()),
                })
            }),
    {
        let op = self.fetch_inst(cycle);
        if op == InstSets::MOV_EB_GB {
            self.exec_mov(cycle, false);
            let e = InstSets::flag_effect(op);
            apply_flag_effect(&mut self.registers, e);
            proof {
                lemma_sat_sub_compose(*old(cycle), 1nat, spec_mov(spec_fetch(old(self)@).0, false).1);
            }
            Ok(())
        } else if op == InstSets::MOV_EV_GV {
            self.exec_mov(cycle, true);
            let e = InstSets::flag_effect(op);
            apply_flag_effect(&mut self.registers, e);
            proof {
                lemma_sat_sub_compose(*old(cycle), 1nat, spec_mov(spec_fetch(old(self)@).0, true).1);
            }
            Ok(())
        } else if op == InstSets::NOP {
            let e = InstSets::flag_effect(op);
            apply_flag_effect(&mut self.registers, e);
            Ok(())
        } else {
            Err(EmuError::UnimplementedOpcode)
        }
    }

    /// Run the fetch-decode-execute loop under a cycle budget: step while
    /// budget remains, stopping early if an instruction reports an error.
    /// The machine afterwards, the budget left and the outcome are exactly
    /// those of the budgeted run `spec_run` from the starting state.
    pub fn execute(&mut self, cycle: &mut u32) -> (r: Result<(), EmuError>)
        requires
            old(self).wf(),
        ensures
            final(self).wf(),
            ({
                let (mf, cf, res) = spec_run(old(self)@, *old(cycle));
                final(self)@ == mf && *final(cycle) == cf && r == res
            }),
    {
        let ghost m0 = self@;
        let ghost c0 = *cycle;
        while *cycle > 0
            invariant
                self.wf(),
                m0 == old(self)@,
                c0 == *old(cycle),
                spec_run(m0, c0) == spec_run(self@, *cycle),
            decreases *cycle,
        {
            let ghost m_pre = self@;
            let ghost c_pre = *cycle;
            let res = self.step(cycle);
            proof {
                lemma_step_consumes(m_pre);
            }
            if let Err(e) = res {
                proof {
                    let (m2, consumed, err) = spec_step(m_pre);
                    assert(spec_run(m_pre, c_pre) == (m2, sat_sub(c_pre, consumed), Err::<
                        (),
                        EmuError,
                    >(e)));
                }
                return Err(e);
            }
        }
        Ok(())
    }
}

/// A step always consumes at least the opcode byte.
proof fn lemma_step_consumes(m: MachineView)
    ensures
        spec_step(m).1 >= 1,
{
}

/// Cycle accounting: over single-byte instructions with no operands, a run
/// with budget `n` performs exactly `n` fetches, consuming exactly `n` budget
/// units — one per fetched byte — and ends cleanly with the instruction
/// pointer advanced by exactly `n`, wrapping, everything else untouched.
pub proof fn lemma_single_byte_cycle_accounting(m: MachineView, budget: u32)
    requires
        m.mem.len() == MEM_SIZE,
        forall|i: int| 0 <= i < m.mem.len() ==> m.mem[i] == InstSets::NOP,
    ensures
        ({
            let (mf, cf, res) = spec_run(m, budget);
            cf == 0 && res == Ok::<(), EmuError>(()) && mf.mem == m.mem && mf.regs == (Registers {
                ip: wrap_add(m.regs.ip, budget as nat),
                ..m.regs
            })
        }),
    decreases budget,
{
    if budget == 0 {
        assert(wrap_add(m.regs.ip, 0) == m.regs.ip);
        assert(m.regs =~= (Registers { ip: m.regs.ip, ..m.regs }));
    } else {
        let (m2, consumed, err) = spec_step(m);
        assert(consumed == 1 && err is None);
        lemma_single_byte_cycle_accounting(m2, sat_sub(budget, 1nat));
        lemma_wrap_add_inc(m.regs.ip, (budget - 1) as nat);
    }
}

/// Unknown opcode: a run that fetches a byte with no table entry stops at
/// once with `UnimplementedOpcode`, and nothing is mutated beyond the opcode
/// fetch itself — the instruction pointer has advanced by one, one budget
/// unit is consumed, and every register and memory cell is untouched.
pub proof fn lemma_unknown_opcode_mutates_nothing(m: MachineView, budget: u32)
    requires
        budget > 0,
        !InstSets::spec_defined(m.mem[m.regs.ip as int]),
    ensures
        ({
            let (mf, cf, res) = spec_run(m, budget);
            res == Err::<(), EmuError>(EmuError::UnimplementedOpcode) && cf == budget - 1
                && mf.mem == m.mem && mf.regs == (Registers { ip: wrap_inc(m.regs.ip), ..m.regs })
        }),
{
}

} // verus!
