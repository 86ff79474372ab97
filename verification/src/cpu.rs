//! LR35902 interpreter: decode at PC, execute against the bus, return the
//! machine-cycle cost from the standard timing table (conditional jumps,
//! calls and returns cost their taken or not-taken figure), and service
//! interrupts in the fixed V-blank, STAT, Timer, Serial, Joypad order.
//!
//! `op_cycles_s` is the cost table; `execute`'s contract holds the returned
//! count to it for every instruction, and promises an error exactly on the
//! eleven undefined opcodes. Flag semantics live in the contracts of the
//! `alu` helpers the interpreter calls.

use vstd::prelude::*;
use crate::alu::{
    alu_add8, alu_and8, alu_bit, alu_daa, alu_dec8, alu_inc8, alu_or8, alu_res, alu_rl,
    alu_rlc, alu_rr, alu_rrc, alu_set, alu_sla, alu_sp_disp_flags, alu_sra, alu_srl,
    alu_sub8, alu_swap, alu_add16, alu_disp16, alu_xor8, f_c, f_z, flags_wf, get_c, get_z,
    mk_flags, mk_flags_s, pow2, resbit_s,
};
use crate::mmu::Mmu;

verus! {

#[derive(Clone, Copy, Debug, PartialEq, Eq, Structural)]
pub enum Error {
    /// The interpreter met one of the opcodes the hardware does not define.
    InvalidOpcode(u8),
}

#[derive(Clone, Copy)]
pub struct Cpu {
    pub a: u8,
    pub f: u8,
    pub b: u8,
    pub c: u8,
    pub d: u8,
    pub e: u8,
    pub h: u8,
    pub l: u8,
    pub sp: u16,
    pub pc: u16,
    /// Interrupt master enable.
    pub ime: bool,
    pub halted: bool,
    /// EI takes effect one instruction late.
    pub ei_delay: bool,
    /// The fetch after a HALT taken with interrupts pending but IME clear
    /// reads its byte without advancing PC.
    pub halt_bug: bool,
}

/// The eleven encodings the LR35902 leaves undefined.
pub open spec fn valid_op(op: u8) -> bool {
    !(op == 0xd3 || op == 0xdb || op == 0xdd || op == 0xe3 || op == 0xe4 || op == 0xeb
        || op == 0xec || op == 0xed || op == 0xf4 || op == 0xfc || op == 0xfd)
}

/// Condition field decode: NZ, Z, NC, C.
pub open spec fn cond_met_s(y: u8, f: u8) -> bool {
    if y % 4 == 0 {
        !f_z(f)
    } else if y % 4 == 1 {
        f_z(f)
    } else if y % 4 == 2 {
        !f_c(f)
    } else {
        f_c(f)
    }
}

/// Machine-cycle cost of a `CB`-prefixed instruction (the prefix included).
pub open spec fn cb_cycles_s(op2: u8) -> u64 {
    if op2 % 8 == 6 {
        if 0x40 <= op2 < 0x80 { 3 } else { 4 }
    } else {
        2
    }
}

/// The cost table: machine cycles of the instruction `op` (with `op2` the
/// byte after the prefix for `CB`), given the flag byte the instruction
/// starts from (conditions decide the taken/not-taken figure).
pub open spec fn op_cycles_s(op: u8, op2: u8, f: u8) -> u64 {
    let x = op / 64;
    let y = op / 8 % 8;
    let z = op % 8;
    if x == 0 {
        if z == 0 {
            if y == 0 { 1 } else if y == 1 { 5 } else if y == 2 { 1 } else if y == 3 { 3 }
            else if cond_met_s(y, f) { 3 } else { 2 }
        } else if z == 1 {
            if y % 2 == 0 { 3 } else { 2 }
        } else if z == 2 || z == 3 {
            2
        } else if z == 4 || z == 5 {
            if y == 6 { 3 } else { 1 }
        } else if z == 6 {
            if y == 6 { 3 } else { 2 }
        } else {
            1
        }
    } else if x == 1 {
        if op == 0x76 { 1 } else if y == 6 || z == 6 { 2 } else { 1 }
    } else if x == 2 {
        if z == 6 { 2 } else { 1 }
    } else {
        if z == 0 {
            if y < 4 {
                if cond_met_s(y, f) { 5 } else { 2 }
            } else if y == 5 { 4 } else { 3 }
        } else if z == 1 {
            if y % 2 == 0 { 3 } else if y == 1 || y == 3 { 4 } else if y == 5 { 1 } else { 2 }
        } else if z == 2 {
            if y < 4 {
                if cond_met_s(y, f) { 4 } else { 3 }
            } else if y == 4 || y == 6 { 2 } else { 4 }
        } else if z == 3 {
            if y == 0 { 4 } else if y == 1 { cb_cycles_s(op2) } else { 1 }
        } else if z == 4 {
            if cond_met_s(y, f) { 6 } else { 3 }
        } else if z == 5 {
            if y % 2 == 0 { 4 } else { 6 }
        } else if z == 6 {
            2
        } else {
            4
        }
    }
}

/// Every instruction costs between one and six machine cycles.
pub proof fn lemma_op_cycles_bound(op: u8, op2: u8, f: u8)
    ensures
        1 <= op_cycles_s(op, op2, f) <= 6,
        1 <= cb_cycles_s(op2) <= 6,
{
}

/// Index of the highest-priority requested-and-enabled line: V-blank first,
/// Joypad last.
pub open spec fn lowest_line(m: u8) -> u8 {
    if m % 2 == 1 { 0 } else if m / 2 % 2 == 1 { 1 } else if m / 4 % 2 == 1 { 2 }
    else if m / 8 % 2 == 1 { 3 } else { 4 }
}

fn wadd16(x: u16, d: u16) -> (r: u16)
    ensures
        r == (x + d) % 0x10000,
{
    ((x as u32 + d as u32) % 0x10000) as u16
}

fn wsub16(x: u16, d: u16) -> (r: u16)
    requires
        d <= 0x10000,
    ensures
        r == (x + 0x10000 - d) % 0x10000,
{
    ((x as u32 + 0x10000 - d as u32) % 0x10000) as u16
}

impl Cpu {
    /// The flag byte keeps its low nibble clear.
    pub open spec fn wf(self) -> bool {
        flags_wf(self.f)
    }

    /// Post-boot register file.
    pub fn new() -> (r: Cpu)
        ensures
            r.wf(),
            r.pc == 0x100,
            r.sp == 0xfffe,
            r.a == 0x01,
            !r.ime && !r.halted && !r.ei_delay && !r.halt_bug,
    {
        Cpu {
            a: 0x01,
            f: 0xb0,
            b: 0x00,
            c: 0x13,
            d: 0x00,
            e: 0xd8,
            h: 0x01,
            l: 0x4d,
            sp: 0xfffe,
            pc: 0x100,
            ime: false,
            halted: false,
            ei_delay: false,
            halt_bug: false,
        }
    }

    pub open spec fn bc_s(self) -> u16 {
        (self.b * 256 + self.c) as u16
    }

    pub open spec fn de_s(self) -> u16 {
        (self.d * 256 + self.e) as u16
    }

    pub open spec fn hl_s(self) -> u16 {
        (self.h * 256 + self.l) as u16
    }

    pub open spec fn af_s(self) -> u16 {
        (self.a * 256 + self.f) as u16
    }

    fn bc(&self) -> (r: u16)
        ensures
            r == self.bc_s(),
    {
        self.b as u16 * 256 + self.c as u16
    }

    fn de(&self) -> (r: u16)
        ensures
            r == self.de_s(),
    {
        self.d as u16 * 256 + self.e as u16
    }

    fn hl(&self) -> (r: u16)
        ensures
            r == self.hl_s(),
    {
        self.h as u16 * 256 + self.l as u16
    }

    fn set_hl(&mut self, v: u16)
        ensures
            *final(self) == (Cpu { h: (v / 256) as u8, l: (v % 256) as u8, ..*old(self) }),
    {
        self.h = (v / 256) as u8;
        self.l = (v % 256) as u8;
    }

    /// 16-bit register-pair read for the `rp` table (BC, DE, HL, SP).
    fn get_rp(&self, p: u8) -> (r: u16)
        requires
            p < 4,
    {
        if p == 0 {
            self.bc()
        } else if p == 1 {
            self.de()
        } else if p == 2 {
            self.hl()
        } else {
            self.sp
        }
    }

    fn set_rp(&mut self, p: u8, v: u16)
        requires
            p < 4,
        ensures
            final(self).f == old(self).f,
            final(self).pc == old(self).pc,
            final(self).ime == old(self).ime,
            final(self).halted == old(self).halted,
            final(self).ei_delay == old(self).ei_delay,
            final(self).halt_bug == old(self).halt_bug,
    {
        if p == 0 {
            self.b = (v / 256) as u8;
            self.c = (v % 256) as u8;
        } else if p == 1 {
            self.d = (v / 256) as u8;
            self.e = (v % 256) as u8;
        } else if p == 2 {
            self.set_hl(v);
        } else {
            self.sp = v;
        }
    }

    /// Operand fetch: the byte at PC, PC advancing past it.
    fn fetch8(&mut self, mmu: &Mmu) -> (r: u8)
        requires
            mmu.wf(),
        ensures
            r == mmu.spec_read(old(self).pc),
            *final(self) == (Cpu { pc: ((old(self).pc + 1) % 0x10000) as u16, ..*old(self) }),
    {
        let v: u8 = mmu.read8(self.pc);
        self.pc = wadd16(self.pc, 1);
        v
    }

    fn fetch16(&mut self, mmu: &Mmu) -> (r: u16)
        requires
            mmu.wf(),
        ensures
            final(self).f == old(self).f,
            final(self).pc == (old(self).pc + 2) % 0x10000,
            final(self).sp == old(self).sp,
            final(self).ime == old(self).ime,
            final(self).halted == old(self).halted,
            final(self).ei_delay == old(self).ei_delay,
            final(self).halt_bug == old(self).halt_bug,
            final(self).a == old(self).a,
    {
        let lo: u8 = self.fetch8(mmu);
        let hi: u8 = self.fetch8(mmu);
        lo as u16 + hi as u16 * 256
    }

    /// Register-table operand read (`r` table; index 6 is the byte at HL).
    fn getr(&self, mmu: &Mmu, idx: u8) -> (r: u8)
        requires
            idx < 8,
            mmu.wf(),
    {
        if idx == 0 {
            self.b
        } else if idx == 1 {
            self.c
        } else if idx == 2 {
            self.d
        } else if idx == 3 {
            self.e
        } else if idx == 4 {
            self.h
        } else if idx == 5 {
            self.l
        } else if idx == 6 {
            mmu.read8(self.hl())
        } else {
            self.a
        }
    }

    /// Register-table operand write.
    fn setr(&mut self, mmu: &mut Mmu, idx: u8, v: u8)
        requires
            idx < 8,
            old(mmu).wf(),
        ensures
            final(mmu).wf(),
            final(self).f == old(self).f,
            final(self).pc == old(self).pc,
            final(self).sp == old(self).sp,
            final(self).ime == old(self).ime,
            final(self).halted == old(self).halted,
            final(self).ei_delay == old(self).ei_delay,
            final(self).halt_bug == old(self).halt_bug,
    {
        if idx == 0 {
            self.b = v;
        } else if idx == 1 {
            self.c = v;
        } else if idx == 2 {
            self.d = v;
        } else if idx == 3 {
            self.e = v;
        } else if idx == 4 {
            self.h = v;
        } else if idx == 5 {
            self.l = v;
        } else if idx == 6 {
            let a: u16 = self.hl();
            mmu.write8(a, v);
        } else {
            self.a = v;
        }
    }

    /// Decrement SP by two and store a 16-bit value there, little endian.
    #[verifier::rlimit(100)]
    fn push16(&mut self, mmu: &mut Mmu, v: u16)
        requires
            old(mmu).wf(),
        ensures
            final(mmu).wf(),
            final(self).sp == (old(self).sp + 0x10000 - 2) % 0x10000,
            *final(self) == (Cpu { sp: final(self).sp, ..*old(self) }),
            // The pushed bytes read back from plain memory regions.
            !old(mmu).dma.active && (0xc000 <= final(self).sp
                && final(self).sp + 1 < 0xe000) ==> {
                &&& final(mmu).spec_read(final(self).sp) == v % 256
                &&& final(mmu).spec_read((final(self).sp + 1) as u16) == v / 256
                &&& *final(mmu) == (Mmu { ram: final(mmu).ram, ..*old(mmu) })
            },
            !old(mmu).dma.active && 0xff80 <= final(self).sp
                && final(self).sp + 1 <= 0xfffe ==> {
                &&& final(mmu).spec_read(final(self).sp) == v % 256
                &&& final(mmu).spec_read((final(self).sp + 1) as u16) == v / 256
                &&& *final(mmu) == (Mmu { ram: final(mmu).ram, ..*old(mmu) })
            },
    {
        let sp2: u16 = wsub16(self.sp, 2);
        self.sp = sp2;
        mmu.write8(sp2, (v % 256) as u8);
        mmu.write8(wadd16(sp2, 1), (v / 256) as u8);
    }

    /// Read a 16-bit value at SP and increment SP by two.
    fn pop16(&mut self, mmu: &Mmu) -> (r: u16)
        requires
            mmu.wf(),
        ensures
            final(self).sp == (old(self).sp + 2) % 0x10000,
            *final(self) == (Cpu { sp: final(self).sp, ..*old(self) }),
            r == mmu.spec_read(old(self).sp)
                + mmu.spec_read(((old(self).sp + 1) % 0x10000) as u16) * 256,
    {
        let lo: u8 = mmu.read8(self.sp);
        let hi: u8 = mmu.read8(wadd16(self.sp, 1));
        self.sp = wadd16(self.sp, 2);
        lo as u16 + hi as u16 * 256
    }

    /// Apply ALU row `y` (ADD, ADC, SUB, SBC, AND, XOR, OR, CP) to A and
    /// the operand.
    fn alu_row(&mut self, y: u8, v: u8)
        requires
            y < 8,
        ensures
            final(self).wf(),
            *final(self) == (Cpu { a: final(self).a, f: final(self).f, ..*old(self) }),
    {
        if y == 0 {
            let rf: (u8, u8) = alu_add8(self.a, v, false);
            self.a = rf.0;
            self.f = rf.1;
        } else if y == 1 {
            let rf: (u8, u8) = alu_add8(self.a, v, get_c(self.f));
            self.a = rf.0;
            self.f = rf.1;
        } else if y == 2 {
            let rf: (u8, u8) = alu_sub8(self.a, v, false);
            self.a = rf.0;
            self.f = rf.1;
        } else if y == 3 {
            let rf: (u8, u8) = alu_sub8(self.a, v, get_c(self.f));
            self.a = rf.0;
            self.f = rf.1;
        } else if y == 4 {
            let rf: (u8, u8) = alu_and8(self.a, v);
            self.a = rf.0;
            self.f = rf.1;
        } else if y == 5 {
            let rf: (u8, u8) = alu_xor8(self.a, v);
            self.a = rf.0;
            self.f = rf.1;
        } else if y == 6 {
            let rf: (u8, u8) = alu_or8(self.a, v);
            self.a = rf.0;
            self.f = rf.1;
        } else {
            let rf: (u8, u8) = alu_sub8(self.a, v, false);
            self.f = rf.1;
        }
    }

    fn cond_met(&self, y: u8) -> (r: bool)
        ensures
            r == cond_met_s(y, self.f),
    {
        if y % 4 == 0 {
            !get_z(self.f)
        } else if y % 4 == 1 {
            get_z(self.f)
        } else if y % 4 == 2 {
            !get_c(self.f)
        } else {
            get_c(self.f)
        }
    }

    /// Opcodes `00`-`3F`: control, 16-bit loads and arithmetic, 8-bit
    /// increments, immediate loads, rotates of A, DAA and flag operations.
    fn exec_x0(&mut self, mmu: &mut Mmu, op: u8) -> (r: u64)
        requires
            op < 0x40,
            old(self).wf(),
            old(mmu).wf(),
        ensures
            final(self).wf(),
            final(mmu).wf(),
            r == op_cycles_s(op, 0, old(self).f),
            final(self).ime == old(self).ime,
            final(self).ei_delay == old(self).ei_delay,
            final(self).halted == old(self).halted,
            op == 0x00 ==> *final(self) == *old(self) && *final(mmu) == *old(mmu),
    {
        let y: u8 = op / 8 % 8;
        let z: u8 = op % 8;
        if z == 0 {
            if y == 0 {
                1
            } else if y == 1 {
                let a16: u16 = self.fetch16(mmu);
                mmu.set16(a16, self.sp);
                5
            } else if y == 2 {
                1
            } else if y == 3 {
                let e: u8 = self.fetch8(mmu);
                self.pc = alu_disp16(self.pc, e);
                3
            } else {
                let e: u8 = self.fetch8(mmu);
                if self.cond_met(y) {
                    self.pc = alu_disp16(self.pc, e);
                    3
                } else {
                    2
                }
            }
        } else if z == 1 {
            let p: u8 = op / 16;
            if y % 2 == 0 {
                let v: u16 = self.fetch16(mmu);
                self.set_rp(p, v);
                3
            } else {
                let rf: (u16, u8) = alu_add16(self.hl(), self.get_rp(p), self.f);
                self.set_hl(rf.0);
                self.f = rf.1;
                2
            }
        } else if z == 2 {
            let p: u8 = op / 16;
            let addr: u16 = if p == 0 { self.bc() } else if p == 1 { self.de() } else {
                self.hl()
            };
            if y % 2 == 0 {
                mmu.write8(addr, self.a);
            } else {
                self.a = mmu.read8(addr);
            }
            if p == 2 {
                self.set_hl(wadd16(addr, 1));
            } else if p == 3 {
                self.set_hl(wsub16(addr, 1));
            }
            2
        } else if z == 3 {
            let p: u8 = op / 16;
            let v: u16 = self.get_rp(p);
            if y % 2 == 0 {
                self.set_rp(p, wadd16(v, 1));
            } else {
                self.set_rp(p, wsub16(v, 1));
            }
            2
        } else if z == 4 || z == 5 {
            let v: u8 = self.getr(mmu, y);
            let rf: (u8, u8) = if z == 4 { alu_inc8(v, self.f) } else { alu_dec8(v, self.f) };
            self.setr(mmu, y, rf.0);
            self.f = rf.1;
            if y == 6 { 3 } else { 1 }
        } else if z == 6 {
            let v: u8 = self.fetch8(mmu);
            self.setr(mmu, y, v);
            if y == 6 { 3 } else { 2 }
        } else {
            if y == 0 {
                let rc: (u8, bool) = alu_rlc(self.a);
                self.a = rc.0;
                self.f = mk_flags(false, false, false, rc.1);
            } else if y == 1 {
                let rc: (u8, bool) = alu_rrc(self.a);
                self.a = rc.0;
                self.f = mk_flags(false, false, false, rc.1);
            } else if y == 2 {
                let rc: (u8, bool) = alu_rl(self.a, get_c(self.f));
                self.a = rc.0;
                self.f = mk_flags(false, false, false, rc.1);
            } else if y == 3 {
                let rc: (u8, bool) = alu_rr(self.a, get_c(self.f));
                self.a = rc.0;
                self.f = mk_flags(false, false, false, rc.1);
            } else if y == 4 {
                let rf: (u8, u8) = alu_daa(self.a, self.f);
                self.a = rf.0;
                self.f = rf.1;
            } else if y == 5 {
                self.a = 255 - self.a;
                self.f = mk_flags(get_z(self.f), true, true, get_c(self.f));
            } else if y == 6 {
                self.f = mk_flags(get_z(self.f), false, false, true);
            } else {
                self.f = mk_flags(get_z(self.f), false, false, !get_c(self.f));
            }
            1
        }
    }

    /// Opcodes `40`-`7F`: register-to-register loads, and HALT.
    fn exec_x1(&mut self, mmu: &mut Mmu, op: u8) -> (r: u64)
        requires
            0x40 <= op < 0x80,
            old(self).wf(),
            old(mmu).wf(),
        ensures
            final(self).wf(),
            final(mmu).wf(),
            r == op_cycles_s(op, 0, old(self).f),
            final(self).ime == old(self).ime,
            final(self).ei_delay == old(self).ei_delay,
    {
        if op == 0x76 {
            if self.ime {
                self.halted = true;
            } else {
                if mmu.ic.intf & mmu.ic.inte != 0 {
                    self.halt_bug = true;
                } else {
                    self.halted = true;
                }
            }
            1
        } else {
            let y: u8 = op / 8 % 8;
            let z: u8 = op % 8;
            let v: u8 = self.getr(mmu, z);
            self.setr(mmu, y, v);
            if y == 6 || z == 6 { 2 } else { 1 }
        }
    }

    /// Opcodes `80`-`BF`: the eight-row accumulator ALU against a register
    /// operand.
    fn exec_x2(&mut self, mmu: &mut Mmu, op: u8) -> (r: u64)
        requires
            0x80 <= op < 0xc0,
            old(self).wf(),
            old(mmu).wf(),
        ensures
            final(self).wf(),
            final(mmu).wf(),
            r == op_cycles_s(op, 0, old(self).f),
            final(self).ime == old(self).ime,
            final(self).ei_delay == old(self).ei_delay,
            final(self).halted == old(self).halted,
    {
        let y: u8 = op / 8 % 8;
        let z: u8 = op % 8;
        let v: u8 = self.getr(mmu, z);
        self.alu_row(y, v);
        if z == 6 { 2 } else { 1 }
    }

    /// Opcodes `C0`-`FF` except the `CB` prefix: returns, jumps, calls,
    /// stack, high-page loads, interrupt enables, immediate ALU, RST.
    fn exec_x3(&mut self, mmu: &mut Mmu, op: u8) -> (r: Result<u64, Error>)
        requires
            0xc0 <= op,
            op != 0xcb,
            old(self).wf(),
            old(mmu).wf(),
        ensures
            final(self).wf(),
            final(mmu).wf(),
            r is Ok <==> valid_op(op),
            valid_op(op) ==> r == Ok::<u64, Error>(op_cycles_s(op, 0, old(self).f)),
            final(self).halted == old(self).halted,
            // DI clears IME and a pending EI at once.
            op == 0xf3 ==> !final(self).ime && !final(self).ei_delay,
            // EI only schedules the enable; IME itself is untouched here.
            op == 0xfb ==> final(self).ei_delay && final(self).ime == old(self).ime,
            op != 0xf3 && op != 0xfb ==> final(self).ei_delay == old(self).ei_delay,
            !valid_op(op) ==> *final(self) == *old(self) && *final(mmu) == *old(mmu),
    {
        let y: u8 = op / 8 % 8;
        let z: u8 = op % 8;
        if z == 0 {
            if y < 4 {
                if self.cond_met(y) {
                    self.pc = self.pop16(mmu);
                    Ok(5)
                } else {
                    Ok(2)
                }
            } else if y == 4 {
                let n: u8 = self.fetch8(mmu);
                mmu.write8(0xff00 + n as u16, self.a);
                Ok(3)
            } else if y == 5 {
                let e: u8 = self.fetch8(mmu);
                self.f = alu_sp_disp_flags(self.sp, e);
                self.sp = alu_disp16(self.sp, e);
                Ok(4)
            } else if y == 6 {
                let n: u8 = self.fetch8(mmu);
                self.a = mmu.read8(0xff00 + n as u16);
                Ok(3)
            } else {
                let e: u8 = self.fetch8(mmu);
                self.f = alu_sp_disp_flags(self.sp, e);
                let v: u16 = alu_disp16(self.sp, e);
                self.set_hl(v);
                Ok(3)
            }
        } else if z == 1 {
            if y % 2 == 0 {
                let v: u16 = self.pop16(mmu);
                let p: u8 = (op - 0xc0) / 16;
                if p == 3 {
                    self.a = (v / 256) as u8;
                    self.f = ((v % 256) / 16 * 16) as u8;
                } else {
                    self.set_rp(p, v);
                }
                Ok(3)
            } else if y == 1 {
                self.pc = self.pop16(mmu);
                Ok(4)
            } else if y == 3 {
                self.pc = self.pop16(mmu);
                self.ime = true;
                Ok(4)
            } else if y == 5 {
                self.pc = self.hl();
                Ok(1)
            } else {
                self.sp = self.hl();
                Ok(2)
            }
        } else if z == 2 {
            if y < 4 {
                let nn: u16 = self.fetch16(mmu);
                if self.cond_met(y) {
                    self.pc = nn;
                    Ok(4)
                } else {
                    Ok(3)
                }
            } else if y == 4 {
                mmu.write8(0xff00 + self.c as u16, self.a);
                Ok(2)
            } else if y == 5 {
                let nn: u16 = self.fetch16(mmu);
                mmu.write8(nn, self.a);
                Ok(4)
            } else if y == 6 {
                self.a = mmu.read8(0xff00 + self.c as u16);
                Ok(2)
            } else {
                let nn: u16 = self.fetch16(mmu);
                self.a = mmu.read8(nn);
                Ok(4)
            }
        } else if z == 3 {
            if y == 0 {
                let nn: u16 = self.fetch16(mmu);
                self.pc = nn;
                Ok(4)
            } else if y == 6 {
                self.ime = false;
                self.ei_delay = false;
                Ok(1)
            } else if y == 7 {
                self.ei_delay = true;
                Ok(1)
            } else {
                Err(Error::InvalidOpcode(op))
            }
        } else if z == 4 {
            if y < 4 {
                let nn: u16 = self.fetch16(mmu);
                if self.cond_met(y) {
                    let pc0: u16 = self.pc;
                    self.push16(mmu, pc0);
                    self.pc = nn;
                    Ok(6)
                } else {
                    Ok(3)
                }
            } else {
                Err(Error::InvalidOpcode(op))
            }
        } else if z == 5 {
            if y % 2 == 0 {
                let p: u8 = (op - 0xc0) / 16;
                let v: u16 = if p == 0 { self.bc() } else if p == 1 { self.de() }
                    else if p == 2 { self.hl() } else {
                    self.a as u16 * 256 + self.f as u16
                };
                self.push16(mmu, v);
                Ok(4)
            } else if y == 1 {
                let nn: u16 = self.fetch16(mmu);
                let pc0: u16 = self.pc;
                self.push16(mmu, pc0);
                self.pc = nn;
                Ok(6)
            } else {
                Err(Error::InvalidOpcode(op))
            }
        } else if z == 6 {
            let v: u8 = self.fetch8(mmu);
            self.alu_row(y, v);
            Ok(2)
        } else {
            let pc0: u16 = self.pc;
            self.push16(mmu, pc0);
            self.pc = y as u16 * 8;
            Ok(4)
        }
    }

    /// The `CB`-prefixed page: rotates and shifts, SWAP, BIT, RES, SET on
    /// the register table.
    fn exec_cb(&mut self, mmu: &mut Mmu, op2: u8) -> (r: u64)
        requires
            old(self).wf(),
            old(mmu).wf(),
        ensures
            final(self).wf(),
            final(mmu).wf(),
            r == cb_cycles_s(op2),
            final(self).ime == old(self).ime,
            final(self).ei_delay == old(self).ei_delay,
            final(self).halted == old(self).halted,
    {
        let xx: u8 = op2 / 64;
        let y: u8 = op2 / 8 % 8;
        let z: u8 = op2 % 8;
        let v: u8 = self.getr(mmu, z);
        if xx == 0 {
            let rc: (u8, bool) = if y == 0 {
                alu_rlc(v)
            } else if y == 1 {
                alu_rrc(v)
            } else if y == 2 {
                alu_rl(v, get_c(self.f))
            } else if y == 3 {
                alu_rr(v, get_c(self.f))
            } else if y == 4 {
                alu_sla(v)
            } else if y == 5 {
                alu_sra(v)
            } else if y == 6 {
                (alu_swap(v), false)
            } else {
                alu_srl(v)
            };
            self.setr(mmu, z, rc.0);
            self.f = mk_flags(rc.0 == 0, false, false, rc.1);
            if z == 6 { 4 } else { 2 }
        } else if xx == 1 {
            let b: bool = alu_bit(v, y);
            self.f = mk_flags(!b, false, true, get_c(self.f));
            if z == 6 { 3 } else { 2 }
        } else if xx == 2 {
            let w: u8 = alu_res(v, y);
            self.setr(mmu, z, w);
            if z == 6 { 4 } else { 2 }
        } else {
            let w: u8 = alu_set(v, y);
            self.setr(mmu, z, w);
            if z == 6 { 4 } else { 2 }
        }
    }

    /// Decode and run one instruction. The cost comes back per the table;
    /// the result is an error exactly on an undefined opcode. A halted CPU
    /// burns one cycle and wakes exactly when a requested line is enabled.
    pub fn execute(&mut self, mmu: &mut Mmu) -> (r: Result<u64, Error>)
        requires
            old(self).wf(),
            old(mmu).wf(),
        ensures
            final(self).wf(),
            final(mmu).wf(),
            r matches Ok(c) ==> 1 <= c <= 6,
            old(self).halted ==> r == Ok::<u64, Error>(1) && *final(mmu) == *old(mmu)
                && *final(self) == (Cpu { halted: !old(mmu).ic.pending(), ..*old(self) }),
            !old(self).halted ==> {
                let op = old(mmu).spec_read(old(self).pc);
                &&& (r is Ok <==> valid_op(op))
                &&& (!old(self).halt_bug && valid_op(op) ==> r == Ok::<u64, Error>(
                    op_cycles_s(op,
                        old(mmu).spec_read(((old(self).pc + 1) % 0x10000) as u16),
                        old(self).f)))
                // DI clears IME at once, and cancels a pending EI.
                &&& (op == 0xf3 ==> !final(self).ime && !final(self).ei_delay)
                // EI does not enable IME during its own instruction.
                &&& (op == 0xfb && !old(self).ei_delay ==> final(self).ei_delay
                    && final(self).ime == old(self).ime)
                // An EI from the previous instruction takes effect now.
                &&& (old(self).ei_delay && op != 0xf3 && valid_op(op) ==> final(self).ime
                    && !final(self).ei_delay)
                // An undefined opcode leaves the bus untouched; PC has
                // moved past the bad byte.
                &&& (!old(self).halt_bug && !old(self).ei_delay && !valid_op(op) ==> {
                    &&& *final(mmu) == *old(mmu)
                    &&& *final(self) == (Cpu {
                        pc: ((old(self).pc + 1) % 0x10000) as u16,
                        ..*old(self)
                    })
                })
                // NOP does nothing but step PC past itself.
                &&& (op == 0x00 && !old(self).halt_bug && !old(self).ei_delay ==> {
                    &&& *final(self) == (Cpu {
                        pc: ((old(self).pc + 1) % 0x10000) as u16,
                        ..*old(self)
                    })
                    &&& *final(mmu) == *old(mmu)
                })
            },
    {
        if self.halted {
            if mmu.ic.intf & mmu.ic.inte != 0 {
                self.halted = false;
            }
            return Ok(1);
        }
        let ei_was: bool = self.ei_delay;
        let ghost f0: u8 = self.f;
        let op: u8 = mmu.read8(self.pc);
        proof {
            lemma_op_cycles_bound(op, 0, f0);
        }
        if self.halt_bug {
            self.halt_bug = false;
        } else {
            self.pc = wadd16(self.pc, 1);
        }
        let res: Result<u64, Error> = if op < 0x40 {
            Ok(self.exec_x0(mmu, op))
        } else if op < 0x80 {
            Ok(self.exec_x1(mmu, op))
        } else if op < 0xc0 {
            Ok(self.exec_x2(mmu, op))
        } else if op == 0xcb {
            let op2: u8 = self.fetch8(mmu);
            Ok(self.exec_cb(mmu, op2))
        } else {
            self.exec_x3(mmu, op)
        };
        if ei_was && self.ei_delay {
            self.ime = true;
            self.ei_delay = false;
        }
        res
    }

    /// Service the highest-priority enabled interrupt, if IME allows: clear
    /// IME and the winning IF bit, push PC, jump to `40 + 8 * line`, charge
    /// five machine cycles. Without a serviceable line nothing changes.
    pub fn check_interrupt(&mut self, mmu: &mut Mmu) -> (r: u64)
        requires
            old(self).wf(),
            old(mmu).wf(),
        ensures
            final(self).wf(),
            final(mmu).wf(),
            !(old(self).ime && old(mmu).ic.pending()) ==> r == 0
                && *final(self) == *old(self) && *final(mmu) == *old(mmu),
            old(self).ime && old(mmu).ic.pending() ==> {
                let line = lowest_line(old(mmu).ic.intf & old(mmu).ic.inte);
                &&& r == 5
                &&& final(self).pc == 0x40 + 8 * line
                &&& final(self).sp == (old(self).sp + 0x10000 - 2) % 0x10000
                &&& *final(self) == (Cpu {
                    pc: final(self).pc,
                    sp: final(self).sp,
                    ime: false,
                    halted: false,
                    ..*old(self)
                })
                &&& (!old(mmu).dma.active && 0xff80 <= final(self).sp
                    && final(self).sp + 1 <= 0xfffe ==> {
                    &&& final(mmu).spec_read(final(self).sp) == old(self).pc % 256
                    &&& final(mmu).spec_read((final(self).sp + 1) as u16) == old(self).pc / 256
                    &&& final(mmu).ic.intf == resbit_s(old(mmu).ic.intf, line)
                    &&& final(mmu).ic.inte == old(mmu).ic.inte
                })
                &&& (!old(mmu).dma.active && 0xc000 <= final(self).sp
                    && final(self).sp + 1 < 0xe000 ==> {
                    &&& final(mmu).spec_read(final(self).sp) == old(self).pc % 256
                    &&& final(mmu).spec_read((final(self).sp + 1) as u16) == old(self).pc / 256
                    &&& final(mmu).ic.intf == resbit_s(old(mmu).ic.intf, line)
                    &&& final(mmu).ic.inte == old(mmu).ic.inte
                })
            },
    {
        if !self.ime {
            return 0;
        }
        let m: u8 = mmu.ic.intf & mmu.ic.inte;
        if m == 0 {
            return 0;
        }
        let line: u8 = if m % 2 == 1 { 0 } else if m / 2 % 2 == 1 { 1 }
            else if m / 4 % 2 == 1 { 2 } else if m / 8 % 2 == 1 { 3 } else { 4 };
        self.ime = false;
        self.halted = false;
        let cleared: u8 = alu_res(mmu.ic.intf, line);
        mmu.ic.intf = cleared;
        let pc0: u16 = self.pc;
        self.push16(mmu, pc0);
        self.pc = 0x40 + 8 * line as u16;
        5
    }
}

} // verus!
