//! Arithmetic/logic helpers of the LR35902 interpreter.
//!
//! Every helper returns its result together with the flag nibble it produces,
//! and its contract states the reference flag semantics exactly: Z, N, H and C
//! live at bits 7..4 of F, the half carry looks at the low nibbles, the carry
//! at the full bytes.

use vstd::prelude::*;

verus! {

/// Flag byte built from the four flag bits; the low nibble is always zero.
pub open spec fn mk_flags_s(z: bool, n: bool, h: bool, c: bool) -> u8 {
    ((if z { 128int } else { 0int }) + (if n { 64int } else { 0int })
        + (if h { 32int } else { 0int }) + (if c { 16int } else { 0int })) as u8
}

pub open spec fn f_z(f: u8) -> bool {
    f / 128 % 2 == 1
}

pub open spec fn f_n(f: u8) -> bool {
    f / 64 % 2 == 1
}

pub open spec fn f_h(f: u8) -> bool {
    f / 32 % 2 == 1
}

pub open spec fn f_c(f: u8) -> bool {
    f / 16 % 2 == 1
}

/// The flag byte keeps its low nibble clear.
pub open spec fn flags_wf(f: u8) -> bool {
    f % 16 == 0
}

/// Reading a built flag byte gives back exactly the bits it was built from.
pub proof fn lemma_flags_roundtrip(z: bool, n: bool, h: bool, c: bool)
    ensures
        f_z(mk_flags_s(z, n, h, c)) == z,
        f_n(mk_flags_s(z, n, h, c)) == n,
        f_h(mk_flags_s(z, n, h, c)) == h,
        f_c(mk_flags_s(z, n, h, c)) == c,
        flags_wf(mk_flags_s(z, n, h, c)),
{
}

pub fn mk_flags(z: bool, n: bool, h: bool, c: bool) -> (r: u8)
    ensures
        r == mk_flags_s(z, n, h, c),
{
    (if z { 128u8 } else { 0u8 }) + (if z { 0u8 } else { 0u8 })
        + (if n { 64u8 } else { 0u8 }) + (if h { 32u8 } else { 0u8 })
        + (if c { 16u8 } else { 0u8 })
}

pub fn get_z(f: u8) -> (r: bool)
    ensures
        r == f_z(f),
{
    f / 128 % 2 == 1
}

pub fn get_n(f: u8) -> (r: bool)
    ensures
        r == f_n(f),
{
    f / 64 % 2 == 1
}

pub fn get_h(f: u8) -> (r: bool)
    ensures
        r == f_h(f),
{
    f / 32 % 2 == 1
}

pub fn get_c(f: u8) -> (r: bool)
    ensures
        r == f_c(f),
{
    f / 16 % 2 == 1
}

/// `ADD`/`ADC`: sum modulo 256; H from the low nibbles, C from the full sum.
pub open spec fn add8_res(a: u8, b: u8, cin: bool) -> u8 {
    ((a + b + (if cin { 1int } else { 0int })) % 256) as u8
}

pub open spec fn add8_flags(a: u8, b: u8, cin: bool) -> u8 {
    mk_flags_s(
        add8_res(a, b, cin) == 0,
        false,
        a % 16 + b % 16 + (if cin { 1int } else { 0int }) > 15,
        a + b + (if cin { 1int } else { 0int }) > 255,
    )
}

pub fn alu_add8(a: u8, b: u8, cin: bool) -> (r: (u8, u8))
    ensures
        r.0 == add8_res(a, b, cin),
        r.1 == add8_flags(a, b, cin),
{
    let ci: u16 = if cin { 1 } else { 0 };
    let s: u16 = a as u16 + b as u16 + ci;
    let res: u8 = (s % 256) as u8;
    let h: bool = a % 16 + b % 16 + (ci as u8) > 15;
    (res, mk_flags(res == 0, false, h, s > 255))
}

/// `SUB`/`SBC`/`CP`: difference modulo 256; H when the low nibble borrows,
/// C when the full byte borrows.
pub open spec fn sub8_res(a: u8, b: u8, cin: bool) -> u8 {
    ((a - b - (if cin { 1int } else { 0int })) % 256) as u8
}

pub open spec fn sub8_flags(a: u8, b: u8, cin: bool) -> u8 {
    mk_flags_s(
        sub8_res(a, b, cin) == 0,
        true,
        a % 16 < b % 16 + (if cin { 1int } else { 0int }),
        a < b + (if cin { 1int } else { 0int }),
    )
}

pub fn alu_sub8(a: u8, b: u8, cin: bool) -> (r: (u8, u8))
    ensures
        r.0 == sub8_res(a, b, cin),
        r.1 == sub8_flags(a, b, cin),
{
    let ci: u16 = if cin { 1 } else { 0 };
    let s: u16 = (a as u16 + 256 - b as u16 - ci) % 256;
    let res: u8 = s as u8;
    let h: bool = a % 16 < b % 16 + (ci as u8);
    let c: bool = (a as u16) < b as u16 + ci;
    (res, mk_flags(res == 0, true, h, c))
}

/// `INC r`: H set exactly when the low nibble wraps; C is preserved.
pub fn alu_inc8(a: u8, f: u8) -> (r: (u8, u8))
    ensures
        r.0 == add8_res(a, 1, false),
        r.1 == mk_flags_s(add8_res(a, 1, false) == 0, false, a % 16 == 15, f_c(f)),
{
    let res: u8 = if a == 255 { 0 } else { a + 1 };
    (res, mk_flags(res == 0, false, a % 16 == 15, get_c(f)))
}

/// `DEC r`: H set exactly when the low nibble borrows; C is preserved.
pub fn alu_dec8(a: u8, f: u8) -> (r: (u8, u8))
    ensures
        r.0 == sub8_res(a, 1, false),
        r.1 == mk_flags_s(sub8_res(a, 1, false) == 0, true, a % 16 == 0, f_c(f)),
{
    let res: u8 = if a == 0 { 255 } else { a - 1 };
    (res, mk_flags(res == 0, true, a % 16 == 0, get_c(f)))
}

pub fn alu_and8(a: u8, b: u8) -> (r: (u8, u8))
    ensures
        r.0 == (a & b),
        r.1 == mk_flags_s((a & b) == 0, false, true, false),
{
    let res: u8 = a & b;
    (res, mk_flags(res == 0, false, true, false))
}

pub fn alu_or8(a: u8, b: u8) -> (r: (u8, u8))
    ensures
        r.0 == (a | b),
        r.1 == mk_flags_s((a | b) == 0, false, false, false),
{
    let res: u8 = a | b;
    (res, mk_flags(res == 0, false, false, false))
}

pub fn alu_xor8(a: u8, b: u8) -> (r: (u8, u8))
    ensures
        r.0 == (a ^ b),
        r.1 == mk_flags_s((a ^ b) == 0, false, false, false),
{
    let res: u8 = a ^ b;
    (res, mk_flags(res == 0, false, false, false))
}

/// Rotate left; the bit that leaves at the top re-enters at the bottom and
/// lands in C.
pub open spec fn rlc_res(a: u8) -> u8 {
    (a % 128 * 2 + a / 128) as u8
}

pub fn alu_rlc(a: u8) -> (r: (u8, bool))
    ensures
        r.0 == rlc_res(a),
        r.1 == (a >= 128),
{
    (a % 128 * 2 + a / 128, a >= 128)
}

/// Rotate right; the bit that leaves at the bottom re-enters at the top.
pub open spec fn rrc_res(a: u8) -> u8 {
    (a / 2 + a % 2 * 128) as u8
}

pub fn alu_rrc(a: u8) -> (r: (u8, bool))
    ensures
        r.0 == rrc_res(a),
        r.1 == (a % 2 == 1),
{
    (a / 2 + a % 2 * 128, a % 2 == 1)
}

/// Rotate left through carry.
pub open spec fn rl_res(a: u8, cin: bool) -> u8 {
    (a % 128 * 2 + (if cin { 1int } else { 0int })) as u8
}

pub fn alu_rl(a: u8, cin: bool) -> (r: (u8, bool))
    ensures
        r.0 == rl_res(a, cin),
        r.1 == (a >= 128),
{
    (a % 128 * 2 + (if cin { 1u8 } else { 0u8 }), a >= 128)
}

/// Rotate right through carry.
pub open spec fn rr_res(a: u8, cin: bool) -> u8 {
    (a / 2 + (if cin { 128int } else { 0int })) as u8
}

pub fn alu_rr(a: u8, cin: bool) -> (r: (u8, bool))
    ensures
        r.0 == rr_res(a, cin),
        r.1 == (a % 2 == 1),
{
    (a / 2 + (if cin { 128u8 } else { 0u8 }), a % 2 == 1)
}

/// Arithmetic shift left.
pub fn alu_sla(a: u8) -> (r: (u8, bool))
    ensures
        r.0 == a % 128 * 2,
        r.1 == (a >= 128),
{
    (a % 128 * 2, a >= 128)
}

/// Arithmetic shift right: the sign bit stays.
pub fn alu_sra(a: u8) -> (r: (u8, bool))
    ensures
        r.0 == (a / 2 + a / 128 * 128),
        r.1 == (a % 2 == 1),
{
    (a / 2 + a / 128 * 128, a % 2 == 1)
}

/// Logical shift right.
pub fn alu_srl(a: u8) -> (r: (u8, bool))
    ensures
        r.0 == a / 2,
        r.1 == (a % 2 == 1),
{
    (a / 2, a % 2 == 1)
}

/// Swap the two nibbles.
pub fn alu_swap(a: u8) -> (r: u8)
    ensures
        r == a % 16 * 16 + a / 16,
{
    a % 16 * 16 + a / 16
}

pub open spec fn pow2_s(n: u8) -> u8
    recommends
        n < 8,
{
    if n == 0 { 1 } else if n == 1 { 2 } else if n == 2 { 4 } else if n == 3 { 8 }
    else if n == 4 { 16 } else if n == 5 { 32 } else if n == 6 { 64 } else { 128 }
}

pub fn pow2(n: u8) -> (r: u8)
    requires
        n < 8,
    ensures
        r == pow2_s(n),
{
    match n {
        0 => 1,
        1 => 2,
        2 => 4,
        3 => 8,
        4 => 16,
        5 => 32,
        6 => 64,
        _ => 128,
    }
}

/// Whether bit `n` of `a` is set.
pub open spec fn bit_s(a: u8, n: u8) -> bool
    recommends
        n < 8,
{
    a / pow2_s(n) % 2 == 1
}

pub fn alu_bit(a: u8, n: u8) -> (r: bool)
    requires
        n < 8,
    ensures
        r == bit_s(a, n),
{
    a / pow2(n) % 2 == 1
}

/// `a` with bit `n` set.
pub open spec fn setbit_s(a: u8, n: u8) -> u8
    recommends
        n < 8,
{
    if bit_s(a, n) { a } else { (a + pow2_s(n)) as u8 }
}

pub fn alu_set(a: u8, n: u8) -> (r: u8)
    requires
        n < 8,
    ensures
        r == setbit_s(a, n),
{
    let p: u8 = pow2(n);
    if a / p % 2 == 1 { a } else { a + p }
}

/// `a` with bit `n` cleared.
pub open spec fn resbit_s(a: u8, n: u8) -> u8
    recommends
        n < 8,
{
    if bit_s(a, n) { (a - pow2_s(n)) as u8 } else { a }
}

pub fn alu_res(a: u8, n: u8) -> (r: u8)
    requires
        n < 8,
    ensures
        r == resbit_s(a, n),
{
    let p: u8 = pow2(n);
    if a / p % 2 == 1 { a - p } else { a }
}

/// `ADD HL,rr`: H on carry out of bit 11, C on carry out of bit 15; Z kept.
pub open spec fn add16_res(a: u16, b: u16) -> u16 {
    ((a + b) % 0x10000) as u16
}

pub fn alu_add16(a: u16, b: u16, f: u8) -> (r: (u16, u8))
    ensures
        r.0 == add16_res(a, b),
        r.1 == mk_flags_s(f_z(f), false, a % 4096 + b % 4096 > 4095, a + b > 65535),
{
    let s: u32 = a as u32 + b as u32;
    let h: bool = a % 4096 + b % 4096 > 4095;
    ((s % 0x10000) as u16, mk_flags(get_z(f), false, h, s > 65535))
}

/// The two's-complement reading of an operand byte.
pub open spec fn signed_s(e: u8) -> int {
    if e < 128 { e as int } else { e - 256 }
}

/// 16-bit value displaced by a signed byte, modulo 2^16.
pub open spec fn disp16_res(a: u16, e: u8) -> u16 {
    ((a + signed_s(e)) % 0x10000) as u16
}

pub fn alu_disp16(a: u16, e: u8) -> (r: u16)
    ensures
        r == disp16_res(a, e),
{
    let s: u32 = (a as u32 + e as u32 + (if e < 128 { 0u32 } else { 0xff00u32 })) % 0x10000;
    proof {
        assert((a + e + (if e < 128 { 0int } else { 0xff00int })) % 0x10000
            == (a + signed_s(e)) % 0x10000) by {
            if e >= 128 {
                vstd::arithmetic::div_mod::lemma_mod_add_multiples_vanish(
                    a + signed_s(e), 0x10000);
            }
        };
    }
    s as u16
}

/// `ADD SP,e` / `LD HL,SP+e`: eight-bit carry semantics on the low byte.
pub fn alu_sp_disp_flags(a: u16, e: u8) -> (r: u8)
    ensures
        r == mk_flags_s(false, false, a % 16 + e % 16 > 15, a % 256 + e > 255),
{
    mk_flags(false, false, a % 16 + (e % 16) as u16 > 15, a % 256 + e as u16 > 255)
}

/// `DAA`: decimal adjust after an addition or subtraction, steered by N, H, C.
pub open spec fn daa_spec(a: u8, f: u8) -> (u8, u8) {
    if !f_n(f) {
        let c1 = f_c(f) || a > 0x99;
        let a1 = if c1 { ((a + 0x60) % 256) as u8 } else { a };
        let a2 = if f_h(f) || a % 16 > 9 { ((a1 + 6) % 256) as u8 } else { a1 };
        (a2, mk_flags_s(a2 == 0, false, false, c1))
    } else {
        let a1 = if f_c(f) { ((a - 0x60) % 256) as u8 } else { a };
        let a2 = if f_h(f) { ((a1 - 6) % 256) as u8 } else { a1 };
        (a2, mk_flags_s(a2 == 0, true, false, f_c(f)))
    }
}

pub fn alu_daa(a: u8, f: u8) -> (r: (u8, u8))
    ensures
        r == daa_spec(a, f),
{
    if !get_n(f) {
        let c1: bool = get_c(f) || a > 0x99;
        let a1: u8 = if c1 { (((a as u16) + 0x60) % 256) as u8 } else { a };
        let a2: u8 = if get_h(f) || a % 16 > 9 { (((a1 as u16) + 6) % 256) as u8 } else { a1 };
        (a2, mk_flags(a2 == 0, false, false, c1))
    } else {
        let a1: u8 = if get_c(f) { (((a as u16) + 256 - 0x60) % 256) as u8 } else { a };
        let a2: u8 = if get_h(f) { (((a1 as u16) + 256 - 6) % 256) as u8 } else { a1 };
        (a2, mk_flags(a2 == 0, true, false, get_c(f)))
    }
}

} // verus!
