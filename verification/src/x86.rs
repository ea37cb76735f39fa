//! 32-bit register arithmetic as the game's machine code does it: signed
//! division of a register pair, arithmetic shifts, and the person-record
//! multiply.
use vstd::prelude::*;
use vstd::arithmetic::power2::pow2;
use vstd::bits::lemma_u32_shr_is_div;

verus! {

/// The signed value of a 32-bit register.
pub open spec fn signed32(v: u32) -> int {
    if v < 0x8000_0000 {
        v as int
    } else {
        v as int - 0x1_0000_0000
    }
}

/// The signed 64-bit value of the register pair `hi:lo`.
pub open spec fn signed_pair(hi: u32, lo: u32) -> int {
    let v = hi as int * 0x1_0000_0000 + lo as int;
    if hi < 0x8000_0000 {
        v
    } else {
        v - 0x1_0000_0000_0000_0000
    }
}

pub open spec fn magnitude(a: int) -> int {
    if a < 0 { -a } else { a }
}

/// The quotient of `a` by `d`, rounded toward zero.
pub open spec fn quot_toward_zero(a: int, d: int) -> int {
    let q = magnitude(a) / magnitude(d);
    if (a < 0) != (d < 0) { -q } else { q }
}

/// The remainder of `a` by `d` that goes with `quot_toward_zero`: it has
/// the sign of `a`.
pub open spec fn rem_toward_zero(a: int, d: int) -> int {
    let r = magnitude(a) % magnitude(d);
    if a < 0 { -r } else { r }
}

/// The low 32 bits of `v`.
pub open spec fn low32(v: int) -> u32 {
    (v % 0x1_0000_0000) as u32
}

proof fn lemma_low32_neg(m: int)
    requires
        m >= 0,
    ensures
        low32(-m) as int == (0x1_0000_0000 - m % 0x1_0000_0000) % 0x1_0000_0000,
{
    assert((-m) % 0x1_0000_0000 == (0x1_0000_0000 - m % 0x1_0000_0000) % 0x1_0000_0000) by (nonlinear_arith)
        requires
            m >= 0,
    ;
}

/// Divides the signed register pair `hi:lo` by the signed `divisor`, as
/// `idiv` does: the quotient, rounded toward zero, and the remainder, each
/// cut to 32 bits.
pub fn idiv32(hi: u32, lo: u32, divisor: u32) -> (r: (u32, u32))
    requires
        divisor != 0,
        !(hi == 0x8000_0000 && lo == 0 && divisor == 0xffff_ffff),
    ensures
        r.0 == low32(quot_toward_zero(signed_pair(hi, lo), signed32(divisor))),
        r.1 == low32(rem_toward_zero(signed_pair(hi, lo), signed32(divisor))),
{
    let u: u64 = hi as u64 * 0x1_0000_0000 + lo as u64;
    let neg_a = hi >= 0x8000_0000;
    let mag_a: u64 = if neg_a { (0xffff_ffff_ffff_ffff - u) + 1 } else { u };
    let neg_d = divisor >= 0x8000_0000;
    let mag_d: u64 = if neg_d { 0x1_0000_0000 - divisor as u64 } else { divisor as u64 };
    assert(mag_a as int == magnitude(signed_pair(hi, lo)));
    assert(mag_d as int == magnitude(signed32(divisor)));
    let qm: u64 = mag_a / mag_d;
    let rm: u64 = mag_a % mag_d;
    let q: u32 = if neg_a != neg_d {
        ((0x1_0000_0000 - qm % 0x1_0000_0000) % 0x1_0000_0000) as u32
    } else {
        (qm % 0x1_0000_0000) as u32
    };
    let r: u32 = if neg_a {
        ((0x1_0000_0000 - rm % 0x1_0000_0000) % 0x1_0000_0000) as u32
    } else {
        (rm % 0x1_0000_0000) as u32
    };
    proof {
        lemma_low32_neg(qm as int);
        lemma_low32_neg(rm as int);
    }
    (q, r)
}

/// Shifts the signed register `val` right by `count` bits, filling with its
/// sign: the floor of its quotient by 2^count, cut to 32 bits.
pub fn sar(val: u32, count: u32) -> (r: u32)
    requires
        count < 32,
    ensures
        r == low32(signed32(val) / pow2(count as nat) as int),
{
    proof {
        vstd::arithmetic::power2::lemma_pow2_pos(count as nat);
    }
    if val < 0x8000_0000 {
        proof {
            lemma_u32_shr_is_div(val, count);
        }
        val >> count
    } else {
        let nv: u32 = !val;
        assert(nv == 0xffff_ffff - val) by (bit_vector)
            requires
                nv == !val,
        ;
        let nr: u32 = nv >> count;
        proof {
            lemma_u32_shr_is_div(nv, count);
        }
        let res: u32 = !nr;
        assert(res == 0xffff_ffff - nr) by (bit_vector)
            requires
                res == !nr,
        ;
        proof {
            let p = pow2(count as nat) as int;
            assert(signed32(val) == -(nv as int + 1));
            assert((-(nv as int + 1)) / p == -(nv as int / p) - 1) by (nonlinear_arith)
                requires
                    p > 0,
                    nv >= 0,
            ;
            assert(nr as int == nv as int / p);
            assert(low32(-(nr as int) - 1) == 0xffff_ffff - nr);
        }
        res
    }
}

/// Offset of person record `n`: `n` times the record size, cut to 32 bits.
pub fn asl_mul_slot(n: u32) -> (r: u32)
    ensures
        r as int == (n as int * 0x5c) % 0x1_0000_0000,
{
    ((n as u64 * 0x5c) % 0x1_0000_0000) as u32
}

} // verus!
