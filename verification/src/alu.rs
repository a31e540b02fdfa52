use vstd::prelude::*;
use crate::cpu_register::{flag_is_set, flag_update};

verus! {

/// The carry going into an addition: 1 when C is set.
pub open spec fn carry_in(p: u8) -> int {
    if flag_is_set(p, 0x01) { 1 } else { 0 }
}

/// Z and N from a result, Z first.
pub open spec fn nz(p: u8, r: u8) -> u8 {
    flag_update(flag_update(p, 0x02, r == 0), 0x80, r & 0x80u8 == 0x80u8)
}

/// Add with carry: A + M + C. C is the carry out of bit 7; V is set when A
/// and M agree in sign and the result does not.
pub open spec fn adc(a: u8, m: u8, p: u8) -> (u8, u8) {
    let sum = a + m + carry_in(p);
    let r = (sum % 256) as u8;
    let p1 = flag_update(p, 0x01, sum > 255);
    (r, flag_update(nz(p1, r), 0x40, (a ^ r) & (m ^ r) & 0x80u8 == 0x80u8))
}

/// Subtract with carry: A - M - (1 - C). C is cleared on a borrow; V is set
/// when A and M differ in sign and the result's sign differs from A's.
pub open spec fn sbc(a: u8, m: u8, p: u8) -> (u8, u8) {
    let diff = a - m - (1 - carry_in(p));
    let r = (diff % 256) as u8;
    let p1 = flag_update(p, 0x01, diff >= 0);
    (r, flag_update(nz(p1, r), 0x40, (a ^ m) & 0x80u8 == 0x80u8 && (a ^ r) & 0x80u8 == 0x80u8))
}

/// Compare: C when reg >= M, Z and N from reg - M.
pub open spec fn compare(reg: u8, m: u8, p: u8) -> u8 {
    let r = ((reg - m) % 256) as u8;
    nz(flag_update(p, 0x01, reg >= m), r)
}

/// Arithmetic shift left; bit 7 goes to C.
pub open spec fn asl(v: u8, p: u8) -> (u8, u8) {
    let r = v << 1u8;
    (r, nz(flag_update(p, 0x01, v & 0x80u8 == 0x80u8), r))
}

/// Logical shift right; bit 0 goes to C.
pub open spec fn lsr(v: u8, p: u8) -> (u8, u8) {
    let r = v >> 1u8;
    (r, nz(flag_update(p, 0x01, v & 0x01u8 == 0x01u8), r))
}

/// Rotate left through C.
pub open spec fn rol(v: u8, p: u8) -> (u8, u8) {
    let r = (v << 1u8) | (if flag_is_set(p, 0x01) { 0x01u8 } else { 0x00u8 });
    (r, nz(flag_update(p, 0x01, v & 0x80u8 == 0x80u8), r))
}

/// Rotate right through C.
pub open spec fn ror(v: u8, p: u8) -> (u8, u8) {
    let r = (v >> 1u8) | (if flag_is_set(p, 0x01) { 0x80u8 } else { 0x00u8 });
    (r, nz(flag_update(p, 0x01, v & 0x01u8 == 0x01u8), r))
}

/// ADC gives the sum of A, M and C modulo 256, with C set exactly when the
/// sum exceeds 255.
pub proof fn lemma_adc_is_addition(a: u8, m: u8, p: u8)
    ensures
        adc(a, m, p).0 == (a + m + carry_in(p)) % 256,
        flag_is_set(adc(a, m, p).1, 0x01) == (a + m + carry_in(p) > 255),
{
    let sum = a + m + carry_in(p);
    let p1 = flag_update(p, 0x01, sum > 255);
    let r = (sum % 256) as u8;
    crate::cpu_register::lemma_flag_write_read(p, 0x01, 0x01, sum > 255);
    crate::cpu_register::lemma_flag_write_read(p1, 0x02, 0x01, r == 0);
    crate::cpu_register::lemma_flag_write_read(flag_update(p1, 0x02, r == 0), 0x80, 0x01, r & 0x80u8 == 0x80u8);
    crate::cpu_register::lemma_flag_write_read(nz(p1, r), 0x40, 0x01, (a ^ r) & (m ^ r) & 0x80u8 == 0x80u8);
}

/// SBC is ADC of the complement: A - M - (1 - C) and A + !M + C give the
/// same result and the same flags.
pub proof fn lemma_sbc_is_adc_of_complement(a: u8, m: u8, p: u8)
    ensures
        sbc(a, m, p) == adc(a, !m, p),
{
    let nm = !m;
    assert(nm == 255 - m) by (bit_vector)
        requires
            nm == !m,
    ;
    let c = carry_in(p);
    let diff = a - m - (1 - c);
    let sum = a + nm + c;
    assert(sum == diff + 256);
    assert((diff % 256) == (sum % 256));
    let r = (sum % 256) as u8;
    assert(((a ^ r) & (nm ^ r) & 0x80u8 == 0x80u8) == ((a ^ m) & 0x80u8 == 0x80u8 && (a ^ r)
        & 0x80u8 == 0x80u8)) by (bit_vector)
        requires
            nm == !m,
    ;
}

/// Rotating left and then right through the carry gives back the value and
/// the carry.
pub proof fn lemma_rol_ror_roundtrip(v: u8, p: u8)
    ensures
        ror(rol(v, p).0, rol(v, p).1).0 == v,
        flag_is_set(ror(rol(v, p).0, rol(v, p).1).1, 0x01) == flag_is_set(p, 0x01),
{
    let (r, p1) = rol(v, p);
    let c = flag_is_set(p, 0x01);
    let cv: u8 = if c { 0x01u8 } else { 0x00u8 };
    let q = flag_update(p, 0x01, v & 0x80u8 == 0x80u8);
    crate::cpu_register::lemma_flag_write_read(p, 0x01, 0x01, v & 0x80u8 == 0x80u8);
    crate::cpu_register::lemma_flag_write_read(q, 0x02, 0x01, r == 0);
    crate::cpu_register::lemma_flag_write_read(flag_update(q, 0x02, r == 0), 0x80, 0x01, r & 0x80u8 == 0x80u8);
    let back: u8 = if v & 0x80u8 == 0x80u8 { 0x80u8 } else { 0x00u8 };
    assert(((((v << 1u8) | cv) >> 1u8) | back) == v) by (bit_vector)
        requires
            cv == 0x00u8 || cv == 0x01u8,
            back == (if v & 0x80u8 == 0x80u8 { 0x80u8 } else { 0x00u8 }),
    ;
    let q2 = flag_update(p1, 0x01, r & 0x01u8 == 0x01u8);
    crate::cpu_register::lemma_flag_write_read(p1, 0x01, 0x01, r & 0x01u8 == 0x01u8);
    let r2 = ror(r, p1).0;
    crate::cpu_register::lemma_flag_write_read(q2, 0x02, 0x01, r2 == 0);
    crate::cpu_register::lemma_flag_write_read(flag_update(q2, 0x02, r2 == 0), 0x80, 0x01, r2 & 0x80u8 == 0x80u8);
    assert((((v << 1u8) | cv) & 0x01u8 == 0x01u8) == (cv == 0x01u8)) by (bit_vector)
        requires
            cv == 0x00u8 || cv == 0x01u8,
    ;
}

/// Z and N of a result: Z is set exactly when the result is 0, N exactly
/// when its bit 7 is set (as a number, when it is at least 0x80); the other
/// flags are kept.
pub proof fn lemma_nz_flags(p: u8, r: u8)
    ensures
        flag_is_set(nz(p, r), 0x02) == (r == 0),
        flag_is_set(nz(p, r), 0x80) == (r >= 0x80),
        nz(p, r) & 0x7du8 == p & 0x7du8,
{
    let z = r == 0;
    let n = r & 0x80u8 == 0x80u8;
    let q = nz(p, r);
    assert(q == flag_update(flag_update(p, 0x02, z), 0x80, n));
    assert((r & 0x80u8 == 0x80u8) == (r >= 0x80u8)) by (bit_vector);
    assert({
        let q1 = if z { p | 0x02u8 } else { p & !0x02u8 };
        let q2 = if n { q1 | 0x80u8 } else { q1 & !0x80u8 };
        &&& (q2 & 0x02u8 == 0x02u8) == z
        &&& (q2 & 0x80u8 == 0x80u8) == n
        &&& q2 & 0x7du8 == p & 0x7du8
    }) by (bit_vector);
}

/// Compare: C is set exactly when reg >= M, Z exactly when reg == M, N when
/// bit 7 of reg - M (mod 256) is set; the other flags are kept.
pub proof fn lemma_compare_flags(reg: u8, m: u8, p: u8)
    ensures
        flag_is_set(compare(reg, m, p), 0x01) == (reg >= m),
        flag_is_set(compare(reg, m, p), 0x02) == (reg == m),
        flag_is_set(compare(reg, m, p), 0x80) == ((reg - m) % 256 >= 0x80),
        compare(reg, m, p) & 0x7cu8 == p & 0x7cu8,
{
    let c = reg >= m;
    let p1 = flag_update(p, 0x01, c);
    let r = ((reg - m) % 256) as u8;
    lemma_nz_flags(p1, r);
    crate::cpu_register::lemma_flag_write_read(p, 0x01, 0x01, c);
    assert((r == 0) == (reg == m));
    assert({
        let q1 = if c { p | 0x01u8 } else { p & !0x01u8 };
        &&& q1 & 0x7cu8 == p & 0x7cu8
        &&& (q1 & 0x01u8 == 0x01u8) == c
    }) by (bit_vector);
    let q = compare(reg, m, p);
    assert(q & 0x7du8 == p1 & 0x7du8);
    assert(p1 & 0x7cu8 == p & 0x7cu8);
    assert((q & 0x7du8 == p1 & 0x7du8) ==> (q & 0x7cu8 == p1 & 0x7cu8) && ((q & 0x01u8 == 0x01u8)
        == (p1 & 0x01u8 == 0x01u8))) by (bit_vector);
}

/// ADC in numbers: the result is A + M + C modulo 256; C tells whether the
/// sum exceeds 255; V tells whether A and M have the same sign (bit 7) and
/// the result the other one; Z and N come from the result.
pub proof fn lemma_adc_flags(a: u8, m: u8, p: u8)
    ensures
        adc(a, m, p).0 == (a + m + carry_in(p)) % 256,
        flag_is_set(adc(a, m, p).1, 0x01) == (a + m + carry_in(p) > 255),
        flag_is_set(adc(a, m, p).1, 0x40) == ((a >= 0x80) == (m >= 0x80) && (adc(a, m, p).0 >= 0x80)
            != (a >= 0x80)),
        flag_is_set(adc(a, m, p).1, 0x02) == (adc(a, m, p).0 == 0),
        flag_is_set(adc(a, m, p).1, 0x80) == (adc(a, m, p).0 >= 0x80),
{
    let sum = a + m + carry_in(p);
    let r = (sum % 256) as u8;
    let p1 = flag_update(p, 0x01, sum > 255);
    let v = (a ^ r) & (m ^ r) & 0x80u8 == 0x80u8;
    crate::cpu_register::lemma_flag_write_read(p, 0x01, 0x01, sum > 255);
    lemma_nz_flags(p1, r);
    let q = nz(p1, r);
    crate::cpu_register::lemma_flag_write_read(q, 0x40, 0x40, v);
    crate::cpu_register::lemma_flag_write_read(q, 0x40, 0x01, v);
    crate::cpu_register::lemma_flag_write_read(q, 0x40, 0x02, v);
    crate::cpu_register::lemma_flag_write_read(q, 0x40, 0x80, v);
    assert(q & 0x01u8 == p1 & 0x01u8 ==> ((q & 0x01u8 == 0x01u8) == (p1 & 0x01u8 == 0x01u8))) by (bit_vector);
    assert(q & 0x7du8 == p1 & 0x7du8 ==> q & 0x01u8 == p1 & 0x01u8) by (bit_vector);
    assert(v == ((a >= 0x80u8) == (m >= 0x80u8) && (r >= 0x80u8) != (a >= 0x80u8))) by (bit_vector)
        requires
            v == ((a ^ r) & (m ^ r) & 0x80u8 == 0x80u8),
    ;
}

/// SBC in numbers: the result is A - M - (1 - C) modulo 256; C tells whether
/// no borrow was needed (A >= M + 1 - C); V tells whether A and M have
/// different signs (bit 7) and the result's sign differs from A's; Z and N
/// come from the result.
pub proof fn lemma_sbc_flags(a: u8, m: u8, p: u8)
    ensures
        sbc(a, m, p).0 == (a - m - (1 - carry_in(p))) % 256,
        flag_is_set(sbc(a, m, p).1, 0x01) == (a >= m + (1 - carry_in(p))),
        flag_is_set(sbc(a, m, p).1, 0x40) == ((a >= 0x80) != (m >= 0x80) && (sbc(a, m, p).0 >= 0x80)
            != (a >= 0x80)),
        flag_is_set(sbc(a, m, p).1, 0x02) == (sbc(a, m, p).0 == 0),
        flag_is_set(sbc(a, m, p).1, 0x80) == (sbc(a, m, p).0 >= 0x80),
{
    let diff = a - m - (1 - carry_in(p));
    let r = (diff % 256) as u8;
    let p1 = flag_update(p, 0x01, diff >= 0);
    let v = (a ^ m) & 0x80u8 == 0x80u8 && (a ^ r) & 0x80u8 == 0x80u8;
    crate::cpu_register::lemma_flag_write_read(p, 0x01, 0x01, diff >= 0);
    lemma_nz_flags(p1, r);
    let q = nz(p1, r);
    crate::cpu_register::lemma_flag_write_read(q, 0x40, 0x40, v);
    crate::cpu_register::lemma_flag_write_read(q, 0x40, 0x01, v);
    crate::cpu_register::lemma_flag_write_read(q, 0x40, 0x02, v);
    crate::cpu_register::lemma_flag_write_read(q, 0x40, 0x80, v);
    assert(q & 0x01u8 == p1 & 0x01u8 ==> ((q & 0x01u8 == 0x01u8) == (p1 & 0x01u8 == 0x01u8))) by (bit_vector);
    assert(q & 0x7du8 == p1 & 0x7du8 ==> q & 0x01u8 == p1 & 0x01u8) by (bit_vector);
    assert(v == ((a >= 0x80u8) != (m >= 0x80u8) && (r >= 0x80u8) != (a >= 0x80u8))) by (bit_vector)
        requires
            v == ((a ^ m) & 0x80u8 == 0x80u8 && (a ^ r) & 0x80u8 == 0x80u8),
    ;
}

/// The shifts and rotations in numbers: ASL doubles modulo 256 and moves
/// the old bit 7 into C; LSR halves and moves the old bit 0 into C; ROL
/// doubles and adds the old C; ROR halves and adds 0x80 for the old C. Z and
/// N come from the result.
pub proof fn lemma_shift_results(v: u8, p: u8)
    ensures
        asl(v, p).0 == (2 * v) % 256,
        flag_is_set(asl(v, p).1, 0x01) == (v >= 0x80),
        lsr(v, p).0 == v / 2,
        flag_is_set(lsr(v, p).1, 0x01) == (v % 2 == 1),
        rol(v, p).0 == (2 * v + carry_in(p)) % 256,
        flag_is_set(rol(v, p).1, 0x01) == (v >= 0x80),
        ror(v, p).0 == v / 2 + 0x80 * carry_in(p),
        flag_is_set(ror(v, p).1, 0x01) == (v % 2 == 1),
        flag_is_set(asl(v, p).1, 0x02) == (asl(v, p).0 == 0),
        flag_is_set(lsr(v, p).1, 0x02) == (lsr(v, p).0 == 0),
        flag_is_set(rol(v, p).1, 0x02) == (rol(v, p).0 == 0),
        flag_is_set(ror(v, p).1, 0x02) == (ror(v, p).0 == 0),
{
    let c = flag_is_set(p, 0x01);
    let hi = v & 0x80u8 == 0x80u8;
    let lo = v & 0x01u8 == 0x01u8;
    assert(hi == (v >= 0x80u8) && lo == (v % 2 == 1) && (v << 1u8) == (2 * v) % 256 && v >> 1u8 == v / 2
        && ((v << 1u8) | 0x01u8) == (2 * v + 1) % 256 && ((v << 1u8) | 0x00u8) == (2 * v) % 256
        && ((v >> 1u8) | 0x80u8) == v / 2 + 0x80 && ((v >> 1u8) | 0x00u8) == v / 2) by (bit_vector)
        requires
            hi == (v & 0x80u8 == 0x80u8),
            lo == (v & 0x01u8 == 0x01u8),
    ;
    lemma_nz_flags(flag_update(p, 0x01, hi), asl(v, p).0);
    lemma_nz_flags(flag_update(p, 0x01, lo), lsr(v, p).0);
    lemma_nz_flags(flag_update(p, 0x01, hi), rol(v, p).0);
    lemma_nz_flags(flag_update(p, 0x01, lo), ror(v, p).0);
    crate::cpu_register::lemma_flag_write_read(p, 0x01, 0x01, hi);
    crate::cpu_register::lemma_flag_write_read(p, 0x01, 0x01, lo);
    let ph = flag_update(p, 0x01, hi);
    let pl = flag_update(p, 0x01, lo);
    assert(nz(ph, asl(v, p).0) & 0x7du8 == ph & 0x7du8 ==> ((nz(ph, asl(v, p).0) & 0x01u8 == 0x01u8)
        == (ph & 0x01u8 == 0x01u8))) by (bit_vector);
    assert(nz(pl, lsr(v, p).0) & 0x7du8 == pl & 0x7du8 ==> ((nz(pl, lsr(v, p).0) & 0x01u8 == 0x01u8)
        == (pl & 0x01u8 == 0x01u8))) by (bit_vector);
    assert(nz(ph, rol(v, p).0) & 0x7du8 == ph & 0x7du8 ==> ((nz(ph, rol(v, p).0) & 0x01u8 == 0x01u8)
        == (ph & 0x01u8 == 0x01u8))) by (bit_vector);
    assert(nz(pl, ror(v, p).0) & 0x7du8 == pl & 0x7du8 ==> ((nz(pl, ror(v, p).0) & 0x01u8 == 0x01u8)
        == (pl & 0x01u8 == 0x01u8))) by (bit_vector);
}

} // verus!
