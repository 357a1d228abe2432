//! Pure arithmetic of the LR35902: the 8-bit ALU, rotates and shifts, the
//! bit operations and the flag byte. Every function here is exact: its result
//! is stated by a spec function written from the instruction set's rules.
use vstd::prelude::*;

verus! {

/// The flag byte for the four flags: Z at bit 7, N at 6, H at 5, C at 4.
pub open spec fn flag_byte(z: bool, n: bool, h: bool, c: bool) -> u8 {
    ((if z { 128int } else { 0 }) + (if n { 64int } else { 0 }) + (if h { 32int } else { 0 }) + (
    if c { 16int } else { 0 })) as u8
}

/// Bit `i` of `v`, counted from the least significant bit.
pub open spec fn bit_of(v: int, i: int) -> bool {
    (v / pow2(i)) % 2 == 1
}

/// 2 to the power `i`, for bit positions.
pub open spec fn pow2(i: int) -> int
    decreases i,
{
    if i <= 0 {
        1
    } else {
        2 * pow2(i - 1)
    }
}

pub open spec fn carry_in(c: bool) -> int {
    if c {
        1
    } else {
        0
    }
}

/// The eight accumulator operations, by their three-bit code:
/// ADD, ADC, SUB, SBC, AND, XOR, OR, CP.
/// The result is the new accumulator and the new flag byte.
pub open spec fn alu8_spec(op: u8, a: u8, b: u8, carry: bool) -> (u8, u8) {
    let cin = if op == 1 || op == 3 {
        carry_in(carry)
    } else {
        0
    };
    if op == 0 || op == 1 {
        let sum = a + b + cin;
        let r = (sum % 256) as u8;
        (r, flag_byte(r == 0, false, (a % 16) + (b % 16) + cin > 15, sum > 255))
    } else if op == 2 || op == 3 || op == 7 {
        let diff = a - b - cin;
        let r = ((diff + 256) % 256) as u8;
        let res = if op == 7 {
            a
        } else {
            r
        };
        (res, flag_byte(r == 0, true, (a % 16) - (b % 16) - cin < 0, diff < 0))
    } else if op == 4 {
        let r = a & b;
        (r, flag_byte(r == 0, false, true, false))
    } else if op == 5 {
        let r = a ^ b;
        (r, flag_byte(r == 0, false, false, false))
    } else {
        let r = a | b;
        (r, flag_byte(r == 0, false, false, false))
    }
}

/// Builds the flag byte from the four flags.
pub fn make_flags(z: bool, n: bool, h: bool, c: bool) -> (r: u8)
    ensures
        r == flag_byte(z, n, h, c),
        r % 16 == 0,
{
    let mut f: u8 = 0;
    if z {
        f = f + 128;
    }
    if n {
        f = f + 64;
    }
    if h {
        f = f + 32;
    }
    if c {
        f = f + 16;
    }
    f
}

/// Runs one of the eight accumulator operations (`op` < 8).
pub fn alu8(op: u8, a: u8, b: u8, carry: bool) -> (r: (u8, u8))
    requires
        op < 8,
    ensures
        r == alu8_spec(op, a, b, carry),
        r.1 % 16 == 0,
{
    let cin: u8 = if (op == 1 || op == 3) && carry {
        1
    } else {
        0
    };
    if op == 0 || op == 1 {
        let sum: u16 = a as u16 + b as u16 + cin as u16;
        let r = (sum % 256) as u8;
        let f = make_flags(r == 0, false, (a % 16) + (b % 16) + cin > 15, sum > 255);
        (r, f)
    } else if op == 2 || op == 3 || op == 7 {
        let borrow = (b as u16 + cin as u16) > a as u16;
        let r: u8 = ((a as u16 + 256 - b as u16 - cin as u16) % 256) as u8;
        let half = (b % 16) + cin > (a % 16);
        let f = make_flags(r == 0, true, half, borrow);
        if op == 7 {
            (a, f)
        } else {
            (r, f)
        }
    } else if op == 4 {
        let r = a & b;
        (r, make_flags(r == 0, false, true, false))
    } else if op == 5 {
        let r = a ^ b;
        (r, make_flags(r == 0, false, false, false))
    } else {
        let r = a | b;
        (r, make_flags(r == 0, false, false, false))
    }
}


/// The CB-page shift group, by its three-bit code: RLC, RRC, RL, RR, SLA,
/// SRA, SWAP, SRL. The result is the new value and the new flag byte: Z from
/// the result, N and H clear, C the bit shifted out (clear for SWAP).
pub open spec fn shift_spec(op: u8, v: u8, carry: bool) -> (u8, u8) {
    let c = carry_in(carry);
    let v = v as int;
    let (r, cout) = if op == 0 {
        ((v * 2 + v / 128) % 256, v >= 128)
    } else if op == 1 {
        (v / 2 + (v % 2) * 128, v % 2 == 1)
    } else if op == 2 {
        ((v * 2 + c) % 256, v >= 128)
    } else if op == 3 {
        (v / 2 + c * 128, v % 2 == 1)
    } else if op == 4 {
        ((v * 2) % 256, v >= 128)
    } else if op == 5 {
        (v / 2 + (v / 128) * 128, v % 2 == 1)
    } else if op == 6 {
        ((v % 16) * 16 + v / 16, false)
    } else {
        (v / 2, v % 2 == 1)
    };
    (r as u8, flag_byte(r == 0, false, false, cout))
}

/// The accumulator rotates RLCA, RRCA, RLA, RRA (codes 0 to 3): the value of
/// the matching CB rotate, with Z always clear.
pub open spec fn rotate_a_spec(op: u8, a: u8, carry: bool) -> (u8, u8) {
    let (r, f) = shift_spec(op, a, carry);
    (r, flag_byte(false, false, false, (f / 16) % 2 == 1))
}

/// Runs one of the eight CB-page shifts (`op` < 8).
pub fn shift8(op: u8, v: u8, carry: bool) -> (r: (u8, u8))
    requires
        op < 8,
    ensures
        r == shift_spec(op, v, carry),
        r.1 % 16 == 0,
{
    let c: u16 = if carry {
        1
    } else {
        0
    };
    let w = v as u16;
    let (r, cout): (u16, bool) = if op == 0 {
        ((w * 2 + w / 128) % 256, v >= 128)
    } else if op == 1 {
        (w / 2 + (w % 2) * 128, v % 2 == 1)
    } else if op == 2 {
        ((w * 2 + c) % 256, v >= 128)
    } else if op == 3 {
        (w / 2 + c * 128, v % 2 == 1)
    } else if op == 4 {
        ((w * 2) % 256, v >= 128)
    } else if op == 5 {
        (w / 2 + (w / 128) * 128, v % 2 == 1)
    } else if op == 6 {
        ((w % 16) * 16 + w / 16, false)
    } else {
        (w / 2, v % 2 == 1)
    };
    let f = make_flags(r == 0, false, false, cout);
    (r as u8, f)
}

/// Runs one of the accumulator rotates (`op` < 4).
pub fn rotate_a(op: u8, a: u8, carry: bool) -> (r: (u8, u8))
    requires
        op < 4,
    ensures
        r == rotate_a_spec(op, a, carry),
        r.1 % 16 == 0,
{
    let (v, f) = shift8(op, a, carry);
    (v, make_flags(false, false, false, (f / 16) % 2 == 1))
}

/// INC r: the new value, and Z, H from it; N clear; C is kept from `carry`.
pub open spec fn inc8_spec(v: u8, carry: bool) -> (u8, u8) {
    let r = ((v + 1) % 256) as u8;
    (r, flag_byte(r == 0, false, v % 16 == 15, carry))
}

/// DEC r: the new value, and Z, H from it; N set; C is kept from `carry`.
pub open spec fn dec8_spec(v: u8, carry: bool) -> (u8, u8) {
    let r = ((v + 255) % 256) as u8;
    (r, flag_byte(r == 0, true, v % 16 == 0, carry))
}

pub fn inc8(v: u8, carry: bool) -> (r: (u8, u8))
    ensures
        r == inc8_spec(v, carry),
        r.1 % 16 == 0,
{
    let r = ((v as u16 + 1) % 256) as u8;
    (r, make_flags(r == 0, false, v % 16 == 15, carry))
}

pub fn dec8(v: u8, carry: bool) -> (r: (u8, u8))
    ensures
        r == dec8_spec(v, carry),
        r.1 % 16 == 0,
{
    let r = ((v as u16 + 255) % 256) as u8;
    (r, make_flags(r == 0, true, v % 16 == 0, carry))
}

/// DAA: the decimal correction of A after a BCD addition or subtraction,
/// from the N, H and C flags. Z from the result, H clear, N kept; C set when
/// an addition needed the 0x60 correction, else kept.
pub open spec fn daa_spec(a: u8, n: bool, h: bool, c: bool) -> (u8, u8) {
    if !n {
        let hi = c || a > 0x99;
        let a1 = if hi {
            a + 0x60
        } else {
            a as int
        };
        let a2 = if h || a % 16 > 9 {
            a1 + 6
        } else {
            a1
        };
        let r = (a2 % 256) as u8;
        (r, flag_byte(r == 0, false, false, hi))
    } else {
        let a1 = if c {
            a - 0x60
        } else {
            a as int
        };
        let a2 = if h {
            a1 - 6
        } else {
            a1
        };
        let r = ((a2 + 256) % 256) as u8;
        (r, flag_byte(r == 0, true, false, c))
    }
}

pub fn daa8(a: u8, n: bool, h: bool, c: bool) -> (r: (u8, u8))
    ensures
        r == daa_spec(a, n, h, c),
        r.1 % 16 == 0,
{
    if !n {
        let hi = c || a > 0x99;
        let a1: u16 = if hi {
            a as u16 + 0x60
        } else {
            a as u16
        };
        let a2: u16 = if h || a % 16 > 9 {
            a1 + 6
        } else {
            a1
        };
        let r = (a2 % 256) as u8;
        (r, make_flags(r == 0, false, false, hi))
    } else {
        let a1: u16 = if c {
            a as u16 + 256 - 0x60
        } else {
            a as u16 + 256
        };
        let a2: u16 = if h {
            a1 - 6
        } else {
            a1
        };
        let r = (a2 % 256) as u8;
        (r, make_flags(r == 0, true, false, c))
    }
}

/// Bit `i` of `v` (`i` < 8), as the value `(v >> i) & 1 == 1`.
pub fn test_bit(v: u8, i: u8) -> (r: bool)
    requires
        i < 8,
    ensures
        r == bit_of(v as int, i as int),
{
    let p = bit_mask(i);
    (v / p) % 2 == 1
}

/// The mask `1 << i` for a bit position `i` < 8.
pub fn bit_mask(i: u8) -> (r: u8)
    requires
        i < 8,
    ensures
        r as int == pow2(i as int),
        r == 1 || r == 2 || r == 4 || r == 8 || r == 16 || r == 32 || r == 64 || r == 128,
{
    reveal_with_fuel(pow2, 8);
    if i == 0 {
        1
    } else if i == 1 {
        2
    } else if i == 2 {
        4
    } else if i == 3 {
        8
    } else if i == 4 {
        16
    } else if i == 5 {
        32
    } else if i == 6 {
        64
    } else {
        128
    }
}

/// RES b: `v` with bit `i` cleared.
pub open spec fn res_spec(v: u8, i: int) -> u8 {
    if bit_of(v as int, i) {
        (v - pow2(i)) as u8
    } else {
        v
    }
}

/// SET b: `v` with bit `i` set.
pub open spec fn set_spec(v: u8, i: int) -> u8 {
    if bit_of(v as int, i) {
        v
    } else {
        (v + pow2(i)) as u8
    }
}

pub fn res_bit(v: u8, i: u8) -> (r: u8)
    requires
        i < 8,
    ensures
        r == res_spec(v, i as int),
{
    let p = bit_mask(i);
    if (v / p) % 2 == 1 {
        v - p
    } else {
        v
    }
}

pub fn set_bit(v: u8, i: u8) -> (r: u8)
    requires
        i < 8,
    ensures
        r == set_spec(v, i as int),
{
    let p = bit_mask(i);
    if (v / p) % 2 == 1 {
        v
    } else {
        proof {
            lemma_add_absent_bit(v as int, p as int);
        }
        v + p
    }
}

proof fn lemma_add_absent_bit(v: int, p: int)
    requires
        0 <= v < 256,
        p == 1 || p == 2 || p == 4 || p == 8 || p == 16 || p == 32 || p == 64 || p == 128,
        (v / p) % 2 == 0,
    ensures
        v + p < 256,
{
}

/// The value of a signed 8-bit offset stored as the byte `b`.
pub open spec fn signed8(b: u8) -> int {
    if b < 128 {
        b as int
    } else {
        b - 256
    }
}

/// `base` moved by the signed offset `b`, wrapping at 16 bits.
pub open spec fn offset16(base: u16, b: u8) -> u16 {
    ((base + signed8(b) + 65536) % 65536) as u16
}

pub fn add_offset(base: u16, b: u8) -> (r: u16)
    ensures
        r == offset16(base, b),
{
    let w: u32 = base as u32 + 65536 + b as u32;
    if b < 128 {
        (w % 65536) as u16
    } else {
        ((w - 256) % 65536) as u16
    }
}

/// The flags of `ADD SP,s8` and `LD HL,SP+s8`: Z and N clear, H and C from
/// the unsigned addition of the low byte of SP and the offset byte.
pub open spec fn sp_offset_flags(sp: u16, b: u8) -> u8 {
    flag_byte(false, false, (sp % 16) + (b % 16) > 15, (sp % 256) + b > 255)
}

pub fn sp_flags(sp: u16, b: u8) -> (r: u8)
    ensures
        r == sp_offset_flags(sp, b),
        r % 16 == 0,
{
    make_flags(false, false, (sp % 16) as u8 + (b % 16) > 15, (sp % 256) + b as u16 > 255)
}

/// The 16-bit word with high byte `hi` and low byte `lo`.
pub open spec fn word(hi: u8, lo: u8) -> u16 {
    (hi * 256 + lo) as u16
}

pub open spec fn hi_byte(w: u16) -> u8 {
    (w / 256) as u8
}

pub open spec fn lo_byte(w: u16) -> u8 {
    (w % 256) as u8
}

pub fn make_word(hi: u8, lo: u8) -> (r: u16)
    ensures
        r == word(hi, lo),
{
    hi as u16 * 256 + lo as u16
}

/// CPL: the complement of `a`.
pub open spec fn cpl_spec(a: u8) -> u8 {
    (255 - a) as u8
}

/// Whether the flag byte `f` has the flag of weight `w` (Z 128, N 64,
/// H 32, C 16) set.
pub open spec fn has_flag(f: u8, w: int) -> bool {
    (f as int / w) % 2 == 1
}

/// The four flags read back from `flag_byte` are the four given.
pub proof fn lemma_flag_byte(z: bool, n: bool, h: bool, c: bool)
    ensures
        has_flag(flag_byte(z, n, h, c), 128) == z,
        has_flag(flag_byte(z, n, h, c), 64) == n,
        has_flag(flag_byte(z, n, h, c), 32) == h,
        has_flag(flag_byte(z, n, h, c), 16) == c,
        flag_byte(z, n, h, c) % 16 == 0,
{
}

/// After ADD A,n: H is the carry out of bit 3, C the carry out of bit 7,
/// Z whether the result is zero, N clear.
pub proof fn lemma_add_flags(a: u8, n: u8, carry: bool)
    ensures
        ({
            let (r, f) = alu8_spec(0, a, n, carry);
            &&& has_flag(f, 32) == ((a % 16) + (n % 16) > 15)
            &&& has_flag(f, 16) == (a + n > 255)
            &&& has_flag(f, 128) == (r == 0)
            &&& !has_flag(f, 64)
            &&& r == (a + n) % 256
        }),
{
    let sum = a + n;
    lemma_flag_byte(((sum % 256) as u8) == 0, false, (a % 16) + (n % 16) > 15, sum > 255);
}

/// After SUB A,n: H is the borrow into bit 4, C the borrow out of bit 7,
/// Z whether the result is zero, N set.
pub proof fn lemma_sub_flags(a: u8, n: u8, carry: bool)
    ensures
        ({
            let (r, f) = alu8_spec(2, a, n, carry);
            &&& has_flag(f, 32) == ((a % 16) < (n % 16))
            &&& has_flag(f, 16) == (a < n)
            &&& has_flag(f, 128) == (r == 0)
            &&& has_flag(f, 64)
            &&& r == (a - n + 256) % 256
        }),
{
    let diff = a - n;
    lemma_flag_byte(((diff + 256) % 256) as u8 == 0, true, (a % 16) - (n % 16) < 0, diff < 0);
}

/// After INC r: C is unchanged, H is whether the low nibble was 0xF, N is
/// clear.
pub proof fn lemma_inc_flags(v: u8, carry: bool)
    ensures
        ({
            let (r, f) = inc8_spec(v, carry);
            &&& has_flag(f, 16) == carry
            &&& has_flag(f, 32) == (v % 16 == 15)
            &&& !has_flag(f, 64)
            &&& has_flag(f, 128) == (r == 0)
        }),
{
    let r = ((v + 1) % 256) as u8;
    lemma_flag_byte(r == 0, false, v % 16 == 15, carry);
}

/// After RLCA, RRCA, RLA or RRA, Z is clear whatever the result.
pub proof fn lemma_rotate_a_clears_zero(op: u8, a: u8, carry: bool)
    requires
        op < 4,
    ensures
        !has_flag(rotate_a_spec(op, a, carry).1, 128),
        has_flag(rotate_a_spec(op, a, carry).1, 16) == (if op == 0 || op == 2 {
            a >= 128
        } else {
            a % 2 == 1
        }),
        !has_flag(rotate_a_spec(op, a, carry).1, 64),
        !has_flag(rotate_a_spec(op, a, carry).1, 32),
{
    lemma_shift_carry(op, a, carry);
    let f = shift_spec(op, a, carry).1;
    lemma_flag_byte(false, false, false, (f / 16) % 2 == 1);
}

/// After a CB-page rotate or shift, Z is whether the result is zero.
pub proof fn lemma_shift_zero_flag(op: u8, v: u8, carry: bool)
    requires
        op < 8,
    ensures
        has_flag(shift_spec(op, v, carry).1, 128) == (shift_spec(op, v, carry).0 == 0),
{
    let c = carry_in(carry);
    let w = v as int;
    let (r, cout) = if op == 0 {
        ((w * 2 + w / 128) % 256, w >= 128)
    } else if op == 1 {
        (w / 2 + (w % 2) * 128, w % 2 == 1)
    } else if op == 2 {
        ((w * 2 + c) % 256, w >= 128)
    } else if op == 3 {
        (w / 2 + c * 128, w % 2 == 1)
    } else if op == 4 {
        ((w * 2) % 256, w >= 128)
    } else if op == 5 {
        (w / 2 + (w / 128) * 128, w % 2 == 1)
    } else if op == 6 {
        ((w % 16) * 16 + w / 16, false)
    } else {
        (w / 2, w % 2 == 1)
    };
    lemma_flag_byte(r == 0, false, false, cout);
}

/// SWAP twice gives back the value.
pub proof fn lemma_swap_twice(v: u8, c1: bool, c2: bool)
    ensures
        shift_spec(6, shift_spec(6, v, c1).0, c2).0 == v,
{
}

/// CPL twice gives back A.
pub proof fn lemma_cpl_twice(a: u8)
    ensures
        cpl_spec(cpl_spec(a)) == a,
{
}

/// The carry out of a CB-page rotate or shift is the bit shifted out.
pub proof fn lemma_shift_carry(op: u8, v: u8, carry: bool)
    requires
        op < 8,
    ensures
        has_flag(shift_spec(op, v, carry).1, 16) == (if op == 0 || op == 2 || op == 4 {
            v >= 128
        } else if op == 6 {
            false
        } else {
            v % 2 == 1
        }),
{
    let c = carry_in(carry);
    let w = v as int;
    let (r, cout) = if op == 0 {
        ((w * 2 + w / 128) % 256, w >= 128)
    } else if op == 1 {
        (w / 2 + (w % 2) * 128, w % 2 == 1)
    } else if op == 2 {
        ((w * 2 + c) % 256, w >= 128)
    } else if op == 3 {
        (w / 2 + c * 128, w % 2 == 1)
    } else if op == 4 {
        ((w * 2) % 256, w >= 128)
    } else if op == 5 {
        (w / 2 + (w / 128) * 128, w % 2 == 1)
    } else if op == 6 {
        ((w % 16) * 16 + w / 16, false)
    } else {
        (w / 2, w % 2 == 1)
    };
    lemma_flag_byte(r == 0, false, false, cout);
}

} // verus!
