use vstd::prelude::*;

verus! {

/// Number of values of an operand: 2^8 or 2^16.
pub open spec fn modulus(wide: bool) -> int {
    if wide {
        0x10000
    } else {
        0x100
    }
}

/// Value of the sign bit of an operand.
pub open spec fn top(wide: bool) -> int {
    if wide {
        0x8000
    } else {
        0x80
    }
}

/// An operand of the given width holds `v`.
pub open spec fn fits(v: u16, wide: bool) -> bool {
    (v as int) < modulus(wide)
}

pub open spec fn bit_count(n: nat) -> nat
    decreases n,
{
    if n == 0 {
        0
    } else {
        n % 2 + bit_count(n / 2)
    }
}

/// The low byte of `v` has an even number of set bits.
pub open spec fn even_parity(v: u16) -> bool {
    bit_count((v % 256) as nat) % 2 == 0
}

pub open spec fn is_negative(v: u16, wide: bool) -> bool {
    v as int >= top(wide)
}

/// `dst + src + carry`, truncated to the operand width.
pub open spec fn add_result(dst: u16, src: u16, carry: bool, wide: bool) -> u16 {
    ((dst as int + src as int + (if carry { 1int } else { 0int })) % modulus(wide)) as u16
}

/// `dst - src - borrow`, truncated to the operand width.
pub open spec fn sub_result(dst: u16, src: u16, borrow: bool, wide: bool) -> u16 {
    ((dst as int - src as int - (if borrow { 1int } else { 0int }) + modulus(wide)) % modulus(
        wide,
    )) as u16
}

/// Auxiliary carry: a carry or borrow between bit 3 and bit 4.
pub open spec fn aux_carry(res: u16, src: u16, dst: u16) -> bool {
    (res ^ src ^ dst) & 0x10 != 0
}

/// The kinds of shift and rotate.
#[derive(Clone, Copy, Debug, PartialEq, Eq, Structural)]
pub enum ShiftKind {
    Rol,
    Ror,
    Rcl,
    Rcr,
    Shl,
    Shr,
    Sar,
}

/// One single-bit step of a shift or rotate: the new value and the new carry.
pub open spec fn shift_once(kind: ShiftKind, v: u16, cf: bool, wide: bool) -> (u16, bool) {
    let m = modulus(wide);
    let t = top(wide);
    let msb = v as int >= t;
    let lsb = v % 2 == 1;
    match kind {
        ShiftKind::Shl => (((v as int * 2) % m) as u16, msb),
        ShiftKind::Shr => ((v as int / 2) as u16, lsb),
        ShiftKind::Sar => ((v as int / 2 + (if msb { t } else { 0 })) as u16, lsb),
        ShiftKind::Rol => (((v as int * 2) % m + (if msb { 1int } else { 0 })) as u16, msb),
        ShiftKind::Ror => ((v as int / 2 + (if lsb { t } else { 0 })) as u16, lsb),
        ShiftKind::Rcl => (((v as int * 2) % m + (if cf { 1int } else { 0 })) as u16, msb),
        ShiftKind::Rcr => ((v as int / 2 + (if cf { t } else { 0 })) as u16, lsb),
    }
}

/// `n` single-bit steps of a shift or rotate.
pub open spec fn shift_steps(kind: ShiftKind, v: u16, cf: bool, n: nat, wide: bool) -> (u16, bool)
    decreases n,
{
    if n == 0 {
        (v, cf)
    } else {
        let s = shift_once(kind, v, cf, wide);
        shift_steps(kind, s.0, s.1, (n - 1) as nat, wide)
    }
}

pub open spec fn is_rotate(kind: ShiftKind) -> bool {
    kind == ShiftKind::Rol || kind == ShiftKind::Ror || kind == ShiftKind::Rcl || kind
        == ShiftKind::Rcr
}

/// The FLAGS word as independent condition and control bits.
#[derive(Clone, Copy, Debug, PartialEq, Eq, Structural)]
pub struct Flags {
    pub carry: bool,
    pub parity: bool,
    pub auxiliary_carry: bool,
    pub zero: bool,
    pub sign: bool,
    pub trap: bool,
    pub interrupt: bool,
    pub direction: bool,
    pub overflow: bool,
}

pub open spec fn bit(b: bool, v: int) -> int {
    if b {
        v
    } else {
        0
    }
}

pub open spec fn has_bit(w: u16, v: int) -> bool {
    (w as int / v) % 2 == 1
}

impl Flags {
    /// All flags clear.
    pub open spec fn new_spec() -> Flags {
        Flags {
            carry: false,
            parity: false,
            auxiliary_carry: false,
            zero: false,
            sign: false,
            trap: false,
            interrupt: false,
            direction: false,
            overflow: false,
        }
    }

    /// The packed FLAGS word; bit 1 always reads as set.
    pub open spec fn packed(self) -> u16 {
        (bit(self.carry, 0x1) + 0x2 + bit(self.parity, 0x4) + bit(self.auxiliary_carry, 0x10)
            + bit(self.zero, 0x40) + bit(self.sign, 0x80) + bit(self.trap, 0x100) + bit(
            self.interrupt,
            0x200,
        ) + bit(self.direction, 0x400) + bit(self.overflow, 0x800)) as u16
    }

    /// Flags read back from a packed FLAGS word.
    pub open spec fn unpacked(w: u16) -> Flags {
        Flags {
            carry: has_bit(w, 0x1),
            parity: has_bit(w, 0x4),
            auxiliary_carry: has_bit(w, 0x10),
            zero: has_bit(w, 0x40),
            sign: has_bit(w, 0x80),
            trap: has_bit(w, 0x100),
            interrupt: has_bit(w, 0x200),
            direction: has_bit(w, 0x400),
            overflow: has_bit(w, 0x800),
        }
    }

    /// The low byte of FLAGS as LAHF reads it: SF ZF - AF - PF - CF.
    pub open spec fn low_byte(self) -> u8 {
        (bit(self.carry, 0x1) + 0x2 + bit(self.parity, 0x4) + bit(self.auxiliary_carry, 0x10)
            + bit(self.zero, 0x40) + bit(self.sign, 0x80)) as u8
    }

    /// SAHF: CF, PF, AF, ZF and SF taken from a byte, the rest kept.
    pub open spec fn with_low_byte(self, b: u8) -> Flags {
        let w = b as u16;
        Flags {
            carry: has_bit(w, 0x1),
            parity: has_bit(w, 0x4),
            auxiliary_carry: has_bit(w, 0x10),
            zero: has_bit(w, 0x40),
            sign: has_bit(w, 0x80),
            ..self
        }
    }

    /// ZF, SF and PF set from a width-masked result.
    pub open spec fn with_result(self, res: u16, wide: bool) -> Flags {
        Flags { zero: res == 0, sign: is_negative(res, wide), parity: even_parity(res), ..self }
    }

    pub open spec fn after_add(self, dst: u16, src: u16, carry: bool, wide: bool) -> Flags {
        let res = add_result(dst, src, carry, wide);
        Flags {
            carry: dst as int + src as int + (if carry { 1int } else { 0int }) >= modulus(wide),
            overflow: is_negative(dst, wide) == is_negative(src, wide) && is_negative(res, wide)
                != is_negative(dst, wide),
            auxiliary_carry: aux_carry(res, src, dst),
            ..self.with_result(res, wide)
        }
    }

    pub open spec fn after_sub(self, dst: u16, src: u16, borrow: bool, wide: bool) -> Flags {
        let res = sub_result(dst, src, borrow, wide);
        Flags {
            carry: (dst as int) < src as int + (if borrow { 1int } else { 0int }),
            overflow: is_negative(dst, wide) != is_negative(src, wide) && is_negative(res, wide)
                == is_negative(src, wide),
            auxiliary_carry: aux_carry(res, src, dst),
            ..self.with_result(res, wide)
        }
    }

    /// AND, OR, XOR, TEST: CF, OF and AF cleared.
    pub open spec fn after_logic(self, res: u16, wide: bool) -> Flags {
        Flags {
            carry: false,
            overflow: false,
            auxiliary_carry: false,
            ..self.with_result(res, wide)
        }
    }

    /// INC: as an addition of one, with CF kept.
    pub open spec fn after_inc(self, dst: u16, wide: bool) -> Flags {
        Flags { carry: self.carry, ..self.after_add(dst, 1, false, wide) }
    }

    /// DEC: as a subtraction of one, with CF kept.
    pub open spec fn after_dec(self, dst: u16, wide: bool) -> Flags {
        Flags { carry: self.carry, ..self.after_sub(dst, 1, false, wide) }
    }

    /// Flags after a shift or rotate by `count` (already masked to five bits) of `dst`.
    /// OF is computed by the single-bit rule whatever the count.
    pub open spec fn after_shift(self, kind: ShiftKind, dst: u16, count: nat, wide: bool) -> Flags {
        if count == 0 {
            self
        } else {
            let s = shift_steps(kind, dst, self.carry, count, wide);
            let res = s.0;
            let cf = s.1;
            let of = match kind {
                ShiftKind::Shl => is_negative(res, wide) != cf,
                ShiftKind::Shr => is_negative(dst, wide),
                ShiftKind::Sar => false,
                _ => is_negative(res, wide) != ((res as int * 2) % modulus(wide) >= top(wide)),
            };
            if is_rotate(kind) {
                Flags { carry: cf, overflow: of, ..self }
            } else {
                Flags { carry: cf, overflow: of, ..self.with_result(res, wide) }
            }
        }
    }
}

/// Whether the low byte of `v` has an even number of set bits.
pub fn parity_of(v: u16) -> (r: bool)
    ensures
        r == even_parity(v),
{
    let b: u16 = v % 256;
    let mut x: u16 = b;
    let mut c: u16 = 0;
    while x != 0
        invariant
            c as nat + bit_count(x as nat) == bit_count(b as nat),
            c as int + x as int <= b as int,
            b < 256,
        decreases x,
    {
        c = c + x % 2;
        x = x / 2;
    }
    c % 2 == 0
}

pub fn add_value(dst: u16, src: u16, carry: bool, wide: bool) -> (r: u16)
    requires
        fits(dst, wide),
        fits(src, wide),
    ensures
        r == add_result(dst, src, carry, wide),
        fits(r, wide),
{
    let m: u32 = if wide {
        0x10000
    } else {
        0x100
    };
    let c: u32 = if carry {
        1
    } else {
        0
    };
    ((dst as u32 + src as u32 + c) % m) as u16
}

pub fn sub_value(dst: u16, src: u16, borrow: bool, wide: bool) -> (r: u16)
    requires
        fits(dst, wide),
        fits(src, wide),
    ensures
        r == sub_result(dst, src, borrow, wide),
        fits(r, wide),
{
    let m: u32 = if wide {
        0x10000
    } else {
        0x100
    };
    let b: u32 = if borrow {
        1
    } else {
        0
    };
    ((dst as u32 + m - src as u32 - b) % m) as u16
}

pub fn shift_one(kind: ShiftKind, v: u16, cf: bool, wide: bool) -> (r: (u16, bool))
    requires
        fits(v, wide),
    ensures
        r == shift_once(kind, v, cf, wide),
        fits(r.0, wide),
{
    let m: u32 = if wide {
        0x10000
    } else {
        0x100
    };
    let t: u32 = if wide {
        0x8000
    } else {
        0x80
    };
    let x = v as u32;
    let msb = x >= t;
    let lsb = x % 2 == 1;
    match kind {
        ShiftKind::Shl => (((x * 2) % m) as u16, msb),
        ShiftKind::Shr => ((x / 2) as u16, lsb),
        ShiftKind::Sar => ((x / 2 + (if msb { t } else { 0 })) as u16, lsb),
        ShiftKind::Rol => (((x * 2) % m + (if msb { 1 } else { 0 })) as u16, msb),
        ShiftKind::Ror => ((x / 2 + (if lsb { t } else { 0 })) as u16, lsb),
        ShiftKind::Rcl => (((x * 2) % m + (if cf { 1 } else { 0 })) as u16, msb),
        ShiftKind::Rcr => ((x / 2 + (if cf { t } else { 0 })) as u16, lsb),
    }
}

/// Applies `n` single-bit steps of a shift or rotate.
pub fn shift_by(kind: ShiftKind, v: u16, cf: bool, n: u8, wide: bool) -> (r: (u16, bool))
    requires
        fits(v, wide),
    ensures
        r == shift_steps(kind, v, cf, n as nat, wide),
        fits(r.0, wide),
{
    let mut i: u8 = 0;
    let mut cur: (u16, bool) = (v, cf);
    while i < n
        invariant
            i <= n,
            fits(cur.0, wide),
            shift_steps(kind, v, cf, n as nat, wide) == shift_steps(
                kind,
                cur.0,
                cur.1,
                (n - i) as nat,
                wide,
            ),
        decreases n - i,
    {
        cur = shift_one(kind, cur.0, cur.1, wide);
        i = i + 1;
    }
    cur
}

fn bit_value(b: bool, v: u16) -> (r: u16)
    ensures
        r as int == bit(b, v as int),
{
    if b {
        v
    } else {
        0
    }
}

impl Flags {
    /// All flags clear.
    pub fn new() -> (r: Flags)
        ensures
            r == Flags::new_spec(),
    {
        Flags {
            carry: false,
            parity: false,
            auxiliary_carry: false,
            zero: false,
            sign: false,
            trap: false,
            interrupt: false,
            direction: false,
            overflow: false,
        }
    }

    /// The packed FLAGS word, as PUSHF stores it.
    pub fn u16(&self) -> (r: u16)
        ensures
            r == self.packed(),
    {
        bit_value(self.carry, 0x1) + 0x2 + bit_value(self.parity, 0x4) + bit_value(
            self.auxiliary_carry,
            0x10,
        ) + bit_value(self.zero, 0x40) + bit_value(self.sign, 0x80) + bit_value(self.trap, 0x100)
            + bit_value(self.interrupt, 0x200) + bit_value(self.direction, 0x400) + bit_value(
            self.overflow,
            0x800,
        )
    }

    /// Loads every flag from a packed FLAGS word, as POPF does.
    pub fn set_u16(&mut self, w: u16)
        ensures
            *final(self) == Flags::unpacked(w),
    {
        self.carry = (w / 0x1) % 2 == 1;
        self.parity = (w / 0x4) % 2 == 1;
        self.auxiliary_carry = (w / 0x10) % 2 == 1;
        self.zero = (w / 0x40) % 2 == 1;
        self.sign = (w / 0x80) % 2 == 1;
        self.trap = (w / 0x100) % 2 == 1;
        self.interrupt = (w / 0x200) % 2 == 1;
        self.direction = (w / 0x400) % 2 == 1;
        self.overflow = (w / 0x800) % 2 == 1;
    }

    /// The low byte of FLAGS, as LAHF reads it.
    pub fn lahf_value(&self) -> (r: u8)
        ensures
            r == self.low_byte(),
    {
        (bit_value(self.carry, 0x1) + 0x2 + bit_value(self.parity, 0x4) + bit_value(
            self.auxiliary_carry,
            0x10,
        ) + bit_value(self.zero, 0x40) + bit_value(self.sign, 0x80)) as u8
    }

    /// SAHF: loads SF, ZF, AF, PF and CF from a byte.
    pub fn set_low_byte(&mut self, b: u8)
        ensures
            *final(self) == old(self).with_low_byte(b),
    {
        let w = b as u16;
        self.carry = (w / 0x1) % 2 == 1;
        self.parity = (w / 0x4) % 2 == 1;
        self.auxiliary_carry = (w / 0x10) % 2 == 1;
        self.zero = (w / 0x40) % 2 == 1;
        self.sign = (w / 0x80) % 2 == 1;
    }

    /// Sets ZF, SF and PF from a width-masked result.
    pub fn set_result(&mut self, res: u16, wide: bool)
        ensures
            *final(self) == old(self).with_result(res, wide),
    {
        self.zero = res == 0;
        self.sign = if wide {
            res >= 0x8000
        } else {
            res >= 0x80
        };
        self.parity = parity_of(res);
    }

    /// ADD and ADC: returns the truncated sum and sets CF, OF, AF, ZF, SF and PF.
    pub fn add(&mut self, dst: u16, src: u16, carry: bool, wide: bool) -> (r: u16)
        requires
            fits(dst, wide),
            fits(src, wide),
        ensures
            r == add_result(dst, src, carry, wide),
            *final(self) == old(self).after_add(dst, src, carry, wide),
    {
        let res = add_value(dst, src, carry, wide);
        let m: u32 = if wide {
            0x10000
        } else {
            0x100
        };
        let c: u32 = if carry {
            1
        } else {
            0
        };
        let t: u16 = if wide {
            0x8000
        } else {
            0x80
        };
        self.set_result(res, wide);
        self.carry = dst as u32 + src as u32 + c >= m;
        self.overflow = (dst >= t) == (src >= t) && (res >= t) != (dst >= t);
        self.auxiliary_carry = (res ^ src ^ dst) & 0x10 != 0;
        res
    }

    /// SUB, SBB, CMP and NEG: returns the truncated difference and sets CF, OF, AF, ZF, SF and PF.
    pub fn sub(&mut self, dst: u16, src: u16, borrow: bool, wide: bool) -> (r: u16)
        requires
            fits(dst, wide),
            fits(src, wide),
        ensures
            r == sub_result(dst, src, borrow, wide),
            *final(self) == old(self).after_sub(dst, src, borrow, wide),
    {
        let res = sub_value(dst, src, borrow, wide);
        let b: u32 = if borrow {
            1
        } else {
            0
        };
        let t: u16 = if wide {
            0x8000
        } else {
            0x80
        };
        self.set_result(res, wide);
        self.carry = (dst as u32) < src as u32 + b;
        self.overflow = (dst >= t) != (src >= t) && (res >= t) == (src >= t);
        self.auxiliary_carry = (res ^ src ^ dst) & 0x10 != 0;
        res
    }

    /// AND, OR, XOR and TEST: clears CF, OF and AF, and sets ZF, SF and PF from the result.
    pub fn logic(&mut self, res: u16, wide: bool)
        ensures
            *final(self) == old(self).after_logic(res, wide),
    {
        self.set_result(res, wide);
        self.carry = false;
        self.overflow = false;
        self.auxiliary_carry = false;
    }

    /// INC: returns `dst + 1`, truncated; CF is kept.
    pub fn inc(&mut self, dst: u16, wide: bool) -> (r: u16)
        requires
            fits(dst, wide),
        ensures
            r == add_result(dst, 1, false, wide),
            *final(self) == old(self).after_inc(dst, wide),
    {
        let cf = self.carry;
        let r = self.add(dst, 1, false, wide);
        self.carry = cf;
        r
    }

    /// DEC: returns `dst - 1`, truncated; CF is kept.
    pub fn dec(&mut self, dst: u16, wide: bool) -> (r: u16)
        requires
            fits(dst, wide),
        ensures
            r == sub_result(dst, 1, false, wide),
            *final(self) == old(self).after_dec(dst, wide),
    {
        let cf = self.carry;
        let r = self.sub(dst, 1, false, wide);
        self.carry = cf;
        r
    }

    /// Shift or rotate `dst` by `count`, of which the low five bits are used.
    /// With a masked count of zero nothing changes.
    pub fn shift(&mut self, kind: ShiftKind, dst: u16, count: u8, wide: bool) -> (r: u16)
        requires
            fits(dst, wide),
        ensures
            r == (if count % 32 == 0 {
                dst
            } else {
                shift_steps(kind, dst, old(self).carry, (count % 32) as nat, wide).0
            }),
            *final(self) == old(self).after_shift(kind, dst, (count % 32) as nat, wide),
    {
        let n = count % 32;
        if n == 0 {
            return dst;
        }
        let s = shift_by(kind, dst, self.carry, n, wide);
        let res = s.0;
        let cf = s.1;
        let t: u16 = if wide {
            0x8000
        } else {
            0x80
        };
        let m: u32 = if wide {
            0x10000
        } else {
            0x100
        };
        let of = match kind {
            ShiftKind::Shl => (res >= t) != cf,
            ShiftKind::Shr => dst >= t,
            ShiftKind::Sar => false,
            _ => (res >= t) != ((res as u32 * 2) % m >= t as u32),
        };
        match kind {
            ShiftKind::Rol | ShiftKind::Ror | ShiftKind::Rcl | ShiftKind::Rcr => {},
            _ => {
                self.set_result(res, wide);
            },
        }
        self.carry = cf;
        self.overflow = of;
        res
    }
}

/// After an addition, a subtraction, a logical operation, an increment or a decrement,
/// ZF is set exactly when the width-masked result is zero, SF is the top bit of that
/// result, and PF is set exactly when its low byte has an even number of set bits.
pub proof fn lemma_result_flags(f: Flags, dst: u16, src: u16, carry: bool, wide: bool)
    requires
        fits(dst, wide),
        fits(src, wide),
    ensures
        ({
            let r = add_result(dst, src, carry, wide);
            let g = f.after_add(dst, src, carry, wide);
            &&& fits(r, wide)
            &&& g.zero == (r == 0)
            &&& g.sign == (r as int / top(wide) == 1)
            &&& g.parity == even_parity(r)
        }),
        ({
            let r = sub_result(dst, src, carry, wide);
            let g = f.after_sub(dst, src, carry, wide);
            &&& fits(r, wide)
            &&& g.zero == (r == 0)
            &&& g.sign == (r as int / top(wide) == 1)
            &&& g.parity == even_parity(r)
        }),
        ({
            let r = dst & src;
            let g = f.after_logic(r, wide);
            &&& g.zero == (r == 0)
            &&& g.sign == (r as int / top(wide) == 1)
            &&& g.parity == even_parity(r)
        }),
        ({
            let r = add_result(dst, 1, false, wide);
            let g = f.after_inc(dst, wide);
            &&& g.zero == (r == 0)
            &&& g.sign == (r as int / top(wide) == 1)
            &&& g.parity == even_parity(r)
            &&& g.carry == f.carry
        }),
        ({
            let r = sub_result(dst, 1, false, wide);
            let g = f.after_dec(dst, wide);
            &&& g.zero == (r == 0)
            &&& g.sign == (r as int / top(wide) == 1)
            &&& g.parity == even_parity(r)
            &&& g.carry == f.carry
        }),
{
    assert(dst & src <= dst) by (bit_vector);
}

} // verus!
