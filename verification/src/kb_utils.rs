//! Scalars, vectors and random numbers shared by the whole engine.
//!
//! The engine computes with IEEE-754 binary32 numbers. The verified core never
//! does arithmetic on them: it carries each number as its 32-bit pattern, and
//! compares patterns the way the hardware compares the numbers they stand for.
//! Sums, products and quotients are computed by the caller and handed in.

use vstd::prelude::*;

verus! {

/// Bit pattern of positive zero.
pub const ZERO_BITS: u32 = 0x0000_0000;

/// Bit pattern of one.
pub const ONE_BITS: u32 = 0x3f80_0000;

/// Bit pattern of the largest finite number.
pub const MAX_BITS: u32 = 0x7f7f_ffff;

/// Bit pattern of positive infinity; every larger magnitude is not a number.
pub const INFINITY_BITS: u32 = 0x7f80_0000;

/// The sign bit; the remaining 31 bits are the magnitude.
pub const SIGN_BIT: u32 = 0x8000_0000;

/// A point in time on the monotonic clock, `instant::Instant` (on native
/// targets the `Instant` of std). The engine stores it and hands it back; the
/// caller reads the clock and measures what has elapsed.
#[verifier::external_type_specification]
#[verifier::external_body]
pub struct ExInstant(instant::Instant);

/// A binary32 number, held by its bit pattern.
///
/// `==` on this type compares patterns, so it tells `0.0` from `-0.0` and
/// equates a NaN with itself. Use [`KbFloat::lt`] and its siblings for the
/// numeric order.
#[derive(Clone, Copy, Debug, PartialEq, Eq, Structural, Hash)]
pub struct KbFloat {
    pub bits: u32,
}

impl KbFloat {
    /// The pattern without its sign bit.
    pub open spec fn magnitude(self) -> int {
        self.bits as int % 0x8000_0000
    }

    /// True when the sign bit is set.
    pub open spec fn sign_bit_set(self) -> bool {
        self.bits >= SIGN_BIT
    }

    /// True when the pattern is not a number.
    pub open spec fn nan(self) -> bool {
        self.magnitude() > INFINITY_BITS as int
    }

    /// An integer that orders the numbers as the numbers are ordered: both
    /// zeros map to 0, negative numbers to the negated magnitude.
    /// Meaningful on patterns that are numbers.
    pub open spec fn order_key(self) -> int {
        if self.sign_bit_set() {
            -self.magnitude()
        } else {
            self.magnitude()
        }
    }

    /// `self < other` as numbers. False when either is not a number.
    pub open spec fn less(self, other: KbFloat) -> bool {
        !self.nan() && !other.nan() && self.order_key() < other.order_key()
    }

    /// `self <= other` as numbers. False when either is not a number.
    pub open spec fn less_eq(self, other: KbFloat) -> bool {
        !self.nan() && !other.nan() && self.order_key() <= other.order_key()
    }

    /// The pattern with the sign bit cleared.
    pub open spec fn abs_value(self) -> KbFloat {
        KbFloat { bits: (self.bits as int % 0x8000_0000) as u32 }
    }

    /// The pattern with the sign bit flipped.
    pub open spec fn negated(self) -> KbFloat {
        if self.sign_bit_set() {
            KbFloat { bits: (self.bits - SIGN_BIT) as u32 }
        } else {
            KbFloat { bits: (self.bits + SIGN_BIT) as u32 }
        }
    }

    pub fn from_bits(bits: u32) -> (r: KbFloat)
        ensures
            r.bits == bits,
    {
        KbFloat { bits }
    }

    pub fn to_bits(self) -> (r: u32)
        ensures
            r == self.bits,
    {
        self.bits
    }

    pub fn zero() -> (r: KbFloat)
        ensures
            r.bits == ZERO_BITS,
    {
        KbFloat { bits: ZERO_BITS }
    }

    pub fn one() -> (r: KbFloat)
        ensures
            r.bits == ONE_BITS,
    {
        KbFloat { bits: ONE_BITS }
    }

    /// The largest finite number.
    pub fn max_value() -> (r: KbFloat)
        ensures
            r.bits == MAX_BITS,
    {
        KbFloat { bits: MAX_BITS }
    }

    pub fn is_nan(self) -> (r: bool)
        ensures
            r == self.nan(),
    {
        self.bits % SIGN_BIT > INFINITY_BITS
    }

    /// The order key as a machine integer.
    pub fn key(self) -> (r: i64)
        ensures
            r == self.order_key(),
            -0x8000_0000 < r < 0x8000_0000,
    {
        let magnitude: u32 = self.bits % SIGN_BIT;
        if self.bits >= SIGN_BIT {
            -(magnitude as i64)
        } else {
            magnitude as i64
        }
    }

    /// `self < other` as numbers.
    pub fn lt(self, other: KbFloat) -> (r: bool)
        ensures
            r == self.less(other),
    {
        !self.is_nan() && !other.is_nan() && self.key() < other.key()
    }

    /// `self <= other` as numbers.
    pub fn le(self, other: KbFloat) -> (r: bool)
        ensures
            r == self.less_eq(other),
    {
        !self.is_nan() && !other.is_nan() && self.key() <= other.key()
    }

    /// `self > other` as numbers.
    pub fn gt(self, other: KbFloat) -> (r: bool)
        ensures
            r == other.less(self),
    {
        other.lt(self)
    }

    /// `self >= other` as numbers.
    pub fn ge(self, other: KbFloat) -> (r: bool)
        ensures
            r == other.less_eq(self),
    {
        other.le(self)
    }

    /// The absolute value: the same magnitude with the sign cleared.
    pub fn abs(self) -> (r: KbFloat)
        ensures
            r == self.abs_value(),
            !r.sign_bit_set(),
            r.magnitude() == self.magnitude(),
    {
        KbFloat { bits: self.bits % SIGN_BIT }
    }

    /// The negation: the same magnitude with the sign flipped.
    pub fn neg(self) -> (r: KbFloat)
        ensures
            r == self.negated(),
            r.sign_bit_set() != self.sign_bit_set(),
            r.magnitude() == self.magnitude(),
    {
        if self.bits >= SIGN_BIT {
            KbFloat { bits: self.bits - SIGN_BIT }
        } else {
            KbFloat { bits: self.bits + SIGN_BIT }
        }
    }
}

/// The order is strict: nothing is less than itself, and of two numbers at
/// most one is less than the other.
pub proof fn lemma_less_is_strict(a: KbFloat, b: KbFloat)
    ensures
        !a.less(a),
        !(a.less(b) && b.less(a)),
        a.less(b) ==> a.less_eq(b) && !b.less_eq(a),
{
}

/// The order is transitive.
pub proof fn lemma_less_is_transitive(a: KbFloat, b: KbFloat, c: KbFloat)
    ensures
        a.less(b) && b.less(c) ==> a.less(c),
        a.less_eq(b) && b.less(c) ==> a.less(c),
        a.less(b) && b.less_eq(c) ==> a.less(c),
        a.less_eq(b) && b.less_eq(c) ==> a.less_eq(c),
{
}

/// Any two numbers are comparable; a pattern that is not a number compares
/// with nothing.
pub proof fn lemma_numbers_are_comparable(a: KbFloat, b: KbFloat)
    ensures
        !a.nan() && !b.nan() ==> a.less(b) || b.less_eq(a),
        a.nan() || b.nan() ==> !a.less(b) && !a.less_eq(b) && !b.less(a) && !b.less_eq(a),
{
}

/// Negation reverses the order, and the absolute value is never negative.
pub proof fn lemma_negation_reverses(a: KbFloat, b: KbFloat)
    ensures
        a.negated().order_key() == -a.order_key(),
        a.negated().nan() == a.nan(),
        a.less(b) == b.negated().less(a.negated()),
        a.abs_value().order_key() >= 0,
        a.abs_value().nan() == a.nan(),
{
}

/// Three numbers: a position, a direction, an extent or a scale.
#[derive(Clone, Copy, Debug, PartialEq, Eq, Structural)]
pub struct CgVec3 {
    pub x: KbFloat,
    pub y: KbFloat,
    pub z: KbFloat,
}

/// Four numbers: a colour or a packed shader parameter.
#[derive(Clone, Copy, Debug, PartialEq, Eq, Structural)]
pub struct CgVec4 {
    pub x: KbFloat,
    pub y: KbFloat,
    pub z: KbFloat,
    pub w: KbFloat,
}

/// A rotation as a quaternion: the scalar part `s` and the vector part `v`.
#[derive(Clone, Copy, Debug, PartialEq, Eq, Structural)]
pub struct CgQuat {
    pub s: KbFloat,
    pub v: CgVec3,
}

impl CgVec3 {
    pub open spec fn from_bits_value(x: u32, y: u32, z: u32) -> CgVec3 {
        CgVec3 { x: KbFloat { bits: x }, y: KbFloat { bits: y }, z: KbFloat { bits: z } }
    }

    pub fn new(x: KbFloat, y: KbFloat, z: KbFloat) -> (r: CgVec3)
        ensures
            r == (CgVec3 { x, y, z }),
    {
        CgVec3 { x, y, z }
    }

    /// True when no component is NaN.
    pub open spec fn all_numbers(self) -> bool {
        !self.x.nan() && !self.y.nan() && !self.z.nan()
    }
}

impl CgVec4 {
    pub open spec fn from_bits_value(x: u32, y: u32, z: u32, w: u32) -> CgVec4 {
        CgVec4 {
            x: KbFloat { bits: x },
            y: KbFloat { bits: y },
            z: KbFloat { bits: z },
            w: KbFloat { bits: w },
        }
    }

    pub fn new(x: KbFloat, y: KbFloat, z: KbFloat, w: KbFloat) -> (r: CgVec4)
        ensures
            r == (CgVec4 { x, y, z, w }),
    {
        CgVec4 { x, y, z, w }
    }
}

impl CgQuat {
    pub fn new(s: KbFloat, xi: KbFloat, yj: KbFloat, zk: KbFloat) -> (r: CgQuat)
        ensures
            r == (CgQuat { s, v: CgVec3 { x: xi, y: yj, z: zk } }),
    {
        CgQuat { s, v: CgVec3 { x: xi, y: yj, z: zk } }
    }
}

/// The vector (0, 0, 0).
pub open spec fn cg_vec3_zero_value() -> CgVec3 {
    CgVec3::from_bits_value(ZERO_BITS, ZERO_BITS, ZERO_BITS)
}

/// The vector (1, 1, 1).
pub open spec fn cg_vec3_one_value() -> CgVec3 {
    CgVec3::from_bits_value(ONE_BITS, ONE_BITS, ONE_BITS)
}

/// The vector (0, 1, 0).
pub open spec fn cg_vec3_up_value() -> CgVec3 {
    CgVec3::from_bits_value(ZERO_BITS, ONE_BITS, ZERO_BITS)
}

/// The vector (0, 0, 0, 0).
pub open spec fn cg_vec4_zero_value() -> CgVec4 {
    CgVec4::from_bits_value(ZERO_BITS, ZERO_BITS, ZERO_BITS, ZERO_BITS)
}

/// The rotation that turns nothing: scalar part 1, vector part (0, 0, 0).
pub open spec fn cg_quat_ident_value() -> CgQuat {
    CgQuat { s: KbFloat { bits: ONE_BITS }, v: cg_vec3_zero_value() }
}

pub fn cg_vec3_zero() -> (r: CgVec3)
    ensures
        r == cg_vec3_zero_value(),
{
    CgVec3 { x: KbFloat::zero(), y: KbFloat::zero(), z: KbFloat::zero() }
}

pub fn cg_vec3_one() -> (r: CgVec3)
    ensures
        r == cg_vec3_one_value(),
{
    CgVec3 { x: KbFloat::one(), y: KbFloat::one(), z: KbFloat::one() }
}

pub fn cg_vec3_up() -> (r: CgVec3)
    ensures
        r == cg_vec3_up_value(),
{
    CgVec3 { x: KbFloat::zero(), y: KbFloat::one(), z: KbFloat::zero() }
}

pub fn cg_vec4_zero() -> (r: CgVec4)
    ensures
        r == cg_vec4_zero_value(),
{
    CgVec4 { x: KbFloat::zero(), y: KbFloat::zero(), z: KbFloat::zero(), w: KbFloat::zero() }
}

pub fn cg_quat_ident() -> (r: CgQuat)
    ensures
        r == cg_quat_ident_value(),
{
    CgQuat { s: KbFloat::one(), v: cg_vec3_zero() }
}

/// The 32-bit number whose bytes, least significant first, are `b0..b3`.
pub open spec fn le_word(b0: u8, b1: u8, b2: u8, b3: u8) -> int {
    b0 as int + 0x100 * (b1 as int) + 0x1_0000 * (b2 as int) + 0x100_0000 * (b3 as int)
}

/// The number that a draw `word` selects from `min..=max`.
pub open spec fn pick_in_range(min: u32, max: u32, word: u32) -> int {
    min as int + (word as int) % (max as int - min as int + 1)
}

/// Assembles four random bytes into a word, least significant byte first.
pub fn word_from_bytes(bytes: [u8; 4]) -> (word: u32)
    ensures
        word as int == le_word(bytes[0], bytes[1], bytes[2], bytes[3]),
{
    let b0: u32 = bytes[0] as u32;
    let b1: u32 = bytes[1] as u32;
    let b2: u32 = bytes[2] as u32;
    let b3: u32 = bytes[3] as u32;
    assert(b1 << 8 == b1 * 0x100 && b2 << 16 == b2 * 0x1_0000 && b3 << 24 == b3 * 0x100_0000)
        by (bit_vector)
        requires
            b1 < 0x100,
            b2 < 0x100,
            b3 < 0x100,
    ;
    let mut t: u32 = b0;
    t = t + (b1 << 8);
    t = t + (b2 << 16);
    t = t + (b3 << 24);
    t
}

/// Folds four random bytes into the word that a random fraction is made of.
/// Each byte is added to what came before, and the sum is shifted up by 8,
/// 16 and 24 bits in turn; so only the last byte, in the highest place, is
/// left of them.
pub fn fraction_word_from_bytes(bytes: [u8; 4]) -> (word: u32)
    ensures
        word as int == 0x100_0000 * (bytes[3] as int),
{
    let b0: u32 = bytes[0] as u32;
    let b1: u32 = bytes[1] as u32;
    let b2: u32 = bytes[2] as u32;
    let b3: u32 = bytes[3] as u32;
    let mut t: u32 = b0;
    t = (t + b1) << 8;
    let ghost t1 = t;
    assert(t1 <= 0x1_fe00) by (bit_vector)
        requires
            t1 == ((b0 + b1) as u32) << 8,
            b0 < 0x100,
            b1 < 0x100,
    ;
    t = (t + b2) << 16;
    let ghost t2 = t;
    assert(t2 <= 0xffff_0000) by (bit_vector)
        requires
            t2 == ((t1 + b2) as u32) << 16,
            t1 <= 0x1_fe00,
            b2 < 0x100,
    ;
    assert(((t2 + b3) as u32) << 24 == b3 * 0x100_0000) by (bit_vector)
        requires
            t2 == ((t1 + b2) as u32) << 16,
            t1 <= 0x1_fe00,
            b2 < 0x100,
            b3 < 0x100,
    ;
    t = (t + b3) << 24;
    t
}

/// Reduces a random word to the range `min..=max`.
pub fn random_in_range(min: u32, max: u32, word: u32) -> (r: u32)
    requires
        min <= max,
        max - min < u32::MAX,
    ensures
        r as int == pick_in_range(min, max, word),
        min <= r <= max,
{
    let dif: u32 = (max - min) + 1;
    min + (word % dif)
}

/// Asks the operating system for four random bytes through
/// `getrandom::getrandom`. Nothing is claimed of the bytes; when the source
/// fails, the zeros that the buffer was filled with come back.
#[verifier::external_body]
fn random_bytes() -> (bytes: [u8; 4]) {
    let mut buf: [u8; 4] = [0, 0, 0, 0];
    let _ = getrandom::getrandom(&mut buf);
    buf
}

/// The word that a random fraction is made of: one random byte in the highest
/// place.
pub fn kb_random_fraction_word() -> (word: u32)
    ensures
        word as int % 0x100_0000 == 0,
{
    let bytes = random_bytes();
    fraction_word_from_bytes(bytes)
}

/// A random number in `min..=max`, or `None` when the range covers every
/// 32-bit number and so has no modulus.
pub fn kb_random_u32_checked(min: u32, max: u32) -> (r: Option<u32>)
    ensures
        r is Some <==> (min <= max && max - min < u32::MAX),
        r matches Some(v) ==> min <= v <= max,
{
    if min <= max && max - min < u32::MAX {
        Some(kb_random_u32(min, max))
    } else {
        None
    }
}

/// A random number in `min..=max`.
pub fn kb_random_u32(min: u32, max: u32) -> (r: u32)
    requires
        min <= max,
        max - min < u32::MAX,
    ensures
        min <= r <= max,
        exists|word: u32| r as int == pick_in_range(min, max, word),
{
    let word = word_from_bytes(random_bytes());
    random_in_range(min, max, word)
}

} // verus!
