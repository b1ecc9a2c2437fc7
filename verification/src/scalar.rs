//! Binary64 numbers carried as their bit patterns.
//!
//! The map's numbers are IEEE 754 doubles. Nothing in this crate adds or
//! multiplies them: arithmetic on doubles stays with the caller, which hands
//! the results over. What is decided here is everything that only compares
//! them, and comparing two doubles is comparing two integers once the sign is
//! taken into account.
use vstd::prelude::*;

verus! {

/// The sign bit of a binary64 number.
pub const SIGN: u64 = 0x8000_0000_0000_0000;

/// The bit pattern of positive infinity. A magnitude above it is a NaN.
pub const INFINITY: u64 = 0x7ff0_0000_0000_0000;

/// A binary64 number, held as the bit pattern the number is stored in.
///
/// `==` on this type compares bit patterns. Whether two numbers are equal is
/// [`Scalar::same`], which knows that the two zeros are one number and that a
/// NaN equals nothing.
#[derive(Clone, Copy, Debug, PartialEq, Eq, Structural)]
pub struct Scalar {
    pub bits: u64,
}

/// The bit pattern of zero, the number every field of a resting value holds.
pub const ZERO: u64 = 0;

/// The bit pattern of one.
pub const ONE: u64 = 0x3ff0_0000_0000_0000;

/// The number a bit pattern stores.
pub open spec fn number(bits: u64) -> Scalar {
    Scalar { bits }
}

impl Scalar {
    /// The bit pattern without its sign.
    pub open spec fn magnitude(self) -> int {
        if self.bits >= SIGN {
            self.bits - SIGN
        } else {
            self.bits as int
        }
    }

    /// Whether the sign bit is set. Negative zero and some NaNs have it too.
    pub open spec fn signed(self) -> bool {
        self.bits >= SIGN
    }

    /// Whether this is not a number.
    pub open spec fn nan(self) -> bool {
        self.magnitude() > INFINITY
    }

    /// Where the number stands among all numbers: `a < b` exactly when
    /// `a.rank() < b.rank()`, and both zeros stand at 0.
    pub open spec fn rank(self) -> int {
        if self.signed() {
            -self.magnitude()
        } else {
            self.magnitude()
        }
    }

    /// `self < other` as numbers: false when either is a NaN.
    pub open spec fn below(self, other: Scalar) -> bool {
        !self.nan() && !other.nan() && self.rank() < other.rank()
    }

    /// `self == other` as numbers: false when either is a NaN.
    pub open spec fn equals(self, other: Scalar) -> bool {
        !self.nan() && !other.nan() && self.rank() == other.rank()
    }

    /// `self` held between two bounds: the bound it has passed, and otherwise
    /// `self` itself, a NaN included.
    pub open spec fn held(self, low: Scalar, high: Scalar) -> Scalar {
        if self.below(low) {
            low
        } else if high.below(self) {
            high
        } else {
            self
        }
    }

    /// The same number without its sign.
    pub open spec fn unsigned(self) -> Scalar {
        Scalar { bits: self.magnitude() as u64 }
    }

    /// The same number with the other sign.
    pub open spec fn opposite(self) -> Scalar {
        if self.signed() {
            Scalar { bits: (self.bits - SIGN) as u64 }
        } else {
            Scalar { bits: (self.bits + SIGN) as u64 }
        }
    }

    /// Whether this is not a number.
    pub fn is_nan(self) -> (r: bool)
        ensures
            r == self.nan(),
    {
        self.abs().bits > INFINITY
    }

    /// The absolute value: the sign bit cleared, a NaN's too.
    pub fn abs(self) -> (r: Scalar)
        ensures
            r == self.unsigned(),
    {
        if self.bits >= SIGN {
            Scalar { bits: self.bits - SIGN }
        } else {
            self
        }
    }

    /// The number with its sign flipped.
    pub fn negate(self) -> (r: Scalar)
        ensures
            r == self.opposite(),
    {
        if self.bits >= SIGN {
            Scalar { bits: self.bits - SIGN }
        } else {
            Scalar { bits: self.bits + SIGN }
        }
    }

    /// `self < other`.
    pub fn less(self, other: Scalar) -> (r: bool)
        ensures
            r == self.below(other),
    {
        if self.is_nan() || other.is_nan() {
            return false;
        }
        let left: u64 = self.abs().bits;
        let right: u64 = other.abs().bits;
        if self.bits >= SIGN {
            if other.bits >= SIGN {
                right < left
            } else {
                left > 0 || right > 0
            }
        } else if other.bits >= SIGN {
            false
        } else {
            left < right
        }
    }

    /// `self == other`, as numbers.
    pub fn same(self, other: Scalar) -> (r: bool)
        ensures
            r == self.equals(other),
    {
        if self.is_nan() || other.is_nan() {
            return false;
        }
        self.bits == other.bits || (self.abs().bits == 0 && other.abs().bits == 0)
    }

    /// Whether this is zero, of either sign.
    pub fn is_zero(self) -> (r: bool)
        ensures
            r == self.equals(number(ZERO)),
    {
        self.same(Scalar { bits: ZERO })
    }

    /// Holds the number between two bounds. A NaN is handed back as it came.
    pub fn clamp(self, low: Scalar, high: Scalar) -> (r: Scalar)
        requires
            !high.below(low),
            !low.nan(),
            !high.nan(),
        ensures
            r == self.held(low, high),
            !self.nan() ==> !r.below(low) && !high.below(r),
    {
        if self.less(low) {
            low
        } else if high.less(self) {
            high
        } else {
            self
        }
    }
}

/// Any two numbers that are not NaN are in order: exactly one of less, equal
/// and greater holds.
pub proof fn numbers_are_in_order(a: Scalar, b: Scalar)
    requires
        !a.nan(),
        !b.nan(),
    ensures
        a.below(b) || a.equals(b) || b.below(a),
        !(a.below(b) && b.below(a)),
        a.equals(b) ==> !a.below(b) && !b.below(a),
{
}

/// Holding a number between bounds twice is holding it once, and a number that
/// is already between them is left alone.
pub proof fn holding_settles(x: Scalar, low: Scalar, high: Scalar)
    requires
        !low.nan(),
        !high.nan(),
        !high.below(low),
    ensures
        x.held(low, high).held(low, high) == x.held(low, high),
        !x.below(low) && !high.below(x) ==> x.held(low, high) == x,
{
}

/// What a bit pattern says by itself: its highest bit is the sign, the rest is
/// the magnitude, and a magnitude past infinity's is no number. Flipping the
/// sign changes nothing else, and doing it twice changes nothing.
pub proof fn a_number_is_a_sign_and_a_magnitude(x: Scalar, bits: u64)
    ensures
        number(bits).bits == bits,
        x.signed() <==> x.bits >= 0x8000_0000_0000_0000u64,
        x.unsigned().bits == x.bits as int % 0x8000_0000_0000_0000,
        x.nan() <==> x.bits as int % 0x8000_0000_0000_0000 > 0x7ff0_0000_0000_0000,
        x.opposite().bits as int % 0x8000_0000_0000_0000 == x.bits as int
            % 0x8000_0000_0000_0000,
        x.opposite().bits != x.bits,
        x.opposite().opposite() == x,
{
}

/// The order of numbers is the order of their bit patterns, turned round where
/// both are negative. A negative number is below every other, except that the
/// two zeros are one number.
pub proof fn numbers_are_ordered_by_their_bits(a: Scalar, b: Scalar)
    requires
        a.bits as int % 0x8000_0000_0000_0000 <= 0x7ff0_0000_0000_0000,
        b.bits as int % 0x8000_0000_0000_0000 <= 0x7ff0_0000_0000_0000,
    ensures
        a.bits < 0x8000_0000_0000_0000 && b.bits < 0x8000_0000_0000_0000 ==> {
            &&& a.below(b) <==> a.bits < b.bits
            &&& a.equals(b) <==> a.bits == b.bits
        },
        a.bits >= 0x8000_0000_0000_0000 && b.bits >= 0x8000_0000_0000_0000 ==> {
            &&& a.below(b) <==> a.bits > b.bits
            &&& a.equals(b) <==> a.bits == b.bits
        },
        a.bits >= 0x8000_0000_0000_0000 && b.bits < 0x8000_0000_0000_0000 ==> {
            &&& !b.below(a)
            &&& a.below(b) <==> a.bits > 0x8000_0000_0000_0000 || b.bits > 0
            &&& a.equals(b) <==> a.bits == 0x8000_0000_0000_0000 && b.bits == 0
            &&& b.equals(a) <==> a.equals(b)
        },
        a.below(b) <==> b.opposite().below(a.opposite()),
        a.equals(b) <==> a.opposite().equals(b.opposite()),
{
}

/// What is no number is neither below nor above nor equal to anything, not even
/// to itself.
pub proof fn a_nan_is_in_no_order(nan: Scalar, other: Scalar)
    requires
        nan.bits as int % 0x8000_0000_0000_0000 > 0x7ff0_0000_0000_0000,
    ensures
        !nan.below(other) && !other.below(nan) && !nan.equals(other) && !other.equals(nan),
        !nan.equals(nan),
        nan.held(other, other) == nan,
{
}

/// Holding a number between bounds gives the nearest number between them: no
/// other number that is allowed lies on the way. A number that is allowed is its
/// own nearest.
pub proof fn holding_gives_the_nearest(x: Scalar, low: Scalar, high: Scalar, allowed: Scalar)
    requires
        !x.nan(),
        !low.nan(),
        !high.nan(),
        !allowed.nan(),
        !high.below(low),
        !allowed.below(low),
        !high.below(allowed),
    ensures
        ({
            let r = x.held(low, high);
            &&& !r.nan()
            &&& !r.below(low)
            &&& !high.below(r)
            &&& x.below(r) ==> !allowed.below(r)
            &&& r.below(x) ==> !r.below(allowed)
            &&& !x.below(low) && !high.below(x) ==> r == x
        }),
{
}

} // verus!
