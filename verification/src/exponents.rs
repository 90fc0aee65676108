use vstd::prelude::*;

verus! {

/// Whether an integer is representable as an `i16` exponent.
pub open spec fn fits_i16(x: int) -> bool {
    i16::MIN <= x <= i16::MAX
}

/// The scale of a quantity: the exponents of `2^p2 * 3^p3 * 5^p5 * pi^pi`.
///
/// If all scale exponents are zero, the quantity is in SI base units
/// (kilogram, meter, second, ampere, kelvin, mole, candela, radian, or
/// some combination thereof).
///
/// SI prefixes indicate scales of `10^n = (p2 = n, p3 = 0, p5 = n, pi = 0)`, e.g.
///  - milli: `10^-3 = (-3, 0, -3, 0)`
///  - kilo: `10^3 = (3, 0, 3, 0)`
///
/// Certain time units involve factors of `60^n = (2n, n, n, 0)`, e.g.
///  - minute: `60 = (2, 1, 1, 0)`
///  - hour: `3600 = (4, 2, 2, 0)`
///
/// Angular units can involve all of the above, plus a possible factor of pi:
///  - revolution: `2 pi = (1, 0, 0, 1)`
///  - degree: `pi / 180 = (-2, -2, -1, 1)`
///  - arcminute: `pi / 10800 = (-4, -3, -2, 1)`
#[derive(Clone, Copy, Debug, PartialEq, Eq, Structural)]
pub struct Scale {
    pub p2: i16,
    pub p3: i16,
    pub p5: i16,
    pub pi: i16,
}

/// The dimension of a quantity: the exponents of
/// `mass^m * length^l * time^t * current^i * temperature^th * amount^n * luminosity^j * angle^a`.
///
/// If all dimension exponents are zero, the quantity is dimensionless.
///
/// Atomic dimensions have a single dimension exponent of 1 (length, mass, time, current,
/// temperature, amount, luminosity, angle); derived dimensions mix them, e.g.
/// velocity is `length^1 time^-1` and force is `mass^1 length^1 time^-2`.
#[derive(Clone, Copy, Debug, PartialEq, Eq, Structural)]
pub struct Dimension {
    pub mass: i16,
    pub length: i16,
    pub time: i16,
    pub current: i16,
    pub temperature: i16,
    pub amount: i16,
    pub luminosity: i16,
    pub angle: i16,
}

impl Scale {
    /// True when every exponent is zero (the SI base scale).
    pub open spec fn spec_is_unity(self) -> bool {
        self.p2 == 0 && self.p3 == 0 && self.p5 == 0 && self.pi == 0
    }

    /// True when every exponent of the product with `other` fits in an `i16`.
    pub open spec fn can_multiply(self, other: Scale) -> bool {
        &&& fits_i16(self.p2 + other.p2)
        &&& fits_i16(self.p3 + other.p3)
        &&& fits_i16(self.p5 + other.p5)
        &&& fits_i16(self.pi + other.pi)
    }

    /// True when every exponent of the quotient with `other` fits in an `i16`.
    pub open spec fn can_divide(self, other: Scale) -> bool {
        &&& fits_i16(self.p2 - other.p2)
        &&& fits_i16(self.p3 - other.p3)
        &&& fits_i16(self.p5 - other.p5)
        &&& fits_i16(self.pi - other.pi)
    }

    /// True when every exponent of the reciprocal fits in an `i16`.
    pub open spec fn can_invert(self) -> bool {
        &&& fits_i16(-self.p2)
        &&& fits_i16(-self.p3)
        &&& fits_i16(-self.p5)
        &&& fits_i16(-self.pi)
    }

    /// The exponents of a product: exponents add.
    pub open spec fn times(self, other: Scale) -> Scale {
        Scale {
            p2: (self.p2 + other.p2) as i16,
            p3: (self.p3 + other.p3) as i16,
            p5: (self.p5 + other.p5) as i16,
            pi: (self.pi + other.pi) as i16,
        }
    }

    /// The exponents of a quotient: exponents subtract.
    pub open spec fn over(self, other: Scale) -> Scale {
        Scale {
            p2: (self.p2 - other.p2) as i16,
            p3: (self.p3 - other.p3) as i16,
            p5: (self.p5 - other.p5) as i16,
            pi: (self.pi - other.pi) as i16,
        }
    }

    /// The exponents of a reciprocal: exponents negate.
    pub open spec fn inverted(self) -> Scale {
        Scale {
            p2: (-self.p2) as i16,
            p3: (-self.p3) as i16,
            p5: (-self.p5) as i16,
            pi: (-self.pi) as i16,
        }
    }

    /// Builds the exponent vector from its components.
    pub fn new(p2: i16, p3: i16, p5: i16, pi: i16) -> (r: Scale)
        ensures
            r == (Scale { p2: p2, p3: p3, p5: p5, pi: pi }),
    {
        Scale { p2, p3, p5, pi }
    }

    /// The SI base scale (all exponents zero).
    pub fn unity() -> (r: Scale)
        ensures
            r.spec_is_unity(),
    {
        Scale { p2: 0, p3: 0, p5: 0, pi: 0 }
    }

    /// Whether every exponent is zero.
    pub fn is_unity(&self) -> (r: bool)
        ensures
            r == self.spec_is_unity(),
    {
        self.p2 == 0 && self.p3 == 0 && self.p5 == 0 && self.pi == 0
    }

    /// Whether the exponents of the product with `other` are representable.
    pub fn checked_can_multiply(&self, other: &Scale) -> (r: bool)
        ensures
            r == self.can_multiply(*other),
    {
        in_i16(self.p2 as i32 + other.p2 as i32)
            && in_i16(self.p3 as i32 + other.p3 as i32)
            && in_i16(self.p5 as i32 + other.p5 as i32)
            && in_i16(self.pi as i32 + other.pi as i32)
    }

    /// Whether the exponents of the quotient by `other` are representable.
    pub fn checked_can_divide(&self, other: &Scale) -> (r: bool)
        ensures
            r == self.can_divide(*other),
    {
        in_i16(self.p2 as i32 - other.p2 as i32)
            && in_i16(self.p3 as i32 - other.p3 as i32)
            && in_i16(self.p5 as i32 - other.p5 as i32)
            && in_i16(self.pi as i32 - other.pi as i32)
    }

    /// Whether the exponents of the reciprocal are representable.
    pub fn checked_can_invert(&self) -> (r: bool)
        ensures
            r == self.can_invert(),
    {
        self.p2 != i16::MIN && self.p3 != i16::MIN && self.p5 != i16::MIN && self.pi != i16::MIN
    }

    /// The exponents of the product of a quantity with these exponents and one with `other`.
    pub fn multiply(&self, other: &Scale) -> (r: Scale)
        requires
            self.can_multiply(*other),
        ensures
            r == self.times(*other),
    {
        Scale {
            p2: self.p2 + other.p2,
            p3: self.p3 + other.p3,
            p5: self.p5 + other.p5,
            pi: self.pi + other.pi,
        }
    }

    /// The exponents of the quotient of a quantity with these exponents by one with `other`.
    pub fn divide(&self, other: &Scale) -> (r: Scale)
        requires
            self.can_divide(*other),
        ensures
            r == self.over(*other),
    {
        Scale {
            p2: self.p2 - other.p2,
            p3: self.p3 - other.p3,
            p5: self.p5 - other.p5,
            pi: self.pi - other.pi,
        }
    }

    /// The exponents of the reciprocal of a quantity with these exponents.
    pub fn invert(&self) -> (r: Scale)
        requires
            self.can_invert(),
        ensures
            r == self.inverted(),
    {
        Scale {
            p2: -self.p2,
            p3: -self.p3,
            p5: -self.p5,
            pi: -self.pi,
        }
    }
}

impl Dimension {
    /// True when every exponent is zero (a dimensionless quantity).
    pub open spec fn spec_is_dimensionless(self) -> bool {
        self.mass == 0 && self.length == 0 && self.time == 0 && self.current == 0 && self.temperature == 0 && self.amount == 0 && self.luminosity == 0 && self.angle == 0
    }

    /// True when every exponent of the product with `other` fits in an `i16`.
    pub open spec fn can_multiply(self, other: Dimension) -> bool {
        &&& fits_i16(self.mass + other.mass)
        &&& fits_i16(self.length + other.length)
        &&& fits_i16(self.time + other.time)
        &&& fits_i16(self.current + other.current)
        &&& fits_i16(self.temperature + other.temperature)
        &&& fits_i16(self.amount + other.amount)
        &&& fits_i16(self.luminosity + other.luminosity)
        &&& fits_i16(self.angle + other.angle)
    }

    /// True when every exponent of the quotient with `other` fits in an `i16`.
    pub open spec fn can_divide(self, other: Dimension) -> bool {
        &&& fits_i16(self.mass - other.mass)
        &&& fits_i16(self.length - other.length)
        &&& fits_i16(self.time - other.time)
        &&& fits_i16(self.current - other.current)
        &&& fits_i16(self.temperature - other.temperature)
        &&& fits_i16(self.amount - other.amount)
        &&& fits_i16(self.luminosity - other.luminosity)
        &&& fits_i16(self.angle - other.angle)
    }

    /// True when every exponent of the reciprocal fits in an `i16`.
    pub open spec fn can_invert(self) -> bool {
        &&& fits_i16(-self.mass)
        &&& fits_i16(-self.length)
        &&& fits_i16(-self.time)
        &&& fits_i16(-self.current)
        &&& fits_i16(-self.temperature)
        &&& fits_i16(-self.amount)
        &&& fits_i16(-self.luminosity)
        &&& fits_i16(-self.angle)
    }

    /// The exponents of a product: exponents add.
    pub open spec fn times(self, other: Dimension) -> Dimension {
        Dimension {
            mass: (self.mass + other.mass) as i16,
            length: (self.length + other.length) as i16,
            time: (self.time + other.time) as i16,
            current: (self.current + other.current) as i16,
            temperature: (self.temperature + other.temperature) as i16,
            amount: (self.amount + other.amount) as i16,
            luminosity: (self.luminosity + other.luminosity) as i16,
            angle: (self.angle + other.angle) as i16,
        }
    }

    /// The exponents of a quotient: exponents subtract.
    pub open spec fn over(self, other: Dimension) -> Dimension {
        Dimension {
            mass: (self.mass - other.mass) as i16,
            length: (self.length - other.length) as i16,
            time: (self.time - other.time) as i16,
            current: (self.current - other.current) as i16,
            temperature: (self.temperature - other.temperature) as i16,
            amount: (self.amount - other.amount) as i16,
            luminosity: (self.luminosity - other.luminosity) as i16,
            angle: (self.angle - other.angle) as i16,
        }
    }

    /// The exponents of a reciprocal: exponents negate.
    pub open spec fn inverted(self) -> Dimension {
        Dimension {
            mass: (-self.mass) as i16,
            length: (-self.length) as i16,
            time: (-self.time) as i16,
            current: (-self.current) as i16,
            temperature: (-self.temperature) as i16,
            amount: (-self.amount) as i16,
            luminosity: (-self.luminosity) as i16,
            angle: (-self.angle) as i16,
        }
    }

    /// Builds the exponent vector from its components.
    pub fn new(mass: i16, length: i16, time: i16, current: i16, temperature: i16, amount: i16, luminosity: i16, angle: i16) -> (r: Dimension)
        ensures
            r == (Dimension { mass: mass, length: length, time: time, current: current, temperature: temperature, amount: amount, luminosity: luminosity, angle: angle }),
    {
        Dimension { mass, length, time, current, temperature, amount, luminosity, angle }
    }

    /// The dimension of a dimensionless quantity (all exponents zero).
    pub fn dimensionless() -> (r: Dimension)
        ensures
            r.spec_is_dimensionless(),
    {
        Dimension { mass: 0, length: 0, time: 0, current: 0, temperature: 0, amount: 0, luminosity: 0, angle: 0 }
    }

    /// Whether every exponent is zero.
    pub fn is_dimensionless(&self) -> (r: bool)
        ensures
            r == self.spec_is_dimensionless(),
    {
        self.mass == 0 && self.length == 0 && self.time == 0 && self.current == 0 && self.temperature == 0 && self.amount == 0 && self.luminosity == 0 && self.angle == 0
    }

    /// Whether the exponents of the product with `other` are representable.
    pub fn checked_can_multiply(&self, other: &Dimension) -> (r: bool)
        ensures
            r == self.can_multiply(*other),
    {
        in_i16(self.mass as i32 + other.mass as i32)
            && in_i16(self.length as i32 + other.length as i32)
            && in_i16(self.time as i32 + other.time as i32)
            && in_i16(self.current as i32 + other.current as i32)
            && in_i16(self.temperature as i32 + other.temperature as i32)
            && in_i16(self.amount as i32 + other.amount as i32)
            && in_i16(self.luminosity as i32 + other.luminosity as i32)
            && in_i16(self.angle as i32 + other.angle as i32)
    }

    /// Whether the exponents of the quotient by `other` are representable.
    pub fn checked_can_divide(&self, other: &Dimension) -> (r: bool)
        ensures
            r == self.can_divide(*other),
    {
        in_i16(self.mass as i32 - other.mass as i32)
            && in_i16(self.length as i32 - other.length as i32)
            && in_i16(self.time as i32 - other.time as i32)
            && in_i16(self.current as i32 - other.current as i32)
            && in_i16(self.temperature as i32 - other.temperature as i32)
            && in_i16(self.amount as i32 - other.amount as i32)
            && in_i16(self.luminosity as i32 - other.luminosity as i32)
            && in_i16(self.angle as i32 - other.angle as i32)
    }

    /// Whether the exponents of the reciprocal are representable.
    pub fn checked_can_invert(&self) -> (r: bool)
        ensures
            r == self.can_invert(),
    {
        self.mass != i16::MIN && self.length != i16::MIN && self.time != i16::MIN && self.current != i16::MIN && self.temperature != i16::MIN && self.amount != i16::MIN && self.luminosity != i16::MIN && self.angle != i16::MIN
    }

    /// The exponents of the product of a quantity with these exponents and one with `other`.
    pub fn multiply(&self, other: &Dimension) -> (r: Dimension)
        requires
            self.can_multiply(*other),
        ensures
            r == self.times(*other),
    {
        Dimension {
            mass: self.mass + other.mass,
            length: self.length + other.length,
            time: self.time + other.time,
            current: self.current + other.current,
            temperature: self.temperature + other.temperature,
            amount: self.amount + other.amount,
            luminosity: self.luminosity + other.luminosity,
            angle: self.angle + other.angle,
        }
    }

    /// The exponents of the quotient of a quantity with these exponents by one with `other`.
    pub fn divide(&self, other: &Dimension) -> (r: Dimension)
        requires
            self.can_divide(*other),
        ensures
            r == self.over(*other),
    {
        Dimension {
            mass: self.mass - other.mass,
            length: self.length - other.length,
            time: self.time - other.time,
            current: self.current - other.current,
            temperature: self.temperature - other.temperature,
            amount: self.amount - other.amount,
            luminosity: self.luminosity - other.luminosity,
            angle: self.angle - other.angle,
        }
    }

    /// The exponents of the reciprocal of a quantity with these exponents.
    pub fn invert(&self) -> (r: Dimension)
        requires
            self.can_invert(),
        ensures
            r == self.inverted(),
    {
        Dimension {
            mass: -self.mass,
            length: -self.length,
            time: -self.time,
            current: -self.current,
            temperature: -self.temperature,
            amount: -self.amount,
            luminosity: -self.luminosity,
            angle: -self.angle,
        }
    }

    /// This dimension with its angle exponent set to zero.
    pub open spec fn without_angle(self) -> Dimension {
        Dimension { angle: 0, ..self }
    }

    /// This dimension with its angle exponent erased (radians are dimensionless).
    pub fn erase_angle(&self) -> (r: Dimension)
        ensures
            r == self.without_angle(),
            r.mass == self.mass,
            r.length == self.length,
            r.time == self.time,
            r.current == self.current,
            r.temperature == self.temperature,
            r.amount == self.amount,
            r.luminosity == self.luminosity,
            r.angle == 0,
    {
        Dimension { angle: 0, ..*self }
    }
}

/// Whether a 32-bit intermediate fits back into an `i16`.
fn in_i16(x: i32) -> (r: bool)
    ensures
        r == fits_i16(x as int),
{
    -32768 <= x && x <= 32767
}

} // verus!
