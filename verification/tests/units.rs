use whippyunits::{Dimension, LossyFrom, Quantity, Scale};

fn meters() -> Dimension {
    Dimension::new(0, 1, 0, 0, 0, 0, 0, 0)
}

fn seconds() -> Dimension {
    Dimension::new(0, 0, 1, 0, 0, 0, 0, 0)
}

fn kilo() -> Scale {
    Scale::new(3, 0, 3, 0)
}

fn milli() -> Scale {
    Scale::new(-3, 0, -3, 0)
}

#[test]
fn exponents_add_in_products_and_subtract_in_quotients() {
    let velocity = meters().divide(&seconds());
    assert_eq!(velocity, Dimension::new(0, 1, -1, 0, 0, 0, 0, 0));
    let force = Dimension::new(1, 0, 0, 0, 0, 0, 0, 0).multiply(&velocity.divide(&seconds()));
    assert_eq!(force, Dimension::new(1, 1, -2, 0, 0, 0, 0, 0));
    assert_eq!(force.invert(), Dimension::new(-1, -1, 2, 0, 0, 0, 0, 0));
    assert_eq!(kilo().multiply(&milli()), Scale::unity());
    assert_eq!(Scale::new(2, 1, 1, 0).multiply(&Scale::new(2, 1, 1, 0)), Scale::new(4, 2, 2, 0));
}

#[test]
fn unity_and_dimensionless_are_recognised() {
    assert!(Scale::unity().is_unity());
    assert!(!kilo().is_unity());
    assert!(Dimension::dimensionless().is_dimensionless());
    assert!(!meters().is_dimensionless());
    assert!(meters().divide(&meters()).is_dimensionless());
}

#[test]
fn exponent_overflow_is_detected() {
    let big = Scale::new(i16::MAX, 0, 0, 0);
    assert!(!big.checked_can_multiply(&Scale::new(1, 0, 0, 0)));
    assert!(big.checked_can_multiply(&Scale::new(-1, 0, 0, 0)));
    let small = Dimension::new(0, 0, 0, 0, 0, 0, 0, i16::MIN);
    assert!(!small.checked_can_invert());
    assert!(!small.checked_can_divide(&Dimension::new(0, 0, 0, 0, 0, 0, 0, 1)));
    assert!(small.checked_can_divide(&Dimension::new(0, 0, 0, 0, 0, 0, 0, -1)));
    assert!(meters().checked_can_invert());
}

#[test]
fn constructors_keep_value_scale_and_dimension() {
    let q: Quantity<i32> = Quantity::new(5, kilo(), meters());
    assert_eq!(q.unsafe_value, 5);
    assert_eq!(q.scale, kilo());
    assert_eq!(q.dimension, meters());
    let r: Quantity<i32> = Quantity::from_raw_value(5, kilo(), meters());
    assert!(q == r);
}

#[test]
fn storage_conversions_keep_units() {
    let q: Quantity<u16> = Quantity::new(65535, milli(), meters());
    let wide = q.lossless_into::<i32>();
    assert_eq!(wide.unsafe_value, 65535);
    assert_eq!(wide.scale, milli());
    assert_eq!(wide.dimension, meters());

    let n: Quantity<i32> = Quantity::new(300, milli(), meters());
    let narrow = n.lossy_into::<i8>();
    assert_eq!(narrow.unsafe_value, 44);
    assert_eq!(narrow.scale, milli());
    let neg: Quantity<i32> = Quantity::new(-1, Scale::unity(), meters());
    assert_eq!(neg.lossy_into::<u8>().unsafe_value, 255);
    assert_eq!(<i64 as LossyFrom<i64>>::lossy_from(-7), -7);
    assert_eq!(<u8 as LossyFrom<u64>>::lossy_from(0x1_02), 2);
}

#[test]
fn angle_erasure_keeps_everything_but_the_angle() {
    let curvature = Dimension::new(0, -1, 0, 0, 0, 0, 0, 1);
    let q: Quantity<i64> = Quantity::new(9, kilo(), curvature);
    let erased = q.erase_angle();
    assert_eq!(erased.unsafe_value, 9);
    assert_eq!(erased.scale, kilo());
    assert_eq!(erased.dimension, Dimension::new(0, -1, 0, 0, 0, 0, 0, 0));
}

#[test]
fn dimensionless_values_erase_to_their_raw_value() {
    let ratio: Quantity<i32> = Quantity::new(42, Scale::unity(), Dimension::dimensionless());
    assert_eq!(ratio.into_value(), 42);
    let angle: Quantity<i32> = Quantity::new(3, Scale::unity(), Dimension::new(0, 0, 0, 0, 0, 0, 0, 1));
    assert_eq!(angle.into_value(), 3);
}

#[test]
fn integer_arithmetic_tracks_units() {
    let d: Quantity<i32> = Quantity::new(10, Scale::unity(), meters());
    let t: Quantity<i32> = Quantity::new(2, Scale::unity(), seconds());
    assert_eq!((d + d).unsafe_value, 20);
    assert_eq!((d - d).unsafe_value, 0);
    assert_eq!((t * 3).unsafe_value, 6);
    assert_eq!((d % Quantity::new(3, Scale::unity(), meters())).unsafe_value, 1);
    assert_eq!((d % 4).unsafe_value, 2);
    let v = d / t;
    assert_eq!(v.unsafe_value, 5);
    assert_eq!(v.dimension, meters().divide(&seconds()));
    let inv = Quantity::scalar_div(20, t);
    assert_eq!(inv.unsafe_value, 10);
    assert_eq!(inv.dimension, seconds().invert());
    let twice = Quantity::scalar_mul(2, d);
    assert_eq!(twice.unsafe_value, 20);
    assert_eq!(twice.dimension, meters());
}

#[test]
fn in_place_operations_keep_units() {
    let mut q: Quantity<i64> = Quantity::new(10, kilo(), meters());
    q.add_assign(Quantity::new(5, kilo(), meters()));
    assert_eq!(q.unsafe_value, 15);
    q.sub_assign(Quantity::new(3, kilo(), meters()));
    assert_eq!(q.unsafe_value, 12);
    q.mul_assign(3);
    assert_eq!(q.unsafe_value, 36);
    q.div_assign(4);
    assert_eq!(q.unsafe_value, 9);
    assert_eq!(q.scale, kilo());
    assert_eq!(q.dimension, meters());
}

#[test]
fn mismatched_units_do_not_compare() {
    let a: Quantity<i32> = Quantity::new(1, Scale::unity(), meters());
    let b: Quantity<i32> = Quantity::new(1, kilo(), meters());
    let c: Quantity<i32> = Quantity::new(1, Scale::unity(), seconds());
    assert_eq!(a.partial_cmp(&b), None);
    assert_eq!(a.partial_cmp(&c), None);
    assert!(a != b);
    assert!(a != c);
    let d: Quantity<i32> = Quantity::new(2, Scale::unity(), meters());
    assert!(a < d);
    assert_eq!(a.partial_cmp(&a), Some(core::cmp::Ordering::Equal));
}

#[test]
fn quotient_by_a_factor_restores_the_units() {
    let a: Quantity<i64> = Quantity::new(6, kilo(), meters());
    let b: Quantity<i64> = Quantity::new(3, milli(), seconds());
    let back = (a * b) / b;
    assert_eq!(back.scale, a.scale);
    assert_eq!(back.dimension, a.dimension);
    assert_eq!(back.unsafe_value, 6);
    let ratio = a / a;
    assert!(ratio.scale.is_unity());
    assert!(ratio.dimension.is_dimensionless());
}

#[test]
fn cloning_keeps_the_units() {
    let q: Quantity<Vec<u8>> = Quantity::new(vec![1, 2], kilo(), meters());
    let c = q.clone();
    assert_eq!(c.unsafe_value, vec![1, 2]);
    assert_eq!(c.scale, kilo());
    assert_eq!(c.dimension, meters());
}

#[test]
fn documented_scales_compose() {
    let minute = Scale::new(2, 1, 1, 0);
    let hour = Scale::new(4, 2, 2, 0);
    assert_eq!(minute.multiply(&minute), hour);
    let degree = Scale::new(-2, -2, -1, 1);
    let one_eighty = Scale::new(2, 2, 1, 0);
    assert_eq!(degree.multiply(&one_eighty), Scale::new(0, 0, 0, 1));
    let arcminute = Scale::new(-4, -3, -2, 1);
    assert_eq!(degree.divide(&arcminute), minute);
    let revolution = Scale::new(1, 0, 0, 1);
    assert_eq!(revolution.divide(&degree), Scale::new(3, 2, 1, 0));
    assert_eq!(kilo().invert(), milli());
}

#[test]
fn primitive_scalars_combine_with_quantities() {
    let t: Quantity<i32> = Quantity::new(-4, kilo(), seconds());
    let frequency = 100 / t;
    assert_eq!(frequency.unsafe_value, -25);
    assert_eq!(frequency.dimension, Dimension::new(0, 0, -1, 0, 0, 0, 0, 0));
    assert_eq!(frequency.scale, milli());
    let tripled = 3 * t;
    assert_eq!(tripled.unsafe_value, -12);
    assert_eq!(tripled.dimension, seconds());
    assert_eq!(tripled.scale, kilo());
    let u: Quantity<u8> = Quantity::new(5, Scale::unity(), meters());
    assert_eq!((200u8 / u).unsafe_value, 40);
}

#[test]
fn unsigned_to_signed_widening_is_exact() {
    let q: Quantity<u16> = Quantity::new(1, Scale::unity(), meters());
    let wide = q.lossless_into::<i32>();
    assert_eq!(wide.unsafe_value, 1);
    let big: Quantity<u16> = Quantity::new(65535, kilo(), meters());
    let wide = big.lossless_into::<i32>();
    assert_eq!(wide.unsafe_value, 65535);
    assert_eq!(wide.lossy_into::<i32>().unsafe_value, 65535);
    let back = wide.lossy_into::<u16>();
    assert!(back == big);
    let byte: Quantity<u8> = Quantity::new(200, Scale::unity(), meters());
    assert_eq!(byte.lossless_into::<i16>().unsafe_value, 200);
    assert_eq!(byte.lossless_into::<isize>().lossy_into::<u8>().unsafe_value, 200);
}
