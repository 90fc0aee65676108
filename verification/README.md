# whippyunits (verified core)

Unit-safe quantities whose unit bookkeeping is proved with Verus.

Every operation's scale and dimension are stated exactly.  The raw value of a result
is tied to the storage type's own operation (through `call_ensures`), and is stated
as a number wherever vstd specifies that operation (the integer types).

- `src/exponents.rs`: `Scale` (exponents of 2, 3, 5 and pi) and `Dimension`
  (exponents of the eight base dimensions), with the exponent algebra used by
  products, quotients and reciprocals.
- `src/quantity.rs`: `Quantity<T, Brand>`, its constructors, storage-type
  conversions, angle erasure and extraction of dimensionless values.
- `src/arithmetic.rs`: storage-generic operators (`+ - % * /`, negation, operations
  with bare scalars and their in-place forms).
- `src/compare.rs`: scale-strict ordering.
- `src/lossy.rs`: `LossyFrom`, the numeric casts between integer storage types.
- `src/laws.rs`: proved laws relating the operations.
- `src/std_from.rs`: contracts for std's lossless unsigned-to-signed integer conversions.
- `app/lib.rs`: the `Display` text of a quantity formatter over a floating-point value;
  nothing in the crate produces such a formatter (that needs a unit-expression parser
  and a unit table, which the crate does not have).
