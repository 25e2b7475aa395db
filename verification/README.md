# xsd_types (unsigned integers)

XSD `unsignedInt`-style integers in two spaces:

- `lexical`: lexical forms of `xsd:unsignedInt` (an optional `+` followed by
  ASCII digits denoting at most 4294967295, such as `"+007"`), with their recogniser (`check`, `check_bytes`), canonical forms,
  numeric equality and order, and conversions to and from primitive integers.
- `value`: arbitrary-precision non-negative integers, held as their minimal
  little-endian bytes (parsing gives at most 4294967295; arithmetic, bytes
  and `BigUint` give any size), with arithmetic, byte conversions, the datatype that
  holds a value, and the lexical representation of a value. Arithmetic,
  parsing and printing call `num_bigint`.

`decimal` and `value::le` hold the mathematical model (digit strings and
byte strings as numbers) the contracts are written in; `laws` states the
properties that relate several operations. `app/` holds the error types with
`Display`/`Error` (through `thiserror`) and decimal display of values.
